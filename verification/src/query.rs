//! Parsing of paged-query strings and of continuation links.
//!
//! The query grammar is the one the upstream API uses for paging:
//! `&`-separated segments, each `key=value`; the keys `$top` and `$skip`
//! take signed decimal integer values; other segments are ignored. A
//! repeated `$top` or `$skip` key, a key without a value, or a value that
//! is not an integer in range makes the whole query unparsable.

use vstd::prelude::*;

use crate::ODataParams;
use crate::chars::{spec_parse_i32, str_to_chars, parse_i32_range};

verus! {

/// The index of the first occurrence of `c` in `s`, or `s.len()` if absent.
pub open spec fn find_char(s: Seq<char>, c: char) -> int
    decreases s.len(),
{
    if s.len() == 0 {
        0
    } else if s[0] == c {
        0
    } else {
        1 + find_char(s.skip(1), c)
    }
}

pub proof fn lemma_find_char(s: Seq<char>, c: char)
    ensures
        0 <= find_char(s, c) <= s.len(),
        find_char(s, c) < s.len() ==> s[find_char(s, c)] == c,
        forall|j: int| 0 <= j < find_char(s, c) ==> s[j] != c,
    decreases s.len(),
{
    if s.len() > 0 && s[0] != c {
        lemma_find_char(s.skip(1), c);
        let f = find_char(s, c);
        assert forall|j: int| 0 <= j < f implies s[j] != c by {
            if j > 0 {
                assert(s.skip(1)[j - 1] == s[j]);
            }
        }
        if f < s.len() {
            assert(s.skip(1)[f - 1] == s[f]);
        }
    }
}

/// `find_char` is pinned down by its characterization.
pub proof fn lemma_find_char_is(s: Seq<char>, c: char, k: int)
    requires
        0 <= k <= s.len(),
        k < s.len() ==> s[k] == c,
        forall|j: int| 0 <= j < k ==> s[j] != c,
    ensures
        find_char(s, c) == k,
{
    lemma_find_char(s, c);
    let f = find_char(s, c);
    if f < k {
        assert(s[f] == c);
    } else if k < f {
        assert(s[k] == c);
    }
}

/// Processes one `key=value` segment, accumulating into `(top, skip)`.
/// An empty segment or an unknown key is ignored; a `$top` or `$skip` key
/// that is repeated, lacks `=`, or has a malformed value fails.
pub open spec fn spec_parse_segment(
    seg: Seq<char>,
    top: Option<i32>,
    skip: Option<i32>,
) -> Option<(Option<i32>, Option<i32>)> {
    if seg.len() == 0 {
        Some((top, skip))
    } else {
        let j = find_char(seg, '=');
        let key = seg.take(j);
        if key == "$top"@ {
            if j >= seg.len() || top is Some {
                None
            } else {
                match spec_parse_i32(seg.skip(j + 1)) {
                    Some(v) => Some((Some(v), skip)),
                    None => None,
                }
            }
        } else if key == "$skip"@ {
            if j >= seg.len() || skip is Some {
                None
            } else {
                match spec_parse_i32(seg.skip(j + 1)) {
                    Some(v) => Some((top, Some(v))),
                    None => None,
                }
            }
        } else {
            Some((top, skip))
        }
    }
}

/// Processes the remaining query text `q`, accumulating into `(top, skip)`.
pub open spec fn spec_parse_query_rec(
    q: Seq<char>,
    top: Option<i32>,
    skip: Option<i32>,
) -> Option<ODataParams>
    decreases q.len(),
    via spec_parse_query_rec_decreases
{
    if q.len() == 0 {
        Some(ODataParams { top, skip })
    } else {
        let i = find_char(q, '&');
        let seg = q.take(i);
        let rest = if i < q.len() {
            q.skip(i + 1)
        } else {
            Seq::<char>::empty()
        };
        match spec_parse_segment(seg, top, skip) {
            Some((t, s)) => spec_parse_query_rec(rest, t, s),
            None => None,
        }
    }
}

#[via_fn]
proof fn spec_parse_query_rec_decreases(q: Seq<char>, top: Option<i32>, skip: Option<i32>) {
    lemma_find_char(q, '&');
}

/// The `$top`/`$skip` pair denoted by the query text `q`, if `q` parses.
pub open spec fn spec_parse_query(q: Seq<char>) -> Option<ODataParams> {
    spec_parse_query_rec(q, None, None)
}

/// The query component of a continuation link: the text after the first
/// `?`, up to a `#` fragment marker if one follows. A link without `?` has
/// no query component.
pub open spec fn spec_query_of_link(link: Seq<char>) -> Option<Seq<char>> {
    let i = find_char(link, '?');
    if i >= link.len() {
        None
    } else {
        let after = link.skip(i + 1);
        Some(after.take(find_char(after, '#')))
    }
}

/// The paged-query parameters a continuation link leads to: its query
/// component parsed as a paged query, or nothing if the link has no query
/// component or the query does not parse.
pub open spec fn spec_next_params(link: Seq<char>) -> Option<ODataParams> {
    match spec_query_of_link(link) {
        None => None,
        Some(q) => spec_parse_query(q),
    }
}

/// The next page's parameters carried by an optional continuation link:
/// nothing when the link is absent, has no query component, or has one
/// that does not parse.
pub open spec fn spec_next_of_link(link: Option<Seq<char>>) -> Option<ODataParams> {
    match link {
        None => None,
        Some(l) => spec_next_params(l),
    }
}

/// No character of the rendered `$top=<N>` text is `&`, `#`, or `=` past
/// the key, other than as the grammar expects; helper for the round trip.
proof fn lemma_top_part_facts(t: i32, top: Option<i32>, skip: Option<i32>)
    requires
        top is None,
    ensures
        ({
            let part = "$top="@ + crate::chars::spec_render_i32(t as int);
            &&& part.len() >= 6
            &&& forall|j: int|
                0 <= j < part.len() ==> (#[trigger] part[j]) != '&' && part[j] != '#'
            &&& spec_parse_segment(part, top, skip) == Some::<(Option<i32>, Option<i32>)>(
                (Some(t), skip),
            )
        }),
{
    reveal_strlit("$top=");
    reveal_strlit("$top");
    let r = crate::chars::spec_render_i32(t as int);
    let part = "$top="@ + r;
    crate::chars::lemma_render_i32_chars(t as int);
    assert forall|j: int| 0 <= j < part.len() implies (#[trigger] part[j]) != '&' && part[j]
        != '#' by {
        if j >= 5 {
            assert(part[j] == r[j - 5]);
            assert(crate::chars::spec_is_digit(r[j - 5]) || r[j - 5] == '-');
        }
    }
    assert forall|j: int| 0 <= j < 4 implies part[j] != '=' by {
        assert(part[j] == "$top="@[j]);
    }
    assert(part[4] == '=');
    lemma_find_char_is(part, '=', 4);
    assert(part.take(4) =~= "$top"@);
    assert(part.skip(5) =~= r);
    crate::chars::lemma_parse_render_i32(t);
}

/// The corresponding fact for the rendered `$skip=<M>` text.
proof fn lemma_skip_part_facts(s: i32, top: Option<i32>, skip: Option<i32>)
    requires
        skip is None,
    ensures
        ({
            let part = "$skip="@ + crate::chars::spec_render_i32(s as int);
            &&& part.len() >= 7
            &&& forall|j: int|
                0 <= j < part.len() ==> (#[trigger] part[j]) != '&' && part[j] != '#'
            &&& spec_parse_segment(part, top, skip) == Some::<(Option<i32>, Option<i32>)>(
                (top, Some(s)),
            )
        }),
{
    reveal_strlit("$skip=");
    reveal_strlit("$skip");
    reveal_strlit("$top");
    let r = crate::chars::spec_render_i32(s as int);
    let part = "$skip="@ + r;
    crate::chars::lemma_render_i32_chars(s as int);
    assert forall|j: int| 0 <= j < part.len() implies (#[trigger] part[j]) != '&' && part[j]
        != '#' by {
        if j >= 6 {
            assert(part[j] == r[j - 6]);
            assert(crate::chars::spec_is_digit(r[j - 6]) || r[j - 6] == '-');
        }
    }
    assert forall|j: int| 0 <= j < 5 implies part[j] != '=' by {
        assert(part[j] == "$skip="@[j]);
    }
    assert(part[5] == '=');
    lemma_find_char_is(part, '=', 5);
    assert(part.take(5) =~= "$skip"@);
    assert(part.take(5).len() == 5);
    assert("$top"@.len() == 4);
    assert(part.take(5) != "$top"@);
    assert(part.skip(6) =~= r);
    crate::chars::lemma_parse_render_i32(s);
}

/// Round-trip law: rendering paged-query parameters as a URL suffix and
/// then extracting and parsing the query of that suffix yields the original
/// parameters — also when both parameters are absent, where the rendering
/// is a bare `?` whose empty query parses back to the absent pair.
pub proof fn lemma_odata_round_trip(top: Option<i32>, skip: Option<i32>)
    ensures
        spec_parse_query(crate::spec_render_odata(top, skip).skip(1)) == Some(
            ODataParams { top, skip },
        ),
        spec_next_params(crate::spec_render_odata(top, skip)) == Some(ODataParams { top, skip }),
{
    reveal_strlit("?");
    reveal_strlit("&");
    let r = crate::spec_render_odata(top, skip);
    let q = r.skip(1);
    assert(r[0] == '?');
    lemma_find_char_is(r, '?', 0);
    match (top, skip) {
        (None, None) => {
            assert(q =~= Seq::<char>::empty());
            lemma_find_char_is(q, '#', 0);
            assert(q.take(0) =~= q);
            assert(spec_parse_query(q) == Some(ODataParams { top, skip }));
            assert(spec_query_of_link(r) == Some(q.take(0)));
            assert(spec_next_params(r) == Some(ODataParams { top, skip }));
        },
        (Some(t), None) => {
            let part = "$top="@ + crate::chars::spec_render_i32(t as int);
            lemma_top_part_facts(t, None, None);
            assert(q =~= part);
            lemma_find_char_is(q, '#', q.len() as int);
            assert(q.take(q.len() as int) =~= q);
            lemma_find_char_is(q, '&', q.len() as int);
            assert(q.take(q.len() as int) =~= part);
            assert(spec_parse_query_rec(Seq::<char>::empty(), Some(t), None) == Some(
                ODataParams { top, skip },
            ));
            assert(spec_parse_query(q) == Some(ODataParams { top, skip }));
            assert(spec_next_params(r) == Some(ODataParams { top, skip }));
        },
        (None, Some(s)) => {
            let part = "$skip="@ + crate::chars::spec_render_i32(s as int);
            lemma_skip_part_facts(s, None, None);
            assert(q =~= part);
            lemma_find_char_is(q, '#', q.len() as int);
            assert(q.take(q.len() as int) =~= q);
            lemma_find_char_is(q, '&', q.len() as int);
            assert(q.take(q.len() as int) =~= part);
            assert(spec_parse_query_rec(Seq::<char>::empty(), None, Some(s)) == Some(
                ODataParams { top, skip },
            ));
            assert(spec_parse_query(q) == Some(ODataParams { top, skip }));
            assert(spec_next_params(r) == Some(ODataParams { top, skip }));
        },
        (Some(t), Some(s)) => {
            let tpart = "$top="@ + crate::chars::spec_render_i32(t as int);
            let spart = "$skip="@ + crate::chars::spec_render_i32(s as int);
            lemma_top_part_facts(t, None, None);
            lemma_skip_part_facts(s, Some(t), None);
            let i = tpart.len() as int;
            assert(q =~= tpart + "&"@ + spart);
            assert forall|j: int| 0 <= j < q.len() implies (#[trigger] q[j]) != '#' by {
                if j < i {
                    assert(q[j] == tpart[j]);
                } else if j > i {
                    assert(q[j] == spart[j - i - 1]);
                }
            }
            lemma_find_char_is(q, '#', q.len() as int);
            assert(q.take(q.len() as int) =~= q);
            // The first `&` splits the two rendered parts.
            assert(q[i] == '&');
            assert forall|j: int| 0 <= j < i implies q[j] != '&' by {
                assert(q[j] == tpart[j]);
            }
            lemma_find_char_is(q, '&', i);
            assert(q.take(i) =~= tpart);
            assert(spec_parse_segment(q.take(i), None, None) == Some::<
                (Option<i32>, Option<i32>),
            >((Some(t), None)));
            let rest = q.skip(i + 1);
            assert(rest =~= spart);
            lemma_find_char_is(rest, '&', rest.len() as int);
            assert(rest.take(rest.len() as int) =~= spart);
            assert(spec_parse_segment(spart, Some(t), None) == Some::<
                (Option<i32>, Option<i32>),
            >((Some(t), Some(s))));
            assert(spec_parse_query_rec(Seq::<char>::empty(), Some(t), Some(s)) == Some(
                ODataParams { top, skip },
            ));
            assert(spec_parse_query_rec(rest, Some(t), None) == Some(ODataParams { top, skip }));
            assert(spec_parse_query(q) == Some(ODataParams { top, skip }));
            assert(spec_next_params(r) == Some(ODataParams { top, skip }));
        },
    }
}

/// The index of the first occurrence of `c` in `v` between `from` and `to`,
/// or `to` if absent.
#[verifier::loop_isolation(false)]
fn find_in(v: &Vec<char>, from: usize, to: usize, c: char) -> (r: usize)
    requires
        from <= to <= v@.len(),
    ensures
        from <= r <= to,
        r - from == find_char(v@.subrange(from as int, to as int), c),
{
    let ghost s = v@.subrange(from as int, to as int);
    let mut i: usize = from;
    while i < to
        invariant
            from <= i <= to <= v@.len(),
            forall|j: int| from <= j < i ==> v@[j] != c,
        decreases to - i,
    {
        if v[i] == c {
            proof {
                assert forall|j: int| 0 <= j < i - from implies s[j] != c by {
                    assert(s[j] == v@[from + j]);
                }
                lemma_find_char_is(s, c, i - from);
            }
            return i;
        }
        i += 1;
    }
    proof {
        assert forall|j: int| 0 <= j < to - from implies s[j] != c by {
            assert(s[j] == v@[from + j]);
        }
        lemma_find_char_is(s, c, to - from);
    }
    to
}

/// Whether the characters of `v` between `from` and `to` are exactly `s`.
#[verifier::loop_isolation(false)]
fn range_eq_str(v: &Vec<char>, from: usize, to: usize, s: &str) -> (r: bool)
    requires
        from <= to <= v@.len(),
    ensures
        r == (v@.subrange(from as int, to as int) == s@),
{
    let sv = str_to_chars(s);
    if sv.len() != to - from {
        return false;
    }
    let mut i: usize = 0;
    while i < sv.len()
        invariant
            from <= to <= v@.len(),
            sv@ == s@,
            sv@.len() == to - from,
            i <= sv@.len(),
            forall|j: int| 0 <= j < i ==> v@[from + j] == sv@[j],
        decreases sv@.len() - i,
    {
        if v[from + i] != sv[i] {
            proof {
                assert(v@.subrange(from as int, to as int)[i as int] != s@[i as int]);
            }
            return false;
        }
        i += 1;
    }
    proof {
        assert(v@.subrange(from as int, to as int) =~= s@);
    }
    true
}

/// Parses the characters of `v` between `from` and `to` as a paged query.
#[verifier::loop_isolation(false)]
pub fn parse_query_range(v: &Vec<char>, from: usize, to: usize) -> (r: Option<ODataParams>)
    requires
        from <= to <= v@.len(),
    ensures
        r == spec_parse_query(v@.subrange(from as int, to as int)),
{
    let mut top: Option<i32> = None;
    let mut skip: Option<i32> = None;
    let mut pos: usize = from;
    while pos < to
        invariant
            from <= pos <= to,
            spec_parse_query_rec(v@.subrange(pos as int, to as int), top, skip)
                == spec_parse_query(v@.subrange(from as int, to as int)),
        decreases to - pos,
    {
        let ghost q = v@.subrange(pos as int, to as int);
        let amp = find_in(v, pos, to, '&');
        let ghost i = find_char(q, '&');
        proof {
            assert(q =~= v@.subrange(pos as int, to as int));
            assert(amp - pos == i);
            assert(q.take(i) =~= v@.subrange(pos as int, amp as int));
        }
        let ghost seg = q.take(i);
        // Process the segment between pos and amp.
        let outcome: Option<(Option<i32>, Option<i32>)>;
        if pos == amp {
            outcome = Some((top, skip));
        } else {
            let eq = find_in(v, pos, amp, '=');
            let ghost j = find_char(seg, '=');
            proof {
                assert(seg =~= v@.subrange(pos as int, amp as int));
                assert(eq - pos == j);
                assert(seg.take(j) =~= v@.subrange(pos as int, eq as int));
            }
            if range_eq_str(v, pos, eq, "$top") {
                if eq == amp || top.is_some() {
                    outcome = None;
                } else {
                    proof {
                        assert(seg.skip(j + 1) =~= v@.subrange(eq + 1, amp as int));
                    }
                    match parse_i32_range(v, eq + 1, amp) {
                        Some(val) => {
                            outcome = Some((Some(val), skip));
                        },
                        None => {
                            outcome = None;
                        },
                    }
                }
            } else if range_eq_str(v, pos, eq, "$skip") {
                if eq == amp || skip.is_some() {
                    outcome = None;
                } else {
                    proof {
                        assert(seg.skip(j + 1) =~= v@.subrange(eq + 1, amp as int));
                    }
                    match parse_i32_range(v, eq + 1, amp) {
                        Some(val) => {
                            outcome = Some((top, Some(val)));
                        },
                        None => {
                            outcome = None;
                        },
                    }
                }
            } else {
                outcome = Some((top, skip));
            }
            proof {
                assert(outcome == spec_parse_segment(seg, top, skip));
            }
        }
        match outcome {
            None => {
                return None;
            },
            Some((t, s)) => {
                top = t;
                skip = s;
            },
        }
        // Step past the segment (and the `&`, when one was found).
        let ghost rest = if i < q.len() {
            q.skip(i + 1)
        } else {
            Seq::<char>::empty()
        };
        if amp < to {
            pos = amp + 1;
            proof {
                assert(rest =~= v@.subrange(pos as int, to as int));
            }
        } else {
            pos = to;
            proof {
                assert(rest =~= v@.subrange(pos as int, to as int));
            }
        }
    }
    proof {
        assert(v@.subrange(pos as int, to as int) =~= Seq::<char>::empty());
    }
    Some(ODataParams { top, skip })
}

/// Parses a whole string as a paged query.
pub fn parse_query(q: &str) -> (r: Option<ODataParams>)
    ensures
        r == spec_parse_query(q@),
{
    let v = str_to_chars(q);
    let n = v.len();
    let r = parse_query_range(&v, 0, n);
    proof {
        assert(v@.subrange(0, n as int) =~= q@);
    }
    r
}

/// Parses a continuation link: extracts its query component and parses that
/// as a paged query.
pub fn parse_next_link(link: &str) -> (r: Option<ODataParams>)
    ensures
        r == spec_next_params(link@),
{
    let v = str_to_chars(link);
    let n = v.len();
    let q = find_in(&v, 0, n, '?');
    proof {
        assert(v@.subrange(0, n as int) =~= link@);
    }
    if q == n {
        return None;
    }
    let h = find_in(&v, q + 1, n, '#');
    let ghost after = link@.skip(q + 1);
    proof {
        assert(after =~= v@.subrange(q + 1, n as int));
        assert(h - (q + 1) == find_char(after, '#'));
        assert(after.take(find_char(after, '#')) =~= v@.subrange(q + 1, h as int));
    }
    parse_query_range(&v, q + 1, h)
}

} // verus!
