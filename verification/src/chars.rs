//! Character-level utilities: conversions between strings and character
//! vectors, string equality, and rendering and parsing of decimal numbers.

use vstd::prelude::*;

verus! {

/// Relies on `str::chars` and `Iterator::collect` from std: yields exactly
/// the characters of the string, in order.
#[verifier::external_body]
pub fn str_to_chars(s: &str) -> (r: Vec<char>)
    ensures
        r@ == s@,
{
    s.chars().collect()
}

/// Relies on `String::from_iter` from std: builds the string of exactly
/// these characters, in order.
#[verifier::external_body]
pub fn chars_to_string(v: &Vec<char>) -> (r: String)
    ensures
        r@ == v@,
{
    v.iter().collect()
}

/// Whether two string slices hold the same characters.
pub fn str_eq(a: &str, b: &str) -> (r: bool)
    ensures
        r == (a@ == b@),
{
    let n = a.unicode_len();
    let m = b.unicode_len();
    if n != m {
        return false;
    }
    let mut i: usize = 0;
    while i < n
        invariant
            n == a@.len(),
            n == b@.len(),
            i <= n,
            forall|j: int| 0 <= j < i ==> a@[j] == b@[j],
        decreases n - i,
    {
        if a.get_char(i) != b.get_char(i) {
            return false;
        }
        i += 1;
    }
    proof {
        assert(a@ =~= b@);
    }
    true
}

/// The decimal digit character for a value below ten.
pub open spec fn spec_digit_char(d: int) -> char {
    if d == 0 {
        '0'
    } else if d == 1 {
        '1'
    } else if d == 2 {
        '2'
    } else if d == 3 {
        '3'
    } else if d == 4 {
        '4'
    } else if d == 5 {
        '5'
    } else if d == 6 {
        '6'
    } else if d == 7 {
        '7'
    } else if d == 8 {
        '8'
    } else {
        '9'
    }
}

/// Whether a character is a decimal digit.
pub open spec fn spec_is_digit(c: char) -> bool {
    '0' as int <= c as int <= '9' as int
}

/// The numeric value of a decimal digit character.
pub open spec fn spec_digit_val(c: char) -> int {
    c as int - '0' as int
}

/// The decimal digits of a non-negative number, most significant first,
/// without leading zeros (a single `'0'` for zero).
pub open spec fn spec_digits(n: int) -> Seq<char>
    decreases n,
{
    if n < 10 {
        seq![spec_digit_char(n)]
    } else {
        spec_digits(n / 10) + seq![spec_digit_char(n % 10)]
    }
}

/// The decimal rendering of a number, with a leading `'-'` when negative.
pub open spec fn spec_render_i32(n: int) -> Seq<char> {
    if n < 0 {
        seq!['-'] + spec_digits(-n)
    } else {
        spec_digits(n)
    }
}

fn digit_char(d: u8) -> (c: char)
    requires
        d < 10,
    ensures
        c == spec_digit_char(d as int),
{
    match d {
        0 => '0',
        1 => '1',
        2 => '2',
        3 => '3',
        4 => '4',
        5 => '5',
        6 => '6',
        7 => '7',
        8 => '8',
        _ => '9',
    }
}

fn digit_val(c: char) -> (d: u8)
    requires
        spec_is_digit(c),
    ensures
        d == spec_digit_val(c),
{
    match c {
        '0' => 0,
        '1' => 1,
        '2' => 2,
        '3' => 3,
        '4' => 4,
        '5' => 5,
        '6' => 6,
        '7' => 7,
        '8' => 8,
        _ => 9,
    }
}

/// Appends the decimal digits of `n` to `out`.
pub fn push_digits(n: u32, out: &mut Vec<char>)
    ensures
        final(out)@ == old(out)@ + spec_digits(n as int),
    decreases n,
{
    if n >= 10 {
        push_digits(n / 10, out);
    }
    out.push(digit_char((n % 10) as u8));
    proof {
        if n < 10 {
            assert(final(out)@ =~= old(out)@ + spec_digits(n as int));
        } else {
            assert(final(out)@ =~= old(out)@ + spec_digits(n as int));
        }
    }
}

/// Appends the decimal rendering of `n` to `out`.
pub fn push_i32(n: i32, out: &mut Vec<char>)
    ensures
        final(out)@ == old(out)@ + spec_render_i32(n as int),
{
    if n < 0 {
        out.push('-');
        let m = (-(n as i64)) as u32;
        push_digits(m, out);
        proof {
            assert(final(out)@ =~= old(out)@ + spec_render_i32(n as int));
        }
    } else {
        push_digits(n as u32, out);
    }
}

/// Whether every character of `s` is a decimal digit.
pub open spec fn spec_all_digits(s: Seq<char>) -> bool {
    forall|i: int| 0 <= i < s.len() ==> spec_is_digit(s[i])
}

/// The value of a sequence of decimal digits, most significant first.
pub open spec fn spec_digits_val(s: Seq<char>) -> int
    decreases s.len(),
{
    if s.len() == 0 {
        0
    } else {
        spec_digits_val(s.drop_last()) * 10 + spec_digit_val(s.last())
    }
}

/// The number denoted by `s` in the syntax accepted for integer query
/// parameters: an optional sign, then one or more decimal digits; the value
/// must fit in an `i32`.
pub open spec fn spec_parse_i32(s: Seq<char>) -> Option<i32> {
    let signed = s.len() > 0 && (s[0] == '-' || s[0] == '+');
    let ds = if signed {
        s.skip(1)
    } else {
        s
    };
    if ds.len() == 0 || !spec_all_digits(ds) {
        None
    } else {
        let v = if signed && s[0] == '-' {
            -spec_digits_val(ds)
        } else {
            spec_digits_val(ds)
        };
        if i32::MIN <= v <= i32::MAX {
            Some(v as i32)
        } else {
            None
        }
    }
}

proof fn lemma_digits_val_nonneg(s: Seq<char>)
    requires
        spec_all_digits(s),
    ensures
        spec_digits_val(s) >= 0,
    decreases s.len(),
{
    if s.len() > 0 {
        assert(spec_all_digits(s.drop_last()));
        lemma_digits_val_nonneg(s.drop_last());
    }
}

/// Extending a digit sequence can only grow its value.
proof fn lemma_digits_val_prefix(s: Seq<char>, k: int)
    requires
        spec_all_digits(s),
        0 <= k <= s.len(),
    ensures
        spec_digits_val(s.take(k)) <= spec_digits_val(s),
    decreases s.len() - k,
{
    if k < s.len() {
        lemma_digits_val_prefix(s, k + 1);
        let p = s.take(k);
        let q = s.take(k + 1);
        assert(q.drop_last() =~= p);
        assert(spec_all_digits(p));
        lemma_digits_val_nonneg(p);
        assert(spec_digits_val(q) == spec_digits_val(p) * 10 + spec_digit_val(q.last()));
    } else {
        assert(s.take(k) =~= s);
    }
}

/// Parses the characters of `v` between `from` and `to` as a signed decimal
/// number.
#[verifier::loop_isolation(false)]
pub fn parse_i32_range(v: &Vec<char>, from: usize, to: usize) -> (r: Option<i32>)
    requires
        from <= to <= v@.len(),
    ensures
        r == spec_parse_i32(v@.subrange(from as int, to as int)),
{
    let ghost s = v@.subrange(from as int, to as int);
    if from == to {
        return None;
    }
    let c0 = v[from];
    let signed = c0 == '-' || c0 == '+';
    let neg = c0 == '-';
    let dstart = if signed {
        from + 1
    } else {
        from
    };
    let ghost ds = if signed {
        s.skip(1)
    } else {
        s
    };
    proof {
        assert(ds =~= v@.subrange(dstart as int, to as int));
    }
    if dstart == to {
        return None;
    }
    let mut acc: i64 = 0;
    let mut i: usize = dstart;
    while i < to
        invariant
            dstart <= i <= to <= v@.len(),
            ds == v@.subrange(dstart as int, to as int),
            spec_all_digits(ds.take(i - dstart)),
            acc == spec_digits_val(ds.take(i - dstart)),
            0 <= acc <= 0x8000_0000,
        decreases to - i,
    {
        let c = v[i];
        proof {
            assert(ds[i - dstart] == c);
        }
        if c < '0' || c > '9' {
            proof {
                assert(!spec_is_digit(c));
                assert(!spec_all_digits(ds));
            }
            return None;
        }
        let d = digit_val(c) as i64;
        proof {
            assert(spec_is_digit(c));
            assert(d == spec_digit_val(c));
            assert(ds.take(i + 1 - dstart).drop_last() =~= ds.take(i - dstart));
            assert(ds.take(i + 1 - dstart).last() == c);
            assert forall|j: int| 0 <= j < i + 1 - dstart implies spec_is_digit(
                #[trigger] ds.take(i + 1 - dstart)[j],
            ) by {
                if j < i - dstart {
                    assert(ds.take(i + 1 - dstart)[j] == ds.take(i - dstart)[j]);
                }
            }
            assert(spec_all_digits(ds.take(i + 1 - dstart)));
            assert(spec_digits_val(ds.take(i + 1 - dstart)) == acc * 10 + d);
        }
        if acc * 10 + d > 0x8000_0000 {
            // The value already exceeds the `i32` range; it can only grow.
            proof {
                lemma_digits_val_prefix_holds(ds, i + 1 - dstart);
            }
            return None;
        }
        acc = acc * 10 + d;
        i += 1;
    }
    proof {
        assert(ds.take(to - dstart) =~= ds);
    }
    if neg {
        let r = -acc;
        proof {
            assert(i32::MIN as int <= -spec_digits_val(ds));
        }
        if r < i32::MIN as i64 {
            return None;
        }
        Some(r as i32)
    } else {
        if acc > i32::MAX as i64 {
            return None;
        }
        Some(acc as i32)
    }
}

/// The rendering of a non-negative number consists of decimal digits.
pub proof fn lemma_digits_are_digits(n: int)
    requires
        n >= 0,
    ensures
        spec_digits(n).len() >= 1,
        spec_all_digits(spec_digits(n)),
    decreases n,
{
    if n < 10 {
        assert(spec_is_digit(spec_digit_char(n)));
    } else {
        lemma_digits_are_digits(n / 10);
        let d = spec_digits(n);
        let p = spec_digits(n / 10);
        assert forall|i: int| 0 <= i < d.len() implies spec_is_digit(#[trigger] d[i]) by {
            if i < p.len() {
                assert(d[i] == p[i]);
            } else {
                assert(d[i] == spec_digit_char(n % 10));
            }
        }
    }
}

/// The rendering of a non-negative number denotes that number.
pub proof fn lemma_digits_val_of_digits(n: int)
    requires
        n >= 0,
    ensures
        spec_digits_val(spec_digits(n)) == n,
    decreases n,
{
    if n < 10 {
        let d = spec_digits(n);
        assert(d.len() == 1);
        assert(d.last() == spec_digit_char(n));
        assert(d.drop_last() =~= Seq::<char>::empty());
        assert(spec_digits_val(Seq::<char>::empty()) == 0);
        assert(spec_digits_val(d) == spec_digits_val(d.drop_last()) * 10 + spec_digit_val(
            d.last(),
        ));
        assert(spec_digit_val(spec_digit_char(n)) == n);
    } else {
        lemma_digits_val_of_digits(n / 10);
        let d = spec_digits(n);
        assert(d.len() >= 1);
        assert(d.drop_last() =~= spec_digits(n / 10));
        assert(d.last() == spec_digit_char(n % 10));
        assert(spec_digits_val(d) == spec_digits_val(d.drop_last()) * 10 + spec_digit_val(
            d.last(),
        ));
        assert(spec_digit_val(spec_digit_char(n % 10)) == n % 10);
    }
}

/// Every character of a rendered number is a digit or a leading minus sign.
pub proof fn lemma_render_i32_chars(n: int)
    ensures
        spec_render_i32(n).len() >= 1,
        forall|i: int|
            0 <= i < spec_render_i32(n).len() ==> (spec_is_digit(#[trigger] spec_render_i32(n)[i])
                || spec_render_i32(n)[i] == '-'),
{
    let r = spec_render_i32(n);
    if n < 0 {
        lemma_digits_are_digits(-n);
        assert forall|i: int| 0 <= i < r.len() implies (spec_is_digit(#[trigger] r[i]) || r[i]
            == '-') by {
            if i > 0 {
                assert(r[i] == spec_digits(-n)[i - 1]);
            }
        }
    } else {
        lemma_digits_are_digits(n);
    }
}

/// Parsing the rendering of a number yields that number back.
pub proof fn lemma_parse_render_i32(n: i32)
    ensures
        spec_parse_i32(spec_render_i32(n as int)) == Some(n),
{
    let s = spec_render_i32(n as int);
    if n < 0 {
        lemma_digits_are_digits(-(n as int));
        lemma_digits_val_of_digits(-(n as int));
        assert(s[0] == '-');
        assert(s.skip(1) =~= spec_digits(-(n as int)));
    } else {
        lemma_digits_are_digits(n as int);
        lemma_digits_val_of_digits(n as int);
        assert(s == spec_digits(n as int));
        assert(spec_is_digit(s[0]));
        assert(s[0] != '-' && s[0] != '+');
    }
}

/// A digit sequence with an over-range prefix is itself over-range.
proof fn lemma_digits_val_prefix_holds(s: Seq<char>, k: int)
    requires
        spec_all_digits(s.take(k)),
        0 <= k <= s.len(),
        spec_digits_val(s.take(k)) > 0x8000_0000,
    ensures
        !spec_all_digits(s) || spec_digits_val(s) > 0x8000_0000,
{
    if spec_all_digits(s) {
        lemma_digits_val_prefix(s, k);
        assert(s.take(s.len() as int) =~= s);
    }
}

} // verus!
