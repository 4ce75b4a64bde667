//! Verified helpers over `&str` and `String`: equality, prefix tests,
//! ASCII case folding, splitting on a separator, and decimal conversion.
//!
//! Everything here is specified over the character-sequence views of the
//! inputs, so the descriptor and host logic can state its contracts exactly.

use vstd::prelude::*;

verus! {

/// Whether `p` is a prefix of `s`.
pub open spec fn is_prefix_of(p: Seq<char>, s: Seq<char>) -> bool {
    p.len() <= s.len() && s.subrange(0, p.len() as int) == p
}

/// ASCII case folding of one character.
pub open spec fn lower_char(c: char) -> char {
    if 'A' <= c && c <= 'Z' {
        ((c as u32) + 32) as char
    } else {
        c
    }
}

/// ASCII case folding of a character sequence.
pub open spec fn lower_seq(s: Seq<char>) -> Seq<char> {
    s.map_values(|c: char| lower_char(c))
}

/// Case-insensitive (ASCII) equality of two character sequences.
pub open spec fn eq_ignore_case(a: Seq<char>, b: Seq<char>) -> bool {
    lower_seq(a) == lower_seq(b)
}

/// Exact equality of two string slices.
pub fn str_eq(a: &str, b: &str) -> (r: bool)
    ensures
        r == (a@ == b@),
{
    let a_len = a.unicode_len();
    let b_len = b.unicode_len();
    if a_len != b_len {
        return false;
    }
    let mut i: usize = 0;
    while i < a_len
        invariant
            a_len == a@.len(),
            b_len == b@.len(),
            a_len == b_len,
            i <= a_len,
            forall|j: int| 0 <= j < i ==> a@[j] == b@[j],
        decreases a_len - i,
    {
        if a.get_char(i) != b.get_char(i) {
            return false;
        }
        i += 1;
    }
    proof {
        assert(a@ =~= b@);
    }
    true
}

/// Whether `p` is a prefix of `s`.
pub fn str_starts_with(s: &str, p: &str) -> (r: bool)
    ensures
        r == is_prefix_of(p@, s@),
{
    let s_len = s.unicode_len();
    let p_len = p.unicode_len();
    if p_len > s_len {
        return false;
    }
    let mut i: usize = 0;
    while i < p_len
        invariant
            s_len == s@.len(),
            p_len == p@.len(),
            p_len <= s_len,
            i <= p_len,
            forall|j: int| 0 <= j < i ==> s@[j] == p@[j],
        decreases p_len - i,
    {
        if s.get_char(i) != p.get_char(i) {
            proof {
                if is_prefix_of(p@, s@) {
                    assert(s@.subrange(0, p@.len() as int)[i as int] == p@[i as int]);
                }
            }
            return false;
        }
        i += 1;
    }
    proof {
        assert(s@.subrange(0, p@.len() as int) =~= p@);
    }
    true
}

/// Whether `s` ends with the single character `c`.
pub fn str_ends_with_char(s: &str, c: char) -> (r: bool)
    ensures
        r == (s@.len() > 0 && s@.last() == c),
{
    let n = s.unicode_len();
    if n == 0 {
        false
    } else {
        s.get_char(n - 1) == c
    }
}

/// The first position of `c` in `s`, if any.
pub fn find_char(s: &str, c: char) -> (r: Option<usize>)
    ensures
        match r {
            Some(i) => i < s@.len() && s@[i as int] == c && forall|j: int|
                0 <= j < i ==> s@[j] != c,
            None => forall|j: int| 0 <= j < s@.len() ==> s@[j] != c,
        },
{
    let n = s.unicode_len();
    let mut i: usize = 0;
    while i < n
        invariant
            n == s@.len(),
            i <= n,
            forall|j: int| 0 <= j < i ==> s@[j] != c,
        decreases n - i,
    {
        if s.get_char(i) == c {
            return Some(i);
        }
        i += 1;
    }
    None
}

/// Whether `c` occurs in `s`.
pub fn str_contains_char(s: &str, c: char) -> (r: bool)
    ensures
        r == s@.contains(c),
{
    let found = find_char(s, c);
    match found {
        Some(i) => {
            proof {
                assert(s@.contains(c)) by { assert(s@[i as int] == c); }
            }
            true
        },
        None => {
            proof {
                if s@.contains(c) {
                    let w = choose|w: int| 0 <= w < s@.len() && s@[w] == c;
                    assert(s@[w] == c);
                }
            }
            false
        },
    }
}

/// A copy of `s` as an owned string.
pub fn str_copy(s: &str) -> (r: String)
    ensures
        r@ == s@,
{
    s.to_owned()
}

/// ASCII case folding of one character.
pub fn ascii_lower_char(c: char) -> (r: char)
    ensures
        r == lower_char(c),
{
    let u = c as u32;
    if 65 <= u && u <= 90 {
        let table = "abcdefghijklmnopqrstuvwxyz";
        proof {
            reveal_strlit("abcdefghijklmnopqrstuvwxyz");
            assert('A' <= c && c <= 'Z');
        }
        table.get_char((u - 65) as usize)
    } else {
        proof {
            assert(!('A' <= c && c <= 'Z'));
        }
        c
    }
}

/// ASCII case folding of a whole string.
pub fn ascii_lowercase(s: &str) -> (r: String)
    ensures
        r@ == lower_seq(s@),
{
    let n = s.unicode_len();
    let mut out = String::new();
    let mut i: usize = 0;
    while i < n
        invariant
            n == s@.len(),
            i <= n,
            out@ == lower_seq(s@.subrange(0, i as int)),
        decreases n - i,
    {
        let c = s.get_char(i);
        let u = c as u32;
        if 65 <= u && u <= 90 {
            let table = "abcdefghijklmnopqrstuvwxyz";
            proof {
                reveal_strlit("abcdefghijklmnopqrstuvwxyz");
                assert('A' <= c && c <= 'Z');
            }
            let piece = table.substring_char((u - 65) as usize, (u - 64) as usize);
            out.append(piece);
            proof {
                assert(piece@ =~= seq![lower_char(c)]);
            }
        } else {
            let piece = s.substring_char(i, i + 1);
            out.append(piece);
            proof {
                assert(piece@ =~= seq![lower_char(c)]);
            }
        }
        proof {
            assert(lower_seq(s@.subrange(0, i + 1 as int)) =~= lower_seq(
                s@.subrange(0, i as int),
            ) + seq![lower_char(c)]);
        }
        i += 1;
    }
    proof {
        assert(s@.subrange(0, n as int) =~= s@);
    }
    out
}

/// Case-insensitive (ASCII) equality of two string slices.
pub fn str_eq_ignore_ascii_case(a: &str, b: &str) -> (r: bool)
    ensures
        r == eq_ignore_case(a@, b@),
{
    let a_len = a.unicode_len();
    let b_len = b.unicode_len();
    if a_len != b_len {
        proof {
            assert(lower_seq(a@).len() == a@.len());
            assert(lower_seq(b@).len() == b@.len());
        }
        return false;
    }
    let mut i: usize = 0;
    while i < a_len
        invariant
            a_len == a@.len(),
            b_len == b@.len(),
            a_len == b_len,
            i <= a_len,
            forall|j: int| 0 <= j < i ==> lower_char(a@[j]) == lower_char(b@[j]),
        decreases a_len - i,
    {
        if ascii_lower_char(a.get_char(i)) != ascii_lower_char(b.get_char(i)) {
            proof {
                assert(lower_seq(a@)[i as int] == lower_char(a@[i as int]));
                assert(lower_seq(b@)[i as int] == lower_char(b@[i as int]));
            }
            return false;
        }
        i += 1;
    }
    proof {
        assert(lower_seq(a@) =~= lower_seq(b@));
    }
    true
}

/// The pieces of `s` between occurrences of the separator `sep`.
/// Splitting never yields an empty result: a string without the separator
/// is one piece, and separators at the ends yield empty pieces.
pub open spec fn spec_split(s: Seq<char>, sep: char) -> Seq<Seq<char>>
    decreases s.len(),
{
    if s.len() == 0 {
        seq![Seq::<char>::empty()]
    } else {
        let rest = spec_split(s.drop_last(), sep);
        if s.last() == sep {
            rest.push(Seq::<char>::empty())
        } else {
            rest.update(rest.len() - 1, rest.last().push(s.last()))
        }
    }
}

/// Splitting yields at least one piece.
pub proof fn lemma_split_nonempty(s: Seq<char>, sep: char)
    ensures
        spec_split(s, sep).len() >= 1,
    decreases s.len(),
{
    if s.len() > 0 {
        lemma_split_nonempty(s.drop_last(), sep);
    }
}

/// Splits `s` at every occurrence of `sep`.
pub fn split_char(s: &str, sep: char) -> (r: Vec<String>)
    ensures
        r.deep_view() == spec_split(s@, sep),
{
    let n = s.unicode_len();
    let mut out: Vec<String> = Vec::new();
    let mut cur: String = String::new();
    let mut i: usize = 0;
    while i < n
        invariant
            n == s@.len(),
            i <= n,
            out.deep_view().push(cur@) =~= spec_split(s@.subrange(0, i as int), sep),
        decreases n - i,
    {
        let ghost prev = s@.subrange(0, i as int);
        let ghost cur_pre = cur@;
        let ghost out_pre = out.deep_view();
        proof {
            assert(s@.subrange(0, i + 1 as int).drop_last() =~= prev);
        }
        let c = s.get_char(i);
        if c == sep {
            out.push(cur);
            cur = String::new();
            proof {
                assert(out.deep_view() =~= out_pre.push(cur_pre));
                assert(out.deep_view().push(cur@) =~= spec_split(prev, sep).push(
                    Seq::<char>::empty(),
                ));
            }
        } else {
            let piece = s.substring_char(i, i + 1);
            cur.append(piece);
            proof {
                assert(piece@ =~= seq![c]);
                assert(cur@ =~= cur_pre.push(c));
                let rest = spec_split(prev, sep);
                assert(out_pre.push(cur_pre) == rest);
                assert(out_pre =~= rest.subrange(0, rest.len() - 1));
                assert(cur_pre == rest.last());
                assert(out.deep_view().push(cur@) =~= rest.update(
                    rest.len() - 1,
                    rest.last().push(c),
                ));
            }
        }
        i += 1;
    }
    proof {
        assert(s@.subrange(0, n as int) =~= s@);
    }
    let ghost out_pre = out.deep_view();
    let ghost cur_pre = cur@;
    out.push(cur);
    proof {
        assert(out.deep_view() =~= out_pre.push(cur_pre));
    }
    out
}

/// Whether `c` is an ASCII decimal digit.
pub open spec fn is_digit(c: char) -> bool {
    '0' <= c && c <= '9'
}

/// The numeric value of an ASCII decimal digit.
pub open spec fn digit_val(c: char) -> int {
    c as int - 48
}

/// Whether every character of `s` is an ASCII decimal digit.
pub open spec fn all_digits(s: Seq<char>) -> bool {
    forall|j: int| 0 <= j < s.len() ==> is_digit(#[trigger] s[j])
}

/// The value of a sequence of ASCII decimal digits.
pub open spec fn dec_value(s: Seq<char>) -> int
    decreases s.len(),
{
    if s.len() == 0 {
        0
    } else {
        dec_value(s.drop_last()) * 10 + digit_val(s.last())
    }
}

/// A longer digit string never has a smaller value than its prefix.
proof fn lemma_dec_value_prefix_le(s: Seq<char>, i: int)
    requires
        0 <= i <= s.len(),
        all_digits(s),
    ensures
        dec_value(s.subrange(0, i)) <= dec_value(s),
        dec_value(s) >= 0,
    decreases s.len() - i,
{
    if i == s.len() {
        assert(s.subrange(0, i) =~= s);
        lemma_dec_value_nonneg(s);
    } else {
        lemma_dec_value_prefix_le(s, i + 1);
        let p = s.subrange(0, i + 1);
        assert(p.drop_last() =~= s.subrange(0, i));
        lemma_dec_value_nonneg(s.subrange(0, i));
        assert(dec_value(p) == dec_value(s.subrange(0, i)) * 10 + digit_val(p.last()));
    }
}

/// The value of a digit string is never negative.
proof fn lemma_dec_value_nonneg(s: Seq<char>)
    requires
        all_digits(s),
    ensures
        dec_value(s) >= 0,
    decreases s.len(),
{
    if s.len() > 0 {
        assert(all_digits(s.drop_last()));
        lemma_dec_value_nonneg(s.drop_last());
    }
}

/// The digits of a decimal port string: the text after an optional leading
/// `+` sign, as the standard library's integer parser takes it.
pub open spec fn port_digits(s: Seq<char>) -> Seq<char> {
    if s.len() > 0 && s[0] == '+' {
        s.subrange(1, s.len() as int)
    } else {
        s
    }
}

/// Whether `s` is a well-formed decimal value for a 16-bit port: an
/// optional `+` sign, then at least one digit, with a value at most 65535.
pub open spec fn is_port_number(s: Seq<char>) -> bool {
    let d = port_digits(s);
    d.len() > 0 && all_digits(d) && dec_value(d) <= 65535
}

/// Parses a decimal 16-bit value exactly as the standard library's
/// `u16::from_str` does: an optional leading `+`, then one or more
/// digits whose value fits.
pub fn parse_u16(s: &str) -> (r: Option<u16>)
    ensures
        match r {
            Some(v) => is_port_number(s@) && v == dec_value(port_digits(s@)),
            None => !is_port_number(s@),
        },
{
    let n = s.unicode_len();
    let start: usize = if n > 0 && s.get_char(0) == '+' {
        1
    } else {
        0
    };
    proof {
        if start == 1 {
            assert(port_digits(s@) =~= s@.subrange(1, s@.len() as int));
        } else {
            assert(port_digits(s@) =~= s@);
        }
    }
    if start >= n {
        return None;
    }
    let ghost d = port_digits(s@);
    let mut acc: u32 = 0;
    let mut too_big: bool = false;
    let mut i: usize = start;
    while i < n
        invariant
            n == s@.len(),
            start <= i <= n,
            d == port_digits(s@),
            d.len() == n - start,
            forall|j: int| 0 <= j < i - start ==> is_digit(#[trigger] d[j]),
            !too_big ==> acc == dec_value(d.subrange(0, i - start)) && acc <= 65535,
            too_big ==> all_digits(d.subrange(0, i - start)) && dec_value(
                d.subrange(0, i - start),
            ) > 65535,
        decreases n - i,
    {
        let c = s.get_char(i);
        let u = c as u32;
        if u < 48 || u > 57 {
            proof {
                assert(!is_digit(d[i - start]));
            }
            return None;
        }
        proof {
            assert(is_digit(d[i - start]));
            assert(d.subrange(0, i - start + 1).drop_last() =~= d.subrange(0, i - start));
            assert(d.subrange(0, i - start + 1).last() == d[i - start]);
        }
        if too_big {
            proof {
                let p = d.subrange(0, i - start);
                let q = d.subrange(0, i - start + 1);
                lemma_dec_value_nonneg(p);
                assert(dec_value(q) == dec_value(p) * 10 + digit_val(q.last()));
            }
        } else {
            acc = acc * 10 + (u - 48);
            if acc > 65535 {
                too_big = true;
            }
        }
        i += 1;
    }
    proof {
        assert(d.subrange(0, n - start) =~= d);
    }
    if too_big {
        None
    } else {
        Some(acc as u16)
    }
}

/// The decimal digit string of a value.
pub open spec fn dec_digits(n: int) -> Seq<char>
    decreases n,
{
    if n < 0 {
        Seq::empty()
    } else if n < 10 {
        seq![(n + 48) as char]
    } else {
        dec_digits(n / 10).push((n % 10 + 48) as char)
    }
}

/// The decimal text of a 16-bit value.
pub fn u16_to_dec(n: u16) -> (r: String)
    ensures
        r@ == dec_digits(n as int),
    decreases n,
{
    let table = "0123456789";
    proof {
        reveal_strlit("0123456789");
    }
    if n < 10 {
        let piece = table.substring_char(n as usize, n as usize + 1);
        proof {
            assert(piece@ =~= dec_digits(n as int));
        }
        str_copy(piece)
    } else {
        let mut out = u16_to_dec(n / 10);
        let digit = n % 10;
        let piece = table.substring_char(digit as usize, digit as usize + 1);
        out.append(piece);
        proof {
            assert(dec_digits((n / 10) as int) + piece@ =~= dec_digits(n as int));
        }
        out
    }
}

} // verus!
