//! Character-level helpers: whitespace tokenization, decimal rendering,
//! ASCII lower-casing and parsing of unsigned 16-bit integers.

use vstd::prelude::*;

verus! {

/// The ASCII whitespace characters, as used to split chat messages into tokens.
pub open spec fn is_ws_char(c: char) -> bool {
    c == ' ' || c == '\t' || c == '\n' || c == '\r' || c == '\u{c}'
}

pub open spec fn is_digit_char(c: char) -> bool {
    '0' <= c && c <= '9'
}

pub open spec fn digit_char(d: int) -> char {
    if d == 0 { '0' }
    else if d == 1 { '1' }
    else if d == 2 { '2' }
    else if d == 3 { '3' }
    else if d == 4 { '4' }
    else if d == 5 { '5' }
    else if d == 6 { '6' }
    else if d == 7 { '7' }
    else if d == 8 { '8' }
    else { '9' }
}

pub open spec fn char_digit_val(c: char) -> int {
    c as int - '0' as int
}

/// The decimal representation of `n`, most significant digit first.
pub open spec fn dec_rep(n: nat) -> Seq<char>
    decreases n,
{
    if n < 10 {
        seq![digit_char(n as int)]
    } else {
        dec_rep(n / 10) + seq![digit_char((n % 10) as int)]
    }
}

/// The decimal representation of a signed value: a leading '-' for negatives.
pub open spec fn signed_dec_rep(v: int) -> Seq<char> {
    if v >= 0 {
        dec_rep(v as nat)
    } else {
        seq!['-'] + dec_rep((-v) as nat)
    }
}

/// Two-digit zero-padded rendering, for values below one hundred.
pub open spec fn two_digit_rep(n: int) -> Seq<char> {
    seq![digit_char(n / 10), digit_char(n % 10)]
}

/// Zero-padded rendering to at least two digits: values below ten get one
/// leading zero, larger values keep all their digits.
pub open spec fn padded2_rep(n: nat) -> Seq<char> {
    if n < 10 {
        seq!['0', digit_char(n as int)]
    } else {
        dec_rep(n)
    }
}

/// ASCII lower-casing of one character: 'A'..='Z' map to 'a'..='z'.
pub open spec fn lower_char(c: char) -> char {
    if 'A' <= c && c <= 'Z' {
        (((c as u32) + 32) as u8) as char
    } else {
        c
    }
}

/// ASCII lower-casing of a whole string, character by character.
pub open spec fn lower(s: Seq<char>) -> Seq<char> {
    s.map_values(|c: char| lower_char(c))
}

/// The first index at or after `i` holding a non-whitespace character
/// (or the length, if none).
pub open spec fn ws_end(s: Seq<char>, i: int) -> int
    decreases s.len() - i when 0 <= i <= s.len()
{
    if i >= s.len() {
        s.len() as int
    } else if is_ws_char(s[i]) {
        ws_end(s, i + 1)
    } else {
        i
    }
}

/// The first index at or after `i` holding a whitespace character
/// (or the length, if none).
pub open spec fn tok_end(s: Seq<char>, i: int) -> int
    decreases s.len() - i when 0 <= i <= s.len()
{
    if i >= s.len() {
        s.len() as int
    } else if !is_ws_char(s[i]) {
        tok_end(s, i + 1)
    } else {
        i
    }
}

pub proof fn lemma_tok_end_range(s: Seq<char>, i: int)
    requires
        0 <= i <= s.len(),
    ensures
        i <= tok_end(s, i) <= s.len(),
        tok_end(s, i) < s.len() ==> is_ws_char(s[tok_end(s, i)]),
        i < s.len() && !is_ws_char(s[i]) ==> tok_end(s, i) > i,
    decreases s.len() - i,
{
    if i < s.len() && !is_ws_char(s[i]) {
        lemma_tok_end_range(s, i + 1);
    }
}

/// The first whitespace-delimited token of `s`, if any.
pub open spec fn first_token(s: Seq<char>) -> Option<Seq<char>> {
    let b = ws_end(s, 0);
    if b >= s.len() {
        Option::None
    } else {
        Option::Some(s.subrange(b, tok_end(s, b)))
    }
}

/// The second whitespace-delimited token of `s`, if any.
pub open spec fn second_token(s: Seq<char>) -> Option<Seq<char>> {
    let b1 = ws_end(s, 0);
    if b1 >= s.len() {
        Option::None
    } else {
        let b2 = ws_end(s, tok_end(s, b1));
        if b2 >= s.len() {
            Option::None
        } else {
            Option::Some(s.subrange(b2, tok_end(s, b2)))
        }
    }
}

/// The value of a sequence of decimal digits, most significant first.
pub open spec fn digits_val(d: Seq<char>) -> nat
    decreases d.len(),
{
    if d.len() == 0 {
        0
    } else {
        digits_val(d.drop_last()) * 10 + char_digit_val(d.last()) as nat
    }
}

/// The digits of a numeric token, past an optional leading '+'.
pub open spec fn digits_part(t: Seq<char>) -> Seq<char> {
    if t.len() > 0 && t[0] == '+' {
        t.subrange(1, t.len() as int)
    } else {
        t
    }
}

pub open spec fn all_digits(d: Seq<char>) -> bool {
    forall|i: int| 0 <= i < d.len() ==> is_digit_char(#[trigger] d[i])
}

/// How `str::parse::<u16>` reads a token: an optional leading '+', then one
/// or more decimal digits, with the value fitting in sixteen bits.
pub open spec fn parse_u16_spec(t: Seq<char>) -> Option<u16> {
    if digits_part(t).len() > 0 && all_digits(digits_part(t)) && digits_val(digits_part(t))
        <= 65535 {
        Option::Some(digits_val(digits_part(t)) as u16)
    } else {
        Option::None
    }
}

/// Relies on String::push: appends exactly the one character.
pub assume_specification[ String::push ](s: &mut String, ch: char)
    ensures
        final(s)@ == old(s)@.push(ch),
;

/// Whether `c` is ASCII whitespace, mirroring `is_ws_char`.
pub fn is_ws(c: char) -> (r: bool)
    ensures
        r == is_ws_char(c),
{
    c == ' ' || c == '\t' || c == '\n' || c == '\r' || c == '\u{c}'
}

fn digit_to_char(d: u64) -> (c: char)
    requires
        d < 10,
    ensures
        c == digit_char(d as int),
{
    if d == 0 { '0' }
    else if d == 1 { '1' }
    else if d == 2 { '2' }
    else if d == 3 { '3' }
    else if d == 4 { '4' }
    else if d == 5 { '5' }
    else if d == 6 { '6' }
    else if d == 7 { '7' }
    else if d == 8 { '8' }
    else { '9' }
}

/// Renders `n` in decimal.
pub fn u64_to_dec(n: u64) -> (r: String)
    ensures
        r@ == dec_rep(n as nat),
    decreases n,
{
    if n < 10 {
        let mut s = String::new();
        s.push(digit_to_char(n));
        proof {
            assert(s@ =~= dec_rep(n as nat));
        }
        s
    } else {
        let mut s = u64_to_dec(n / 10);
        s.push(digit_to_char(n % 10));
        proof {
            assert(s@ =~= dec_rep(n as nat));
        }
        s
    }
}

/// Renders `v` in decimal, with a leading '-' when negative.
pub fn i64_to_dec(v: i64) -> (r: String)
    ensures
        r@ == signed_dec_rep(v as int),
{
    if v >= 0 {
        u64_to_dec(v as u64)
    } else {
        let m: u64 = (-(v as i128)) as u64;
        let mut s = String::new();
        s.push('-');
        let r = s.concat(u64_to_dec(m).as_str());
        proof {
            assert(r@ =~= signed_dec_rep(v as int));
        }
        r
    }
}

/// Renders `n` zero-padded to at least two digits.
pub fn padded2(n: u64) -> (r: String)
    ensures
        r@ == padded2_rep(n as nat),
{
    if n < 10 {
        let mut s = String::new();
        s.push('0');
        s.push(digit_to_char(n));
        proof {
            assert(s@ =~= padded2_rep(n as nat));
        }
        s
    } else {
        u64_to_dec(n)
    }
}

/// Renders `n` as exactly two digits, zero-padded.
pub fn two_digit(n: u64) -> (r: String)
    requires
        n < 100,
    ensures
        r@ == two_digit_rep(n as int),
{
    let mut s = String::new();
    s.push(digit_to_char(n / 10));
    s.push(digit_to_char(n % 10));
    proof {
        assert(s@ =~= two_digit_rep(n as int));
    }
    s
}

/// ASCII lower-casing, as the authorized-user list is normalized at startup.
pub fn lowercase(s: &str) -> (r: String)
    ensures
        r@ == lower(s@),
{
    let n = s.unicode_len();
    let mut r = String::new();
    let mut i: usize = 0;
    while i < n
        invariant
            n == s@.len(),
            0 <= i <= n,
            r@ == lower(s@.subrange(0, i as int)),
        decreases n - i,
    {
        let c = s.get_char(i);
        let lc: char = if 'A' <= c && c <= 'Z' {
            (((c as u32) + 32) as u8) as char
        } else {
            c
        };
        r.push(lc);
        proof {
            assert(lc == lower_char(c));
            assert(s@.subrange(0, i + 1).map_values(|ch: char| lower_char(ch))
                =~= s@.subrange(0, i as int).map_values(|ch: char| lower_char(ch)).push(lower_char(c)));
        }
        i = i + 1;
    }
    proof {
        assert(s@.subrange(0, n as int) =~= s@);
    }
    r
}

/// Character-for-character string equality.
pub fn str_eq(a: &str, b: &str) -> (r: bool)
    ensures
        r == (a@ == b@),
{
    let na = a.unicode_len();
    let nb = b.unicode_len();
    if na != nb {
        proof {
            assert(a@ != b@);
        }
        return false;
    }
    let mut i: usize = 0;
    while i < na
        invariant
            na == a@.len() && na == b@.len(),
            0 <= i <= na,
            forall|k: int| 0 <= k < i ==> a@[k] == b@[k],
        decreases na - i,
    {
        if a.get_char(i) != b.get_char(i) {
            return false;
        }
        i = i + 1;
    }
    proof {
        assert(a@ =~= b@);
    }
    true
}

/// The token starting at or after `start`, with the index just past it.
pub fn next_token(s: &str, start: usize) -> (r: Option<(String, usize)>)
    requires
        start <= s@.len(),
    ensures
        match r {
            Option::None => ws_end(s@, start as int) == s@.len(),
            Option::Some((t, e)) => {
                let b = ws_end(s@, start as int);
                b < s@.len() && e as int == tok_end(s@, b) && t@ == s@.subrange(b, e as int)
                    && e <= s@.len() && t@.len() > 0
            },
        },
{
    let n = s.unicode_len();
    let mut i = start;
    while i < n && is_ws(s.get_char(i))
        invariant
            n == s@.len(),
            start <= i <= n,
            ws_end(s@, start as int) == ws_end(s@, i as int),
        decreases n - i,
    {
        i = i + 1;
    }
    if i == n {
        return Option::None;
    }
    proof {
        assert(ws_end(s@, i as int) == i);
        lemma_tok_end_range(s@, i as int);
    }
    let mut j = i;
    while j < n && !is_ws(s.get_char(j))
        invariant
            n == s@.len(),
            i <= j <= n,
            tok_end(s@, i as int) == tok_end(s@, j as int),
        decreases n - j,
    {
        j = j + 1;
    }
    proof {
        assert(tok_end(s@, j as int) == j);
    }
    let t = s.substring_char(i, j).to_owned();
    Option::Some((t, j))
}

/// Parses a token the way `str::parse::<u16>` does.
pub fn parse_u16(t: &str) -> (r: Option<u16>)
    ensures
        r == parse_u16_spec(t@),
{
    let n = t.unicode_len();
    let off: usize = if n > 0 && t.get_char(0) == '+' { 1 } else { 0 };
    let ghost d = digits_part(t@);
    proof {
        assert(d =~= t@.subrange(off as int, n as int));
    }
    if n == off {
        return Option::None;
    }
    let mut acc: u32 = 0;
    let mut i = off;
    while i < n
        invariant
            n == t@.len(),
            off <= i <= n,
            d == digits_part(t@),
            d == t@.subrange(off as int, n as int),
            forall|k: int| off <= k < i ==> is_digit_char(#[trigger] t@[k]),
            acc == 70000 ==> digits_val(t@.subrange(off as int, i as int)) > 65535,
            acc != 70000 ==> acc <= 65535 && acc == digits_val(t@.subrange(off as int, i as int)),
        decreases n - i,
    {
        let c = t.get_char(i);
        if c < '0' || c > '9' {
            proof {
                assert(c == t@[i as int]);
                assert(0 <= i - off < d.len() && !is_digit_char(d[i - off]));
                assert(!all_digits(d));
                assert(parse_u16_spec(t@) == Option::<u16>::None);
            }
            return Option::None;
        }
        let dv: u32 = (c as u32) - ('0' as u32);
        proof {
            assert(dv == char_digit_val(c));
            assert(t@.subrange(off as int, i + 1).drop_last()
                =~= t@.subrange(off as int, i as int));
        }
        if acc == 70000 {
            // the value already exceeds what fits; later digits keep it too large
        } else {
            let next: u32 = acc * 10 + dv;
            if next > 65535 {
                acc = 70000;
            } else {
                acc = next;
            }
        }
        i = i + 1;
    }
    proof {
        assert(t@.subrange(off as int, n as int) =~= d);
        assert(forall|k: int| 0 <= k < d.len() ==> is_digit_char(#[trigger] d[k]));
    }
    if acc == 70000 {
        Option::None
    } else {
        Option::Some(acc as u16)
    }
}

} // verus!
