//! Character-level text helpers shared by the lenses and the theme: ASCII case
//! folding, substring and prefix tests, and string building.

use vstd::prelude::*;

verus! {

/// ASCII lower-casing of one character (other characters are unchanged).
pub open spec fn ascii_lower(c: char) -> char {
    if 'A' <= c <= 'Z' {
        ((c as u32) + 32) as char
    } else {
        c
    }
}

/// ASCII upper-casing of one character (other characters are unchanged).
pub open spec fn ascii_upper(c: char) -> char {
    if 'a' <= c <= 'z' {
        ((c as u32) - 32) as char
    } else {
        c
    }
}

/// ASCII upper-casing of a whole text.
pub open spec fn ascii_upper_seq(s: Seq<char>) -> Seq<char> {
    s.map_values(|c: char| ascii_upper(c))
}

/// `a` and `b` are equal up to ASCII case.
pub open spec fn eq_ignore_ascii_case(a: Seq<char>, b: Seq<char>) -> bool {
    a.len() == b.len() && forall|i: int| 0 <= i < a.len() ==> ascii_lower(a[i]) == ascii_lower(b[i])
}

/// `p` is a prefix of `s`.
pub open spec fn has_prefix(s: Seq<char>, p: Seq<char>) -> bool {
    p.len() <= s.len() && s.subrange(0, p.len() as int) == p
}

/// `p` occurs in `s` as a contiguous block.
pub open spec fn has_infix(s: Seq<char>, p: Seq<char>) -> bool {
    exists|i: int| 0 <= i && i + p.len() <= s.len() && #[trigger] s.subrange(i, i + p.len()) == p
}

/// The characters of `s`.
#[verifier::external_body]
pub(crate) fn chars_of(s: &str) -> (r: Vec<char>)
    ensures
        r@ == s@,
{
    s.chars().collect()
}

/// The texts of a list of strings.
pub open spec fn texts_of(parts: Seq<String>) -> Seq<Seq<char>> {
    parts.map_values(|p: String| p@)
}

/// The texts of `parts` joined with `sep` between neighbours.
pub open spec fn joined(parts: Seq<Seq<char>>, sep: Seq<char>) -> Seq<char>
    decreases parts.len(),
{
    if parts.len() == 0 {
        Seq::empty()
    } else if parts.len() == 1 {
        parts[0]
    } else {
        joined(parts.drop_last(), sep) + sep + parts.last()
    }
}

/// Join `parts` with `sep` between neighbours (as `[String]::join` does).
pub fn join_strings(parts: &[String], sep: &str) -> (r: String)
    ensures
        r@ == joined(texts_of(parts@), sep@),
{
    let mut out = String::new();
    let mut i: usize = 0;
    while i < parts.len()
        invariant
            i <= parts@.len(),
            out@ == joined(texts_of(parts@).take(i as int), sep@),
        decreases parts@.len() - i,
    {
        proof {
            assert(texts_of(parts@).take(i + 1).drop_last() =~= texts_of(parts@).take(i as int));
        }
        if i > 0 {
            out.append(sep);
        }
        out.append(parts[i].as_str());
        proof {
            if i == 0 {
                assert(texts_of(parts@).take(1) =~= seq![parts@[0]@]);
            }
        }
        i = i + 1;
    }
    assert(texts_of(parts@).take(parts@.len() as int) =~= texts_of(parts@));
    out
}

/// Append one character to a string.
#[verifier::external_body]
pub(crate) fn push_char(s: &mut String, c: char)
    ensures
        final(s)@ == old(s)@.push(c),
{
    s.push(c);
}

/// Build a string from a list of characters.
pub fn string_from_chars(v: &[char]) -> (r: String)
    ensures
        r@ == v@,
{
    let mut s = String::new();
    let mut i: usize = 0;
    while i < v.len()
        invariant
            i <= v@.len(),
            s@ == v@.take(i as int),
        decreases v@.len() - i,
    {
        push_char(&mut s, v[i]);
        assert(v@.take(i as int).push(v@[i as int]) =~= v@.take(i + 1));
        i = i + 1;
    }
    assert(v@.take(v@.len() as int) =~= v@);
    s
}

/// ASCII lower-casing of one character.
pub fn to_ascii_lower(c: char) -> (r: char)
    ensures
        r == ascii_lower(c),
{
    if 'A' <= c && c <= 'Z' {
        let u: u32 = c as u32;
        proof {
            assert(65 <= u <= 90);
        }
        char_from_ascii(u + 32)
    } else {
        c
    }
}

/// ASCII upper-casing of one character.
pub fn to_ascii_upper(c: char) -> (r: char)
    ensures
        r == ascii_upper(c),
{
    if 'a' <= c && c <= 'z' {
        let u: u32 = c as u32;
        proof {
            assert(97 <= u <= 122);
        }
        char_from_ascii(u - 32)
    } else {
        c
    }
}

/// The ASCII character with code `u`.
fn char_from_ascii(u: u32) -> (r: char)
    requires
        u < 128,
    ensures
        r == u as char,
{
    let b: u8 = u as u8;
    b as char
}

/// Whether `a` and `b` are equal up to ASCII case.
pub fn chars_eq_ignore_ascii_case(a: &[char], b: &[char]) -> (r: bool)
    ensures
        r == eq_ignore_ascii_case(a@, b@),
{
    if a.len() != b.len() {
        return false;
    }
    let mut i: usize = 0;
    while i < a.len()
        invariant
            a@.len() == b@.len(),
            i <= a@.len(),
            forall|j: int| 0 <= j < i ==> ascii_lower(a@[j]) == ascii_lower(b@[j]),
        decreases a@.len() - i,
    {
        if to_ascii_lower(a[i]) != to_ascii_lower(b[i]) {
            return false;
        }
        i = i + 1;
    }
    true
}

/// Whether `p` is a prefix of `s`.
pub fn chars_start_with(s: &[char], p: &[char]) -> (r: bool)
    ensures
        r == has_prefix(s@, p@),
{
    if p.len() > s.len() {
        return false;
    }
    let mut i: usize = 0;
    while i < p.len()
        invariant
            p@.len() <= s@.len(),
            i <= p@.len(),
            forall|j: int| 0 <= j < i ==> s@[j] == p@[j],
        decreases p@.len() - i,
    {
        if s[i] != p[i] {
            assert(s@.subrange(0, p@.len() as int)[i as int] != p@[i as int]);
            return false;
        }
        i = i + 1;
    }
    assert(s@.subrange(0, p@.len() as int) =~= p@);
    true
}

/// Whether `p` matches `s` at position `at`.
fn chars_match_at(s: &[char], p: &[char], at: usize) -> (r: bool)
    requires
        at + p@.len() <= s@.len(),
    ensures
        r == (s@.subrange(at as int, at + p@.len()) == p@),
{
    let mut i: usize = 0;
    let ghost slen = s@.len();
    assert(slen == s.len());
    while i < p.len()
        invariant
            at + p@.len() <= s@.len(),
            s@.len() <= usize::MAX,
            i <= p@.len(),
            forall|j: int| 0 <= j < i ==> s@[at + j] == p@[j],
        decreases p@.len() - i,
    {
        if s[at + i] != p[i] {
            assert(s@.subrange(at as int, at + p@.len())[i as int] != p@[i as int]);
            return false;
        }
        i = i + 1;
    }
    assert(s@.subrange(at as int, at + p@.len()) =~= p@);
    true
}

/// Whether `p` occurs in `s` as a contiguous block.
pub fn chars_contain(s: &[char], p: &[char]) -> (r: bool)
    ensures
        r == has_infix(s@, p@),
{
    if p.len() > s.len() {
        return false;
    }
    let last: usize = s.len() - p.len();
    let mut at: usize = 0;
    while at <= last
        invariant
            last + p@.len() == s@.len(),
            at <= last + 1,
            forall|j: int| 0 <= j < at ==> #[trigger] s@.subrange(j, j + p@.len()) != p@,
        decreases last + 1 - at,
    {
        if chars_match_at(s, p, at) {
            return true;
        }
        if at == last {
            return false;
        }
        at = at + 1;
    }
    false
}

/// ASCII upper-casing of a whole text.
pub fn chars_to_ascii_upper(s: &[char]) -> (r: Vec<char>)
    ensures
        r@ == ascii_upper_seq(s@),
{
    let mut out: Vec<char> = Vec::new();
    let mut i: usize = 0;
    while i < s.len()
        invariant
            i <= s@.len(),
            out@ =~= ascii_upper_seq(s@.take(i as int)),
        decreases s@.len() - i,
    {
        out.push(to_ascii_upper(s[i]));
        i = i + 1;
    }
    assert(s@.take(s@.len() as int) =~= s@);
    out
}

/// The decimal digit character for `d < 10`.
pub open spec fn decimal_char(d: int) -> char {
    ((48 + d) as u32) as char
}

/// The lowercase hexadecimal digit character for `d < 16`.
pub open spec fn hex_char(d: int) -> char {
    if d < 10 {
        ((48 + d) as u32) as char
    } else {
        ((87 + d) as u32) as char
    }
}

/// Decimal digits of `n`, most significant first, without leading zeros
/// (`0` is written as one digit).
pub open spec fn decimal_digits(n: nat) -> Seq<char>
    decreases n,
{
    if n < 10 {
        seq![decimal_char(n as int)]
    } else {
        decimal_digits(n / 10).push(decimal_char((n % 10) as int))
    }
}

/// `n` written in decimal and left-padded with zeros to at least `width`
/// characters.
pub open spec fn zero_padded(n: nat, width: nat) -> Seq<char> {
    let d = decimal_digits(n);
    if d.len() < width {
        Seq::new((width - d.len()) as nat, |i: int| '0') + d
    } else {
        d
    }
}

/// The low `width` hexadecimal digits of `n`, most significant first, in
/// lowercase and zero-padded.
pub open spec fn hex_fixed(n: nat, width: nat) -> Seq<char>
    decreases width,
{
    if width == 0 {
        Seq::empty()
    } else {
        hex_fixed(n / 16, (width - 1) as nat).push(hex_char((n % 16) as int))
    }
}

/// The decimal digit character for `d`.
fn digit_char(d: u64) -> (r: char)
    requires
        d < 10,
    ensures
        r == decimal_char(d as int),
{
    let b: u8 = (48 + d) as u8;
    b as char
}

/// Ten to the power `k`.
pub open spec fn pow10(k: nat) -> nat
    decreases k,
{
    if k == 0 {
        1
    } else {
        10 * pow10((k - 1) as nat)
    }
}

/// A number below `10^k` has at most `k` decimal digits.
pub proof fn lemma_decimal_digits_bound(n: nat, k: nat)
    requires
        k >= 1,
        n < pow10(k),
    ensures
        decimal_digits(n).len() <= k,
    decreases k,
{
    if n >= 10 {
        let p = pow10((k - 1) as nat);
        assert(n / 10 < p) by (nonlinear_arith)
            requires
                n < 10 * p,
        ;
        if k == 1 {
            assert(pow10(1) == 10 * pow10(0));
        } else {
            lemma_decimal_digits_bound(n / 10, (k - 1) as nat);
        }
    }
}

/// Number of decimal digits of `n`.
pub fn decimal_len(n: u64) -> (r: usize)
    ensures
        r == decimal_digits(n as nat).len(),
        r <= 20,
{
    proof {
        reveal_with_fuel(pow10, 21);
        assert(pow10(20) == 100000000000000000000nat);
        lemma_decimal_digits_bound(n as nat, 20);
    }
    let mut q: u64 = n;
    let mut count: usize = 1;
    while q >= 10
        invariant
            1 <= count,
            count + decimal_digits(q as nat).len() - 1 == decimal_digits(n as nat).len(),
            decimal_digits(n as nat).len() <= 20,
        decreases q,
    {
        q = q / 10;
        count = count + 1;
    }
    count
}

/// Append the decimal digits of `n`.
pub fn push_decimal(s: &mut String, n: u64)
    ensures
        final(s)@ == old(s)@ + decimal_digits(n as nat),
    decreases n,
{
    if n >= 10 {
        push_decimal(s, n / 10);
    }
    push_char(s, digit_char(n % 10));
    proof {
        if n < 10 {
            assert(n % 10 == n);
        }
    }
}

/// Append `n` in decimal, zero-padded to at least `width` characters.
pub fn push_zero_padded(s: &mut String, n: u64, width: usize)
    ensures
        final(s)@ == old(s)@ + zero_padded(n as nat, width as nat),
{
    let len = decimal_len(n);
    let ghost start = s@;
    if len < width {
        let mut k: usize = 0;
        while k < width - len
            invariant
                len < width,
                k <= width - len,
                s@ == start + Seq::new(k as nat, |i: int| '0'),
            decreases width - len - k,
        {
            push_char(s, '0');
            k = k + 1;
            assert(s@ =~= start + Seq::new(k as nat, |i: int| '0'));
        }
    }
    let ghost mid = s@;
    push_decimal(s, n);
    assert(s@ =~= old(s)@ + zero_padded(n as nat, width as nat));
}

/// Append the low `width` lowercase hexadecimal digits of `n`.
pub fn push_hex_fixed(s: &mut String, n: u64, width: usize)
    ensures
        final(s)@ == old(s)@ + hex_fixed(n as nat, width as nat),
    decreases width,
{
    if width == 0 {
        assert(old(s)@ + hex_fixed(n as nat, 0) =~= old(s)@);
        return;
    }
    push_hex_fixed(s, n / 16, width - 1);
    let d: u64 = n % 16;
    let c: char = if d < 10 {
        let b: u8 = (48 + d) as u8;
        b as char
    } else {
        let b: u8 = (87 + d) as u8;
        b as char
    };
    push_char(s, c);
    assert(s@ =~= old(s)@ + hex_fixed(n as nat, width as nat));
}

/// Whether `c` is a lowercase hexadecimal digit.
pub open spec fn is_lower_hex(c: char) -> bool {
    ('0' <= c <= '9') || ('a' <= c <= 'f')
}

/// A fixed-width hexadecimal rendering has exactly `width` characters, each
/// a lowercase hexadecimal digit.
pub proof fn lemma_hex_fixed_shape(n: nat, width: nat)
    ensures
        hex_fixed(n, width).len() == width,
        forall|i: int| 0 <= i < width ==> is_lower_hex(#[trigger] hex_fixed(n, width)[i]),
    decreases width,
{
    if width > 0 {
        lemma_hex_fixed_shape(n / 16, (width - 1) as nat);
        let d = (n % 16) as int;
        assert(is_lower_hex(hex_char(d)));
        assert forall|i: int| 0 <= i < width implies is_lower_hex(#[trigger] hex_fixed(n, width)[i]) by {
            if i < width - 1 {
                assert(hex_fixed(n, width)[i] == hex_fixed(n / 16, (width - 1) as nat)[i]);
            }
        }
    }
}

/// `n` blanks.
pub open spec fn spaces(n: nat) -> Seq<char> {
    Seq::new(n, |i: int| ' ')
}

/// `s` followed by blanks up to `width` characters (as `{:<width}` does).
pub open spec fn pad_right(s: Seq<char>, width: nat) -> Seq<char> {
    if s.len() < width {
        s + spaces((width - s.len()) as nat)
    } else {
        s
    }
}

/// `s` preceded by blanks up to `width` characters (as `{:>width}` does).
pub open spec fn pad_left(s: Seq<char>, width: nat) -> Seq<char> {
    if s.len() < width {
        spaces((width - s.len()) as nat) + s
    } else {
        s
    }
}

/// `n` written in decimal with a leading `-` when negative.
pub open spec fn signed_decimal(n: int) -> Seq<char> {
    if n < 0 {
        "-"@ + decimal_digits((-n) as nat)
    } else {
        decimal_digits(n as nat)
    }
}

/// Append `n` blanks.
pub fn push_spaces(s: &mut String, n: usize)
    ensures
        final(s)@ == old(s)@ + spaces(n as nat),
{
    let ghost start = s@;
    let mut k: usize = 0;
    while k < n
        invariant
            k <= n,
            s@ == start + spaces(k as nat),
        decreases n - k,
    {
        push_char(s, ' ');
        k = k + 1;
        assert(s@ =~= start + spaces(k as nat));
    }
}

/// Append `text`, then blanks up to `width` characters in all.
pub fn push_padded_right(s: &mut String, text: &str, width: usize)
    ensures
        final(s)@ == old(s)@ + pad_right(text@, width as nat),
{
    let n = chars_of(text).len();
    s.append(text);
    if n < width {
        push_spaces(s, width - n);
    }
    assert(s@ =~= old(s)@ + pad_right(text@, width as nat));
}

/// Append `n` in decimal, preceded by blanks up to `width` characters.
pub fn push_decimal_padded_left(s: &mut String, n: u64, width: usize)
    ensures
        final(s)@ == old(s)@ + pad_left(decimal_digits(n as nat), width as nat),
{
    let len = decimal_len(n);
    if len < width {
        push_spaces(s, width - len);
    }
    push_decimal(s, n);
    assert(s@ =~= old(s)@ + pad_left(decimal_digits(n as nat), width as nat));
}

/// Append `n` in decimal, with a leading `-` when negative.
pub fn push_signed_decimal(s: &mut String, n: i64)
    ensures
        final(s)@ == old(s)@ + signed_decimal(n as int),
{
    if n < 0 {
        s.append("-");
        let m: u64 = ((-(n + 1)) as u64) + 1;
        push_decimal(s, m);
    } else {
        push_decimal(s, n as u64);
    }
}

/// A string of the first `k` characters of `v`.
pub fn string_from_prefix(v: &[char], k: usize) -> (r: String)
    requires
        k <= v@.len(),
    ensures
        r@ == v@.take(k as int),
{
    let mut s = String::new();
    let mut i: usize = 0;
    while i < k
        invariant
            k <= v@.len(),
            i <= k,
            s@ == v@.take(i as int),
        decreases k - i,
    {
        push_char(&mut s, v[i]);
        assert(v@.take(i as int).push(v@[i as int]) =~= v@.take(i + 1));
        i = i + 1;
    }
    s
}

} // verus!
