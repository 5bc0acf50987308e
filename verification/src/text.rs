//! Text that the recorder reads and writes: decimal and hexadecimal numbers,
//! trimming, prefixes, and the splitting of `WIDTHxHEIGHT` pairs.
use vstd::prelude::*;
use vstd::string::*;

use vstd::arithmetic::div_mod::lemma_div_denominator;

verus! {

/// `String::push` appends one character to the end of the string.
pub assume_specification[ String::push ](s: &mut String, c: char)
    ensures
        final(s)@ == old(s)@.push(c),
;

/// The decimal digit for `d`, which is below ten.
pub open spec fn digit(d: nat) -> char {
    ((48 + d) as u8) as char
}

/// `n` in decimal, without leading zeros.
pub open spec fn dec(n: nat) -> Seq<char>
    decreases n,
{
    if n < 10 {
        seq![digit(n)]
    } else {
        dec(n / 10).push(digit(n % 10))
    }
}

/// Writes `n` in decimal.
pub fn decimal_wide(n: u128) -> (r: String)
    ensures
        r@ == dec(n as nat),
    decreases n,
{
    if n < 10 {
        let mut r = String::new();
        r.push((48 + n as u8) as char);
        assert(r@ =~= dec(n as nat));
        r
    } else {
        let mut r = decimal_wide(n / 10);
        r.push((48 + (n % 10) as u8) as char);
        r
    }
}

/// Writes `n` in decimal.
pub fn decimal(n: u64) -> (r: String)
    ensures
        r@ == dec(n as nat),
{
    decimal_wide(n as u128)
}

/// `n` in decimal, with a minus sign where it is negative.
pub open spec fn signed_dec(n: int) -> Seq<char> {
    if n < 0 {
        "-"@ + dec((0 - n) as nat)
    } else {
        dec(n as nat)
    }
}

/// Writes `n` in decimal.
pub fn decimal_i32(n: i32) -> (r: String)
    ensures
        r@ == signed_dec(n as int),
{
    if n < 0 {
        String::from_str("-").concat(decimal((0 - n as i64) as u64).as_str())
    } else {
        decimal(n as u64)
    }
}

/// The lower-case hexadecimal digit for `d`, which is below sixteen.
pub open spec fn hex_digit(d: nat) -> char {
    if d < 10 {
        digit(d)
    } else {
        ((87 + d) as u8) as char
    }
}

/// Two lower-case hexadecimal digits for every byte, in order.
pub open spec fn hex(bytes: Seq<u8>) -> Seq<char>
    decreases bytes.len(),
{
    if bytes.len() == 0 {
        Seq::empty()
    } else {
        hex(bytes.drop_last()).push(hex_digit(bytes.last() as nat / 16)).push(
            hex_digit(bytes.last() as nat % 16),
        )
    }
}

fn hex_char(d: u8) -> (c: char)
    requires
        d < 16,
    ensures
        c == hex_digit(d as nat),
{
    if d < 10 {
        (48 + d) as char
    } else {
        (87 + d) as char
    }
}

/// Writes `bytes` as lower-case hexadecimal.
pub fn lower_hex(bytes: &Vec<u8>) -> (r: String)
    ensures
        r@ == hex(bytes@),
{
    let mut r = String::new();
    for i in 0..bytes.len()
        invariant
            r@ == hex(bytes@.take(i as int)),
    {
        let b: u8 = bytes[i];
        r.push(hex_char(b / 16));
        r.push(hex_char(b % 16));
        assert(bytes@.take(i + 1).drop_last() =~= bytes@.take(i as int));
        assert(bytes@.take(i + 1).last() == b);
    }
    assert(bytes@.take(bytes.len() as int) =~= bytes@);
    r
}

/// The characters of `s`.
pub fn chars_of(s: &str) -> (v: Vec<char>)
    ensures
        v@ == s@,
{
    let mut v: Vec<char> = Vec::new();
    for c in it: s.chars()
        invariant
            v@ == it.seq().take(it.index()),
            it.seq() == s@,
    {
        v.push(c);
        assert(it.seq().take(it.index() + 1) =~= it.seq().take(it.index()).push(c));
    }
    assert(s@.take(s@.len() as int) =~= s@);
    v
}

/// The string made of the characters of `v` from `from` up to `to`.
pub fn string_between(v: &Vec<char>, from: usize, to: usize) -> (r: String)
    requires
        from <= to <= v@.len(),
    ensures
        r@ == v@.subrange(from as int, to as int),
{
    let mut r = String::new();
    for i in from..to
        invariant
            from <= to <= v@.len(),
            r@ == v@.subrange(from as int, i as int),
    {
        r.push(v[i]);
        assert(v@.subrange(from as int, i + 1) =~= v@.subrange(from as int, i as int).push(v@[i as int]));
    }
    r
}

/// The characters that Unicode gives the property `White_Space`.
pub open spec fn is_white(c: char) -> bool {
    ||| 0x09 <= c as u32 <= 0x0d
    ||| c as u32 == 0x20
    ||| c as u32 == 0x85
    ||| c as u32 == 0xa0
    ||| c as u32 == 0x1680
    ||| 0x2000 <= c as u32 <= 0x200a
    ||| c as u32 == 0x2028
    ||| c as u32 == 0x2029
    ||| c as u32 == 0x202f
    ||| c as u32 == 0x205f
    ||| c as u32 == 0x3000
}

/// Is `c` white space?
pub fn white(c: char) -> (b: bool)
    ensures
        b == is_white(c),
{
    let u: u32 = c as u32;
    (0x09 <= u && u <= 0x0d) || u == 0x20 || u == 0x85 || u == 0xa0 || u == 0x1680 || (0x2000 <= u
        && u <= 0x200a) || u == 0x2028 || u == 0x2029 || u == 0x202f || u == 0x205f || u == 0x3000
}

/// What is stripped from the ends of a text.
#[derive(Clone, Copy)]
pub enum Edge {
    /// White space.
    White,
    /// Single and double quotes.
    Quote,
    /// The path separator.
    Slash,
}

/// Is `c` among the characters that `e` strips?
pub open spec fn on_edge(e: Edge, c: char) -> bool {
    match e {
        Edge::White => is_white(c),
        Edge::Quote => c == '"' || c == '\'',
        Edge::Slash => c == '/',
    }
}

fn edge(e: Edge, c: char) -> (b: bool)
    ensures
        b == on_edge(e, c),
{
    match e {
        Edge::White => white(c),
        Edge::Quote => c == '"' || c == '\'',
        Edge::Slash => c == '/',
    }
}

/// `s` without the characters of `e` at its front.
pub open spec fn strip_front(s: Seq<char>, e: Edge) -> Seq<char>
    decreases s.len(),
{
    if s.len() > 0 && on_edge(e, s[0]) {
        strip_front(s.drop_first(), e)
    } else {
        s
    }
}

/// `s` without the characters of `e` at its back.
pub open spec fn strip_back(s: Seq<char>, e: Edge) -> Seq<char>
    decreases s.len(),
{
    if s.len() > 0 && on_edge(e, s.last()) {
        strip_back(s.drop_last(), e)
    } else {
        s
    }
}

/// `s` without the characters of `e` at either end.
pub open spec fn strip(s: Seq<char>, e: Edge) -> Seq<char> {
    strip_back(strip_front(s, e), e)
}

/// `s` without white space at either end.
pub open spec fn trimmed(s: Seq<char>) -> Seq<char> {
    strip(s, Edge::White)
}

/// Where the characters of `e` at the front of `v` end.
fn front_end(v: &Vec<char>, e: Edge) -> (i: usize)
    ensures
        i <= v@.len(),
        v@.subrange(i as int, v@.len() as int) == strip_front(v@, e),
{
    let n: usize = v.len();
    let mut i: usize = 0;
    assert(v@.subrange(0, n as int) =~= v@);
    while i < n && edge(e, v[i])
        invariant
            i <= n == v@.len(),
            strip_front(v@.subrange(i as int, n as int), e) == strip_front(v@, e),
        decreases n - i,
    {
        assert(v@.subrange(i as int, n as int).drop_first() =~= v@.subrange(i + 1, n as int));
        i = i + 1;
    }
    i
}

/// Strips the characters of `e` from both ends of `s`.
pub fn strip_ends(s: &str, e: Edge) -> (r: String)
    ensures
        r@ == strip(s@, e),
{
    let v = chars_of(s);
    let i: usize = front_end(&v, e);
    let ghost front = strip_front(s@, e);
    let mut j: usize = v.len();
    while j > i && edge(e, v[j - 1])
        invariant
            i <= j <= v@.len(),
            strip_back(v@.subrange(i as int, j as int), e) == strip_back(front, e),
        decreases j,
    {
        assert(v@.subrange(i as int, j as int).drop_last() =~= v@.subrange(i as int, j - 1));
        j = j - 1;
    }
    string_between(&v, i, j)
}

/// Strips the characters of `e` from the front of `s`.
pub fn strip_start(s: &str, e: Edge) -> (r: String)
    ensures
        r@ == strip_front(s@, e),
{
    let v = chars_of(s);
    let i: usize = front_end(&v, e);
    string_between(&v, i, v.len())
}

/// `s` without white space at either end.
pub fn trim(s: &str) -> (r: String)
    ensures
        r@ == trimmed(s@),
{
    strip_ends(s, Edge::White)
}

/// A character that is no white space survives trimming.
pub proof fn lemma_trimmed_keeps(s: Seq<char>, i: int)
    requires
        0 <= i < s.len(),
        !is_white(s[i]),
    ensures
        trimmed(s).len() > 0,
{
    lemma_strip_front_keeps(s, i);
    let f = strip_front(s, Edge::White);
    let k = choose|k: int| 0 <= k < f.len() && !is_white(#[trigger] f[k]);
    lemma_strip_back_keeps(f, k);
}

proof fn lemma_strip_front_keeps(s: Seq<char>, i: int)
    requires
        0 <= i < s.len(),
        !is_white(s[i]),
    ensures
        exists|k: int|
            0 <= k < strip_front(s, Edge::White).len() && !is_white(
                #[trigger] strip_front(s, Edge::White)[k],
            ),
    decreases s.len(),
{
    if is_white(s[0]) {
        assert(s.drop_first()[i - 1] == s[i]);
        lemma_strip_front_keeps(s.drop_first(), i - 1);
        assert(strip_front(s, Edge::White) == strip_front(s.drop_first(), Edge::White));
    } else {
        assert(!is_white(strip_front(s, Edge::White)[0]));
    }
}

proof fn lemma_strip_back_keeps(s: Seq<char>, i: int)
    requires
        0 <= i < s.len(),
        !is_white(s[i]),
    ensures
        strip_back(s, Edge::White).len() > 0,
    decreases s.len(),
{
    if is_white(s.last()) {
        assert(s.drop_last()[i] == s[i]);
        lemma_strip_back_keeps(s.drop_last(), i);
    }
}

/// Does nothing but white space stand in `s`?
pub fn is_blank(s: &str) -> (b: bool)
    ensures
        b == (trimmed(s@).len() == 0),
{
    let t = trim(s);
    t.as_str().is_empty()
}

/// Is `p` the beginning of `s`?
pub open spec fn begins(s: Seq<char>, p: Seq<char>) -> bool {
    p.len() <= s.len() && s.subrange(0, p.len() as int) == p
}

/// The rest of `s` behind the prefix `p`, where `s` begins with it.
pub fn strip_prefix(s: &str, p: &str) -> (r: Option<String>)
    ensures
        match r {
            Some(rest) => begins(s@, p@) && s@ == p@ + rest@,
            None => !begins(s@, p@),
        },
{
    let v = chars_of(s);
    let w = chars_of(p);
    if w.len() > v.len() {
        return None;
    }
    let mut i: usize = 0;
    while i < w.len()
        invariant
            i <= w.len() <= v.len(),
            v@.subrange(0, i as int) == w@.subrange(0, i as int),
            v@ == s@,
            w@ == p@,
        decreases w.len() - i,
    {
        if v[i] != w[i] {
            assert(s@.subrange(0, w.len() as int)[i as int] == v@[i as int]);
            return None;
        }
        assert(v@.subrange(0, i + 1) =~= v@.subrange(0, i as int).push(v@[i as int]));
        assert(w@.subrange(0, i + 1) =~= w@.subrange(0, i as int).push(w@[i as int]));
        i = i + 1;
    }
    assert(w@.subrange(0, w.len() as int) =~= w@);
    let rest = string_between(&v, w.len(), v.len());
    assert(s@ =~= p@ + rest@);
    Some(rest)
}

/// Does `s` begin with `p`?
pub fn starts_with(s: &str, p: &str) -> (b: bool)
    ensures
        b == begins(s@, p@),
{
    strip_prefix(s, p).is_some()
}

/// The place of the first `x` or `X` of `s` at or behind `from`; the length of `s` where
/// there is none.
pub open spec fn cross_from(s: Seq<char>, from: int) -> int
    decreases s.len() - from,
{
    if from >= s.len() || s[from] == 'x' || s[from] == 'X' {
        from
    } else {
        cross_from(s, from + 1)
    }
}

/// Two texts are equal.
pub fn same(a: &str, b: &str) -> (r: bool)
    ensures
        r == (a@ == b@),
{
    match strip_prefix(a, b) {
        Some(rest) => {
            if rest.as_str().is_empty() {
                assert(a@ =~= b@);
                true
            } else {
                assert(a@.len() == b@.len() + rest@.len());
                false
            }
        },
        None => {
            assert(b@.subrange(0, b@.len() as int) =~= b@);
            false
        },
    }
}

/// Does `c` occur in `s`?
pub fn has_char(s: &str, c: char) -> (b: bool)
    ensures
        b == s@.contains(c),
{
    let v = chars_of(s);
    for i in 0..v.len()
        invariant
            v@ == s@,
            forall|k: int| 0 <= k < i ==> v@[k] != c,
    {
        if v[i] == c {
            return true;
        }
    }
    false
}

/// Is `c` one of the ten decimal digits?
pub open spec fn is_digit(c: char) -> bool {
    0x30 <= c as u32 <= 0x39
}

/// The number that the decimal digits `s` write.
pub open spec fn digits_value(s: Seq<char>) -> nat
    decreases s.len(),
{
    if s.len() == 0 {
        0
    } else {
        digits_value(s.drop_last()) * 10 + (s.last() as u32 - 48) as nat
    }
}

/// The digits of an unsigned number: `s` without the one plus sign that may precede them.
pub open spec fn unsigned_digits(s: Seq<char>) -> Seq<char> {
    if s.len() > 0 && s[0] == '+' {
        s.drop_first()
    } else {
        s
    }
}

/// The number that `s` writes: decimal digits, at least one, an optional plus sign
/// before them, and a value of at most `max`.
pub open spec fn unsigned_value(s: Seq<char>, max: nat) -> Option<nat> {
    let d = unsigned_digits(s);
    if d.len() > 0 && (forall|i: int| 0 <= i < d.len() ==> is_digit(#[trigger] d[i])) && digits_value(d)
        <= max {
        Some(digits_value(d))
    } else {
        None
    }
}

proof fn lemma_digits_value_grows(s: Seq<char>, i: int)
    requires
        0 <= i <= s.len(),
    ensures
        digits_value(s.take(i)) <= digits_value(s),
    decreases s.len() - i,
{
    if i < s.len() {
        lemma_digits_value_grows(s, i + 1);
        assert(s.take(i + 1).drop_last() =~= s.take(i));
    } else {
        assert(s.take(i) =~= s);
    }
}

proof fn lemma_decimal_digits(n: nat)
    ensures
        dec(n).len() > 0,
        forall|i: int| 0 <= i < dec(n).len() ==> is_digit(#[trigger] dec(n)[i]),
        digits_value(dec(n)) == n,
    decreases n,
{
    if n < 10 {
        assert(dec(n).drop_last() =~= seq![]);
        reveal_with_fuel(digits_value, 2);
    } else {
        lemma_decimal_digits(n / 10);
        assert(dec(n).drop_last() =~= dec(n / 10));
    }
}

/// A number that was written in decimal reads back as the same number, and there is nothing to
/// trim from it.
pub proof fn a_number_reads_back_as_it_was_written(n: nat, max: nat)
    requires
        n <= max,
    ensures
        trimmed(dec(n)) == dec(n),
        unsigned_value(dec(n), max) == Some(n),
{
    lemma_decimal_digits(n);
    assert(is_digit(dec(n)[0]));
    assert(is_digit(dec(n).last()));
    assert(!is_white(dec(n)[0]) && !is_white(dec(n).last()));
}

/// Reads an unsigned number of at most `max`.
pub fn parse_unsigned(s: &str, max: u64) -> (r: Option<u64>)
    ensures
        match r {
            Some(n) => unsigned_value(s@, max as nat) == Some(n as nat),
            None => unsigned_value(s@, max as nat) is None,
        },
{
    let v = chars_of(s);
    let start: usize = if v.len() > 0 && v[0] == '+' {
        1
    } else {
        0
    };
    let ghost d = unsigned_digits(s@);
    assert(d =~= v@.subrange(start as int, v@.len() as int));
    if start >= v.len() {
        return None;
    }
    let mut n: u64 = 0;
    let mut i: usize = start;
    while i < v.len()
        invariant
            start <= i <= v.len(),
            start <= 1,
            d == v@.subrange(start as int, v@.len() as int),
            d == unsigned_digits(s@),
            n == digits_value(d.take(i - start)),
            n <= max,
            forall|k: int| 0 <= k < i - start ==> is_digit(#[trigger] d[k]),
        decreases v.len() - i,
    {
        let u: u32 = v[i] as u32;
        assert(v@[i as int] == d[i - start]);
        if u < 0x30 || u > 0x39 {
            assert(!is_digit(d[i - start]));
            return None;
        }
        let wide: u128 = n as u128 * 10 + (u - 0x30) as u128;
        proof {
            assert(d.take(i + 1 - start).drop_last() =~= d.take(i - start));
            assert(d.take(i + 1 - start).last() == d[i - start]);
            lemma_digits_value_grows(d, i + 1 - start);
        }
        if wide > max as u128 {
            return None;
        }
        n = wide as u64;
        i = i + 1;
    }
    assert(d.take(d.len() as int) =~= d);
    Some(n)
}

/// The number that `s` writes: a minus sign and decimal digits, or an unsigned number, within
/// 32 bits.
pub open spec fn signed_value(s: Seq<char>) -> Option<i32> {
    if s.len() > 0 && s[0] == '-' {
        let d = s.drop_first();
        if d.len() > 0 && d[0] != '+' {
            match unsigned_value(d, 0x8000_0000) {
                Some(n) => Some((0 - n) as i32),
                None => None,
            }
        } else {
            None
        }
    } else {
        match unsigned_value(s, 0x7fff_ffff) {
            Some(n) => Some(n as i32),
            None => None,
        }
    }
}

/// Reads a signed number of 32 bits.
pub fn parse_i32(s: &str) -> (r: Option<i32>)
    ensures
        r == signed_value(s@),
{
    let v = chars_of(s);
    if v.len() > 0 && v[0] == '-' {
        let rest = string_between(&v, 1, v.len());
        assert(rest@ =~= s@.drop_first());
        if v.len() > 1 && v[1] != '+' {
            match parse_unsigned(rest.as_str(), 0x8000_0000) {
                Some(n) => Some((0 - n as i64) as i32),
                None => None,
            }
        } else {
            None
        }
    } else {
        match parse_unsigned(s, 0x7fff_ffff) {
            Some(n) => Some(n as i32),
            None => None,
        }
    }
}

/// The two numbers of `s`, split at the first `x` or `X`, each trimmed.
pub open spec fn pair_of_numbers(s: Seq<char>) -> Option<(u32, u32)> {
    let k = cross_from(s, 0);
    if k >= s.len() {
        None
    } else {
        match (
            unsigned_value(trimmed(s.subrange(0, k)), u32::MAX as nat),
            unsigned_value(trimmed(s.subrange(k + 1, s.len() as int)), u32::MAX as nat),
        ) {
            (Some(w), Some(h)) => Some((w as u32, h as u32)),
            _ => None,
        }
    }
}

/// The size that `WIDTHxHEIGHT` names.
#[verifier::opaque]
pub open spec fn size_pair(s: Seq<char>) -> Option<(u32, u32)> {
    pair_of_numbers(s)
}

/// Reads `WIDTHxHEIGHT`.
pub fn parse_size_pair(s: &str) -> (r: Option<(u32, u32)>)
    ensures
        r == size_pair(s@),
        r == pair_of_numbers(s@),
{
    reveal(size_pair);
    let v = chars_of(s);
    let mut k: usize = 0;
    while k < v.len() && v[k] != 'x' && v[k] != 'X'
        invariant
            k <= v.len(),
            v@ == s@,
            cross_from(s@, k as int) == cross_from(s@, 0),
        decreases v.len() - k,
    {
        k = k + 1;
    }
    if k >= v.len() {
        return None;
    }
    let w = trim(string_between(&v, 0, k).as_str());
    let h = trim(string_between(&v, k + 1, v.len()).as_str());
    match (parse_unsigned(w.as_str(), u32::MAX as u64), parse_unsigned(h.as_str(), u32::MAX as u64)) {
        (Some(w), Some(h)) => Some((w as u32, h as u32)),
        _ => None,
    }
}

/// The text of an optional string.
pub open spec fn opt_text(o: Option<String>) -> Option<Seq<char>> {
    match o {
        Some(s) => Some(s@),
        None => None,
    }
}

/// A copy of an optional string.
pub fn copy_opt(o: &Option<String>) -> (r: Option<String>)
    ensures
        r == *o,
{
    match o {
        Some(s) => Some(s.clone()),
        None => None,
    }
}

/// What `{:?}` writes for a string: the text in double quotes, with escapes inside.
pub uninterp spec fn debug_text(s: Seq<char>) -> Seq<char>;

/// `format!` with `{:?}` on one string. The result depends on the string alone.
#[verifier::external_body]
pub(crate) fn debug_string(s: &str) -> (r: String)
    ensures
        r@ == debug_text(s@),
{
    format!("{:?}", s)
}

/// Ten to the power of `k`.
pub open spec fn power_of_ten(k: nat) -> nat
    decreases k,
{
    if k == 0 {
        1
    } else {
        10 * power_of_ten((k - 1) as nat)
    }
}

proof fn lemma_power_of_ten(k: nat)
    ensures
        power_of_ten(k) > 0,
        k > 0 ==> power_of_ten(k) == 10 * power_of_ten((k - 1) as nat),
    decreases k,
{
    if k > 0 {
        lemma_power_of_ten((k - 1) as nat);
    }
}

proof fn lemma_digit_above(n: nat, k: nat)
    requires
        k > 0,
    ensures
        n / power_of_ten(k) == (n / 10) / power_of_ten((k - 1) as nat),
{
    lemma_power_of_ten(k);
    lemma_power_of_ten((k - 1) as nat);
    lemma_div_denominator(n as int, 10, power_of_ten((k - 1) as nat) as int);
}

/// A number is written in decimal: its digit at place `k` from the right is the one that counts
/// the power of ten with that exponent, there are as many as it takes, and none is a leading zero.
pub proof fn a_number_is_written_digit_by_digit(n: nat, k: nat)
    ensures
        k < dec(n).len() ==> dec(n)[dec(n).len() - 1 - k] as u32 == 48 + n / power_of_ten(k) % 10,
        dec(n).len() > 0,
        n < power_of_ten(dec(n).len()),
        dec(n).len() > 1 ==> n >= power_of_ten((dec(n).len() - 1) as nat),
    decreases n,
{
    reveal_with_fuel(power_of_ten, 2);
    if n >= 10 {
        let upper = dec(n / 10);
        a_number_is_written_digit_by_digit(n / 10, 0);
        lemma_power_of_ten(dec(n).len());
        lemma_power_of_ten(upper.len());
        assert(dec(n).len() == upper.len() + 1);
        if 0 < k < dec(n).len() {
            a_number_is_written_digit_by_digit(n / 10, (k - 1) as nat);
            lemma_digit_above(n, k);
            assert(dec(n)[dec(n).len() - 1 - k] == upper[upper.len() - 1 - (k - 1)]);
        }
    }
}

proof fn lemma_digits(s: Seq<char>, k: nat)
    requires
        forall|i: int| 0 <= i < s.len() ==> 48 <= #[trigger] s[i] as u32 <= 57,
    ensures
        k < s.len() ==> digits_value(s) / power_of_ten(k) % 10 == s[s.len() - 1 - k] as u32 - 48,
        digits_value(s) < power_of_ten(s.len()),
    decreases s.len(),
{
    reveal_with_fuel(power_of_ten, 2);
    if s.len() > 0 {
        let upper = s.drop_last();
        lemma_power_of_ten(s.len());
        assert(48 <= s[s.len() - 1] as u32 <= 57);
        lemma_digits(upper, 0);
        let last = (s.last() as u32 - 48) as nat;
        assert(digits_value(s) == digits_value(upper) * 10 + last && last < 10);
        assert(digits_value(s) / 10 == digits_value(upper) && digits_value(s) % 10 == last);
        if k == 0 {
            assert(power_of_ten(0) == 1);
            assert(digits_value(s) / 1 == digits_value(s));
        }
        if 0 < k < s.len() {
            lemma_digits(upper, (k - 1) as nat);
            lemma_digit_above(digits_value(s), k);
            assert(upper[upper.len() - 1 - (k - 1)] == s[s.len() - 1 - k]);
        }
    }
}

/// What is read as a number is made of decimal digits, and it is the number whose digits these
/// are. Where it is more than `max` it is not read. One plus sign before it changes nothing.
pub proof fn a_number_is_read_digit_by_digit(d: Seq<char>, max: nat, k: nat)
    requires
        d.len() > 0,
        d[0] != '+',
    ensures
        unsigned_value(seq!['+'] + d, max) == unsigned_value(d, max),
        unsigned_value(d, max) matches Some(n) ==> {
            &&& n <= max
            &&& n < power_of_ten(d.len())
            &&& k < d.len() ==> {
                &&& 48 <= d[d.len() - 1 - k] as u32 <= 57
                &&& n / power_of_ten(k) % 10 == d[d.len() - 1 - k] as u32 - 48
            }
        },
        (forall|i: int| 0 <= i < d.len() ==> 48 <= #[trigger] d[i] as u32 <= 57) ==> {
            &&& unsigned_value(d, power_of_ten(d.len())) is Some
            &&& unsigned_value(d, max) == (if unsigned_value(d, power_of_ten(d.len()))->0 <= max {
                unsigned_value(d, power_of_ten(d.len()))
            } else {
                None
            })
        },
{
    assert((seq!['+'] + d).drop_first() =~= d);
    if forall|i: int| 0 <= i < d.len() ==> is_digit(#[trigger] d[i]) {
        assert forall|i: int| 0 <= i < d.len() implies 48 <= #[trigger] d[i] as u32 <= 57 by {
            assert(is_digit(d[i]));
        }
        lemma_digits(d, k);
        if k < d.len() {
            assert(is_digit(d[d.len() - 1 - k]));
        }
    } else {
        let i = choose|i: int| 0 <= i < d.len() && !is_digit(#[trigger] d[i]);
        assert(!(48 <= d[i] as u32 <= 57));
    }
}

/// A signed number is read back as it was written, and written with a minus sign exactly where it
/// is below zero.
pub proof fn a_signed_number_reads_back_as_it_was_written(n: i32)
    ensures
        signed_value(signed_dec(n as int)) == Some(n),
        n >= 0 ==> signed_dec(n as int) == dec(n as nat),
        n < 0 ==> signed_dec(n as int) == seq!['-'] + dec((0 - n) as nat),
{
    reveal_strlit("-");
    if n < 0 {
        let m = (0 - n) as nat;
        lemma_decimal_digits(m);
        a_number_reads_back_as_it_was_written(m, 0x8000_0000);
        assert(is_digit(dec(m)[0]));
        assert(signed_dec(n as int) =~= seq!['-'] + dec(m));
        assert(signed_dec(n as int).drop_first() =~= dec(m));
    } else {
        lemma_decimal_digits(n as nat);
        a_number_reads_back_as_it_was_written(n as nat, 0x7fff_ffff);
        assert(is_digit(dec(n as nat)[0]));
    }
}

proof fn lemma_no_cross(s: Seq<char>, from: int, k: int)
    requires
        0 <= from <= k < s.len(),
        s[k] == 'x' || s[k] == 'X',
        forall|i: int| from <= i < k ==> #[trigger] s[i] != 'x' && s[i] != 'X',
    ensures
        cross_from(s, from) == k,
    decreases k - from,
{
    if from < k {
        lemma_no_cross(s, from + 1, k);
    }
}

/// A size that is written as two numbers with an `x` between them is read as these numbers.
pub proof fn a_size_reads_back_as_it_was_written(w: u32, h: u32)
    ensures
        size_pair(dec(w as nat) + seq!['x'] + dec(h as nat)) == Some((w, h)),
        size_pair(dec(w as nat) + seq!['X'] + dec(h as nat)) == Some((w, h)),
{
    reveal(size_pair);
    lemma_decimal_digits(w as nat);
    a_number_reads_back_as_it_was_written(w as nat, u32::MAX as nat);
    a_number_reads_back_as_it_was_written(h as nat, u32::MAX as nat);
    let k = dec(w as nat).len() as int;
    let small = dec(w as nat) + seq!['x'] + dec(h as nat);
    let large = dec(w as nat) + seq!['X'] + dec(h as nat);
    assert forall|i: int| 0 <= i < k implies #[trigger] small[i] != 'x' && small[i] != 'X' by {
        assert(is_digit(dec(w as nat)[i]));
    }
    assert forall|i: int| 0 <= i < k implies #[trigger] large[i] != 'x' && large[i] != 'X' by {
        assert(is_digit(dec(w as nat)[i]));
    }
    lemma_no_cross(small, 0, k);
    lemma_no_cross(large, 0, k);
    assert(small.subrange(0, k) =~= dec(w as nat));
    assert(small.subrange(k + 1, small.len() as int) =~= dec(h as nat));
    assert(large.subrange(0, k) =~= dec(w as nat));
    assert(large.subrange(k + 1, large.len() as int) =~= dec(h as nat));
}

/// Every byte becomes two hexadecimal digits, the upper half first, in lower case.
pub proof fn every_byte_is_two_hexadecimal_digits(bytes: Seq<u8>, i: int)
    requires
        0 <= i < bytes.len(),
    ensures
        hex(bytes).len() == 2 * bytes.len(),
        ({
            let (high, low) = (hex(bytes)[2 * i] as u32, hex(bytes)[2 * i + 1] as u32);
            let upper = if high <= 57 { high - 48 } else { high - 97 + 10 };
            let lower = if low <= 57 { low - 48 } else { low - 97 + 10 };
            &&& 48 <= high <= 57 || 97 <= high <= 102
            &&& 48 <= low <= 57 || 97 <= low <= 102
            &&& bytes[i] == 16 * upper + lower
        }),
    decreases bytes.len(),
{
    lemma_hex_len(bytes);
    let before = bytes.drop_last();
    lemma_hex_len(before);
    if i < before.len() {
        every_byte_is_two_hexadecimal_digits(before, i);
        assert(hex(bytes)[2 * i] == hex(before)[2 * i]);
        assert(hex(bytes)[2 * i + 1] == hex(before)[2 * i + 1]);
    }
}

proof fn lemma_hex_len(bytes: Seq<u8>)
    ensures
        hex(bytes).len() == 2 * bytes.len(),
    decreases bytes.len(),
{
    if bytes.len() > 0 {
        lemma_hex_len(bytes.drop_last());
    }
}

/// Stripping takes characters off the ends of a text, those that are to be stripped and all of
/// them, and nothing else: what is left is one piece, and neither of its ends is such a character.
pub proof fn stripping_takes_off_the_ends_alone(s: Seq<char>, e: Edge)
    ensures
        exists|from: int, to: int|
            0 <= from <= to <= s.len() && strip(s, e) == #[trigger] s.subrange(from, to) && (forall|
                i: int,
            |
                (0 <= i < from || to <= i < s.len()) ==> on_edge(e, #[trigger] s[i])),
        strip(s, e).len() > 0 ==> !on_edge(e, strip(s, e)[0]) && !on_edge(e, strip(s, e).last()),
{
    let (from, to) = lemma_stripped(s, e);
    assert(strip(s, e) == s.subrange(from, to));
}

proof fn lemma_stripped(s: Seq<char>, e: Edge) -> (r: (int, int))
    ensures
        0 <= r.0 <= r.1 <= s.len(),
        strip(s, e) == s.subrange(r.0, r.1),
        forall|i: int| (0 <= i < r.0 || r.1 <= i < s.len()) ==> on_edge(e, #[trigger] s[i]),
        strip(s, e).len() > 0 ==> !on_edge(e, strip(s, e)[0]) && !on_edge(e, strip(s, e).last()),
{
    let from = lemma_front_stripped(s, e);
    let f = strip_front(s, e);
    let n = lemma_back_stripped(f, e);
    assert(f.subrange(0, n) =~= s.subrange(from, from + n));
    assert forall|i: int| (0 <= i < from || from + n <= i < s.len()) implies on_edge(
        e,
        #[trigger] s[i],
    ) by {
        if i >= from {
            assert(s[i] == f[i - from]);
        }
    }
    (from, from + n)
}

proof fn lemma_front_stripped(s: Seq<char>, e: Edge) -> (from: int)
    ensures
        0 <= from <= s.len(),
        strip_front(s, e) == s.subrange(from, s.len() as int),
        forall|i: int| 0 <= i < from ==> on_edge(e, #[trigger] s[i]),
        strip_front(s, e).len() > 0 ==> !on_edge(e, strip_front(s, e)[0]),
    decreases s.len(),
{
    if s.len() > 0 && on_edge(e, s[0]) {
        let rest = s.drop_first();
        let from = lemma_front_stripped(rest, e);
        assert(rest.subrange(from, rest.len() as int) =~= s.subrange(from + 1, s.len() as int));
        assert forall|i: int| 0 <= i < from + 1 implies on_edge(e, #[trigger] s[i]) by {
            if i > 0 {
                assert(s[i] == rest[i - 1]);
            }
        }
        from + 1
    } else {
        assert(s.subrange(0, s.len() as int) =~= s);
        0
    }
}

proof fn lemma_back_stripped(s: Seq<char>, e: Edge) -> (to: int)
    ensures
        0 <= to <= s.len(),
        strip_back(s, e) == s.subrange(0, to),
        forall|i: int| to <= i < s.len() ==> on_edge(e, #[trigger] s[i]),
        strip_back(s, e).len() > 0 ==> !on_edge(e, strip_back(s, e).last()),
    decreases s.len(),
{
    if s.len() > 0 && on_edge(e, s.last()) {
        let rest = s.drop_last();
        let to = lemma_back_stripped(rest, e);
        assert(rest.subrange(0, to) =~= s.subrange(0, to));
        assert forall|i: int| to <= i < s.len() implies on_edge(e, #[trigger] s[i]) by {
            if i < rest.len() {
                assert(s[i] == rest[i]);
            }
        }
        to
    } else {
        assert(s.subrange(0, s.len() as int) =~= s);
        s.len() as int
    }
}

/// White space is what Unicode calls so, quotes are single or double, and the separator of paths
/// is the slash.
pub proof fn what_is_stripped(c: char)
    ensures
        on_edge(Edge::White, c) == (c == '\u{9}' || c == '\u{a}' || c == '\u{b}' || c == '\u{c}' || c
            == '\u{d}' || c == ' ' || c == '\u{85}' || c == '\u{a0}' || c == '\u{1680}' || (
        '\u{2000}' <= c <= '\u{200a}') || c == '\u{2028}' || c == '\u{2029}' || c == '\u{202f}' || c
            == '\u{205f}' || c == '\u{3000}'),
        on_edge(Edge::Quote, c) == (c == '\'' || c == '"'),
        on_edge(Edge::Slash, c) == (c == '/'),
{
}

/// A text without such characters at its ends comes out whole when any number of them stand before
/// and behind it.
pub proof fn what_is_stripped_off_does_not_matter(
    before: Seq<char>,
    text: Seq<char>,
    behind: Seq<char>,
    e: Edge,
)
    requires
        text.len() > 0,
        !on_edge(e, text[0]),
        !on_edge(e, text.last()),
        forall|i: int| 0 <= i < before.len() ==> on_edge(e, #[trigger] before[i]),
        forall|i: int| 0 <= i < behind.len() ==> on_edge(e, #[trigger] behind[i]),
    ensures
        strip(before + text + behind, e) == text,
{
    let s = before + text + behind;
    let (from, to) = lemma_stripped(s, e);
    let a = before.len() as int;
    let b = a + text.len();
    assert(s[a] == text[0] && s[b - 1] == text.last());
    assert(from <= a);
    assert(b <= to);
    let r = strip(s, e);
    if from < a {
        assert(r[0] == s[from] && s[from] == before[from]);
    }
    if b < to {
        assert(r.last() == s[to - 1] && s[to - 1] == behind[to - 1 - b]);
    }
    assert(s.subrange(a, b) =~= text);
}

/// A text without an `x` names no size.
pub proof fn a_text_without_a_cross_names_no_size(s: Seq<char>)
    requires
        forall|i: int| 0 <= i < s.len() ==> #[trigger] s[i] != 'x' && s[i] != 'X',
    ensures
        size_pair(s) is None,
{
    reveal(size_pair);
    lemma_crossless(s, 0);
}

proof fn lemma_crossless(s: Seq<char>, from: int)
    requires
        0 <= from <= s.len(),
        forall|i: int| 0 <= i < s.len() ==> #[trigger] s[i] != 'x' && s[i] != 'X',
    ensures
        cross_from(s, from) == s.len(),
    decreases s.len() - from,
{
    if from < s.len() {
        lemma_crossless(s, from + 1);
    }
}

} // verus!
