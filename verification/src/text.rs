//! Character and string helpers shared by the scenes.
use vstd::prelude::*;
use vstd::string::*;
use vstd::utf8::*;

verus! {

/// ASCII upper-casing of one character, as `char::to_ascii_uppercase` defines it.
pub open spec fn ascii_upper(c: char) -> char {
    if 'a' <= c && c <= 'z' {
        ((c as u32) - 32) as char
    } else {
        c
    }
}

/// ASCII lower-casing of one character, as `char::to_ascii_lowercase` defines it.
pub open spec fn ascii_lower(c: char) -> char {
    if 'A' <= c && c <= 'Z' {
        ((c as u32) + 32) as char
    } else {
        c
    }
}

/// Upper-cases `c` when it is an ASCII lower-case letter and keeps it otherwise.
pub fn to_ascii_upper(c: char) -> (r: char)
    ensures
        r == ascii_upper(c),
{
    if 'a' <= c && c <= 'z' {
        let b: u32 = (c as u32) - 32;
        (b as u8) as char
    } else {
        c
    }
}

/// Lower-cases `c` when it is an ASCII upper-case letter and keeps it otherwise.
pub fn to_ascii_lower(c: char) -> (r: char)
    ensures
        r == ascii_lower(c),
{
    if 'A' <= c && c <= 'Z' {
        let b: u32 = (c as u32) + 32;
        (b as u8) as char
    } else {
        c
    }
}

/// Number of bytes in the UTF-8 encoding of `s`: what `str::len` returns.
pub open spec fn byte_len(s: Seq<char>) -> nat {
    encode_utf8(s).len()
}

/// Encoding a sequence with one more character appends that character's encoding.
pub proof fn lemma_encode_utf8_push(s: Seq<char>, c: char)
    ensures
        encode_utf8(s.push(c)) == encode_utf8(s) + encode_scalar(c as u32),
    decreases s.len(),
{
    if s.len() == 0 {
        assert(s.push(c).drop_first() =~= Seq::<char>::empty());
        assert(encode_utf8(Seq::<char>::empty()) =~= Seq::<u8>::empty());
        assert(encode_utf8(s) =~= Seq::<u8>::empty());
        assert(encode_utf8(s.push(c)) =~= encode_scalar(c as u32));
    } else {
        lemma_encode_utf8_push(s.drop_first(), c);
        assert(s.push(c).drop_first() =~= s.drop_first().push(c));
        assert(encode_utf8(s.push(c)) =~= encode_utf8(s) + encode_scalar(c as u32));
    }
}

/// Every character takes at least one byte, so the byte length grows on a push.
pub proof fn lemma_byte_len_push(s: Seq<char>, c: char)
    ensures
        byte_len(s.push(c)) >= byte_len(s) + 1,
        '\0' <= c <= '\u{7f}' ==> byte_len(s.push(c)) == byte_len(s) + 1,
{
    lemma_encode_utf8_push(s, c);
    char_is_scalar(c);
}

/// For ASCII text the byte length is the number of characters.
pub proof fn lemma_byte_len_ascii(s: Seq<char>)
    requires
        is_ascii_chars(s),
    ensures
        byte_len(s) == s.len(),
{
    is_ascii_chars_encode_utf8(s);
}

/// Number of bytes in the UTF-8 encoding of `c` (`char::len_utf8`).
pub fn utf8_width(c: char) -> (w: usize)
    ensures
        w == encode_scalar(c as u32).len(),
        1 <= w <= 4,
{
    proof {
        char_is_scalar(c);
    }
    let v = c as u32;
    if v <= 0x7F {
        1
    } else if v <= 0x7FF {
        2
    } else if v <= 0xFFFF {
        3
    } else {
        4
    }
}

/// Whether `str::len` of `s` (its length in bytes) is below `bound`.
pub fn byte_len_below(s: &str, bound: usize) -> (r: bool)
    ensures
        r == (byte_len(s@) < bound),
{
    if bound == 0 {
        return false;
    }
    let n = s.unicode_len();
    let mut total: usize = 0;
    let mut i: usize = 0;
    while i < n
        invariant
            n == s@.len(),
            i <= n,
            total == byte_len(s@.take(i as int)),
            total < bound,
        decreases n - i,
    {
        let c = s.get_char(i);
        let w = utf8_width(c);
        proof {
            lemma_encode_utf8_push(s@.take(i as int), c);
            assert(s@.take(i + 1) =~= s@.take(i as int).push(c));
        }
        if w >= bound - total {
            proof {
                lemma_byte_len_prefix(s@, i + 1);
            }
            return false;
        }
        total = total + w;
        i = i + 1;
    }
    assert(s@.take(n as int) =~= s@);
    true
}

/// The byte length of a prefix never exceeds that of the whole text.
pub proof fn lemma_byte_len_prefix(s: Seq<char>, k: int)
    requires
        0 <= k <= s.len(),
    ensures
        byte_len(s.take(k)) <= byte_len(s),
    decreases s.len() - k,
{
    if k < s.len() {
        lemma_byte_len_prefix(s, k + 1);
        lemma_encode_utf8_push(s.take(k), s[k]);
        assert(s.take(k + 1) =~= s.take(k).push(s[k]));
    } else {
        assert(s.take(k) =~= s);
    }
}

/// Appends one character to a string (`String::push`).
#[verifier::external_body]
pub(crate) fn push_char(s: &mut String, c: char)
    ensures
        final(s)@ == old(s)@.push(c),
{
    s.push(c)
}

/// Removes the last character of a string, if any (`String::pop`).
#[verifier::external_body]
pub(crate) fn pop_char(s: &mut String) -> (r: Option<char>)
    ensures
        old(s)@.len() == 0 ==> r is None && final(s)@ == old(s)@,
        old(s)@.len() > 0 ==> r == Some(old(s)@.last()) && final(s)@ == old(s)@.drop_last(),
{
    s.pop()
}

/// Decimal digit character for `d < 10`.
pub open spec fn digit_char(d: nat) -> char {
    (('0' as u32) + d) as char
}

/// Decimal representation of a natural number, without leading zeros.
pub open spec fn decimal(n: nat) -> Seq<char>
    decreases n,
{
    if n < 10 {
        seq![digit_char(n)]
    } else {
        decimal(n / 10).push(digit_char(n % 10))
    }
}

/// Decimal representation of an integer, with a leading `-` when negative.
pub open spec fn signed_decimal(n: int) -> Seq<char> {
    if n < 0 {
        seq!['-'] + decimal((-n) as nat)
    } else {
        decimal(n as nat)
    }
}

/// Appends the decimal representation of `n` to `out`, the text that
/// `Display` writes for an unsigned integer.
pub fn push_decimal(out: &mut String, n: u32)
    ensures
        final(out)@ == old(out)@ + decimal(n as nat),
    decreases n,
{
    if n < 10 {
        push_char(out, digit_of(n));
        assert(old(out)@.push(digit_char(n as nat)) =~= old(out)@ + decimal(n as nat));
    } else {
        push_decimal(out, n / 10);
        push_char(out, digit_of(n % 10));
        assert(decimal(n as nat) == decimal((n / 10) as nat).push(digit_char((n % 10) as nat)));
        assert(old(out)@ + decimal((n / 10) as nat) + seq![digit_char((n % 10) as nat)]
            =~= old(out)@ + decimal(n as nat));
    }
}

/// The digit character for `d < 10`.
fn digit_of(d: u32) -> (c: char)
    requires
        d < 10,
    ensures
        c == digit_char(d as nat),
{
    let b: u8 = (d as u8) + 48;
    b as char
}

/// Decimal text of an unsigned integer, as `u32::to_string` gives it.
pub fn u32_to_string(n: u32) -> (s: String)
    ensures
        s@ == decimal(n as nat),
{
    let mut s = String::new();
    push_decimal(&mut s, n);
    assert(Seq::<char>::empty() + decimal(n as nat) =~= decimal(n as nat));
    s
}

/// Decimal text of a signed integer, as `i32::to_string` gives it.
pub fn i32_to_string(n: i32) -> (s: String)
    ensures
        s@ == signed_decimal(n as int),
{
    let mut s = String::new();
    if n < 0 {
        push_char(&mut s, '-');
        let m: u32 = (-(n as i64)) as u32;
        push_decimal(&mut s, m);
        assert(seq!['-'] + decimal(m as nat) =~= signed_decimal(n as int));
    } else {
        push_decimal(&mut s, n as u32);
        assert(Seq::<char>::empty() + decimal(n as nat) =~= signed_decimal(n as int));
    }
    s
}

/// `s` with every ASCII lower-case letter upper-cased.
pub open spec fn ascii_uppercased(s: Seq<char>) -> Seq<char> {
    s.map_values(|c: char| ascii_upper(c))
}

/// Copy of `s` in ASCII upper case, as `str::to_ascii_uppercase` gives it.
pub fn to_ascii_uppercase(s: &str) -> (r: String)
    ensures
        r@ == ascii_uppercased(s@),
{
    let n = s.unicode_len();
    let mut r = String::new();
    let mut i: usize = 0;
    while i < n
        invariant
            n == s@.len(),
            i <= n,
            r@ == ascii_uppercased(s@.take(i as int)),
        decreases n - i,
    {
        let c = s.get_char(i);
        push_char(&mut r, to_ascii_upper(c));
        assert(ascii_uppercased(s@.take(i + 1)) =~= ascii_uppercased(s@.take(i as int)).push(
            ascii_upper(c),
        ));
        i = i + 1;
    }
    assert(s@.take(n as int) =~= s@);
    r
}

/// Upper-casing twice gives the same text as upper-casing once, and keeps
/// the number of characters.
pub proof fn lemma_uppercase_idempotent(s: Seq<char>)
    ensures
        ascii_uppercased(ascii_uppercased(s)) == ascii_uppercased(s),
        ascii_uppercased(s).len() == s.len(),
{
    assert(ascii_uppercased(ascii_uppercased(s)) =~= ascii_uppercased(s));
}

/// `a` followed by `b`, as `format!("{}{}", a, b)` gives it.
pub fn concat(a: &str, b: &str) -> (r: String)
    ensures
        r@ == a@ + b@,
{
    let mut r = a.to_owned();
    r.append(b);
    r
}

} // verus!
