//! Percent-encoder for embedding text in a URL.
//!
//! A string is encoded byte by byte over its UTF-8 representation: every
//! byte outside the printable ASCII range (controls, DEL, and everything
//! at or above 0x80), plus space, `"`, `<`, `>` and the backtick, becomes
//! `%XX` with two uppercase hexadecimal digits; every other byte stands
//! for itself.
use vstd::prelude::*;
use vstd::utf8::encode_utf8;

verus! {

/// True of the bytes that must be escaped before they may stand in a URL:
/// everything but printable ASCII, plus space, `"`, `<`, `>` and backtick.
pub open spec fn is_unsafe_byte(b: u8) -> bool {
    b <= 0x20 || b >= 0x7f || b == 0x22 || b == 0x3c || b == 0x3e || b == 0x60
}

/// The uppercase hexadecimal digit for a value below 16.
pub open spec fn hex_char(n: u8) -> char
    recommends
        n < 16,
{
    if n < 10 {
        (('0' as u8) + n) as char
    } else {
        (('A' as u8) + (n - 10)) as char
    }
}

/// What one byte contributes to the encoded output: itself when safe,
/// `%XX` when not.
pub open spec fn escape_byte(b: u8) -> Seq<char> {
    if is_unsafe_byte(b) {
        seq!['%', hex_char(b / 16), hex_char(b % 16)]
    } else {
        seq![b as char]
    }
}

/// The concatenation of the escapes of each byte.
pub open spec fn escape_bytes(bs: Seq<u8>) -> Seq<char>
    decreases bs.len(),
{
    if bs.len() == 0 {
        Seq::empty()
    } else {
        escape_byte(bs[0]) + escape_bytes(bs.drop_first())
    }
}

/// The percent-encoding of a string: its UTF-8 bytes, each escaped or
/// passed through.
pub open spec fn encoded(s: Seq<char>) -> Seq<char> {
    escape_bytes(encode_utf8(s))
}

/// Relies on `String::push`: appends exactly the one character.
#[verifier::external_body]
fn push_char(s: &mut String, c: char)
    ensures
        final(s)@ == old(s)@ + seq![c],
{
    s.push(c);
}

/// The uppercase hexadecimal digit for a value below 16.
fn hex_char_exec(n: u8) -> (c: char)
    requires
        n < 16,
    ensures
        c == hex_char(n),
{
    if n < 10 {
        (('0' as u8) + n) as char
    } else {
        (('A' as u8) + (n - 10)) as char
    }
}

/// What a concatenation of byte sequences encodes to is the concatenation
/// of what each encodes to.
pub proof fn lemma_escape_bytes_concat(a: Seq<u8>, b: Seq<u8>)
    ensures
        escape_bytes(a + b) == escape_bytes(a) + escape_bytes(b),
    decreases a.len(),
{
    if a.len() == 0 {
        assert(a + b =~= b);
        assert(escape_bytes(a) + escape_bytes(b) =~= escape_bytes(b));
    } else {
        assert((a + b).drop_first() =~= a.drop_first() + b);
        assert((a + b)[0] == a[0]);
        assert(a + b =~= seq![(a + b)[0]] + (a + b).drop_first());
        assert(escape_bytes(a + b) == escape_byte(a[0]) + escape_bytes(a.drop_first() + b));
        lemma_escape_bytes_concat(a.drop_first(), b);
        assert(escape_byte(a[0]) + (escape_bytes(a.drop_first()) + escape_bytes(b)) =~= (
        escape_byte(a[0]) + escape_bytes(a.drop_first())) + escape_bytes(b));
    }
}

proof fn lemma_escape_bytes_push(bs: Seq<u8>, b: u8)
    ensures
        escape_bytes(bs.push(b)) == escape_bytes(bs) + escape_byte(b),
{
    assert(bs.push(b) =~= bs + seq![b]);
    lemma_escape_bytes_concat(bs, seq![b]);
    assert(seq![b].drop_first() =~= Seq::<u8>::empty());
    assert(escape_bytes(seq![b]) == escape_byte(b) + escape_bytes(Seq::<u8>::empty()));
    assert(escape_byte(b) + Seq::<char>::empty() =~= escape_byte(b));
}

/// True of the characters that the encoder leaves alone: printable ASCII
/// other than space, `"`, `<`, `>` and backtick.
pub open spec fn is_safe_char(c: char) -> bool {
    c <= '\u{7f}' && !is_unsafe_byte(c as u8)
}

proof fn lemma_escape_bytes_safe_id(bs: Seq<u8>)
    requires
        forall|i: int| 0 <= i < bs.len() ==> !is_unsafe_byte(#[trigger] bs[i]),
    ensures
        escape_bytes(bs).len() == bs.len(),
        forall|i: int| 0 <= i < bs.len() ==> escape_bytes(bs)[i] == #[trigger] bs[i] as char,
    decreases bs.len(),
{
    if bs.len() > 0 {
        lemma_escape_bytes_safe_id(bs.drop_first());
        assert(escape_bytes(bs) == seq![bs[0] as char] + escape_bytes(bs.drop_first()));
        assert forall|i: int| 0 <= i < bs.len() implies escape_bytes(bs)[i] == #[trigger] bs[i]
            as char by {
            if i > 0 {
                assert(bs.drop_first()[i - 1] == bs[i]);
            }
        }
    }
}

/// Encoding a string in which every character is safe changes nothing.
pub proof fn lemma_encode_keeps_safe_strings(s: Seq<char>)
    requires
        forall|i: int| 0 <= i < s.len() ==> is_safe_char(#[trigger] s[i]),
    ensures
        encoded(s) == s,
{
    assert forall|i: int| 0 <= i < s.len() implies '\0' <= #[trigger] s[i] <= '\u{7f}' by {
        assert(is_safe_char(s[i]));
        assert(s[i] as u32 >= 0);
        vstd::utf8::char_u32_cast(s[i], s[i] as u32);
        assert('\0' as u32 == 0);
        assert('\0' <= s[i]);
    }
    assert(vstd::utf8::is_ascii_chars(s));
    vstd::utf8::is_ascii_chars_encode_utf8(s);
    let bs = encode_utf8(s);
    assert(forall|i: int| 0 <= i < bs.len() ==> !is_unsafe_byte(#[trigger] bs[i])) by {
        assert(forall|i: int| 0 <= i < s.len() ==> bs[i] == #[trigger] s[i] as u8);
    }
    lemma_escape_bytes_safe_id(bs);
    assert forall|i: int| 0 <= i < s.len() implies encoded(s)[i] == s[i] by {
        assert(bs[i] == s[i] as u8);
        assert(s[i] <= '\u{7f}');
        assert((s[i] as u8) as char == s[i]);
    }
    assert(encoded(s) =~= s);
}

proof fn lemma_hex_char_safe(n: u8)
    requires
        n < 16,
    ensures
        is_safe_char(hex_char(n)),
{
    if n < 10 {
        assert((('0' as u8) + n) as char as u8 == 0x30 + n);
    } else {
        assert((('A' as u8) + (n - 10)) as char as u8 == 0x41 + (n - 10));
    }
}

proof fn lemma_escape_bytes_all_safe(bs: Seq<u8>)
    ensures
        forall|i: int|
            0 <= i < escape_bytes(bs).len() ==> is_safe_char(#[trigger] escape_bytes(bs)[i]),
    decreases bs.len(),
{
    if bs.len() > 0 {
        lemma_escape_bytes_all_safe(bs.drop_first());
        let b = bs[0];
        assert forall|i: int| 0 <= i < escape_byte(b).len() implies is_safe_char(
            #[trigger] escape_byte(b)[i],
        ) by {
            if is_unsafe_byte(b) {
                assert(is_safe_char('%'));
                lemma_hex_char_safe(b / 16);
                lemma_hex_char_safe(b % 16);
            } else {
                assert(b as char as u8 == b);
            }
        }
        assert forall|i: int| 0 <= i < escape_bytes(bs).len() implies is_safe_char(
            #[trigger] escape_bytes(bs)[i],
        ) by {
            assert(escape_bytes(bs) == escape_byte(b) + escape_bytes(bs.drop_first()));
            if i >= escape_byte(b).len() {
                assert(escape_bytes(bs)[i] == escape_bytes(bs.drop_first())[i - escape_byte(
                    b,
                ).len()]);
            }
        }
    }
}

/// Every character of an encoded string is safe.
pub proof fn lemma_encoded_is_safe(s: Seq<char>)
    ensures
        forall|i: int| 0 <= i < encoded(s).len() ==> is_safe_char(#[trigger] encoded(s)[i]),
{
    lemma_escape_bytes_all_safe(encode_utf8(s));
}

/// Encoding is idempotent: a second pass over an encoded string is a no-op.
pub proof fn lemma_encode_idempotent(s: Seq<char>)
    ensures
        encoded(encoded(s)) == encoded(s),
{
    lemma_encoded_is_safe(s);
    lemma_encode_keeps_safe_strings(encoded(s));
}

/// Encoding never removes characters: the result is at least as long as
/// the input.
pub proof fn lemma_encode_no_loss(s: Seq<char>)
    ensures
        encoded(s).len() >= s.len(),
    decreases s.len(),
{
    if s.len() > 0 {
        lemma_encode_no_loss(s.drop_first());
        let first = vstd::utf8::encode_scalar(s[0] as u32);
        assert(first.len() >= 1);
        lemma_escape_bytes_concat(first, encode_utf8(s.drop_first()));
        lemma_escape_bytes_len(first);
        lemma_escape_bytes_len(encode_utf8(s.drop_first()));
        assert(escape_bytes(encode_utf8(s.drop_first())).len() >= s.drop_first().len());
    }
}

proof fn lemma_escape_bytes_len(bs: Seq<u8>)
    ensures
        escape_bytes(bs).len() >= bs.len(),
    decreases bs.len(),
{
    if bs.len() > 0 {
        lemma_escape_bytes_len(bs.drop_first());
    }
}

/// Percent-encode a string for use in a URL.
pub fn encode(s: &str) -> (r: String)
    ensures
        r@ == encoded(s@),
{
    let bytes: Vec<u8> = s.as_bytes_vec();
    let mut out: String = String::new();
    let mut i: usize = 0;
    while i < bytes.len()
        invariant
            i <= bytes.len(),
            bytes@ == encode_utf8(s@),
            out@ == escape_bytes(bytes@.take(i as int)),
        decreases bytes.len() - i,
    {
        let b = bytes[i];
        if b > 0x20 && b < 0x7f && b != 0x22 && b != 0x3c && b != 0x3e && b != 0x60 {
            push_char(&mut out, b as char);
        } else {
            push_char(&mut out, '%');
            push_char(&mut out, hex_char_exec(b / 16));
            push_char(&mut out, hex_char_exec(b % 16));
        }
        proof {
            assert(bytes@.take(i + 1) =~= bytes@.take(i as int).push(bytes@[i as int]));
            lemma_escape_bytes_push(bytes@.take(i as int), bytes@[i as int]);
            assert(out@ =~= escape_bytes(bytes@.take(i + 1)));
        }
        i = i + 1;
    }
    proof {
        assert(bytes@.take(bytes@.len() as int) =~= bytes@);
    }
    out
}

} // verus!
