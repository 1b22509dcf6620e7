//! Percent-encoding of free-form query values.

use vstd::prelude::*;
use vstd::string::*;
use vstd::utf8::*;

verus! {

/// The ASCII bytes that may not appear raw in an encoded query value: the
/// C0 control bytes `0x00..=0x1F`, the space, and the punctuation
/// ``! # $ & ' ( ) * + , / : ; = ? @ [ ] .`` The delete byte `0x7F` is not
/// among them.
pub open spec fn is_reserved(byte: u8) -> bool {
    ||| byte < 0x20
    ||| byte == 0x20  // space
    ||| byte == 0x21  // !
    ||| byte == 0x23  // #
    ||| byte == 0x24  // $
    ||| byte == 0x26  // &
    ||| byte == 0x27  // '
    ||| byte == 0x28  // (
    ||| byte == 0x29  // )
    ||| byte == 0x2A  // *
    ||| byte == 0x2B  // +
    ||| byte == 0x2C  // ,
    ||| byte == 0x2E  // .
    ||| byte == 0x2F  // /
    ||| byte == 0x3A  // :
    ||| byte == 0x3B  // ;
    ||| byte == 0x3D  // =
    ||| byte == 0x3F  // ?
    ||| byte == 0x40  // @
    ||| byte == 0x5B  // [
    ||| byte == 0x5D  // ]
}

/// A byte is escaped when it is reserved or lies outside ASCII.
pub open spec fn is_escaped(byte: u8) -> bool {
    byte >= 0x80 || is_reserved(byte)
}

/// Whether `c` is one of the reserved ASCII characters.
pub open spec fn is_reserved_char(c: char) -> bool {
    c <= '\u{7f}' && is_reserved(c as u8)
}

/// Whether `c` passes through the encoding as it is: an ASCII character
/// that is not reserved.
pub open spec fn is_plain_char(c: char) -> bool {
    c <= '\u{7f}' && !is_reserved(c as u8)
}

/// The upper-case hexadecimal digit for a value below sixteen.
pub open spec fn hex_upper(nibble: u8) -> char
    recommends
        nibble < 16,
{
    if nibble < 10 {
        (0x30u8 + nibble) as char
    } else {
        (0x37u8 + nibble) as char
    }
}

/// The three-character escape of a byte: `%` and two upper-case hex digits.
pub open spec fn escape_of(byte: u8) -> Seq<char> {
    seq!['%', hex_upper(byte / 16), hex_upper(byte % 16)]
}

/// What one byte of the input contributes to the encoded value.
pub open spec fn encoded_byte(byte: u8) -> Seq<char> {
    if is_escaped(byte) {
        escape_of(byte)
    } else {
        seq![byte as char]
    }
}

/// The percent-encoding of a byte string.
pub open spec fn encoded_bytes(bytes: Seq<u8>) -> Seq<char>
    decreases bytes.len(),
{
    if bytes.len() == 0 {
        Seq::empty()
    } else {
        encoded_bytes(bytes.drop_last()) + encoded_byte(bytes.last())
    }
}

/// The percent-encoding of a string: that of its UTF-8 bytes.
pub open spec fn encoded(value: Seq<char>) -> Seq<char> {
    encoded_bytes(encode_utf8(value))
}

/// Calls `percent_encoding::percent_encode_byte`, which looks the byte up in
/// a table of `%00` to `%FF`: the result is `%` followed by the byte's two
/// upper-case hexadecimal digits.
#[verifier::external_body]
fn escape_byte(byte: u8) -> (escape: &'static str)
    ensures
        escape@ == escape_of(byte),
{
    percent_encoding::percent_encode_byte(byte)
}

/// Calls `String::push`, which appends one character to the string.
#[verifier::external_body]
fn push_char(text: &mut String, c: char)
    ensures
        final(text)@ == old(text)@.push(c),
{
    text.push(c)
}

/// Decides whether a byte has to be escaped.
pub fn must_escape(byte: u8) -> (escape: bool)
    ensures
        escape == is_escaped(byte),
{
    byte < 0x20 || byte >= 0x80 || byte == 0x20 || byte == 0x21 || (0x23 <= byte && byte <= 0x24)
        || (0x26 <= byte && byte <= 0x2C) || (0x2E <= byte && byte <= 0x2F) || (0x3A <= byte
        && byte <= 0x3B) || byte == 0x3D || (0x3F <= byte && byte <= 0x40) || byte == 0x5B || byte
        == 0x5D
}

/// Percent-encodes a free-form query value. Every reserved or non-ASCII byte
/// of its UTF-8 form becomes a `%XX` escape; every other byte stays as it is.
/// The result is ASCII, and no reserved character is left in it.
pub fn percent_encode(value: &str) -> (out: String)
    ensures
        out@ == encoded(value@),
        forall|i: int| 0 <= i < out@.len() ==> is_plain_char(#[trigger] out@[i]),
        forall|i: int| 0 <= i < out@.len() ==> !is_reserved_char(#[trigger] out@[i]),
{
    let bytes = value.as_bytes();
    let mut out = String::new();
    let mut i: usize = 0;
    while i < bytes.len()
        invariant
            i <= bytes@.len(),
            out@ == encoded_bytes(bytes@.take(i as int)),
        decreases bytes@.len() - i,
    {
        let byte = bytes[i];
        assert(bytes@.take(i + 1).drop_last() =~= bytes@.take(i as int));
        if must_escape(byte) {
            out.append(escape_byte(byte));
        } else {
            push_char(&mut out, byte as char);
            assert(out@ =~= encoded_bytes(bytes@.take(i as int)) + seq![byte as char]);
        }
        i += 1;
    }
    proof {
        assert(bytes@.take(i as int) =~= bytes@);
        lemma_encoded_is_plain(bytes@);
        lemma_encoded_has_no_reserved(bytes@);
    }
    out
}

/// An escape is made of `%` and hexadecimal digits, all of them plain.
proof fn lemma_escape_is_plain(byte: u8)
    ensures
        forall|i: int| 0 <= i < 3 ==> is_plain_char(#[trigger] escape_of(byte)[i]),
{
    let hi = byte / 16;
    let lo = byte % 16;
    assert(hi < 16 && lo < 16);
    lemma_hex_is_plain(hi);
    lemma_hex_is_plain(lo);
    assert(is_plain_char('%'));
}

/// A hexadecimal digit is a character of `0-9A-F`, all of them plain.
proof fn lemma_hex_is_plain(nibble: u8)
    requires
        nibble < 16,
    ensures
        is_plain_char(hex_upper(nibble)),
{
    let c = hex_upper(nibble);
    if nibble < 10 {
        assert(c as u32 == 0x30 + nibble);
    } else {
        assert(c as u32 == 0x37 + nibble);
    }
}

/// An encoded value is made of plain characters only, whatever was encoded:
/// it is ASCII, and no reserved character is left in it.
pub proof fn lemma_encoded_is_plain(bytes: Seq<u8>)
    ensures
        forall|i: int|
            0 <= i < encoded_bytes(bytes).len() ==> is_plain_char(
                #[trigger] encoded_bytes(bytes)[i],
            ),
    decreases bytes.len(),
{
    if bytes.len() > 0 {
        lemma_encoded_is_plain(bytes.drop_last());
        let byte = bytes.last();
        let head = encoded_bytes(bytes.drop_last());
        let tail = encoded_byte(byte);
        if is_escaped(byte) {
            lemma_escape_is_plain(byte);
        } else {
            assert((byte as char) as u32 == byte);
        }
        assert forall|i: int| 0 <= i < encoded_bytes(bytes).len() implies is_plain_char(
            #[trigger] encoded_bytes(bytes)[i],
        ) by {
            if i < head.len() {
                assert(encoded_bytes(bytes)[i] == head[i]);
            } else {
                assert(encoded_bytes(bytes)[i] == tail[i - head.len()]);
            }
        }
    }
}

/// An encoded value holds no reserved character, whatever was encoded.
pub proof fn lemma_encoded_has_no_reserved(bytes: Seq<u8>)
    ensures
        forall|i: int|
            0 <= i < encoded_bytes(bytes).len() ==> !is_reserved_char(
                #[trigger] encoded_bytes(bytes)[i],
            ),
{
    lemma_encoded_is_plain(bytes);
    assert forall|i: int| 0 <= i < encoded_bytes(bytes).len() implies !is_reserved_char(
        #[trigger] encoded_bytes(bytes)[i],
    ) by {
        assert(is_plain_char(encoded_bytes(bytes)[i]));
    }
}

/// Bytes that need no escape are encoded as themselves.
proof fn lemma_plain_bytes_unchanged(bytes: Seq<u8>)
    requires
        forall|i: int| 0 <= i < bytes.len() ==> !is_escaped(#[trigger] bytes[i]),
    ensures
        encoded_bytes(bytes).len() == bytes.len(),
        forall|i: int| 0 <= i < bytes.len() ==> #[trigger] encoded_bytes(bytes)[i] == bytes[i] as char,
    decreases bytes.len(),
{
    if bytes.len() > 0 {
        let front = bytes.drop_last();
        assert forall|i: int| 0 <= i < front.len() implies !is_escaped(#[trigger] front[i]) by {
            assert(front[i] == bytes[i]);
        }
        lemma_plain_bytes_unchanged(front);
        assert(!is_escaped(bytes.last()));
        assert forall|i: int| 0 <= i < bytes.len() implies #[trigger] encoded_bytes(bytes)[i]
            == bytes[i] as char by {
            if i < front.len() {
                assert(encoded_bytes(bytes)[i] == encoded_bytes(front)[i]);
                assert(front[i] == bytes[i]);
            }
        }
    }
}

/// A plain character is an ASCII character.
proof fn lemma_plain_char_is_ascii(c: char)
    requires
        is_plain_char(c),
    ensures
        '\0' <= c <= '\u{7f}',
        (c as u8) as char == c,
{
}

/// A value made of plain characters only is its own encoding.
pub proof fn lemma_plain_value_unchanged(value: Seq<char>)
    requires
        forall|i: int| 0 <= i < value.len() ==> is_plain_char(#[trigger] value[i]),
    ensures
        encoded(value) == value,
{
    assert(is_ascii_chars(value)) by {
        assert forall|i: int| 0 <= i < value.len() implies '\0' <= #[trigger] value[i]
            <= '\u{7f}' by {
            lemma_plain_char_is_ascii(value[i]);
        }
    }
    is_ascii_chars_encode_utf8(value);
    let bytes = encode_utf8(value);
    assert forall|i: int| 0 <= i < bytes.len() implies !is_escaped(#[trigger] bytes[i]) by {
        assert(is_plain_char(value[i]));
        assert(bytes[i] == value[i] as u8);
    }
    lemma_plain_bytes_unchanged(bytes);
    assert forall|i: int| 0 <= i < value.len() implies encoded(value)[i] == value[i] by {
        lemma_plain_char_is_ascii(value[i]);
        assert(bytes[i] == value[i] as u8);
        assert(encoded_bytes(bytes)[i] == bytes[i] as char);
    }
    assert(encoded(value) =~= value);
}

/// Encoding is idempotent: an encoded value is made of plain characters,
/// so encoding it once more changes nothing.
pub proof fn lemma_encoding_idempotent(value: Seq<char>)
    ensures
        encoded(encoded(value)) == encoded(value),
{
    lemma_encoded_is_plain(encode_utf8(value));
    lemma_plain_value_unchanged(encoded(value));
}

} // verus!
