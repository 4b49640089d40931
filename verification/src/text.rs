//! The texts and bytes that a logger puts out.

use vstd::prelude::*;
use vstd::utf8::*;

verus! {

/// The line that a message makes in the log.
pub open spec fn line_of(message: Seq<char>) -> Seq<char> {
    message.push('\n')
}

/// Ends the message with a line feed.
pub fn log_line(message: &String) -> (text: String)
    ensures
        text@ == line_of(message@),
        text@ == message@ + seq!['\n'],
{
    let mut text = message.clone();
    text.append("\n");
    proof {
        reveal_strlit("\n");
        assert(text@ =~= line_of(message@));
    }
    text
}

/// The notice for a message that could not be logged.
pub open spec fn log_failure_of(error: Seq<char>, message: Seq<char>) -> Seq<char> {
    "Failed to log "@ + error + " "@ + message
}

/// Words the notice that `message` could not be logged because of `error`.
pub fn log_failure(error: &String, message: &String) -> (text: String)
    ensures
        text@ == log_failure_of(error@, message@),
{
    let mut text = "Failed to log ".to_owned();
    text.append(error.as_str());
    text.append(" ");
    text.append(message.as_str());
    text
}

/// The notice for bytes that a channel did not take.
pub open spec fn channel_failure_of(error: Seq<char>) -> Seq<char> {
    "Output into Channel error: "@ + error
}

/// Words the notice that a channel refused what was sent, because of `error`.
pub fn channel_failure(error: &String) -> (text: String)
    ensures
        text@ == channel_failure_of(error@),
{
    let mut text = "Output into Channel error: ".to_owned();
    text.append(error.as_str());
    text
}

/// The characters whose code points are the given bytes.
pub open spec fn code_points(bytes: Seq<u8>) -> Seq<char> {
    bytes.map_values(|b: u8| b as char)
}

/// What a channel receives when `bytes` are written to it: each byte is read
/// as the character of that code point, and the characters are encoded in
/// UTF-8.
pub open spec fn channel_bytes_of(bytes: Seq<u8>) -> Seq<u8> {
    encode_utf8(code_points(bytes))
}

/// The UTF-8 encoding of a code point below 256.
proof fn lemma_encode_byte(b: u8)
    ensures
        encode_scalar((b as char) as u32) == if b < 0x80 {
            seq![b]
        } else {
            seq![0xC0u8 | (b >> 6), 0x80u8 | (b & 0x3F)]
        },
{
    let c = b as u32;
    assert((b as char) as u32 == c);
    if b < 0x80 {
        assert(c as u8 == leading_byte_width_1(c)) by (bit_vector)
            requires
                c < 0x80,
        ;
        assert(encode_scalar(c) =~= seq![b]);
    } else {
        assert(leading_byte_width_2(c) == 0xC0u8 | (b >> 6) && last_continuation_byte(c) == 0x80u8
            | (b & 0x3F)) by (bit_vector)
            requires
                c == b as u32,
                b >= 0x80,
        ;
        assert(encode_scalar(c) =~= seq![0xC0u8 | (b >> 6), 0x80u8 | (b & 0x3F)]);
    }
}

/// Encodes bytes for a channel.
pub fn channel_bytes(bytes: &[u8]) -> (encoded: Vec<u8>)
    ensures
        encoded@ == channel_bytes_of(bytes@),
{
    let mut encoded: Vec<u8> = Vec::new();
    let mut i: usize = 0;
    let ghost chars = code_points(bytes@);
    assert(chars.skip(0) =~= chars);
    while i < bytes.len()
        invariant
            i <= bytes@.len(),
            chars == code_points(bytes@),
            encoded@ + encode_utf8(chars.skip(i as int)) == channel_bytes_of(bytes@),
        decreases bytes@.len() - i,
    {
        let b: u8 = bytes[i];
        let ghost before = encoded@;
        if b < 0x80 {
            encoded.push(b);
        } else {
            encoded.push(0xC0 | (b >> 6));
            encoded.push(0x80 | (b & 0x3F));
        }
        proof {
            let rest = chars.skip(i as int);
            lemma_encode_byte(b);
            assert(rest[0] == b as char);
            assert(rest.drop_first() =~= chars.skip(i + 1));
            assert(encoded@ =~= before + encode_scalar(rest[0] as u32));
            assert(encoded@ + encode_utf8(chars.skip(i + 1)) =~= before + encode_utf8(rest));
        }
        i += 1;
    }
    assert(chars.skip(i as int) =~= Seq::<char>::empty());
    assert(encoded@ + encode_utf8(chars.skip(i as int)) =~= encoded@);
    encoded
}

} // verus!
