//! The frame that carries a command or a reply: a four-byte big-endian count
//! of the ciphertext bytes, then the ciphertext.
use crate::cipher::{
    deobfuscate, deobfuscated, lemma_deobfuscate_obfuscated, lemma_obfuscate_deobfuscated,
    lemma_obfuscated_chain, obfuscate, obfuscated, INITIAL_KEY,
};
use crate::error::{text_outcome, ErrorView, TpLinkHs110Error};
use vstd::prelude::*;
use vstd::slice::slice_subrange;
use vstd::utf8::{encode_utf8, is_ascii_chars, is_ascii_chars_encode_utf8};

verus! {

/// Number of bytes of the length header.
pub const HEADER_LEN: usize = 4;

/// The header of a frame whose payload has `len` bytes: `len` modulo 2^32,
/// most significant byte first.
pub open spec fn length_header(len: nat) -> Seq<u8> {
    let n = len % 0x1_0000_0000;
    seq![
        (n / 256 / 256 / 256) as u8,
        (n / 256 / 256 % 256) as u8,
        (n / 256 % 256) as u8,
        (n % 256) as u8,
    ]
}

/// The payload length that the first four bytes of `raw` declare.
pub open spec fn declared_len(raw: Seq<u8>) -> nat {
    (((raw[0] * 256 + raw[1]) * 256 + raw[2]) * 256 + raw[3]) as nat
}

/// The frame of `payload`: its length header, then its ciphertext under the
/// fixed seed.
pub open spec fn framed(payload: Seq<u8>) -> Seq<u8> {
    length_header(payload.len()) + obfuscated(INITIAL_KEY, payload)
}

/// The text that a deciphered payload stands for: each byte is one character,
/// the one with that code point.
pub open spec fn text_of(bytes: Seq<u8>) -> Seq<char> {
    Seq::new(bytes.len(), |i: int| bytes[i] as char)
}

/// What a received buffer decodes to: the text of its payload, or the reason
/// why it is no frame.
pub open spec fn unframed(raw: Seq<u8>) -> Result<Seq<char>, ErrorView> {
    if raw.len() < HEADER_LEN {
        Err(ErrorView::ShortEncryptedResponse(raw.len()))
    } else if raw.len() - HEADER_LEN != declared_len(raw) {
        Err(
            ErrorView::EncryptedPayloadLengthMismatch {
                payload_len_actual: (raw.len() - HEADER_LEN) as nat,
                payload_len_from_header: declared_len(raw),
            },
        )
    } else {
        Ok(text_of(deobfuscated(INITIAL_KEY, raw.skip(HEADER_LEN as int))))
    }
}

/// A header declares the length it was made from, as far as 32 bits hold it.
pub proof fn lemma_header_declares(len: nat, rest: Seq<u8>)
    ensures
        length_header(len).len() == HEADER_LEN,
        declared_len(length_header(len) + rest) == len % 0x1_0000_0000,
{
    let raw = length_header(len) + rest;
    assert(raw[0] == length_header(len)[0]);
    assert(raw[1] == length_header(len)[1]);
    assert(raw[2] == length_header(len)[2]);
    assert(raw[3] == length_header(len)[3]);
}

/// Decoding the frame of a payload of at most `u32::MAX` bytes succeeds and
/// gives the payload's bytes back, one character for each.
pub proof fn lemma_unframe_framed(payload: Seq<u8>)
    requires
        payload.len() <= u32::MAX,
    ensures
        unframed(framed(payload)) == Ok::<Seq<char>, ErrorView>(text_of(payload)),
{
    let cipher = obfuscated(INITIAL_KEY, payload);
    lemma_header_declares(payload.len(), cipher);
    lemma_obfuscated_chain(INITIAL_KEY, payload);
    lemma_deobfuscate_obfuscated(INITIAL_KEY, payload);
    assert(framed(payload).skip(HEADER_LEN as int) =~= cipher);
}

/// The header of the length that four bytes declare is those four bytes.
pub proof fn lemma_header_of_declared(raw: Seq<u8>)
    requires
        raw.len() >= HEADER_LEN,
    ensures
        length_header(declared_len(raw)) == raw.take(HEADER_LEN as int),
{
    let q2: int = raw[0] * 256 + raw[1];
    let q1: int = q2 * 256 + raw[2];
    let n: int = q1 * 256 + raw[3];
    assert(n == declared_len(raw));
    assert(0 <= n < 0x1_0000_0000);
    assert(n % 0x1_0000_0000 == n);
    assert(n / 256 == q1 && n % 256 == raw[3]);
    assert(q1 / 256 == q2 && q1 % 256 == raw[2]);
    assert(q2 / 256 == raw[0] && q2 % 256 == raw[1]);
    assert(length_header(n as nat) =~= raw.take(HEADER_LEN as int));
}

/// A buffer that decodes is the frame of what it decodes to: nothing but the
/// frame of a payload is accepted.
pub proof fn lemma_unframed_was_framed(raw: Seq<u8>)
    requires
        unframed(raw) is Ok,
    ensures
        raw == framed(deobfuscated(INITIAL_KEY, raw.skip(HEADER_LEN as int))),
{
    let cipher = raw.skip(HEADER_LEN as int);
    let payload = deobfuscated(INITIAL_KEY, cipher);
    lemma_obfuscate_deobfuscated(INITIAL_KEY, cipher);
    lemma_header_of_declared(raw);
    assert(raw =~= raw.take(HEADER_LEN as int) + cipher);
}

/// A command text of ASCII characters that is at most `u32::MAX` bytes long
/// survives the round trip through its frame unchanged.
pub proof fn lemma_frame_roundtrip(text: Seq<char>)
    requires
        is_ascii_chars(text),
        text.len() <= u32::MAX,
    ensures
        unframed(framed(encode_utf8(text))) == Ok::<Seq<char>, ErrorView>(text),
{
    is_ascii_chars_encode_utf8(text);
    let payload = encode_utf8(text);
    lemma_unframe_framed(payload);
    assert forall|i: int| 0 <= i < text.len() implies text_of(payload)[i] == text[i] by {
        assert(payload[i] == text[i] as u8);
        assert('\0' <= text[i] <= '\u{7f}');
    }
    assert(text_of(payload) =~= text);
}

/// Wraps `payload` into a frame: the count of its bytes as a big-endian `u32`
/// (the count modulo 2^32 where it is larger), then its ciphertext.
pub fn encode_frame(payload: &[u8]) -> (frame: Vec<u8>)
    ensures
        frame@ == framed(payload@),
{
    let len: u64 = payload.len() as u64;
    let n: u64 = len % 0x1_0000_0000;
    let mut frame: Vec<u8> = Vec::new();
    frame.push((n / 256 / 256 / 256) as u8);
    frame.push((n / 256 / 256 % 256) as u8);
    frame.push((n / 256 % 256) as u8);
    frame.push((n % 256) as u8);
    let mut cipher = obfuscate(INITIAL_KEY, payload);
    proof {
        assert(frame@ =~= length_header(payload@.len()));
    }
    frame.append(&mut cipher);
    frame
}

/// Unwraps a received buffer: checks that it holds a header and exactly as
/// many payload bytes as the header declares, deciphers the payload and reads
/// each byte as one character.
pub fn decode_frame(raw: &[u8]) -> (r: Result<String, TpLinkHs110Error>)
    ensures
        text_outcome(r) == unframed(raw@),
{
    if raw.len() < HEADER_LEN {
        return Err(TpLinkHs110Error::ShortEncryptedResponse(raw.len()));
    }
    let high: u32 = (raw[0] as u32) * 256 + (raw[1] as u32);
    let payload_len_from_header: u32 = (high * 256 + (raw[2] as u32)) * 256 + (raw[3] as u32);
    let payload_len_actual: usize = raw.len() - HEADER_LEN;
    if payload_len_actual != payload_len_from_header as usize {
        return Err(
            TpLinkHs110Error::EncryptedPayloadLengthMismatch {
                payload_len_actual,
                payload_len_from_header,
            },
        );
    }
    let plain = deobfuscate(INITIAL_KEY, slice_subrange(raw, HEADER_LEN, raw.len()));
    let mut text = String::new();
    let mut i: usize = 0;
    while i < plain.len()
        invariant
            i <= plain@.len(),
            text@ == text_of(plain@.take(i as int)),
        decreases plain@.len() - i,
    {
        text.push(plain[i] as char);
        proof {
            assert(text@ =~= text_of(plain@.take(i + 1)));
        }
        i = i + 1;
    }
    proof {
        assert(plain@.take(i as int) =~= plain@);
        assert(raw@.subrange(HEADER_LEN as int, raw@.len() as int) =~= raw@.skip(
            HEADER_LEN as int,
        ));
    }
    Ok(text)
}

} // verus!
