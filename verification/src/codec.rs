//! The byte codecs behind the charsets.
//!
//! Turning bytes into text and text into bytes is the work of other crates.
//! Each function here makes one such call and is believed, not proved: its
//! contract gives the result a name, so that the contracts of the library
//! can say exactly which result they speak of.

use crate::charset::SaoriCharset;
use std::borrow::Cow;
use vstd::prelude::*;

verus! {

/// The text that `String::from_utf8_lossy` reads from `bytes`: the text that
/// the bytes encode in UTF-8, with U+FFFD in place of what is not
/// well-formed.
pub uninterp spec fn lossy_utf8(bytes: Seq<u8>) -> Seq<char>;

/// What `encoding_rs::Encoding::decode` gives for `bytes`, called on the
/// codec of `charset`: the text, and whether anything malformed was met (and
/// replaced by U+FFFD in the text). A byte order mark at the start of
/// `bytes` is not part of the text and decides the codec in place of
/// `charset`.
pub uninterp spec fn decoded(charset: SaoriCharset, bytes: Seq<u8>) -> (Seq<char>, bool);

/// What `encoding::Encoding::encode` gives for `text` with
/// `EncoderTrap::Strict`, called on the codec of `charset`: the bytes, or
/// `None` where a character of `text` cannot be written in that charset.
pub uninterp spec fn encoded(charset: SaoriCharset, text: Seq<char>) -> Option<Seq<u8>>;

/// The codes of the characters of a text of ASCII characters, as bytes.
pub open spec fn ascii_bytes(text: Seq<char>) -> Seq<u8> {
    Seq::new(text.len(), |i: int| text[i] as u8)
}

/// The bytes that `text` is written as in `charset`, or `None` where it
/// cannot be written. A text of ASCII characters is written as the codes of
/// its characters, in every charset of the protocol; any other text is
/// written as the encoder of the charset says.
pub open spec fn written(charset: SaoriCharset, text: Seq<char>) -> Option<Seq<u8>> {
    if vstd::utf8::is_ascii_chars(text) {
        Some(ascii_bytes(text))
    } else {
        encoded(charset, text)
    }
}

/// The longest request that is handed to the decoder. The decoder sizes its
/// output as a small multiple of the length of its input, rounded up to a
/// power of two, and panics where that does not fit in `usize`.
pub const MAX_REQUEST_LEN: usize = usize::MAX / 16;

/// Calls `String::from_utf8_lossy`. Believed: the text that comes back is
/// the one named `lossy_utf8`.
#[verifier::external_body]
pub(crate) fn from_utf8_lossy(bytes: &[u8]) -> (text: String)
    ensures
        text@ == lossy_utf8(bytes@),
{
    String::from_utf8_lossy(bytes).into_owned()
}

/// Calls `encoding_rs::Encoding::decode` on `SHIFT_JIS`, `EUC_JP`, `UTF_8` or
/// `ISO_2022_JP` of `encoding_rs`. Believed: the text and the flag that come
/// back are the pair named `decoded`.
#[verifier::external_body]
pub(crate) fn decode(charset: SaoriCharset, bytes: &[u8]) -> (result: (String, bool))
    requires
        bytes@.len() <= MAX_REQUEST_LEN,
    ensures
        (result.0@, result.1) == decoded(charset, bytes@),
{
    let codec = match charset {
        SaoriCharset::ShiftJIS => encoding_rs::SHIFT_JIS,
        SaoriCharset::EucJP => encoding_rs::EUC_JP,
        SaoriCharset::UTF8 => encoding_rs::UTF_8,
        SaoriCharset::ISO2022JP => encoding_rs::ISO_2022_JP,
    };
    let (text, _, malformed) = codec.decode(bytes);
    (text.into_owned(), malformed)
}

/// Calls `encoding::Encoding::encode` with `EncoderTrap::Strict` on
/// `WINDOWS_31J`, `EUC_JP`, `UTF_8` or `ISO_2022_JP` of `encoding::all`.
/// Believed: the bytes that come back are those named `encoded`, and an
/// error comes back exactly where `encoded` is `None`; and a text of ASCII
/// characters comes back as the codes of its characters. (Each of the four
/// encoders begins in its ASCII state and writes a character up to U+007F
/// as one byte, its code.)
#[verifier::external_body]
pub(crate) fn encode(charset: SaoriCharset, text: &str) -> (result: Result<
    Vec<u8>,
    Cow<'static, str>,
>)
    ensures
        match result {
            Ok(bytes) => encoded(charset, text@) == Some(bytes@) && written(charset, text@)
                == Some(bytes@),
            Err(_) => encoded(charset, text@) is None && written(charset, text@) is None,
        },
{
    let codec: encoding::EncodingRef = match charset {
        SaoriCharset::ShiftJIS => encoding::all::WINDOWS_31J,
        SaoriCharset::EucJP => encoding::all::EUC_JP,
        SaoriCharset::UTF8 => encoding::all::UTF_8,
        SaoriCharset::ISO2022JP => encoding::all::ISO_2022_JP,
    };
    codec.encode(text, encoding::EncoderTrap::Strict)
}

} // verus!
