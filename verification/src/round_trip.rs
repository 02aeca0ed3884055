//! From the bytes of a request to the response that answers it.

use crate::charset::SaoriCharset;
use crate::codec::{decoded, lossy_utf8};
use crate::error::SaoriRequestCharsetError;
use crate::grammar::{declared_charset, decoded_request, first_line, RequestView};
use crate::lines::lines_of;
use crate::number::decimal;
use crate::response::{
    ascii_codes, lemma_ascii_response_bytes, lemma_only_ok_has_body, ResponseView,
};
use crate::status::SaoriStatus;
use vstd::prelude::*;

verus! {

/// The lines after the first change neither the charset, nor the command,
/// nor the version of a request.
pub proof fn lemma_lines_keep_first_line(start: RequestView, lines: Seq<Seq<char>>)
    ensures
        start.after_lines(lines) matches Ok(end) ==> end.charset == start.charset && end.command
            == start.command && end.version == start.version,
    decreases lines.len(),
{
    if lines.len() > 0 {
        match start.after_line(lines[0]) {
            Ok(next) => lemma_lines_keep_first_line(next, lines.skip(1)),
            Err(_) => {},
        }
    }
}

/// A request is answered in its own charset. Where `bytes` decode to a
/// request, the charset of that request is the one that the `Charset` line of
/// `bytes` names, or `ShiftJIS` where they have no such line; and the
/// response made for the request, before anything is set in it, is the
/// `NoContent` response whose `Charset` line names that same charset. That
/// response can be written in any charset, as the codes of its characters.
pub proof fn lemma_reply_keeps_charset(bytes: Seq<u8>)
    requires
        decoded_request(bytes) is Ok,
    ensures
        ({
            let request = decoded_request(bytes)->Ok_0;
            let reply = ResponseView::answering(request);
            &&& declared_charset(lines_of(lossy_utf8(bytes))) == Ok::<
                SaoriCharset,
                SaoriRequestCharsetError,
            >(request.charset)
            &&& reply.status == SaoriStatus::NoContent
            &&& reply.charset == request.charset
            &&& reply.text() == "SAORI/1.0 204 No Content\r\nCharset: "@ + request.charset.wire()
                + "\r\n\r\n\0"@
            &&& reply.bytes() == Some(ascii_codes(reply.text()))
        }),
{
    let request = decoded_request(bytes)->Ok_0;
    let reply = ResponseView::answering(request);
    let charset = declared_charset(lines_of(lossy_utf8(bytes)))->Ok_0;
    let contents = decoded(charset, bytes).0;
    let lines = lines_of(contents);
    let (command, version) = first_line(Some(lines[0]))->Ok_0;
    lemma_lines_keep_first_line(RequestView::bare(charset, command, version), lines.skip(1));
    lemma_only_ok_has_body(reply);
    reveal_with_fuel(decimal, 3);
    reveal_strlit("SAORI/1.0 204 No Content\r\nCharset: ");
    reveal_strlit("SAORI/1.0");
    reveal_strlit(" ");
    reveal_strlit("No Content");
    reveal_strlit("\r\nCharset: ");
    reveal_strlit("\r\n");
    reveal_strlit("\r\n\0");
    reveal_strlit("\r\n\r\n\0");
    assert(decimal(204) =~= seq!['2', '0', '4']);
    assert(reply.text() =~= "SAORI/1.0 204 No Content\r\nCharset: "@ + request.charset.wire()
        + "\r\n\r\n\0"@);
    reveal_strlit("Shift_JIS");
    reveal_strlit("EUC-JP");
    reveal_strlit("UTF-8");
    reveal_strlit("ISO-2022-JP");
    assert(vstd::utf8::is_ascii_chars(request.charset.wire()));
    assert(vstd::utf8::is_ascii_chars(reply.text()));
    lemma_ascii_response_bytes(reply);
}

} // verus!
