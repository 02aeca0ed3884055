//! A response to the host: what it holds, how its status follows from that,
//! and the text and bytes it is sent as.

use crate::charset::SaoriCharset;
use crate::codec::{ascii_bytes, encode, written};
use crate::grammar::RequestView;
use crate::number::{decimal, decimal_string};
use crate::request::SaoriRequest;
use crate::slots::{put_at, put_string_at};
use crate::status::{nothing_to_say, status_after_change, SaoriStatus};
use crate::text::string_texts;
use crate::tokens::SaoriVersion;
use std::borrow::Cow;
use vstd::prelude::*;
use vstd::string::*;

verus! {

/// Why a response could not be turned into bytes.
#[derive(PartialEq, Eq, Structural, Debug, Clone, Copy)]
pub enum SaoriResponseError {
    /// The response holds a character that its charset cannot write.
    EncodeFailed,
}

/// The `Result` line of a response: none where the result is empty.
pub open spec fn result_line(result: Seq<char>) -> Seq<char> {
    if result.len() == 0 {
        Seq::empty()
    } else {
        "Result: "@ + result + "\r\n"@
    }
}

/// The `Value` lines of the first `count` values, each under its index.
pub open spec fn value_lines(values: Seq<Seq<char>>, count: nat) -> Seq<char>
    decreases count,
{
    if count == 0 {
        Seq::empty()
    } else {
        let index = (count - 1) as nat;
        value_lines(values, index) + "Value"@ + decimal(index) + ": "@ + values[index as int]
            + "\r\n"@
    }
}

/// What a response holds: the view of a [`SaoriResponse`].
#[verifier::ext_equal]
pub struct ResponseView {
    pub version: SaoriVersion,
    pub status: SaoriStatus,
    pub result: Seq<char>,
    pub values: Seq<Seq<char>>,
    pub charset: SaoriCharset,
}

impl ResponseView {
    /// The response to a request that could not be decoded.
    pub open spec fn bad_request() -> ResponseView {
        ResponseView {
            version: SaoriVersion::V1_0,
            status: SaoriStatus::BadRequest,
            result: Seq::empty(),
            values: Seq::empty(),
            charset: SaoriCharset::UTF8,
        }
    }

    /// The response that the answer to a request begins with: the version
    /// and the charset of the request, and nothing to say yet.
    pub open spec fn answering(request: RequestView) -> ResponseView {
        ResponseView {
            version: request.version,
            status: SaoriStatus::NoContent,
            result: Seq::empty(),
            values: Seq::empty(),
            charset: request.charset,
        }
    }

    /// The response with its status set to `status`, whatever it holds.
    pub open spec fn with_status(self, status: SaoriStatus) -> ResponseView {
        ResponseView { status, ..self }
    }

    /// The response with its status brought up to date with what it holds.
    pub open spec fn refreshed(self) -> ResponseView {
        ResponseView {
            status: status_after_change(self.status, self.result, self.values),
            ..self
        }
    }

    /// The response after its result was set.
    pub open spec fn with_result(self, result: Seq<char>) -> ResponseView {
        (ResponseView { result, ..self }).refreshed()
    }

    /// The response after the value at `index` was set.
    pub open spec fn with_value_at(self, index: nat, value: Seq<char>) -> ResponseView {
        (ResponseView { values: put_at(self.values, index, value), ..self }).refreshed()
    }

    /// The response after all its values were set.
    pub open spec fn with_values(self, values: Seq<Seq<char>>) -> ResponseView {
        (ResponseView { values, ..self }).refreshed()
    }

    /// The lines between the `Charset` line and the empty line: only a
    /// response with status `OK` has any.
    pub open spec fn body(self) -> Seq<char> {
        if self.status == SaoriStatus::OK {
            result_line(self.result) + value_lines(self.values, self.values.len())
        } else {
            Seq::empty()
        }
    }

    /// The response as text: the status line, the `Charset` line, the body,
    /// an empty line and a NUL.
    pub open spec fn text(self) -> Seq<char> {
        self.version.wire() + " "@ + decimal(self.status.code()) + " "@ + self.status.phrase()
            + "\r\nCharset: "@ + self.charset.wire() + "\r\n"@ + self.body() + "\r\n\0"@
    }

    /// The response as bytes in its charset; `None` where its text holds a
    /// character that the charset cannot write.
    pub open spec fn bytes(self) -> Option<Seq<i8>> {
        match written(self.charset, self.text()) {
            Some(bytes) => Some(signed(bytes)),
            None => None,
        }
    }
}

/// The byte `b` read as a signed number.
pub open spec fn signed_byte(b: u8) -> i8 {
    if b < 128 {
        b as i8
    } else {
        (b - 256) as i8
    }
}

/// The bytes of `bytes`, each read as a signed number.
pub open spec fn signed(bytes: Seq<u8>) -> Seq<i8> {
    Seq::new(bytes.len(), |i: int| signed_byte(bytes[i]))
}

/// Reads each byte of `bytes` as a signed number.
pub fn to_signed(bytes: &Vec<u8>) -> (out: Vec<i8>)
    ensures
        out@ == signed(bytes@),
{
    let mut out: Vec<i8> = Vec::new();
    let mut i: usize = 0;
    while i < bytes.len()
        invariant
            i <= bytes.len(),
            out@ == signed(bytes@.take(i as int)),
        decreases bytes.len() - i,
    {
        let b = bytes[i];
        let s: i8 = if b < 128 {
            b as i8
        } else {
            (b as i16 - 256) as i8
        };
        out.push(s);
        assert(out@ == signed(bytes@.take(i + 1)));
        i += 1;
    }
    assert(bytes@.take(i as int) == bytes@);
    out
}

/// Whether `result` is what encoding `response` gives: its bytes, or
/// `EncodeFailed` where its charset cannot write it.
pub open spec fn is_encoding_of(
    result: Result<Vec<i8>, SaoriResponseError>,
    response: ResponseView,
) -> bool {
    match result {
        Ok(bytes) => response.bytes() == Some(bytes@),
        Err(e) => e == SaoriResponseError::EncodeFailed && response.bytes() is None,
    }
}

/// The text of the response that is sent where no other can be.
pub open spec fn error_text() -> Seq<char> {
    "SAORI/1.0 500 Internal Server Error\r\nCharset: UTF-8\r\n\r\n\0"@
}

/// The bytes of a text of ASCII characters: the code of each character.
pub open spec fn ascii_codes(text: Seq<char>) -> Seq<i8> {
    Seq::new(text.len(), |i: int| text[i] as u8 as i8)
}

/// A response whose text holds ASCII characters only can be written in any
/// charset, and its bytes are the codes of those characters.
pub proof fn lemma_ascii_response_bytes(response: ResponseView)
    requires
        vstd::utf8::is_ascii_chars(response.text()),
    ensures
        response.bytes() == Some(ascii_codes(response.text())),
{
    let text = response.text();
    assert(signed(ascii_bytes(text)) =~= ascii_codes(text)) by {
        assert forall|i: int| 0 <= i < text.len() implies signed(ascii_bytes(text))[i]
            == ascii_codes(text)[i] by {
            assert('\0' <= text[i] <= '\u{7f}');
        }
    }
}

/// The text of the fixed error response holds ASCII characters only.
pub proof fn lemma_error_text_is_ascii()
    ensures
        vstd::utf8::is_ascii_chars(error_text()),
{
    reveal_strlit("SAORI/1.0 500 Internal Server Error\r\nCharset: UTF-8\r\n\r\n\0");
}

/// A response to the host. Its status follows what it holds, unless it was
/// set to one of the error statuses.
#[derive(PartialEq, Debug)]
pub struct SaoriResponse {
    pub version: SaoriVersion,
    pub status: SaoriStatus,
    pub result: String,
    pub values: Vec<String>,
    pub charset: SaoriCharset,
}

impl View for SaoriResponse {
    type V = ResponseView;

    open spec fn view(&self) -> ResponseView {
        ResponseView {
            version: self.version,
            status: self.status,
            result: self.result@,
            values: string_texts(self.values@),
            charset: self.charset,
        }
    }
}

impl SaoriResponse {
    /// An empty response with status `BadRequest`, in UTF-8.
    pub fn new_bad_request() -> (response: SaoriResponse)
        ensures
            response@ == ResponseView::bad_request(),
    {
        SaoriResponse {
            version: SaoriVersion::V1_0,
            status: SaoriStatus::BadRequest,
            result: String::new(),
            values: Vec::new(),
            charset: SaoriCharset::UTF8,
        }
    }

    /// An empty response to `request`, in its version and charset, with
    /// status `NoContent`.
    pub fn from_request(request: &SaoriRequest) -> (response: SaoriResponse)
        ensures
            response@ == ResponseView::answering(request@),
    {
        SaoriResponse {
            version: *request.version(),
            status: SaoriStatus::NoContent,
            result: String::new(),
            values: Vec::new(),
            charset: *request.charset(),
        }
    }

    /// The status of the response.
    pub fn status(&self) -> (status: &SaoriStatus)
        ensures
            *status == self@.status,
    {
        &self.status
    }

    /// Sets the status, whatever the response holds. A later change of the
    /// result or the values replaces it again, unless it is sticky.
    pub fn set_status(&mut self, status: SaoriStatus)
        ensures
            final(self)@ == old(self)@.with_status(status),
    {
        self.status = status;
    }

    /// The result: what the `Result` line of the response says.
    pub fn result(&self) -> (result: &str)
        ensures
            result@ == self@.result,
    {
        self.result.as_str()
    }

    /// Sets the result and brings the status up to date.
    pub fn set_result(&mut self, result: String)
        ensures
            final(self)@ == old(self)@.with_result(result@),
    {
        self.result = result;
        self.on_change_result_and_value();
    }

    /// The values, each at its index: what the `Value` lines of the
    /// response say.
    pub fn values(&self) -> (values: &[String])
        ensures
            string_texts(values@) == self@.values,
    {
        self.values.as_slice()
    }

    /// Sets the value at `index` and brings the status up to date. Values
    /// that are missing up to `index` become empty strings.
    pub fn set_value_at(&mut self, index: usize, value: String)
        ensures
            final(self)@ == old(self)@.with_value_at(index as nat, value@),
    {
        put_string_at(&mut self.values, index, value);
        self.on_change_result_and_value();
    }

    /// Sets all the values and brings the status up to date.
    pub fn set_values(&mut self, values: Vec<String>)
        ensures
            final(self)@ == old(self)@.with_values(string_texts(values@)),
    {
        self.values = values;
        self.on_change_result_and_value();
    }

    /// The response as text, as it is sent once encoded.
    pub fn to_string(&self) -> (text: String)
        ensures
            text@ == self@.text(),
    {
        let mut text = String::from_str(self.version.to_str());
        text.append(" ");
        text.append(decimal_string(self.status.to_code() as usize).as_str());
        text.append(" ");
        text.append(self.status.to_str());
        text.append("\r\nCharset: ");
        text.append(self.charset.to_str());
        text.append("\r\n");
        let ghost head = text@;
        match self.status {
            SaoriStatus::OK => {
                if !self.result.as_str().is_empty() {
                    text.append("Result: ");
                    text.append(self.result.as_str());
                    text.append("\r\n");
                }
                let ghost values = string_texts(self.values@);
                let mut index: usize = 0;
                assert(text@ =~= head + result_line(self.result@) + value_lines(values, 0));
                while index < self.values.len()
                    invariant
                        index <= self.values.len(),
                        values == string_texts(self.values@),
                        text@ == head + result_line(self.result@) + value_lines(
                            values,
                            index as nat,
                        ),
                    decreases self.values.len() - index,
                {
                    let ghost before = text@;
                    text.append("Value");
                    text.append(decimal_string(index).as_str());
                    text.append(": ");
                    text.append(self.values[index].as_str());
                    text.append("\r\n");
                    proof {
                        let line = "Value"@ + decimal(index as nat) + ": "@ + values[index as int]
                            + "\r\n"@;
                        assert(text@ =~= before + line);
                        assert(value_lines(values, (index + 1) as nat) =~= value_lines(
                            values,
                            index as nat,
                        ) + line);
                    }
                    index += 1;
                }
                assert(text@ =~= head + self@.body());
            },
            _ => {
                assert(text@ =~= head + self@.body());
            },
        }
        text.append("\r\n\0");
        text
    }

    /// The response as bytes in its charset, each byte as a signed number.
    /// A response that holds ASCII characters only can be written in every
    /// charset. Where the charset cannot write the response, a caller sends
    /// [`SaoriResponse::error_bytes`] in its place.
    pub fn to_encoded_bytes(&self) -> (result: Result<Vec<i8>, SaoriResponseError>)
        ensures
            is_encoding_of(result, self@),
    {
        let text = self.to_string();
        SaoriResponse::encoded_or_failed(encode(self.charset, text.as_str()))
    }

    /// Makes of what an encoder gave what a caller of this library gets:
    /// the bytes as signed numbers, or `EncodeFailed` for any error.
    pub fn encoded_or_failed(outcome: Result<Vec<u8>, Cow<'static, str>>) -> (result: Result<
        Vec<i8>,
        SaoriResponseError,
    >)
        ensures
            match outcome {
                Ok(bytes) => result matches Ok(signed_bytes) && signed_bytes@ == signed(bytes@),
                Err(_) => result matches Err(e) && e == SaoriResponseError::EncodeFailed,
            },
    {
        match outcome {
            Ok(bytes) => Ok(to_signed(&bytes)),
            Err(_) => Err(SaoriResponseError::EncodeFailed),
        }
    }

    /// The bytes to send where a response cannot be encoded: an empty
    /// response with status `InternalServerError`, in UTF-8. It is written
    /// down here, byte for byte, and passes through no codec.
    pub fn error_bytes() -> (bytes: Vec<i8>)
        ensures
            bytes@ == ascii_codes(error_text()),
    {
        let text = "SAORI/1.0 500 Internal Server Error\r\nCharset: UTF-8\r\n\r\n\0";
        let bytes = to_signed(&text.as_bytes_vec());
        proof {
            lemma_error_text_is_ascii();
            vstd::utf8::is_ascii_chars_encode_utf8(text@);
            assert(bytes@ =~= ascii_codes(text@));
        }
        bytes
    }

    /// Brings the status up to date with the result and the values.
    fn on_change_result_and_value(&mut self)
        ensures
            final(self)@ == old(self)@.refreshed(),
    {
        self.status = self.status.after_change(self.result.as_str(), self.values.as_slice());
    }
}

/// A change of what a response holds: a call of `set_result`,
/// `set_value_at` or `set_values`.
pub enum Change {
    Result(Seq<char>),
    ValueAt(nat, Seq<char>),
    Values(Seq<Seq<char>>),
}

impl ResponseView {
    /// The response after `change`.
    pub open spec fn changed(self, change: Change) -> ResponseView {
        match change {
            Change::Result(result) => self.with_result(result),
            Change::ValueAt(index, value) => self.with_value_at(index, value),
            Change::Values(values) => self.with_values(values),
        }
    }

    /// The response after `changes`, one after the other.
    pub open spec fn changed_by(self, changes: Seq<Change>) -> ResponseView
        decreases changes.len(),
    {
        if changes.len() == 0 {
            self
        } else {
            self.changed_by(changes.drop_last()).changed(changes.last())
        }
    }
}

/// After any changes of the result and the values, a response whose status
/// was not sticky has a status that follows what it holds: `NoContent`
/// where the result and all the values are empty, `OK` where one of them is
/// not. This holds after one change or more, and after none for a response
/// whose status was up to date, as that of a new response to a request is.
/// (A status that `set_status` has just set stays until the next change.)
pub proof fn lemma_status_follows_content(start: ResponseView, changes: Seq<Change>)
    requires
        !start.status.is_sticky(),
        changes.len() > 0 || start.status == start.refreshed().status,
    ensures
        ({
            let end = start.changed_by(changes);
            &&& end.status == SaoriStatus::NoContent <==> nothing_to_say(end.result, end.values)
            &&& end.status == SaoriStatus::OK <==> !nothing_to_say(end.result, end.values)
        }),
{
    if changes.len() > 0 {
        lemma_status_stays_loose(start, changes.drop_last());
    }
}

/// Changes of the result and the values never make a status sticky.
pub proof fn lemma_status_stays_loose(start: ResponseView, changes: Seq<Change>)
    requires
        !start.status.is_sticky(),
    ensures
        !start.changed_by(changes).status.is_sticky(),
    decreases changes.len(),
{
    if changes.len() > 0 {
        lemma_status_stays_loose(start, changes.drop_last());
    }
}

/// A sticky status stays through any changes of the result and the values.
pub proof fn lemma_sticky_status_stays(start: ResponseView, changes: Seq<Change>)
    requires
        start.status.is_sticky(),
    ensures
        start.changed_by(changes).status == start.status,
    decreases changes.len(),
{
    if changes.len() > 0 {
        lemma_sticky_status_stays(start, changes.drop_last());
    }
}

/// Only a response with status `OK` has lines between its `Charset` line and
/// its empty line, whatever it holds.
pub proof fn lemma_only_ok_has_body(response: ResponseView)
    requires
        response.status != SaoriStatus::OK,
    ensures
        response.text() == response.version.wire() + " "@ + decimal(response.status.code()) + " "@
            + response.status.phrase() + "\r\nCharset: "@ + response.charset.wire() + "\r\n"@
            + "\r\n\0"@,
{
    assert(response.body() =~= Seq::<char>::empty());
    let head = response.version.wire() + " "@ + decimal(response.status.code()) + " "@
        + response.status.phrase() + "\r\nCharset: "@ + response.charset.wire() + "\r\n"@;
    assert(head + response.body() =~= head);
}

/// Encoding is a matter of what the response holds and nothing else: two
/// encodings of one response give the same bytes, or fail both.
pub proof fn lemma_encoding_repeats(
    response: ResponseView,
    first: Result<Vec<i8>, SaoriResponseError>,
    second: Result<Vec<i8>, SaoriResponseError>,
)
    requires
        is_encoding_of(first, response),
        is_encoding_of(second, response),
    ensures
        first is Ok <==> second is Ok,
        first is Ok ==> first->Ok_0@ == second->Ok_0@,
        first is Err ==> first == second,
{
}

/// The fixed error response is what a response with status
/// `InternalServerError` in UTF-8 is sent as, whatever it holds: its text is
/// the fixed text, and its bytes are the fixed bytes.
pub proof fn lemma_error_text_is_a_response(response: ResponseView)
    requires
        response.version == SaoriVersion::V1_0,
        response.status == SaoriStatus::InternalServerError,
        response.charset == SaoriCharset::UTF8,
    ensures
        response.text() == error_text(),
        response.bytes() == Some(ascii_codes(error_text())),
{
    lemma_error_text_is_the_text_of(response);
    lemma_error_text_is_ascii();
    lemma_ascii_response_bytes(response);
}

proof fn lemma_error_text_is_the_text_of(response: ResponseView)
    requires
        response.version == SaoriVersion::V1_0,
        response.status == SaoriStatus::InternalServerError,
        response.charset == SaoriCharset::UTF8,
    ensures
        response.text() == error_text(),
{
    lemma_only_ok_has_body(response);
    reveal_with_fuel(decimal, 3);
    reveal_strlit("SAORI/1.0 500 Internal Server Error\r\nCharset: UTF-8\r\n\r\n\0");
    reveal_strlit("SAORI/1.0");
    reveal_strlit(" ");
    reveal_strlit("Internal Server Error");
    reveal_strlit("\r\nCharset: ");
    reveal_strlit("UTF-8");
    reveal_strlit("\r\n");
    reveal_strlit("\r\n\0");
    assert(decimal(500) =~= seq!['5', '0', '0']);
    assert(response.text() =~= error_text());
}

} // verus!
