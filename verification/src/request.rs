//! A request of the host, and how its bytes are decoded.
//!
//! A request names its charset in one of its own lines. So the bytes are
//! read twice: once leniently, as UTF-8, to find the `Charset` line, whose
//! name is plain ASCII in every charset of the protocol; and once strictly,
//! with the codec of that charset, for the text that is then parsed.

use crate::charset::SaoriCharset;
use crate::codec::{decode, from_utf8_lossy, MAX_REQUEST_LEN};
use crate::error::{
    SaoriRequestArgumentError, SaoriRequestCharsetError, SaoriRequestError,
    SaoriRequestVersionLineError,
};
use crate::grammar::{
    arguments_after, contents_and_charset, declared_charset, decoded_request, first_line,
    request_of, security_level_after, sender_after, RequestView,
};
use crate::lines::{lines_of, split_lines};
use crate::number::parse_index;
use crate::slots::put_string_at;
use crate::text::{same_text, slice_texts, split_once_separator, string_texts, strip_prefix};
use crate::tokens::{SaoriCommand, SaoriSecurityLevel, SaoriVersion};
use vstd::prelude::*;
use vstd::string::*;

verus! {

/// The text of an optional string.
pub open spec fn optional_text(s: Option<String>) -> Option<Seq<char>> {
    match s {
        Some(s) => Some(s@),
        None => None,
    }
}

/// The text of an optional string slice.
pub open spec fn optional_slice_text(s: Option<&str>) -> Option<Seq<char>> {
    match s {
        Some(s) => Some(s@),
        None => None,
    }
}

/// A request of the host, decoded. It is made by [`SaoriRequest::new`] and
/// does not change afterwards.
#[derive(PartialEq, Debug)]
pub struct SaoriRequest {
    charset: SaoriCharset,
    command: SaoriCommand,
    version: SaoriVersion,
    security_level: Option<SaoriSecurityLevel>,
    arguments: Vec<String>,
    sender: Option<String>,
}

impl View for SaoriRequest {
    type V = RequestView;

    closed spec fn view(&self) -> RequestView {
        RequestView {
            charset: self.charset,
            command: self.command,
            version: self.version,
            security_level: self.security_level,
            arguments: string_texts(self.arguments@),
            sender: optional_text(self.sender),
        }
    }
}

/// What a decoding gave, with the request taken by its view.
pub open spec fn viewed(result: Result<SaoriRequest, SaoriRequestError>) -> Result<
    RequestView,
    SaoriRequestError,
> {
    match result {
        Ok(request) => Ok(request@),
        Err(e) => Err(e),
    }
}

impl SaoriRequest {
    /// Decodes a request from the bytes that the host sent.
    pub fn new(bytes: &[u8]) -> (result: Result<SaoriRequest, SaoriRequestError>)
        requires
            bytes@.len() <= MAX_REQUEST_LEN,
        ensures
            viewed(result) == decoded_request(bytes@),
    {
        match SaoriRequest::read_contents_and_charset(bytes) {
            Err(e) => Err(e),
            Ok((body, charset)) => SaoriRequest::from_text(charset, body.as_str()),
        }
    }

    /// Parses the text of a request that was read in `charset`.
    pub fn from_text(charset: SaoriCharset, body: &str) -> (result: Result<
        SaoriRequest,
        SaoriRequestError,
    >)
        ensures
            viewed(result) == request_of(charset, body@),
    {
        let lines = split_lines(body);
        let first = if lines.len() > 0 {
            Some(lines[0])
        } else {
            None
        };
        let (command, version) = match SaoriRequest::parse_version_and_command(first) {
            Err(e) => {
                return Err(e);
            },
            Ok(pair) => pair,
        };
        let mut security_level: Option<SaoriSecurityLevel> = None;
        let mut arguments: Vec<String> = Vec::new();
        let mut sender: Option<String> = None;
        let ghost all = lines_of(body@);
        let ghost bare = RequestView::bare(charset, command, version);
        let mut i: usize = 1;
        proof {
            assert(string_texts(arguments@) == Seq::<Seq<char>>::empty());
        }
        while i < lines.len()
            invariant
                1 <= i <= lines.len(),
                slice_texts(lines@) == all,
                all == lines_of(body@),
                bare == RequestView::bare(charset, command, version),
                first_line(Some(all[0])) == Ok::<
                    (SaoriCommand, SaoriVersion),
                    SaoriRequestVersionLineError,
                >((command, version)),
                bare.after_lines(all.skip(1)) == (RequestView {
                    security_level,
                    arguments: string_texts(arguments@),
                    sender: optional_text(sender),
                    ..bare
                }).after_lines(all.skip(i as int)),
            decreases lines.len() - i,
        {
            let line = lines[i];
            let ghost current = RequestView {
                security_level,
                arguments: string_texts(arguments@),
                sender: optional_text(sender),
                ..bare
            };
            proof {
                assert(all.skip(i as int)[0] == line@);
                assert(all.skip(i as int).skip(1) == all.skip(i + 1));
                assert(current.after_lines(all.skip(i as int)) == match current.after_line(line@) {
                    Err(e) => Err(e),
                    Ok(next) => next.after_lines(all.skip(i + 1)),
                });
            }
            SaoriRequest::parse_security_level(line, &mut security_level);
            match SaoriRequest::parse_arguments(line, &mut arguments) {
                Err(e) => {
                    return Err(e);
                },
                Ok(()) => {},
            }
            SaoriRequest::parse_sender(line, &mut sender);
            i += 1;
        }
        proof {
            assert(all.skip(i as int).len() == 0);
        }
        Ok(SaoriRequest { charset, command, version, security_level, arguments, sender })
    }

    /// Finds the charset that the text of a request declares. The text may
    /// have been read leniently: only its `Charset` line counts.
    pub fn find_charset(text: &str) -> (charset: Result<SaoriCharset, SaoriRequestCharsetError>)
        ensures
            charset == declared_charset(lines_of(text@)),
    {
        let lines = split_lines(text);
        let ghost all = lines_of(text@);
        let mut i: usize = 0;
        proof {
            assert(all.skip(0) == all);
        }
        while i < lines.len()
            invariant
                i <= lines.len(),
                slice_texts(lines@) == all,
                all == lines_of(text@),
                declared_charset(all) == declared_charset(all.skip(i as int)),
            decreases lines.len() - i,
        {
            proof {
                assert(all.skip(i as int)[0] == lines[i as int]@);
                assert(all.skip(i as int).skip(1) == all.skip(i + 1));
            }
            match strip_prefix(lines[i], "Charset: ") {
                Some(name) => {
                    assert(declared_charset(all.skip(i as int)) == SaoriCharset::named(name@));
                    return SaoriCharset::try_from(name);
                },
                None => {},
            }
            i += 1;
        }
        proof {
            assert(all.skip(i as int).len() == 0);
        }
        Ok(SaoriCharset::ShiftJIS)
    }

    /// Finds the charset of the request in `bytes` and reads its text in
    /// that charset.
    pub fn read_contents_and_charset(bytes: &[u8]) -> (result: Result<
        (String, SaoriCharset),
        SaoriRequestError,
    >)
        requires
            bytes@.len() <= MAX_REQUEST_LEN,
        ensures
            match result {
                Ok((contents, charset)) => contents_and_charset(bytes@) == Ok::<
                    (Seq<char>, SaoriCharset),
                    SaoriRequestError,
                >((contents@, charset)),
                Err(e) => contents_and_charset(bytes@) == Err::<
                    (Seq<char>, SaoriCharset),
                    SaoriRequestError,
                >(e),
            },
    {
        let lenient = from_utf8_lossy(bytes);
        let charset = match SaoriRequest::find_charset(lenient.as_str()) {
            Err(e) => {
                return Err(SaoriRequestError::Charset(e));
            },
            Ok(charset) => charset,
        };
        let (contents, malformed) = decode(charset, bytes);
        match SaoriRequest::well_formed(contents, malformed) {
            Err(e) => Err(SaoriRequestError::Charset(e)),
            Ok(contents) => Ok((contents, charset)),
        }
    }

    /// Takes the text that a decoder gave, unless the decoder met anything
    /// malformed on its way: such a text is refused, whatever it holds.
    pub fn well_formed(contents: String, malformed: bool) -> (result: Result<
        String,
        SaoriRequestCharsetError,
    >)
        ensures
            match result {
                Ok(text) => !malformed && text == contents,
                Err(e) => malformed && e == SaoriRequestCharsetError::DecodeFailed,
            },
    {
        if malformed {
            Err(SaoriRequestCharsetError::DecodeFailed)
        } else {
            Ok(contents)
        }
    }

    /// Reads the command and the version from the first line of a request.
    pub fn parse_version_and_command(line: Option<&str>) -> (result: Result<
        (SaoriCommand, SaoriVersion),
        SaoriRequestError,
    >)
        ensures
            result == match first_line(optional_slice_text(line)) {
                Ok(pair) => Ok::<(SaoriCommand, SaoriVersion), SaoriRequestError>(pair),
                Err(e) => Err(SaoriRequestError::VersionLine(e)),
            },
    {
        let line = match line {
            None => {
                return Err(
                    SaoriRequestError::VersionLine(SaoriRequestVersionLineError::EmptyRequest),
                );
            },
            Some(line) => line,
        };
        proof {
            reveal_strlit("GET Version ");
            reveal_strlit("GET Version");
            reveal_strlit("EXECUTE ");
            reveal_strlit("EXECUTE");
            assert("GET Version "@ == SaoriCommand::GetVersion.prefix());
            assert("EXECUTE "@ == SaoriCommand::Execute.prefix());
        }
        let (command, remain) = match strip_prefix(line, "GET Version ") {
            Some(remain) => (SaoriCommand::GetVersion, remain),
            None => match strip_prefix(line, "EXECUTE ") {
                Some(remain) => (SaoriCommand::Execute, remain),
                None => {
                    return Err(
                        SaoriRequestError::VersionLine(SaoriRequestVersionLineError::NoCommand),
                    );
                },
            },
        };
        if same_text(remain, SaoriVersion::V1_0.to_str()) {
            Ok((command, SaoriVersion::V1_0))
        } else {
            Err(SaoriRequestError::VersionLine(SaoriRequestVersionLineError::NoVersion))
        }
    }

    /// Takes the security level from `line`, where it is a `SecurityLevel`
    /// line that names one.
    pub fn parse_security_level(line: &str, security_level: &mut Option<SaoriSecurityLevel>)
        ensures
            *final(security_level) == security_level_after(*old(security_level), line@),
    {
        match strip_prefix(line, "SecurityLevel: ") {
            Some(body) => {
                if same_text(body, SaoriSecurityLevel::Local.to_str()) {
                    *security_level = Some(SaoriSecurityLevel::Local);
                } else if same_text(body, SaoriSecurityLevel::External.to_str()) {
                    *security_level = Some(SaoriSecurityLevel::External);
                }
            },
            None => {},
        }
    }

    /// Takes an argument from `line`, where it is an `Argument` line, and
    /// writes it at its index in `arguments`. Where the line is refused,
    /// `arguments` stays as it was.
    pub fn parse_arguments(line: &str, arguments: &mut Vec<String>) -> (result: Result<
        (),
        SaoriRequestError,
    >)
        ensures
            match result {
                Ok(_) => arguments_after(string_texts(old(arguments)@), line@) == Ok::<
                    Seq<Seq<char>>,
                    SaoriRequestArgumentError,
                >(string_texts(final(arguments)@)),
                Err(e) => {
                    &&& arguments_after(string_texts(old(arguments)@), line@) matches Err(cause)
                    &&& e == SaoriRequestError::Argument(cause)
                    &&& final(arguments)@ == old(arguments)@
                },
            },
    {
        match strip_prefix(line, "Argument") {
            Some(contents) => {
                let (index_raw, value) = match split_once_separator(contents) {
                    None => {
                        return Err(
                            SaoriRequestError::Argument(
                                SaoriRequestArgumentError::InvalidSeparator,
                            ),
                        );
                    },
                    Some(parts) => parts,
                };
                let index = match parse_index(index_raw) {
                    None => {
                        return Err(
                            SaoriRequestError::Argument(SaoriRequestArgumentError::NoIndex),
                        );
                    },
                    Some(index) => index,
                };
                put_string_at(arguments, index, String::from_str(value));
            },
            None => {},
        }
        Ok(())
    }

    /// Takes the sender from `line`, where it is a `Sender` line.
    pub fn parse_sender(line: &str, sender: &mut Option<String>)
        ensures
            optional_text(*final(sender)) == sender_after(optional_text(*old(sender)), line@),
    {
        match strip_prefix(line, "Sender: ") {
            Some(body) => {
                *sender = Some(String::from_str(body));
            },
            None => {},
        }
    }

    /// The charset that the request is written in.
    pub fn charset(&self) -> (charset: &SaoriCharset)
        ensures
            *charset == self@.charset,
    {
        &self.charset
    }

    /// What the host asks for.
    pub fn command(&self) -> (command: &SaoriCommand)
        ensures
            *command == self@.command,
    {
        &self.command
    }

    /// The version of the protocol that the request is written in.
    pub fn version(&self) -> (version: &SaoriVersion)
        ensures
            *version == self@.version,
    {
        &self.version
    }

    /// The security level, where the request names one.
    pub fn security_level(&self) -> (level: Option<&SaoriSecurityLevel>)
        ensures
            match level {
                Some(level) => self@.security_level == Some(*level),
                None => self@.security_level is None,
            },
    {
        self.security_level.as_ref()
    }

    /// The arguments, each at its index. An index that no line of the
    /// request gave holds an empty string.
    pub fn arguments(&self) -> (arguments: &Vec<String>)
        ensures
            string_texts(arguments@) == self@.arguments,
    {
        &self.arguments
    }

    /// The sender, where the request names one.
    pub fn sender(&self) -> (sender: Option<&String>)
        ensures
            match sender {
                Some(sender) => self@.sender == Some(sender@),
                None => self@.sender is None,
            },
    {
        self.sender.as_ref()
    }
}

} // verus!
