//! The grammar of a request: what its text says, line by line.
//!
//! The first line gives the command and the version. Each line after it is
//! one of three headers or is passed over: `SecurityLevel: `, `Argument`
//! with an index, and `Sender: `. An `Argument` line that cannot be read
//! ends the reading; nothing else does.

use crate::charset::SaoriCharset;
use crate::codec::{decoded, lossy_utf8};
use crate::error::{
    SaoriRequestArgumentError, SaoriRequestCharsetError, SaoriRequestError,
    SaoriRequestVersionLineError,
};
use crate::lines::lines_of;
use crate::number::{decimal, index_value, is_digit, lemma_decimal_reads_back};
use crate::slots::put_at;
use crate::text::{lemma_separator_from, separator_at, separator_from, split_at_separator};
use crate::tokens::{SaoriCommand, SaoriSecurityLevel, SaoriVersion};
use vstd::prelude::*;

verus! {

/// The charset that the lines of a request declare: the one named by the
/// first line that begins with `Charset: `, an error where that line names
/// none, and `ShiftJIS` where there is no such line.
pub open spec fn declared_charset(lines: Seq<Seq<char>>) -> Result<
    SaoriCharset,
    SaoriRequestCharsetError,
>
    decreases lines.len(),
{
    if lines.len() == 0 {
        Ok(SaoriCharset::ShiftJIS)
    } else if "Charset: "@.is_prefix_of(lines[0]) {
        SaoriCharset::named(lines[0].skip("Charset: "@.len() as int))
    } else {
        declared_charset(lines.skip(1))
    }
}

/// The command and the version that the first line of a request gives.
pub open spec fn first_line(line: Option<Seq<char>>) -> Result<
    (SaoriCommand, SaoriVersion),
    SaoriRequestVersionLineError,
> {
    match line {
        None => Err(SaoriRequestVersionLineError::EmptyRequest),
        Some(line) => {
            let command = if SaoriCommand::GetVersion.prefix().is_prefix_of(line) {
                Some(SaoriCommand::GetVersion)
            } else if SaoriCommand::Execute.prefix().is_prefix_of(line) {
                Some(SaoriCommand::Execute)
            } else {
                None
            };
            match command {
                None => Err(SaoriRequestVersionLineError::NoCommand),
                Some(command) => match SaoriVersion::named(
                    line.skip(command.prefix().len() as int),
                ) {
                    None => Err(SaoriRequestVersionLineError::NoVersion),
                    Some(version) => Ok((command, version)),
                },
            }
        },
    }
}

/// The security level after `line` was read, where it was `before`. Only a
/// `SecurityLevel` line that names a level changes it.
pub open spec fn security_level_after(
    before: Option<SaoriSecurityLevel>,
    line: Seq<char>,
) -> Option<SaoriSecurityLevel> {
    if "SecurityLevel: "@.is_prefix_of(line) {
        match SaoriSecurityLevel::named(line.skip("SecurityLevel: "@.len() as int)) {
            Some(level) => Some(level),
            None => before,
        }
    } else {
        before
    }
}

/// The index and the value of an `Argument` line, from what follows the
/// word `Argument` in it.
pub open spec fn argument_of(contents: Seq<char>) -> Result<
    (nat, Seq<char>),
    SaoriRequestArgumentError,
> {
    match split_at_separator(contents) {
        None => Err(SaoriRequestArgumentError::InvalidSeparator),
        Some((index, value)) => match index_value(index) {
            None => Err(SaoriRequestArgumentError::NoIndex),
            Some(index) => Ok((index, value)),
        },
    }
}

/// The arguments after `line` was read, where they were `before`. Only an
/// `Argument` line changes them, or fails.
pub open spec fn arguments_after(before: Seq<Seq<char>>, line: Seq<char>) -> Result<
    Seq<Seq<char>>,
    SaoriRequestArgumentError,
> {
    if "Argument"@.is_prefix_of(line) {
        match argument_of(line.skip("Argument"@.len() as int)) {
            Err(e) => Err(e),
            Ok((index, value)) => Ok(put_at(before, index, value)),
        }
    } else {
        Ok(before)
    }
}

/// The sender after `line` was read, where it was `before`. Only a `Sender`
/// line changes it.
pub open spec fn sender_after(before: Option<Seq<char>>, line: Seq<char>) -> Option<Seq<char>> {
    if "Sender: "@.is_prefix_of(line) {
        Some(line.skip("Sender: "@.len() as int))
    } else {
        before
    }
}

/// A line is at most one of the three headers: no line begins with two of
/// `SecurityLevel: `, `Argument` and `Sender: `.
pub proof fn lemma_headers_exclude_each_other(line: Seq<char>)
    ensures
        !("SecurityLevel: "@.is_prefix_of(line) && "Argument"@.is_prefix_of(line)),
        !("SecurityLevel: "@.is_prefix_of(line) && "Sender: "@.is_prefix_of(line)),
        !("Argument"@.is_prefix_of(line) && "Sender: "@.is_prefix_of(line)),
{
    reveal_strlit("SecurityLevel: ");
    reveal_strlit("Argument");
    reveal_strlit("Sender: ");
    if "SecurityLevel: "@.is_prefix_of(line) {
        assert(line[0] == "SecurityLevel: "@[0]);
        assert(line[2] == "SecurityLevel: "@[2]);
    }
    if "Argument"@.is_prefix_of(line) {
        assert(line[0] == "Argument"@[0]);
    }
    if "Sender: "@.is_prefix_of(line) {
        assert(line[0] == "Sender: "@[0]);
        assert(line[2] == "Sender: "@[2]);
    }
}

/// A first line that was written is read back: the words of a command, a
/// space and a version give that command and that version.
pub proof fn lemma_first_line_reads_back(command: SaoriCommand, version: SaoriVersion)
    ensures
        first_line(Some(command.prefix() + version.wire())) == Ok::<
            (SaoriCommand, SaoriVersion),
            SaoriRequestVersionLineError,
        >((command, version)),
{
    reveal_strlit("EXECUTE");
    reveal_strlit("GET Version");
    let line = command.prefix() + version.wire();
    assert(command.prefix().is_prefix_of(line));
    assert(line.skip(command.prefix().len() as int) =~= version.wire());
    if command == SaoriCommand::Execute {
        assert(line[0] == 'E');
        assert(SaoriCommand::GetVersion.prefix()[0] == 'G');
        assert(!SaoriCommand::GetVersion.prefix().is_prefix_of(line)) by {
            if SaoriCommand::GetVersion.prefix().is_prefix_of(line) {
                assert(line.subrange(0, SaoriCommand::GetVersion.prefix().len() as int)[0]
                    == line[0]);
            }
        }
    }
}

/// An `Argument` line that was written is read back: the word `Argument`,
/// an index in decimal, `": "` and a value put that value at that index,
/// whatever the value holds.
pub proof fn lemma_argument_line_reads_back(
    before: Seq<Seq<char>>,
    index: nat,
    value: Seq<char>,
)
    requires
        index <= usize::MAX,
    ensures
        arguments_after(before, "Argument"@ + decimal(index) + ": "@ + value) == Ok::<
            Seq<Seq<char>>,
            SaoriRequestArgumentError,
        >(put_at(before, index, value)),
{
    reveal_strlit(": ");
    let digits = decimal(index);
    let line = "Argument"@ + digits + ": "@ + value;
    let contents = digits + ": "@ + value;
    lemma_decimal_reads_back(index);
    assert("Argument"@.is_prefix_of(line));
    assert(line.skip("Argument"@.len() as int) =~= contents);
    let at = digits.len() as int;
    assert(separator_at(contents, at));
    assert forall|j: int| 0 <= j < at implies !separator_at(contents, j) by {
        assert(contents[j] == digits[j]);
        assert(is_digit(digits[j]));
    }
    lemma_separator_from(contents, 0);
    assert(separator_from(contents, 0) == Some(at));
    assert(contents.take(at) =~= digits);
    assert(contents.skip(at + 2) =~= value);
}

/// What a request holds: the view of a
/// [`SaoriRequest`](crate::request::SaoriRequest).
#[verifier::ext_equal]
pub struct RequestView {
    pub charset: SaoriCharset,
    pub command: SaoriCommand,
    pub version: SaoriVersion,
    pub security_level: Option<SaoriSecurityLevel>,
    pub arguments: Seq<Seq<char>>,
    pub sender: Option<Seq<char>>,
}

impl RequestView {
    /// The request that a first line alone gives: no security level, no
    /// argument, no sender.
    pub open spec fn bare(
        charset: SaoriCharset,
        command: SaoriCommand,
        version: SaoriVersion,
    ) -> RequestView {
        RequestView {
            charset,
            command,
            version,
            security_level: None,
            arguments: Seq::empty(),
            sender: None,
        }
    }

    /// The request after one more line was read. A line that is none of the
    /// three headers changes nothing.
    pub open spec fn after_line(self, line: Seq<char>) -> Result<
        RequestView,
        SaoriRequestArgumentError,
    > {
        match arguments_after(self.arguments, line) {
            Err(e) => Err(e),
            Ok(arguments) => Ok(
                RequestView {
                    security_level: security_level_after(self.security_level, line),
                    arguments,
                    sender: sender_after(self.sender, line),
                    ..self
                },
            ),
        }
    }

    /// The request after `lines` were read, one after the other. The first
    /// line that fails ends the reading.
    pub open spec fn after_lines(self, lines: Seq<Seq<char>>) -> Result<
        RequestView,
        SaoriRequestArgumentError,
    >
        decreases lines.len(),
    {
        if lines.len() == 0 {
            Ok(self)
        } else {
            match self.after_line(lines[0]) {
                Err(e) => Err(e),
                Ok(next) => next.after_lines(lines.skip(1)),
            }
        }
    }
}

/// The request that the text `body` writes, read in `charset`.
pub open spec fn request_of(charset: SaoriCharset, body: Seq<char>) -> Result<
    RequestView,
    SaoriRequestError,
> {
    let lines = lines_of(body);
    let first = if lines.len() > 0 {
        Some(lines[0])
    } else {
        None
    };
    match first_line(first) {
        Err(e) => Err(SaoriRequestError::VersionLine(e)),
        Ok((command, version)) => match RequestView::bare(charset, command, version).after_lines(
            lines.skip(1),
        ) {
            Err(e) => Err(SaoriRequestError::Argument(e)),
            Ok(request) => Ok(request),
        },
    }
}

/// The charset of the request in `bytes` and its text in that charset.
pub open spec fn contents_and_charset(bytes: Seq<u8>) -> Result<
    (Seq<char>, SaoriCharset),
    SaoriRequestError,
> {
    match declared_charset(lines_of(lossy_utf8(bytes))) {
        Err(e) => Err(SaoriRequestError::Charset(e)),
        Ok(charset) => {
            let (contents, malformed) = decoded(charset, bytes);
            if malformed {
                Err(SaoriRequestError::Charset(SaoriRequestCharsetError::DecodeFailed))
            } else {
                Ok((contents, charset))
            }
        },
    }
}

/// The request that `bytes` hold.
pub open spec fn decoded_request(bytes: Seq<u8>) -> Result<RequestView, SaoriRequestError> {
    match contents_and_charset(bytes) {
        Err(e) => Err(e),
        Ok((contents, charset)) => request_of(charset, contents),
    }
}

} // verus!
