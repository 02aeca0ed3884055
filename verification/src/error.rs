//! What can go wrong while a request is decoded.

use vstd::prelude::*;

verus! {

/// Why the bytes of a request could not be turned into text.
#[derive(PartialEq, Eq, Structural, Debug, Clone, Copy)]
pub enum SaoriRequestCharsetError {
    /// The bytes are not well-formed in the charset of the request.
    DecodeFailed,
    /// The `Charset` line names no charset of the protocol.
    UnsupportedCharset,
}

/// Why the first line of a request was refused.
#[derive(PartialEq, Eq, Structural, Debug, Clone, Copy)]
pub enum SaoriRequestVersionLineError {
    /// The request has no line at all.
    EmptyRequest,
    /// A command is followed by something other than a known version.
    NoVersion,
    /// The line begins with no known command.
    NoCommand,
}

/// Why an `Argument` line was refused.
#[derive(PartialEq, Eq, Structural, Debug, Clone, Copy)]
pub enum SaoriRequestArgumentError {
    /// No `": "` parts the index from the value.
    InvalidSeparator,
    /// What stands before the `": "` is not an index.
    NoIndex,
}

/// Why a request could not be decoded.
#[derive(PartialEq, Eq, Structural, Debug, Clone, Copy)]
pub enum SaoriRequestError {
    Charset(SaoriRequestCharsetError),
    VersionLine(SaoriRequestVersionLineError),
    Argument(SaoriRequestArgumentError),
}

impl From<SaoriRequestCharsetError> for SaoriRequestError {
    fn from(e: SaoriRequestCharsetError) -> (error: SaoriRequestError) {
        SaoriRequestError::Charset(e)
    }
}

impl vstd::std_specs::convert::FromSpecImpl<SaoriRequestCharsetError> for SaoriRequestError {
    open spec fn obeys_from_spec() -> bool {
        true
    }

    open spec fn from_spec(e: SaoriRequestCharsetError) -> SaoriRequestError {
        SaoriRequestError::Charset(e)
    }
}

impl From<SaoriRequestVersionLineError> for SaoriRequestError {
    fn from(e: SaoriRequestVersionLineError) -> (error: SaoriRequestError) {
        SaoriRequestError::VersionLine(e)
    }
}

impl vstd::std_specs::convert::FromSpecImpl<SaoriRequestVersionLineError> for SaoriRequestError {
    open spec fn obeys_from_spec() -> bool {
        true
    }

    open spec fn from_spec(e: SaoriRequestVersionLineError) -> SaoriRequestError {
        SaoriRequestError::VersionLine(e)
    }
}

impl From<SaoriRequestArgumentError> for SaoriRequestError {
    fn from(e: SaoriRequestArgumentError) -> (error: SaoriRequestError) {
        SaoriRequestError::Argument(e)
    }
}

impl vstd::std_specs::convert::FromSpecImpl<SaoriRequestArgumentError> for SaoriRequestError {
    open spec fn obeys_from_spec() -> bool {
        true
    }

    open spec fn from_spec(e: SaoriRequestArgumentError) -> SaoriRequestError {
        SaoriRequestError::Argument(e)
    }
}

} // verus!
