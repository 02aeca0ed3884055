//! A codec for the SAORI/1.0 protocol: the line-oriented, header-style text
//! protocol spoken between a host application and a loaded module.
//!
//! [`SaoriRequest::new`] decodes the bytes of a request, and a
//! [`SaoriResponse`] collects a result and values, derives its status from
//! them, and renders the bytes that go back to the host.
//!
//! Every function carries a contract over the text it reads or writes, as a
//! sequence of characters, and Verus proves the body against it. The byte
//! codecs of the four charsets are the work of other crates; the library
//! takes their results as given and names them in its contracts.

pub mod charset;
pub mod codec;
pub mod error;
pub mod grammar;
pub mod lines;
pub mod number;
pub mod request;
pub mod response;
pub mod round_trip;
pub mod slots;
pub mod status;
pub mod text;
pub mod tokens;

pub use charset::SaoriCharset;
pub use codec::MAX_REQUEST_LEN;
pub use error::{
    SaoriRequestArgumentError, SaoriRequestCharsetError, SaoriRequestError,
    SaoriRequestVersionLineError,
};
pub use request::SaoriRequest;
pub use response::{SaoriResponse, SaoriResponseError};
pub use status::SaoriStatus;
pub use tokens::{SaoriCommand, SaoriSecurityLevel, SaoriVersion};
