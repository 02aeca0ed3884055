//! The status of a response, and how it follows from what the response
//! holds.
//!
//! `OK` and `NoContent` say whether the response has anything for the host.
//! They are worked out anew after every change of the result or the values.
//! `BadRequest` and `InternalServerError` are set by hand and stay.

use crate::text::string_texts;
use vstd::prelude::*;

verus! {

/// The status of a response.
#[derive(PartialEq, Eq, Structural, Debug, Clone, Copy)]
pub enum SaoriStatus {
    OK,
    NoContent,
    BadRequest,
    InternalServerError,
}

impl SaoriStatus {
    /// The number of the status.
    pub open spec fn code(self) -> nat {
        match self {
            SaoriStatus::OK => 200,
            SaoriStatus::NoContent => 204,
            SaoriStatus::BadRequest => 400,
            SaoriStatus::InternalServerError => 500,
        }
    }

    /// The words of the status.
    pub open spec fn phrase(self) -> Seq<char> {
        match self {
            SaoriStatus::OK => "OK"@,
            SaoriStatus::NoContent => "No Content"@,
            SaoriStatus::BadRequest => "Bad Request"@,
            SaoriStatus::InternalServerError => "Internal Server Error"@,
        }
    }

    /// Whether the status stays when the result or the values change. The
    /// two error statuses do; only `set_status` leaves them.
    pub open spec fn is_sticky(self) -> bool {
        self == SaoriStatus::BadRequest || self == SaoriStatus::InternalServerError
    }

    /// The status after the result or the values changed, where it was
    /// `self`.
    pub fn after_change(self, result: &str, values: &[String]) -> (status: SaoriStatus)
        ensures
            status == status_after_change(self, result@, string_texts(values@)),
    {
        match self {
            SaoriStatus::BadRequest | SaoriStatus::InternalServerError => self,
            _ => {
                let actually_empty_values = all_empty(values);
                if result.is_empty() && actually_empty_values {
                    SaoriStatus::NoContent
                } else {
                    SaoriStatus::OK
                }
            },
        }
    }

    /// The number of the status, as the status line gives it.
    pub fn to_code(&self) -> (code: u16)
        ensures
            code == self.code(),
    {
        match self {
            SaoriStatus::OK => 200,
            SaoriStatus::NoContent => 204,
            SaoriStatus::BadRequest => 400,
            SaoriStatus::InternalServerError => 500,
        }
    }

    /// The words of the status, as the status line gives them.
    pub fn to_str(&self) -> (phrase: &'static str)
        ensures
            phrase@ == self.phrase(),
    {
        match self {
            SaoriStatus::OK => "OK",
            SaoriStatus::NoContent => "No Content",
            SaoriStatus::BadRequest => "Bad Request",
            SaoriStatus::InternalServerError => "Internal Server Error",
        }
    }
}

/// Whether a result and values give the host nothing: the result is empty,
/// and so is every value.
pub open spec fn nothing_to_say(result: Seq<char>, values: Seq<Seq<char>>) -> bool {
    result.len() == 0 && forall|i: int| 0 <= i < values.len() ==> (#[trigger] values[i]).len() == 0
}

/// The status after the result or the values changed, where it was
/// `current`: a sticky status stays, and any other gives way to `NoContent`
/// where there is nothing to say and to `OK` where there is something.
pub open spec fn status_after_change(
    current: SaoriStatus,
    result: Seq<char>,
    values: Seq<Seq<char>>,
) -> SaoriStatus {
    if current.is_sticky() {
        current
    } else if nothing_to_say(result, values) {
        SaoriStatus::NoContent
    } else {
        SaoriStatus::OK
    }
}

/// Whether every string of `values` is empty.
fn all_empty(values: &[String]) -> (empty: bool)
    ensures
        empty == forall|i: int|
            0 <= i < values@.len() ==> (#[trigger] string_texts(values@)[i]).len() == 0,
{
    let mut i: usize = 0;
    while i < values.len()
        invariant
            i <= values.len(),
            forall|j: int| 0 <= j < i ==> (#[trigger] string_texts(values@)[j]).len() == 0,
        decreases values.len() - i,
    {
        if !values[i].as_str().is_empty() {
            assert(string_texts(values@)[i as int].len() != 0);
            return false;
        }
        i += 1;
    }
    true
}

} // verus!
