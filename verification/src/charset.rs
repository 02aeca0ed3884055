//! The charsets a message may be written in, and their wire names.

use crate::error::SaoriRequestCharsetError;
use crate::text::same_text;
use vstd::prelude::*;

verus! {

/// A charset of the protocol. `ShiftJIS` is what a request without a
/// `Charset` line is read in.
#[derive(PartialEq, Eq, Structural, Debug, Clone, Copy)]
pub enum SaoriCharset {
    ShiftJIS,
    EucJP,
    UTF8,
    ISO2022JP,
}

impl SaoriCharset {
    /// The name of the charset as it stands in a `Charset` line.
    pub open spec fn wire(self) -> Seq<char> {
        match self {
            SaoriCharset::ShiftJIS => "Shift_JIS"@,
            SaoriCharset::EucJP => "EUC-JP"@,
            SaoriCharset::UTF8 => "UTF-8"@,
            SaoriCharset::ISO2022JP => "ISO-2022-JP"@,
        }
    }

    /// The charset whose wire name is `name`; `UnsupportedCharset` where no
    /// charset has that name.
    pub open spec fn named(name: Seq<char>) -> Result<SaoriCharset, SaoriRequestCharsetError> {
        if name == SaoriCharset::ShiftJIS.wire() {
            Ok(SaoriCharset::ShiftJIS)
        } else if name == SaoriCharset::EucJP.wire() {
            Ok(SaoriCharset::EucJP)
        } else if name == SaoriCharset::UTF8.wire() {
            Ok(SaoriCharset::UTF8)
        } else if name == SaoriCharset::ISO2022JP.wire() {
            Ok(SaoriCharset::ISO2022JP)
        } else {
            Err(SaoriRequestCharsetError::UnsupportedCharset)
        }
    }

    /// The name of the charset as it stands in a `Charset` line.
    pub fn to_str(&self) -> (name: &'static str)
        ensures
            name@ == self.wire(),
    {
        match self {
            SaoriCharset::ShiftJIS => "Shift_JIS",
            SaoriCharset::EucJP => "EUC-JP",
            SaoriCharset::UTF8 => "UTF-8",
            SaoriCharset::ISO2022JP => "ISO-2022-JP",
        }
    }
}

impl<'a> TryFrom<&'a str> for SaoriCharset {
    type Error = SaoriRequestCharsetError;

    fn try_from(value: &'a str) -> (charset: Result<Self, Self::Error>) {
        if same_text(value, SaoriCharset::ShiftJIS.to_str()) {
            Ok(SaoriCharset::ShiftJIS)
        } else if same_text(value, SaoriCharset::EucJP.to_str()) {
            Ok(SaoriCharset::EucJP)
        } else if same_text(value, SaoriCharset::UTF8.to_str()) {
            Ok(SaoriCharset::UTF8)
        } else if same_text(value, SaoriCharset::ISO2022JP.to_str()) {
            Ok(SaoriCharset::ISO2022JP)
        } else {
            Err(SaoriRequestCharsetError::UnsupportedCharset)
        }
    }
}

impl<'a> vstd::std_specs::convert::TryFromSpecImpl<&'a str> for SaoriCharset {
    open spec fn obeys_try_from_spec() -> bool {
        true
    }

    open spec fn try_from_spec(value: &'a str) -> Result<Self, Self::Error> {
        SaoriCharset::named(value@)
    }
}

/// No two charsets share a wire name.
pub proof fn lemma_wire_names_differ(a: SaoriCharset, b: SaoriCharset)
    ensures
        a.wire() == b.wire() <==> a == b,
{
    reveal_strlit("Shift_JIS");
    reveal_strlit("EUC-JP");
    reveal_strlit("UTF-8");
    reveal_strlit("ISO-2022-JP");
    if a != b {
        assert(a.wire().len() != b.wire().len());
    }
}

/// A charset is found again by its wire name, and a name that is found is
/// the wire name of the charset it gives.
pub proof fn lemma_named_inverts_wire(charset: SaoriCharset, name: Seq<char>)
    ensures
        SaoriCharset::named(charset.wire()) == Ok::<SaoriCharset, SaoriRequestCharsetError>(
            charset,
        ),
        SaoriCharset::named(name) == Ok::<SaoriCharset, SaoriRequestCharsetError>(charset)
            <==> name == charset.wire(),
{
    lemma_wire_names_differ(charset, SaoriCharset::ShiftJIS);
    lemma_wire_names_differ(charset, SaoriCharset::EucJP);
    lemma_wire_names_differ(charset, SaoriCharset::UTF8);
    lemma_wire_names_differ(charset, SaoriCharset::ISO2022JP);
}

} // verus!
