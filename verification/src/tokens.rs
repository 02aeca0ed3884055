//! The words of the protocol besides the charsets and the statuses: the
//! commands, the version and the security levels, each with the text that
//! writes it.

use vstd::prelude::*;

verus! {

/// What the host asks for.
#[derive(PartialEq, Eq, Structural, Debug, Clone, Copy)]
pub enum SaoriCommand {
    Execute,
    GetVersion,
}

/// The version of the protocol.
#[derive(PartialEq, Eq, Structural, Debug, Clone, Copy)]
pub enum SaoriVersion {
    V1_0,
}

/// Where the request comes from, as far as the host says.
#[derive(PartialEq, Eq, Structural, Debug, Clone, Copy)]
pub enum SaoriSecurityLevel {
    Local,
    External,
}

impl SaoriCommand {
    /// The words of the command in the first line of a request.
    pub open spec fn wire(self) -> Seq<char> {
        match self {
            SaoriCommand::Execute => "EXECUTE"@,
            SaoriCommand::GetVersion => "GET Version"@,
        }
    }

    /// What a first line with this command begins with: the words of the
    /// command and a space.
    pub open spec fn prefix(self) -> Seq<char> {
        self.wire().push(' ')
    }

    /// The words of the command in the first line of a request.
    pub fn to_str(&self) -> (name: &'static str)
        ensures
            name@ == self.wire(),
    {
        match self {
            SaoriCommand::Execute => "EXECUTE",
            SaoriCommand::GetVersion => "GET Version",
        }
    }
}

impl SaoriVersion {
    /// The version as it is written in a message.
    pub open spec fn wire(self) -> Seq<char> {
        match self {
            SaoriVersion::V1_0 => "SAORI/1.0"@,
        }
    }

    /// The version that `name` writes, if it writes one.
    pub open spec fn named(name: Seq<char>) -> Option<SaoriVersion> {
        if name == SaoriVersion::V1_0.wire() {
            Some(SaoriVersion::V1_0)
        } else {
            None
        }
    }

    /// The version as it is written in a message.
    pub fn to_str(&self) -> (name: &'static str)
        ensures
            name@ == self.wire(),
    {
        match self {
            SaoriVersion::V1_0 => "SAORI/1.0",
        }
    }
}

impl SaoriSecurityLevel {
    /// The level as it is written in a `SecurityLevel` line.
    pub open spec fn wire(self) -> Seq<char> {
        match self {
            SaoriSecurityLevel::Local => "Local"@,
            SaoriSecurityLevel::External => "External"@,
        }
    }

    /// The level that `name` writes, if it writes one.
    pub open spec fn named(name: Seq<char>) -> Option<SaoriSecurityLevel> {
        if name == SaoriSecurityLevel::Local.wire() {
            Some(SaoriSecurityLevel::Local)
        } else if name == SaoriSecurityLevel::External.wire() {
            Some(SaoriSecurityLevel::External)
        } else {
            None
        }
    }

    /// The level as it is written in a `SecurityLevel` line.
    pub fn to_str(&self) -> (name: &'static str)
        ensures
            name@ == self.wire(),
    {
        match self {
            SaoriSecurityLevel::Local => "Local",
            SaoriSecurityLevel::External => "External",
        }
    }
}

/// A security level is found again by its name.
pub proof fn lemma_level_is_found_again(level: SaoriSecurityLevel)
    ensures
        SaoriSecurityLevel::named(level.wire()) == Some(level),
{
    reveal_strlit("Local");
    reveal_strlit("External");
    assert("Local"@.len() != "External"@.len());
}

} // verus!
