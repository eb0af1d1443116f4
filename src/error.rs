//! Error kinds shared with the agent's other components.
use vstd::prelude::*;

verus! {

/// Why a version string could not be read.
pub enum ParseVersionErrorType {
    InvalidString(String),
    MajorBuild(String),
    MinorBuild(String),
}

/// Which external command failed.
pub enum CommandErrorType {
    Findmnt,
}

impl ParseVersionErrorType {
    /// The error's message.
    pub fn message(&self) -> (r: String)
        ensures
            r@ == match self {
                ParseVersionErrorType::InvalidString(s) => "Invalid version string '"@ + s@ + "'"@,
                ParseVersionErrorType::MajorBuild(s) => "Cannot read Major build from "@ + s@,
                ParseVersionErrorType::MinorBuild(s) => "Cannot read Minor build from "@ + s@,
            },
    {
        match self {
            ParseVersionErrorType::InvalidString(s) => {
                let mut m = String::from_str("Invalid version string '");
                m.append(s.as_str());
                m.append("'");
                m
            },
            ParseVersionErrorType::MajorBuild(s) => {
                let mut m = String::from_str("Cannot read Major build from ");
                m.append(s.as_str());
                m
            },
            ParseVersionErrorType::MinorBuild(s) => {
                let mut m = String::from_str("Cannot read Minor build from ");
                m.append(s.as_str());
                m
            },
        }
    }
}

impl CommandErrorType {
    /// The command's name.
    pub fn message(&self) -> (r: String)
        ensures
            r@ == "Findmnt"@,
    {
        String::from_str("Findmnt")
    }

    /// The message of a failure of this command with `detail`:
    /// `<command> command: <detail>`.
    pub fn command_message(&self, detail: &str) -> (r: String)
        ensures
            r@ == "Findmnt"@ + " command: "@ + detail@,
    {
        let mut m = self.message();
        m.append(" command: ");
        m.append(detail);
        m
    }
}

} // verus!
