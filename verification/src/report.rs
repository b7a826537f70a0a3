//! Failures put into words for the user.

use vstd::prelude::*;
use vstd::string::StringExecFns;
use crate::error::{ConfigError, Failure, Fault, Operation, Rejection, SchemaError, Step};

verus! {

/// The digit `value` as a text; the empty text where `value` is no digit.
pub open spec fn digit_of(value: nat) -> Seq<char> {
    if value == 0 {
        "0"@
    } else if value == 1 {
        "1"@
    } else if value == 2 {
        "2"@
    } else if value == 3 {
        "3"@
    } else if value == 4 {
        "4"@
    } else if value == 5 {
        "5"@
    } else if value == 6 {
        "6"@
    } else if value == 7 {
        "7"@
    } else if value == 8 {
        "8"@
    } else if value == 9 {
        "9"@
    } else {
        Seq::empty()
    }
}

/// A number in decimal, without leading zeros.
pub open spec fn decimal_of(number: nat) -> Seq<char>
    decreases number,
{
    if number < 10 {
        digit_of(number)
    } else {
        decimal_of(number / 10) + digit_of(number % 10)
    }
}

/// One step as it is written in a location: a key by its name, with a dot
/// before it unless it comes first; an index in square brackets.
pub open spec fn step_text(step: Step, first: bool) -> Seq<char> {
    match step {
        Step::Key(key) => if first {
            key.text()
        } else {
            "."@ + key.text()
        },
        Step::Index(index) => "["@ + decimal_of(index as nat) + "]"@,
    }
}

/// The first `count` steps of a path as a location, such as
/// `groups.keywords[1].words[0]`.
pub open spec fn location_of(path: Seq<Step>, count: nat) -> Seq<char>
    decreases count,
{
    if count == 0 || count > path.len() {
        Seq::empty()
    } else {
        location_of(path, (count - 1) as nat) + step_text(path[count - 1], count == 1)
    }
}

/// A fault in words.
pub open spec fn fault_text(fault: Fault) -> Seq<char> {
    match fault {
        Fault::Missing => "missing field"@,
        Fault::Mismatch { expected, found } => "invalid type: "@ + found.text() + ", expected "@
            + expected.text(),
        Fault::UnknownColor => "unknown color"@,
        Fault::NotOneChar => "expected a single character"@,
    }
}

/// A rejection in words: the location, a colon, and the fault; the fault
/// alone where the document's root is at fault.
pub open spec fn rejection_text(rejection: Rejection) -> Seq<char> {
    if rejection.path.len() == 0 {
        fault_text(rejection.fault)
    } else {
        location_of(rejection.path, rejection.path.len()) + ": "@ + fault_text(rejection.fault)
    }
}

/// What is said before the path of a file on which an operation failed.
pub open spec fn operation_lead(operation: Operation) -> Seq<char> {
    match operation {
        Operation::Read => "Could not read file "@,
        Operation::Probe => "Failed to check if file "@,
        Operation::CreateDirectories => "Failed to create the directory for "@,
        Operation::CreateFile => "Failed to create the config file at "@,
        Operation::Write => "Failed to write to the config file at "@,
    }
}

/// What is said between the path and the file system's own words.
pub open spec fn operation_link(operation: Operation) -> Seq<char> {
    match operation {
        Operation::Probe => " exists: "@,
        _ => ": "@,
    }
}

/// A failure in words. Every message names what it is about: the path for
/// a failure of the file system or a conflict, the diagnostic for a text
/// that is no configuration.
pub open spec fn failure_text(failure: Failure) -> Seq<char> {
    match failure {
        Failure::Environment => "HOME directory not set"@,
        Failure::Io { operation, path, detail } => operation_lead(operation) + path
            + operation_link(operation) + detail,
        Failure::Syntax { message } => "Could not deserialize file:\n\n"@ + message,
        Failure::Schema(rejection) => "Could not deserialize file:\n\n"@ + rejection_text(
            rejection,
        ),
        Failure::Conflict { path } => "Config file already exists at "@ + path,
    }
}

fn digit(value: usize) -> (text: &'static str)
    requires
        value < 10,
    ensures
        text@ == digit_of(value as nat),
{
    if value == 0 {
        "0"
    } else if value == 1 {
        "1"
    } else if value == 2 {
        "2"
    } else if value == 3 {
        "3"
    } else if value == 4 {
        "4"
    } else if value == 5 {
        "5"
    } else if value == 6 {
        "6"
    } else if value == 7 {
        "7"
    } else if value == 8 {
        "8"
    } else {
        "9"
    }
}

/// Writes a number in decimal.
pub fn decimal(number: usize) -> (digits: String)
    ensures
        digits@ == decimal_of(number as nat),
    decreases number,
{
    if number < 10 {
        digit(number).to_owned()
    } else {
        decimal(number / 10).concat(digit(number % 10))
    }
}

impl Fault {
    /// The fault in words.
    pub fn describe(&self) -> (text: String)
        ensures
            text@ == fault_text(*self),
    {
        match self {
            Fault::Missing => "missing field".to_owned(),
            Fault::Mismatch { expected, found } => "invalid type: ".to_owned().concat(
                found.name(),
            ).concat(", expected ").concat(expected.name()),
            Fault::UnknownColor => "unknown color".to_owned(),
            Fault::NotOneChar => "expected a single character".to_owned(),
        }
    }
}

impl SchemaError {
    /// Where in the document the fault lies, such as
    /// `groups.keywords[1].words[0]`; empty for the document's root.
    pub fn location(&self) -> (text: String)
        ensures
            text@ == location_of(self.path@, self.path@.len()),
    {
        let mut text = String::new();
        let mut i: usize = 0;
        while i < self.path.len()
            invariant
                i <= self.path@.len(),
                text@ == location_of(self.path@, i as nat),
            decreases self.path@.len() - i,
        {
            let ghost before = text@;
            match self.path[i] {
                Step::Key(key) => {
                    if i > 0 {
                        text.append(".");
                    }
                    text.append(key.name());
                },
                Step::Index(index) => {
                    text.append("[");
                    text.append(decimal(index).as_str());
                    text.append("]");
                },
            }
            assert(text@ =~= before + step_text(self.path@[i as int], i == 0));
            i += 1;
        }
        text
    }

    /// The error in words.
    pub fn describe(&self) -> (text: String)
        ensures
            text@ == rejection_text(self@),
    {
        if self.path.len() == 0 {
            self.fault.describe()
        } else {
            self.location().concat(": ").concat(self.fault.describe().as_str())
        }
    }
}

impl ConfigError {
    /// The error in words, as it is shown to the user.
    pub fn describe(&self) -> (text: String)
        ensures
            text@ == failure_text(self@),
    {
        match self {
            ConfigError::Environment => "HOME directory not set".to_owned(),
            ConfigError::Io { operation, path, detail } => {
                let lead = match operation {
                    Operation::Read => "Could not read file ",
                    Operation::Probe => "Failed to check if file ",
                    Operation::CreateDirectories => "Failed to create the directory for ",
                    Operation::CreateFile => "Failed to create the config file at ",
                    Operation::Write => "Failed to write to the config file at ",
                };
                let link = match operation {
                    Operation::Probe => " exists: ",
                    _ => ": ",
                };
                lead.to_owned().concat(path.as_str()).concat(link).concat(detail.as_str())
            },
            ConfigError::Syntax { message } => "Could not deserialize file:\n\n".to_owned().concat(
                message.as_str(),
            ),
            ConfigError::Schema(error) => "Could not deserialize file:\n\n".to_owned().concat(
                error.describe().as_str(),
            ),
            ConfigError::Conflict { path } => "Config file already exists at ".to_owned().concat(
                path.as_str(),
            ),
        }
    }
}

} // verus!
