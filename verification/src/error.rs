//! The uniform error type: a kind tag, a short name, and a description.

use vstd::prelude::*;

verus! {

/// Which back-end an error came from.
#[derive(Debug, Clone, Copy, PartialEq, Eq, Structural)]
pub enum ErrorType {
    Bluez,
    CoreBluetooth,
    Usb,
}

/// The display name of each error kind.
pub open spec fn kind_name_spec(t: ErrorType) -> Seq<char> {
    match t {
        ErrorType::Bluez => "Bluez"@,
        ErrorType::CoreBluetooth => "CoreBluetooth"@,
        ErrorType::Usb => "USB"@,
    }
}

impl ErrorType {
    /// The display name of the kind.
    pub fn kind_name(&self) -> (r: &'static str)
        ensures
            r@ == kind_name_spec(*self),
    {
        match self {
            ErrorType::Bluez => "Bluez",
            ErrorType::CoreBluetooth => "CoreBluetooth",
            ErrorType::Usb => "USB",
        }
    }
}

/// An error surfaced to the caller: a short name, a longer description,
/// their combination, and the kind of back-end it came from.
#[derive(Debug, Clone)]
pub struct Error {
    pub name: String,
    pub description: String,
    pub combined_description: String,
    pub error_type: ErrorType,
}

/// What the combined description of an error reads: the name, a separating
/// colon, and the description.
pub open spec fn combined_description_spec(name: Seq<char>, description: Seq<char>) -> Seq<char> {
    name + ": "@ + description
}

impl Error {
    pub fn new(name: String, description: String, error_type: ErrorType) -> (r: Error)
        ensures
            r.name == name,
            r.description == description,
            r.combined_description@ == combined_description_spec(name@, description@),
            r.error_type == error_type,
    {
        let mut combined_description = name.clone();
        combined_description.append(": ");
        combined_description.append(description.as_str());
        Error { name, description, combined_description, error_type }
    }

    /// The combined description, name first.
    pub fn description(&self) -> (r: &String)
        ensures
            r == &self.combined_description,
    {
        &self.combined_description
    }

    /// The long display form: the kind in the banner, then the name and the
    /// description, each on its own indented line.
    pub fn display_string(&self) -> (r: String)
        ensures
            r@ == "**Bluster "@ + kind_name_spec(self.error_type) + " Error**\n\n\t"@ + self.name@
                + ":\n\t\t"@ + self.description@,
    {
        let mut s = String::from_str("**Bluster ");
        s.append(self.error_type.kind_name());
        s.append(" Error**\n\n\t");
        s.append(self.name.as_str());
        s.append(":\n\t\t");
        s.append(self.description.as_str());
        s
    }
}

} // verus!
