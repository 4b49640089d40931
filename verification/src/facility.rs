//! The syslog facilities that a logger can be attached to, by name.

use vstd::prelude::*;

verus! {

/// A syslog facility: one of the eight local ones, or the one for user
/// programs.
#[derive(PartialEq, Eq, Structural, Clone, Copy, Debug)]
pub enum Facility {
    User,
    Local0,
    Local1,
    Local2,
    Local3,
    Local4,
    Local5,
    Local6,
    Local7,
}

/// `c` with the ASCII letters `A` to `Z` in lower case.
pub open spec fn lower(c: char) -> char {
    if 'A' <= c && c <= 'Z' {
        (c as u32 + 32) as char
    } else {
        c
    }
}

/// `text` with its ASCII letters in lower case.
pub open spec fn lowercase(text: Seq<char>) -> Seq<char> {
    text.map_values(|c: char| lower(c))
}

/// `str::to_ascii_lowercase` of std: a copy of the string in which each of the
/// ASCII letters `A` to `Z` is replaced by its lower case letter, and every
/// other character is kept.
pub assume_specification[ str::to_ascii_lowercase ](text: &str) -> (copy: String)
    ensures
        copy@ == lowercase(text@),
;

impl Facility {
    /// The facility of that name, in any mix of upper and lower case.
    /// `User` stands in for every name that is not one of a local facility.
    pub open spec fn of_name(name: Seq<char>) -> Facility {
        let name = lowercase(name);
        if name == "local0"@ {
            Facility::Local0
        } else if name == "local1"@ {
            Facility::Local1
        } else if name == "local2"@ {
            Facility::Local2
        } else if name == "local3"@ {
            Facility::Local3
        } else if name == "local4"@ {
            Facility::Local4
        } else if name == "local5"@ {
            Facility::Local5
        } else if name == "local6"@ {
            Facility::Local6
        } else if name == "local7"@ {
            Facility::Local7
        } else {
            Facility::User
        }
    }

    /// Finds the facility by its name, ignoring ASCII case.
    pub fn from_name(name: &str) -> (facility: Facility)
        ensures
            facility == Facility::of_name(name@),
    {
        let name = name.to_ascii_lowercase();
        if name == "local0".to_owned() {
            Facility::Local0
        } else if name == "local1".to_owned() {
            Facility::Local1
        } else if name == "local2".to_owned() {
            Facility::Local2
        } else if name == "local3".to_owned() {
            Facility::Local3
        } else if name == "local4".to_owned() {
            Facility::Local4
        } else if name == "local5".to_owned() {
            Facility::Local5
        } else if name == "local6".to_owned() {
            Facility::Local6
        } else if name == "local7".to_owned() {
            Facility::Local7
        } else {
            Facility::User
        }
    }
}

/// What a connection to syslog is opened with.
pub struct SyslogTarget {
    /// The facility to connect to.
    pub facility: Facility,
    /// The process name that the messages carry.
    pub ident: String,
}

impl SyslogTarget {
    /// The connection that a logger asks for when syslog is enabled with these
    /// names.
    pub fn new(ident: &String, facility: &String) -> (target: SyslogTarget)
        ensures
            target.facility == Facility::of_name(facility@),
            target.ident@ == ident@,
    {
        SyslogTarget { facility: Facility::from_name(facility.as_str()), ident: ident.clone() }
    }
}

} // verus!
