use vstd::prelude::*;
use vstd::string::*;

verus! {

/// What can go wrong in this library: a document that does not decode into
/// a record, or anything else.
#[derive(Debug, Clone, Copy, PartialEq, Eq, Structural)]
pub enum Error {
    Conversion,
    Other,
}

impl Error {
    /// The message shown for any error.
    pub fn to_string(&self) -> (r: String)
        ensures
            r@ == "ERROR HAPPENED"@,
    {
        String::from_str("ERROR HAPPENED")
    }

    /// A short description of any error.
    pub fn description(&self) -> (r: &'static str)
        ensures
            r@ == "ERROR ERROR"@,
    {
        "ERROR ERROR"
    }
}

} // verus!
