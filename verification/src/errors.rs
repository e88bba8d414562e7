//! The kinds of error a run can meet, each with its message.
use vstd::prelude::*;

verus! {

/// An error, by where it came from, with its message.
#[derive(Clone, Debug)]
pub enum Error {
    Io(String),
    IpAddr(String),
    Hyper(String),
    SerdeJson(String),
    NativeTls(String),
    Uri(String),
    Custom(String),
}

impl Error {
    /// The message that an error carries.
    pub open spec fn text(&self) -> Seq<char> {
        match self {
            Error::Io(e) => e@,
            Error::IpAddr(e) => e@,
            Error::Hyper(e) => e@,
            Error::SerdeJson(e) => e@,
            Error::NativeTls(e) => e@,
            Error::Uri(e) => e@,
            Error::Custom(e) => e@,
        }
    }

    /// The error as it is shown: its message alone, whatever its kind.
    pub fn message(&self) -> (s: String)
        ensures
            s@ == self.text(),
    {
        match self {
            Error::Io(e) => e.clone(),
            Error::IpAddr(e) => e.clone(),
            Error::Hyper(e) => e.clone(),
            Error::SerdeJson(e) => e.clone(),
            Error::NativeTls(e) => e.clone(),
            Error::Uri(e) => e.clone(),
            Error::Custom(e) => e.clone(),
        }
    }
}

} // verus!
