//! The library's error type.
use vstd::prelude::*;

verus! {

/// Errors the verified core reports. Every failure here is a
/// configuration / input problem described by a human-readable message.
#[derive(Debug, Clone, PartialEq, Eq)]
pub enum Error {
    Config(String),
}

pub type Result<T> = core::result::Result<T, Error>;

impl Error {
    /// The message carried by the error.
    pub open spec fn msg(&self) -> Seq<char> {
        match self {
            Error::Config(m) => m@,
        }
    }

    /// Builds a configuration error from message chars.
    pub fn config(m: &[char]) -> (e: Error)
        ensures
            e.msg() == m@,
    {
        Error::Config(crate::text::string_of(m))
    }

    /// Rendered form, `config: <message>`.
    pub fn to_string(&self) -> (s: String)
        ensures
            s@ == "config: "@ + self.msg(),
    {
        match self {
            Error::Config(m) => {
                let mut v = crate::text::chars_of("config: ");
                crate::text::push_str(&mut v, m.as_str());
                crate::text::string_of(v.as_slice())
            },
        }
    }
}

} // verus!
