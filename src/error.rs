use vstd::prelude::*;
use vstd::string::*;

verus! {

/// The one error kind of the server: a request could not be read or parsed.
#[derive(Debug)]
pub enum Error {
    ParseError(String),
}

impl Error {
    /// An error carrying the given message.
    pub fn parse_error(msg: &str) -> (r: Error)
        ensures
            r matches Error::ParseError(m) && m@ == msg@,
    {
        Error::ParseError(String::from_str(msg))
    }

    /// The message carried by the error.
    pub open spec fn msg(&self) -> Seq<char> {
        match self {
            Error::ParseError(m) => m@,
        }
    }

    /// The text shown for the error: `Parse Error: ` followed by its message.
    pub fn describe(&self) -> (r: String)
        ensures
            r@ == "Parse Error: "@ + self.msg(),
    {
        match self {
            Error::ParseError(m) => String::from_str("Parse Error: ").concat(m.as_str()),
        }
    }
}

} // verus!
