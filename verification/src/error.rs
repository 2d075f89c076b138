use vstd::prelude::*;

verus! {

/// An error met while reading a DSON value.
#[derive(Clone, Debug, PartialEq, Eq)]
pub enum Error {
    Message(String),
}

impl View for Error {
    type V = Seq<char>;

    open spec fn view(&self) -> Seq<char> {
        match self {
            Error::Message(m) => m@,
        }
    }
}

impl Error {
    /// An error that carries `text`.
    pub fn message(text: &str) -> (e: Error)
        ensures
            e@ == text@,
    {
        Error::Message(String::from_str(text))
    }
}

} // verus!
