use vstd::prelude::*;
use vstd::string::StringExecFns;

verus! {

/// The ways in which taking a measurement or deriving a rate can fail.
#[derive(Debug)]
pub enum ProbeError {
    /// Reading a file or running a command failed. The first field describes the failure,
    /// the second names the file or command.
    IO(String, String),
    /// The content was readable but not in the expected shape: a missing field, a value
    /// that is not a number, a counter that went down, or an entry that disappeared.
    UnexpectedContent(String),
    /// The arguments of a calculation are invalid, such as two measurements out of order.
    InvalidInput(String),
}

impl ProbeError {
    /// The error as text: the failure and the file or command it concerns, or the message.
    pub fn message(&self) -> (r: String)
        ensures
            match self {
                ProbeError::IO(failure, path) => r@ == failure@ + " for "@ + path@,
                ProbeError::UnexpectedContent(m) => r@ == m@,
                ProbeError::InvalidInput(m) => r@ == m@,
            },
    {
        match self {
            ProbeError::IO(failure, path) => {
                let mut r = failure.clone();
                r.append(" for ");
                r.append(path.as_str());
                r
            },
            ProbeError::UnexpectedContent(m) => m.clone(),
            ProbeError::InvalidInput(m) => m.clone(),
        }
    }
}

/// An `UnexpectedContent` error carrying `message`.
pub(crate) fn unexpected(message: &str) -> (r: ProbeError)
    ensures
        r is UnexpectedContent,
{
    ProbeError::UnexpectedContent(message.to_owned())
}

/// An `InvalidInput` error carrying `message`.
pub(crate) fn invalid(message: &str) -> (r: ProbeError)
    ensures
        r is InvalidInput,
{
    ProbeError::InvalidInput(message.to_owned())
}

} // verus!
