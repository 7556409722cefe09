//! The error of the command layer: a message and, where one error was caused
//! by another, the error behind it.

use vstd::prelude::*;

verus! {

/// A message and the error behind it, if there is one.
#[derive(Debug, PartialEq, Eq)]
pub struct Error {
    pub msg: String,
    pub source: Option<Box<Error>>,
}

impl Error {
    /// An error with a message and nothing behind it.
    pub fn new(msg: &str) -> (res: Error)
        ensures
            res.msg@ == msg@,
            res.source is None,
    {
        Error { msg: String::from_str(msg), source: None }
    }

    /// An error with a message and the error that caused it.
    pub fn with_source(msg: &str, source: Error) -> (res: Error)
        ensures
            res.msg@ == msg@,
            res.source == Some(Box::new(source)),
    {
        Error { msg: String::from_str(msg), source: Some(Box::new(source)) }
    }

    /// The text that the error is shown as: its message.
    pub fn message(&self) -> (res: String)
        ensures
            res@ == self.msg@,
    {
        self.msg.clone()
    }

    /// The error behind this one, if there is one.
    pub fn source(&self) -> (res: Option<&Error>)
        ensures
            match res {
                Some(inner) => self.source == Some(Box::new(*inner)),
                None => self.source is None,
            },
    {
        match &self.source {
            Some(inner) => Some(&**inner),
            None => None,
        }
    }
}

impl Default for Error {
    /// The error with an empty message and nothing behind it.
    fn default() -> (res: Error)
        ensures
            res.msg@.len() == 0,
            res.source is None,
    {
        Error { msg: String::new(), source: None }
    }
}

} // verus!
