use vstd::prelude::*;

verus! {

/// Errors of the monitor.
#[derive(Debug)]
pub enum Error {
    /// A chain client failed or a chain answered with data that the client cannot use.
    Chain(String),
    /// The monitor's HTTP API failed.
    Api(String),
    /// A message could not be delivered.
    Messaging(String),
}

/// The error carried by a `Chain` error, if it is one.
pub open spec fn chain_message(e: Error) -> Option<Seq<char>> {
    match e {
        Error::Chain(m) => Some(m@),
        _ => None,
    }
}

impl Error {
    /// A `Chain` error whose message is `message`.
    pub fn chain(message: &str) -> (e: Error)
        ensures
            chain_message(e) == Some(message@),
    {
        Error::Chain(String::from_str(message))
    }
}

pub type Result<T> = core::result::Result<T, Error>;

} // verus!
