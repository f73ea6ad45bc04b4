//! How a request fails.

use vstd::prelude::*;

verus! {

/// The two ways in which a page is not served.
#[derive(Clone, Debug, PartialEq, Eq)]
pub enum Error {
    /// No talk has the link that the requested name stands for. Holds the
    /// requested name.
    PostNotFound(String),
    /// The renderer could not produce the page. Holds the message it gave.
    RenderingFailure(String),
}

/// The answer to a request whose page the renderer was asked for: its output
/// whole, or its failure as a [`Error::RenderingFailure`].
pub open spec fn page(out: Result<Vec<u8>, String>) -> Result<Vec<u8>, Error> {
    match out {
        Ok(bytes) => Ok(bytes),
        Err(reason) => Err(Error::RenderingFailure(reason)),
    }
}

/// Turns what the renderer returned into the answer to the request.
pub fn finish(out: Result<Vec<u8>, String>) -> (res: Result<Vec<u8>, Error>)
    ensures
        res == page(out),
        res is Ok <==> out is Ok,
{
    match out {
        Ok(bytes) => Ok(bytes),
        Err(reason) => Err(Error::RenderingFailure(reason)),
    }
}

} // verus!
