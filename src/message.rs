//! The request/response contract and the dispatch from one to the other.
use vstd::prelude::*;

verus! {

/// A request sent by a client.
#[derive(Debug, Clone)]
pub enum Request {
    /// Asks for `content` back unchanged.
    Echo { content: String },
    /// Asks for the 32-bit sum of `a` and `b`.
    Add { a: i32, b: i32 },
}

/// The server's answer to one request.
#[derive(Debug, Clone)]
pub enum Response {
    /// The content of an echo request.
    Echo { content: String },
    /// The 32-bit sum of an add request.
    AddResult { result: i32 },
}

/// `a + b` brought back into the `i32` range by adding or taking away 2^32,
/// as two's-complement wraparound does.
pub open spec fn wrapped_sum(a: i32, b: i32) -> int {
    let s = a + b;
    if s > i32::MAX {
        s - 4294967296
    } else if s < i32::MIN {
        s + 4294967296
    } else {
        s
    }
}

/// The one response that answers `req`.
pub open spec fn response_for(req: Request) -> Response {
    match req {
        Request::Echo { content } => Response::Echo { content },
        Request::Add { a, b } => Response::AddResult { result: wrapped_sum(a, b) as i32 },
    }
}

/// Answers an echo request with the same content.
pub fn handle_echo(content: String) -> (r: Response)
    ensures
        r == (Response::Echo { content }),
{
    Response::Echo { content }
}

/// Answers an add request with the wrapped 32-bit sum.
pub fn handle_add(a: i32, b: i32) -> (r: Response)
    ensures
        r == (Response::AddResult { result: wrapped_sum(a, b) as i32 }),
        r matches Response::AddResult { result } && result as int == wrapped_sum(a, b),
{
    let result = a.wrapping_add(b);
    Response::AddResult { result }
}

/// Maps each request to its response.
pub fn dispatch(req: Request) -> (r: Response)
    ensures
        r == response_for(req),
{
    match req {
        Request::Echo { content } => handle_echo(content),
        Request::Add { a, b } => handle_add(a, b),
    }
}

} // verus!
