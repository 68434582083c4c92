use vstd::prelude::*;

verus! {

/// A RESP reply value, as the back-ends send it.
#[derive(Debug)]
pub enum Resp {
    Error(Vec<u8>),
    Simple(Vec<u8>),
    Integer(i64),
    /// A bulk string; `None` is the nil bulk string.
    Bulk(Option<Vec<u8>>),
    /// An array; `None` is the nil array.
    Arr(Option<Vec<Resp>>),
}

/// Errors of a client of a back-end, and the signal that a retry loop is done.
#[derive(Debug, Clone, Copy, PartialEq, Eq, Structural)]
pub enum RedisClientError {
    Done,
    Canceled,
    Closed,
    InvalidReply,
    Io,
}

/// The reply handler of a retry loop that never stops on its own: an error
/// reply is reported by the caller and the loop goes on.
pub fn retry_handle_func(response: Resp) -> (r: Result<(), RedisClientError>)
    ensures
        r == Ok::<(), RedisClientError>(()),
{
    match response {
        Resp::Error(_) => Ok(()),
        _ => Ok(()),
    }
}

} // verus!
