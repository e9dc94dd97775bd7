use vstd::prelude::*;

verus! {

/// Every way a call of either client can fail. Each carries the text that
/// the caller sees.
#[derive(Clone, Debug, PartialEq, Eq)]
pub enum ClientError {
    /// No HTTP status came back, on the last attempt allowed.
    Network(String),
    /// The completion service answered with a status outside 2xx that is
    /// fatal, or transient on the last attempt; built from the body.
    Api(String),
    /// A body did not have the shape that was expected.
    Decode(String),
    /// The RPC request could not be sent, or its response not read.
    Transport(String),
    /// The RPC service answered with an error envelope.
    Remote(String),
    /// The RPC call went through but reported that nothing was done.
    Domain(String),
}

impl ClientError {
    pub open spec fn message_spec(&self) -> Seq<char> {
        match self {
            ClientError::Network(m) => m@,
            ClientError::Api(m) => m@,
            ClientError::Decode(m) => m@,
            ClientError::Transport(m) => m@,
            ClientError::Remote(m) => m@,
            ClientError::Domain(m) => m@,
        }
    }

    /// The text of the error.
    pub fn message(&self) -> (r: &String)
        ensures
            r@ == self.message_spec(),
    {
        match self {
            ClientError::Network(m) => m,
            ClientError::Api(m) => m,
            ClientError::Decode(m) => m,
            ClientError::Transport(m) => m,
            ClientError::Remote(m) => m,
            ClientError::Domain(m) => m,
        }
    }
}

} // verus!
