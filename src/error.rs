//! Errors of the network side.
use vstd::prelude::*;

verus! {

#[verifier::external_type_specification]
#[verifier::external_body]
pub struct ExIoError(std::io::Error);

/// Why a network operation failed.
#[derive(Debug)]
pub enum NetworkError {
    /// The socket failed.
    Io(std::io::Error),
    /// Sending on a closed channel.
    SendError,
    /// Receiving on a closed channel.
    RecvError,
    /// Received data that is not a valid event.
    DecodeError,
    /// An event could not be encoded.
    EncodeError,
}

/// The result of a network operation.
pub type NetworkResult<T> = Result<T, NetworkError>;

impl From<std::io::Error> for NetworkError {
    fn from(err: std::io::Error) -> (r: NetworkError)
        ensures
            r == NetworkError::Io(err),
    {
        NetworkError::Io(err)
    }
}

impl vstd::std_specs::convert::FromSpecImpl<std::io::Error> for NetworkError {
    open spec fn obeys_from_spec() -> bool {
        true
    }

    open spec fn from_spec(err: std::io::Error) -> NetworkError {
        NetworkError::Io(err)
    }
}

impl NetworkError {
    /// A description of the failure, for the variants that carry no error
    /// of their own.
    pub fn description(&self) -> (r: Option<&'static str>)
        ensures
            r is None <==> self is Io,
    {
        match self {
            NetworkError::Io(_) => None,
            NetworkError::SendError => Some("sending on a closed channel"),
            NetworkError::RecvError => Some("receiving on a closed channel"),
            NetworkError::DecodeError => Some("received invalid network data"),
            NetworkError::EncodeError => Some("failed to encode network data"),
        }
    }
}

} // verus!
