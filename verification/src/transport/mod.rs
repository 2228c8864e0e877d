//! The seam between the runtime and the connections it runs over.

pub mod grpc;
pub mod inmem;

use vstd::prelude::*;
use vstd::string::*;

use crate::keyed::Key;

verus! {

/// The address of a Server: `host:port`, a URL, or a name within the process.
#[derive(Debug, PartialEq, Eq, PartialOrd, Ord, Hash)]
pub struct Endpoint {
    value: String,
}

impl View for Endpoint {
    type V = Seq<char>;

    closed spec fn view(&self) -> Seq<char> {
        self.value@
    }
}

impl Endpoint {
    /// The endpoint of this name.
    pub fn new(value: String) -> (endpoint: Self)
        ensures
            endpoint@ == value@,
    {
        Endpoint { value }
    }

    /// The name of the endpoint.
    pub fn as_str(&self) -> (value: &str)
        ensures
            value@ == self@,
    {
        self.value.as_str()
    }
}

impl Key for Endpoint {
    fn same(&self, other: &Self) -> (same: bool) {
        self.value == other.value
    }

    fn duplicate(&self) -> (copy: Self) {
        Endpoint { value: self.value.clone() }
    }
}

impl Clone for Endpoint {
    fn clone(&self) -> (copy: Self)
        ensures
            copy@ == self@,
    {
        self.duplicate()
    }
}

/// Why a transport failed.
#[derive(Clone, Debug, PartialEq, Eq)]
pub enum TransportError {
    ConnectFailed(String),
    BindFailed(String),
    Closed,
    Full,
}

impl TransportError {
    /// What the error says.
    pub open spec fn text(self) -> Seq<char> {
        match self {
            TransportError::ConnectFailed(detail) => "connect failed: "@ + detail@,
            TransportError::BindFailed(detail) => "bind failed: "@ + detail@,
            TransportError::Closed => "stream closed"@,
            TransportError::Full => "send buffer full"@,
        }
    }

    /// The error as text.
    pub fn message(&self) -> (message: String)
        ensures
            message@ == self.text(),
    {
        match self {
            TransportError::ConnectFailed(detail) => "connect failed: ".to_owned().concat(
                detail.as_str(),
            ),
            TransportError::BindFailed(detail) => "bind failed: ".to_owned().concat(
                detail.as_str(),
            ),
            TransportError::Closed => "stream closed".to_owned(),
            TransportError::Full => "send buffer full".to_owned(),
        }
    }
}

} // verus!
