//! The kinds of failure a node reports, with the status and the message
//! that go out with each.

use vstd::prelude::*;

verus! {

/// Why a request failed.
#[derive(Debug, Clone, Copy, PartialEq, Eq, Structural)]
pub enum ErrorKind {
    /// The request carried no key, or an empty one.
    Validation,
    /// A write reached a store that was opened read-only.
    ReadOnly,
    /// The storage engine reported a failure.
    StorageIo,
    /// A partition index lies outside the topology.
    InvalidPartition,
    /// The node a request would be forwarded to is the node itself.
    RedirectLoop,
    /// The owning node could not be reached, or its reply was unusable.
    RemoteUnavailable,
}

/// The status of a reply that carries a result.
pub const STATUS_OK: u16 = 200;

/// The status of a failure that the request or the configuration caused.
pub const STATUS_BAD_REQUEST: u16 = 400;

/// The status of a failure inside the node or its storage.
pub const STATUS_INTERNAL: u16 = 500;

impl ErrorKind {
    /// Whether the failure lies with the request or the configuration
    /// rather than with the node's storage or its peers.
    pub open spec fn is_client_fault(self) -> bool {
        self == ErrorKind::Validation || self == ErrorKind::RedirectLoop
    }

    /// The status code that goes out with this kind of failure.
    pub open spec fn spec_http_status(self) -> u16 {
        if self.is_client_fault() {
            STATUS_BAD_REQUEST
        } else {
            STATUS_INTERNAL
        }
    }

    /// The text that goes out with this kind of failure.
    pub open spec fn spec_message(self) -> Seq<char> {
        match self {
            ErrorKind::Validation => "Key must not be empty"@,
            ErrorKind::ReadOnly => "Read-only mode"@,
            ErrorKind::StorageIo => "Storage failure"@,
            ErrorKind::InvalidPartition => "Partition outside the topology"@,
            ErrorKind::RedirectLoop => "ERROR: Shard redirection loop detected!"@,
            ErrorKind::RemoteUnavailable => "Remote shard unavailable"@,
        }
    }

    /// The status code that goes out with this kind of failure: 400 where
    /// the request or the configuration is at fault, 500 otherwise.
    pub fn http_status(&self) -> (code: u16)
        ensures
            code == self.spec_http_status(),
    {
        match self {
            ErrorKind::Validation => STATUS_BAD_REQUEST,
            ErrorKind::RedirectLoop => STATUS_BAD_REQUEST,
            ErrorKind::ReadOnly => STATUS_INTERNAL,
            ErrorKind::StorageIo => STATUS_INTERNAL,
            ErrorKind::InvalidPartition => STATUS_INTERNAL,
            ErrorKind::RemoteUnavailable => STATUS_INTERNAL,
        }
    }

    /// The text that goes out with this kind of failure. It is fixed for
    /// each kind.
    pub fn message(&self) -> (text: &'static str)
        ensures
            text@ == self.spec_message(),
    {
        match self {
            ErrorKind::Validation => "Key must not be empty",
            ErrorKind::ReadOnly => "Read-only mode",
            ErrorKind::StorageIo => "Storage failure",
            ErrorKind::InvalidPartition => "Partition outside the topology",
            ErrorKind::RedirectLoop => "ERROR: Shard redirection loop detected!",
            ErrorKind::RemoteUnavailable => "Remote shard unavailable",
        }
    }
}

/// No two kinds of failure share a message, and none has an empty one: a
/// client that sees the text knows the kind.
pub proof fn lemma_message_identifies_kind(a: ErrorKind, b: ErrorKind)
    ensures
        a.spec_message().len() > 0,
        a.spec_message() == b.spec_message() ==> a == b,
{
    reveal_strlit("Key must not be empty");
    reveal_strlit("Read-only mode");
    reveal_strlit("Storage failure");
    reveal_strlit("Partition outside the topology");
    reveal_strlit("ERROR: Shard redirection loop detected!");
    reveal_strlit("Remote shard unavailable");
    assert(ErrorKind::Validation.spec_message().len() == 21);
    assert(ErrorKind::ReadOnly.spec_message().len() == 14);
    assert(ErrorKind::StorageIo.spec_message().len() == 15);
    assert(ErrorKind::InvalidPartition.spec_message().len() == 30);
    assert(ErrorKind::RedirectLoop.spec_message().len() == 39);
    assert(ErrorKind::RemoteUnavailable.spec_message().len() == 24);
}

} // verus!
