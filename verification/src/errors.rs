use vstd::prelude::*;

verus! {

/// The failures a remote operation can surface to the cache's callers.
///
/// `Auth` covers a failed login or sign-in exchange; `Io` covers an
/// enumeration or streaming failure mid-operation.  Neither is retried
/// inside the library: recovery happens only on the next explicit call.
#[derive(Clone, Copy, Debug, PartialEq, Eq, Structural)]
pub enum RemoteError {
    Auth,
    Io,
}

} // verus!
