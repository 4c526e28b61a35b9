use vstd::prelude::*;

use crate::errors::RemoteError;

verus! {

/// Where a download stream stands: still producing, finished cleanly, or
/// terminated by a mid-transfer error.  The two latter states are final —
/// the library never restarts a download on its own; resuming is the
/// caller's decision, from the beginning.
#[derive(Clone, Copy, Debug, PartialEq, Eq, Structural)]
pub enum StreamState {
    Open,
    Done,
    Failed,
}

/// What one pull on the remote byte source produced.
pub enum StreamEvent {
    /// One chunk of the file's bytes, in order.
    Chunk(Vec<u8>),
    /// The remote source reported the end of the file.
    End,
    /// The remote read failed mid-transfer.
    Error(RemoteError),
}

/// What the stream hands its consumer for one pull.
pub enum StreamOutput {
    /// Forward this chunk, unmodified, and keep pulling.
    Yield(Vec<u8>),
    /// The stream ended cleanly; stop pulling.
    Finished,
    /// The stream terminates with this error; stop pulling.
    Fail(RemoteError),
    /// The stream had already terminated; nothing more is produced.
    Closed,
}

/// One lazily produced download: a pull-based pass-through from the remote
/// byte source to the consumer, with no buffering of the whole file.
pub struct DownloadStream {
    state: StreamState,
}

impl DownloadStream {
    /// The stream's current state.
    pub closed spec fn state(self) -> StreamState {
        self.state
    }

    /// A fresh stream, ready to pull its first chunk.
    pub fn new() -> (r: Self)
        ensures
            r.state() == StreamState::Open,
    {
        DownloadStream { state: StreamState::Open }
    }

    /// Turns one observed remote outcome into what the consumer sees.
    ///
    /// While the stream is open, a chunk is forwarded byte for byte and the
    /// stream stays open; the source's end closes it cleanly; a remote
    /// failure terminates it with that error.  Once terminated — cleanly or
    /// not — every further pull returns `Closed` and changes nothing: a
    /// failed transfer is never retried from inside the stream.
    pub fn next_chunk(&mut self, event: StreamEvent) -> (r: StreamOutput)
        ensures
            stream_post(*old(self), event, *final(self), r),
    {
        match self.state {
            StreamState::Open => match event {
                StreamEvent::Chunk(c) => StreamOutput::Yield(c),
                StreamEvent::End => {
                    self.state = StreamState::Done;
                    StreamOutput::Finished
                },
                StreamEvent::Error(e) => {
                    self.state = StreamState::Failed;
                    StreamOutput::Fail(e)
                },
            },
            _ => StreamOutput::Closed,
        }
    }
}

/// A terminated stream yields nothing more, whatever the remote source
/// does afterwards: one success chunk followed by a failure gives exactly
/// that chunk, then the terminal error, then silence — no automatic retry.
pub proof fn lemma_stream_terminal(s: DownloadStream, event: StreamEvent)
    requires
        s.state() != StreamState::Open,
    ensures
        forall|s2: DownloadStream, r: StreamOutput|
            stream_post(s, event, s2, r) ==> r is Closed && s2.state() == s.state(),
{
}

/// The input–output relation of `next_chunk`, written out once so laws can
/// quantify over it.
pub open spec fn stream_post(
    s: DownloadStream,
    event: StreamEvent,
    s2: DownloadStream,
    r: StreamOutput,
) -> bool {
    &&& (s.state() == StreamState::Open ==> (match event {
        StreamEvent::Chunk(c) => (r matches StreamOutput::Yield(out) && out@ == c@) && s2.state()
            == StreamState::Open,
        StreamEvent::End => r is Finished && s2.state() == StreamState::Done,
        StreamEvent::Error(e) => (r matches StreamOutput::Fail(e2) && e2 == e) && s2.state()
            == StreamState::Failed,
    }))
    &&& (s.state() != StreamState::Open ==> r is Closed && s2.state() == s.state())
}

} // verus!
