use session_index::errors::RemoteError;
use session_index::stream::{DownloadStream, StreamEvent, StreamOutput};

#[test]
fn chunks_pass_through_in_order() {
    let mut s = DownloadStream::new();
    for payload in [vec![1u8, 2, 3], vec![], vec![255u8]] {
        match s.next_chunk(StreamEvent::Chunk(payload.clone())) {
            StreamOutput::Yield(out) => assert_eq!(out, payload),
            _ => panic!("an open stream must forward every chunk"),
        }
    }
    match s.next_chunk(StreamEvent::End) {
        StreamOutput::Finished => {}
        _ => panic!("the source's end must close the stream cleanly"),
    }
}

#[test]
fn one_chunk_then_failure_then_silence() {
    let mut s = DownloadStream::new();

    // The stub remote yields one chunk, then fails.
    match s.next_chunk(StreamEvent::Chunk(vec![42u8])) {
        StreamOutput::Yield(out) => assert_eq!(out, vec![42u8]),
        _ => panic!("the first chunk must be forwarded"),
    }
    match s.next_chunk(StreamEvent::Error(RemoteError::Io)) {
        StreamOutput::Fail(e) => assert_eq!(e, RemoteError::Io),
        _ => panic!("a mid-transfer failure must terminate the stream with the error"),
    }

    // No automatic retry: whatever the remote does now, nothing comes out.
    for _ in 0..2 {
        match s.next_chunk(StreamEvent::Chunk(vec![1u8])) {
            StreamOutput::Closed => {}
            _ => panic!("a failed stream must stay terminated"),
        }
    }
    match s.next_chunk(StreamEvent::End) {
        StreamOutput::Closed => {}
        _ => panic!("a failed stream must stay terminated"),
    }
}

#[test]
fn finished_stream_stays_closed() {
    let mut s = DownloadStream::new();
    match s.next_chunk(StreamEvent::End) {
        StreamOutput::Finished => {}
        _ => panic!("an immediate end must finish the stream"),
    }
    match s.next_chunk(StreamEvent::Chunk(vec![9u8])) {
        StreamOutput::Closed => {}
        _ => panic!("a finished stream must stay closed"),
    }
}
