use vstd::prelude::*;

verus! {

/// The most bytes asked of the body stream in one read.
pub const MAX_READ_BYTES: u64 = 2048;

/// What one read of a request body stream gave.
#[derive(Debug)]
pub enum ReadEvent {
    /// Some bytes.
    Chunk(Vec<u8>),
    /// The stream ended cleanly.
    Closed,
    /// The stream failed.
    Failed,
}

/// What to do after a read.
#[derive(Debug, Clone, Copy, PartialEq, Eq, Structural)]
pub enum ReadStep {
    /// Read again.
    More,
    /// The body is complete.
    Done,
    /// Give up on the request.
    Abort,
}

/// Takes in one read of a body stream: a chunk is appended to `buf` and reading
/// goes on; a clean close completes the body; any other failure aborts it.
pub fn absorb(buf: &mut Vec<u8>, event: ReadEvent) -> (r: ReadStep)
    ensures
        match event {
            ReadEvent::Chunk(b) => final(buf)@ == old(buf)@ + b@ && r == ReadStep::More,
            ReadEvent::Closed => final(buf)@ == old(buf)@ && r == ReadStep::Done,
            ReadEvent::Failed => final(buf)@ == old(buf)@ && r == ReadStep::Abort,
        },
{
    match event {
        ReadEvent::Chunk(b) => {
            buf.extend_from_slice(b.as_slice());
            ReadStep::More
        },
        ReadEvent::Closed => ReadStep::Done,
        ReadEvent::Failed => ReadStep::Abort,
    }
}

} // verus!
