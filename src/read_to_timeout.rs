use vstd::prelude::*;

verus! {

/// `b` ends with `p`.
pub open spec fn ends_with(b: Seq<u8>, p: Seq<u8>) -> bool {
    b.len() >= p.len() && b.subrange(b.len() - p.len(), b.len() as int) == p
}

/// The outcome of one attempt to read a byte.
#[derive(Debug, Copy, Clone, PartialEq, Eq, Structural)]
pub enum ReadEvent {
    Byte(u8),
    /// The source has no more bytes.
    Ended,
    TimedOut,
    Failed,
}

/// What a pattern read does after one attempt.
#[derive(Debug, Copy, Clone, PartialEq, Eq, Structural)]
pub enum ReadDecision {
    /// Read another byte.
    Continue,
    /// Stop: this many bytes were added to the buffer.
    Done(usize),
    /// Stop with the read error.
    Error,
}

/// Whether `buf` ends with `pattern`.
pub fn tail_matches(buf: &Vec<u8>, pattern: &[u8]) -> (r: bool)
    ensures
        r == ends_with(buf@, pattern@),
{
    let n = buf.len();
    let m = pattern.len();
    if n < m {
        return false;
    }
    let mut i: usize = 0;
    while i < m
        invariant
            n == buf@.len(),
            m == pattern@.len(),
            m <= n,
            i <= m,
            forall|j: int| 0 <= j < i ==> buf@[n - m + j] == pattern@[j],
        decreases m - i,
    {
        if buf[n - m + i] != pattern[i] {
            assert(buf@.subrange(n - m, n as int)[i as int] != pattern@[i as int]);
            return false;
        }
        i += 1;
    }
    assert(buf@.subrange(n - m, n as int) =~= pattern@);
    true
}

/// One step of reading until `pattern` or a timeout: a byte is appended and
/// ends the read when the buffer then ends with the pattern, so the pattern is
/// only looked for once a new byte came; a timeout ends the read with what was
/// added since the buffer held `start` bytes, and so does the end of the
/// source; any other failure is an error.
pub fn pattern_step(buf: &mut Vec<u8>, start: usize, pattern: &[u8], event: ReadEvent) -> (r:
    ReadDecision)
    requires
        start <= old(buf)@.len(),
        old(buf)@.len() < usize::MAX,
    ensures
        event matches ReadEvent::Byte(b) ==> final(buf)@ == old(buf)@.push(b),
        !(event is Byte) ==> final(buf)@ == old(buf)@,
        event is Byte ==> r == if ends_with(final(buf)@, pattern@) {
            ReadDecision::Done((final(buf)@.len() - start) as usize)
        } else {
            ReadDecision::Continue
        },
        event is TimedOut || event is Ended ==> r == ReadDecision::Done(
            (old(buf)@.len() - start) as usize,
        ),
        event is Failed ==> r == ReadDecision::Error,
{
    match event {
        ReadEvent::Byte(b) => {
            buf.push(b);
            if tail_matches(buf, pattern) {
                ReadDecision::Done(buf.len() - start)
            } else {
                ReadDecision::Continue
            }
        },
        ReadEvent::TimedOut | ReadEvent::Ended => ReadDecision::Done(buf.len() - start),
        ReadEvent::Failed => ReadDecision::Error,
    }
}

} // verus!
