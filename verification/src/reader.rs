//! The serial reader's decisions: open the device, then loop reading into a
//! fixed buffer, wrapping anything read into a chunk and publishing it. When
//! polling is enabled, an open or read failure means "the device went away,
//! retry later"; when it is disabled, the first failure is fatal.

use vstd::prelude::*;

verus! {

/// How long the reader idles after a read that returned no bytes, to avoid
/// busy-spinning on a source with nothing to say.
pub const IDLE_INTERVAL_MS: u64 = 500;

/// What an attempt to open the serial device leads to: enter the read loop,
/// give up for now and let the supervisor retry later, or end the serial
/// side fatally.
#[derive(Clone, Copy, PartialEq, Eq, Structural, Debug)]
pub enum OpenDecision {
    Pump,
    RetryLater,
    Fatal,
}

/// What one read attempt delivered: `Bytes(n)` for a successful read of `n`
/// bytes (0 meaning "no data currently available"), or `Failed` for a read
/// error.
#[derive(Clone, Copy, PartialEq, Eq, Structural, Debug)]
pub enum ReadEvent {
    Bytes(usize),
    Failed,
}

/// What the read loop does next: wrap the bytes into a chunk and publish it,
/// idle briefly before reading again, shut the handle down best-effort and
/// let the supervisor retry (carrying whether this session transferred any
/// bytes, for logging), or end the serial side fatally.
#[derive(Clone, Copy, PartialEq, Eq, Structural, Debug)]
pub enum ReadDecision {
    PublishChunk,
    IdleThenRead(u64),
    CloseThenRetry(bool),
    FatalError,
}

/// The decision after an attempt to open the device: on success enter the
/// read loop; on failure retry later when polling, fail fatally otherwise.
pub open spec fn open_decision(poll: bool, opened: bool) -> OpenDecision {
    if opened {
        OpenDecision::Pump
    } else if poll {
        OpenDecision::RetryLater
    } else {
        OpenDecision::Fatal
    }
}

/// The decision after one read: publish when bytes arrived, idle the fixed
/// interval when none did, and on a read error retry later when polling or
/// fail fatally otherwise.
pub open spec fn read_decision(poll: bool, has_read: bool, ev: ReadEvent) -> ReadDecision {
    match ev {
        ReadEvent::Bytes(n) => if n > 0 {
            ReadDecision::PublishChunk
        } else {
            ReadDecision::IdleThenRead(IDLE_INTERVAL_MS)
        },
        ReadEvent::Failed => if poll {
            ReadDecision::CloseThenRetry(has_read)
        } else {
            ReadDecision::FatalError
        },
    }
}

/// Whether the session has transferred any bytes after this read.
pub open spec fn next_has_read(has_read: bool, ev: ReadEvent) -> bool {
    match ev {
        ReadEvent::Bytes(n) => has_read || n > 0,
        ReadEvent::Failed => has_read,
    }
}

/// One opened session of the reader: remembers whether the port delivered
/// any useful traffic before failing, purely for informative logging.
#[derive(Clone, Copy, PartialEq, Eq, Structural, Debug)]
pub struct ReaderSession {
    pub has_read: bool,
}

impl ReaderSession {
    /// A session that has not transferred anything yet.
    pub fn new() -> (r: ReaderSession)
        ensures
            !r.has_read,
    {
        ReaderSession { has_read: false }
    }

    /// Decide what to do after an attempt to open the device.
    pub fn on_open_result(poll: bool, opened: bool) -> (r: OpenDecision)
        ensures
            r == open_decision(poll, opened),
    {
        if opened {
            OpenDecision::Pump
        } else if poll {
            OpenDecision::RetryLater
        } else {
            OpenDecision::Fatal
        }
    }

    /// Decide what to do after one read attempt, and account for the bytes
    /// it transferred.
    pub fn on_read(&mut self, poll: bool, ev: ReadEvent) -> (r: ReadDecision)
        ensures
            r == read_decision(poll, old(self).has_read, ev),
            final(self).has_read == next_has_read(old(self).has_read, ev),
    {
        match ev {
            ReadEvent::Bytes(n) => {
                if n > 0 {
                    self.has_read = true;
                    ReadDecision::PublishChunk
                } else {
                    ReadDecision::IdleThenRead(IDLE_INTERVAL_MS)
                }
            },
            ReadEvent::Failed => {
                if poll {
                    ReadDecision::CloseThenRetry(self.has_read)
                } else {
                    ReadDecision::FatalError
                }
            },
        }
    }
}

} // verus!
