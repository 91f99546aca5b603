use vstd::prelude::*;
use crate::error::{Error, ErrorKind, foreign_message_view, parse_js_error};

verus! {

/// The backend operation a write driver asks its caller to perform next.
/// The caller performs it against the backing store and reports the outcome
/// back to the driver.
#[derive(Clone, Copy, PartialEq, Eq, Structural, Debug)]
pub enum WriteAction {
    /// Acquire a writable stream from the file handle.
    OpenStream,
    /// Seek the open stream to the write offset.
    Seek,
    /// Write the bytes at the stream's current position.
    WriteBytes,
    /// Close the stream, committing the write and releasing it.
    CloseStream,
}

/// Where one write call stands in its open-seek-write-close pipeline.
#[derive(Clone, Copy, PartialEq, Eq, Structural, Debug)]
pub enum WritePhase {
    /// Awaiting the outcome of acquiring the writable stream.
    Opening,
    /// Stream open; awaiting the outcome of the seek.
    Seeking,
    /// Stream open and positioned; awaiting the outcome of the write.
    Writing,
    /// Bytes written; awaiting the outcome of the commit-and-close.
    Closing,
    /// An earlier step failed while the stream was open; awaiting the close
    /// that releases the stream before the failure is reported.
    CloseAfterError,
    /// The write call is finished, its stream released.
    Done,
}

/// Drives the scoped writable stream behind one write call: open, seek,
/// write, close, in that order. Whatever the backend reports, the driver
/// never finishes with the stream still open: a failure after the stream was
/// acquired routes through a closing step before it is reported, and the
/// first failure observed is the one reported.
pub struct WriteDriver {
    phase: WritePhase,
    stream_open: bool,
    failure: Option<Error>,
}

impl WriteDriver {
    /// The driver's current phase.
    pub closed spec fn phase_spec(&self) -> WritePhase {
        self.phase
    }

    /// Whether the backend stream is currently held open by this write call.
    pub closed spec fn stream_open_spec(&self) -> bool {
        self.stream_open
    }

    /// The first failure observed, already translated into the structured
    /// taxonomy; `None` while no step has failed.
    pub closed spec fn failure_spec(&self) -> Option<Error> {
        self.failure
    }

    /// The write call is finished.
    pub open spec fn is_done_spec(&self) -> bool {
        self.phase_spec() == WritePhase::Done
    }

    /// How many more outcomes the driver can consume before it finishes. A
    /// step on a live driver strictly decreases this, so a loop that performs
    /// the requested actions and reports their outcomes always terminates.
    pub open spec fn steps_remaining(&self) -> int {
        match self.phase_spec() {
            WritePhase::Opening => 4,
            WritePhase::Seeking => 3,
            WritePhase::Writing => 2,
            WritePhase::Closing => 1,
            WritePhase::CloseAfterError => 1,
            WritePhase::Done => 0,
        }
    }

    /// The driver's invariant: the stream is open exactly in the phases
    /// between a successful open and the close that releases it, a recorded
    /// failure is always structured with kind `Unexpected`, and a finished
    /// driver never holds the stream open.
    pub open spec fn wf(&self) -> bool {
        &&& match self.phase_spec() {
            WritePhase::Opening => !self.stream_open_spec() && self.failure_spec() is None,
            WritePhase::Seeking => self.stream_open_spec() && self.failure_spec() is None,
            WritePhase::Writing => self.stream_open_spec() && self.failure_spec() is None,
            WritePhase::Closing => self.stream_open_spec() && self.failure_spec() is None,
            WritePhase::CloseAfterError => self.stream_open_spec() && self.failure_spec() is Some,
            WritePhase::Done => !self.stream_open_spec(),
        }
        &&& (self.failure_spec() matches Some(e) ==> e.kind_spec() == ErrorKind::Unexpected)
    }

    /// A fresh driver, about to acquire the stream.
    pub fn new() -> (d: WriteDriver)
        ensures
            d.wf(),
            d.phase_spec() == WritePhase::Opening,
            !d.is_done_spec(),
            !d.stream_open_spec(),
            d.failure_spec() is None,
    {
        WriteDriver { phase: WritePhase::Opening, stream_open: false, failure: None }
    }

    /// The next backend operation to perform, or `None` once the write call
    /// is finished.
    pub fn next_action(&self) -> (a: Option<WriteAction>)
        ensures
            a is Some <==> !self.is_done_spec(),
            match self.phase_spec() {
                WritePhase::Opening => a == Some(WriteAction::OpenStream),
                WritePhase::Seeking => a == Some(WriteAction::Seek),
                WritePhase::Writing => a == Some(WriteAction::WriteBytes),
                WritePhase::Closing => a == Some(WriteAction::CloseStream),
                WritePhase::CloseAfterError => a == Some(WriteAction::CloseStream),
                WritePhase::Done => a is None,
            },
    {
        match self.phase {
            WritePhase::Opening => Some(WriteAction::OpenStream),
            WritePhase::Seeking => Some(WriteAction::Seek),
            WritePhase::Writing => Some(WriteAction::WriteBytes),
            WritePhase::Closing => Some(WriteAction::CloseStream),
            WritePhase::CloseAfterError => Some(WriteAction::CloseStream),
            WritePhase::Done => None,
        }
    }

    /// Advances the driver on the outcome of the operation it last asked
    /// for: `Ok` on success, `Err` with the backend diagnostic's extractable
    /// text on failure. A success moves to the next pipeline step; a failure
    /// is translated into a structured error and, when the stream is open,
    /// routed through a closing step that releases it, the first failure
    /// being the one kept.
    pub fn step(&mut self, outcome: Result<(), Option<String>>)
        requires
            old(self).wf(),
            !old(self).is_done_spec(),
        ensures
            final(self).wf(),
            final(self).steps_remaining() < old(self).steps_remaining(),
            outcome is Ok ==> match old(self).phase_spec() {
                WritePhase::Opening => {
                    &&& final(self).phase_spec() == WritePhase::Seeking
                    &&& final(self).stream_open_spec()
                },
                WritePhase::Seeking => final(self).phase_spec() == WritePhase::Writing,
                WritePhase::Writing => final(self).phase_spec() == WritePhase::Closing,
                WritePhase::Closing => {
                    &&& final(self).phase_spec() == WritePhase::Done
                    &&& !final(self).stream_open_spec()
                    &&& final(self).failure_spec() is None
                },
                WritePhase::CloseAfterError => {
                    &&& final(self).phase_spec() == WritePhase::Done
                    &&& !final(self).stream_open_spec()
                    &&& final(self).failure_spec() == old(self).failure_spec()
                },
                WritePhase::Done => false,
            },
            outcome matches Err(m) ==> match old(self).phase_spec() {
                WritePhase::Opening => {
                    &&& final(self).phase_spec() == WritePhase::Done
                    &&& !final(self).stream_open_spec()
                    &&& (final(self).failure_spec() matches Some(e) && e.kind_spec()
                        == ErrorKind::Unexpected && e.message_spec() == foreign_message_view(m))
                },
                WritePhase::Seeking => {
                    &&& final(self).phase_spec() == WritePhase::CloseAfterError
                    &&& final(self).stream_open_spec()
                    &&& (final(self).failure_spec() matches Some(e) && e.message_spec()
                        == foreign_message_view(m))
                },
                WritePhase::Writing => {
                    &&& final(self).phase_spec() == WritePhase::CloseAfterError
                    &&& final(self).stream_open_spec()
                    &&& (final(self).failure_spec() matches Some(e) && e.message_spec()
                        == foreign_message_view(m))
                },
                WritePhase::Closing => {
                    &&& final(self).phase_spec() == WritePhase::Done
                    &&& !final(self).stream_open_spec()
                    &&& (final(self).failure_spec() matches Some(e) && e.message_spec()
                        == foreign_message_view(m))
                },
                WritePhase::CloseAfterError => {
                    &&& final(self).phase_spec() == WritePhase::Done
                    &&& !final(self).stream_open_spec()
                    &&& final(self).failure_spec() == old(self).failure_spec()
                },
                WritePhase::Done => false,
            },
    {
        match outcome {
            Ok(()) => {
                match self.phase {
                    WritePhase::Opening => {
                        self.stream_open = true;
                        self.phase = WritePhase::Seeking;
                    },
                    WritePhase::Seeking => {
                        self.phase = WritePhase::Writing;
                    },
                    WritePhase::Writing => {
                        self.phase = WritePhase::Closing;
                    },
                    WritePhase::Closing => {
                        self.stream_open = false;
                        self.phase = WritePhase::Done;
                    },
                    WritePhase::CloseAfterError => {
                        self.stream_open = false;
                        self.phase = WritePhase::Done;
                    },
                    WritePhase::Done => {
                    },
                }
            },
            Err(m) => {
                match self.phase {
                    WritePhase::Opening => {
                        self.failure = Some(parse_js_error(m));
                        self.phase = WritePhase::Done;
                    },
                    WritePhase::Seeking => {
                        self.failure = Some(parse_js_error(m));
                        self.phase = WritePhase::CloseAfterError;
                    },
                    WritePhase::Writing => {
                        self.failure = Some(parse_js_error(m));
                        self.phase = WritePhase::CloseAfterError;
                    },
                    WritePhase::Closing => {
                        self.failure = Some(parse_js_error(m));
                        self.stream_open = false;
                        self.phase = WritePhase::Done;
                    },
                    WritePhase::CloseAfterError => {
                        self.stream_open = false;
                        self.phase = WritePhase::Done;
                    },
                    WritePhase::Done => {
                    },
                }
            },
        }
    }

    /// The finished write call's result: success when no step failed, and
    /// otherwise the first failure observed, as a structured error.
    pub fn take_result(self) -> (r: Result<(), Error>)
        requires
            self.wf(),
            self.is_done_spec(),
        ensures
            self.failure_spec() is None ==> r is Ok,
            self.failure_spec() matches Some(e) ==> r == Result::<(), Error>::Err(e),
    {
        match self.failure {
            None => Ok(()),
            Some(e) => Err(e),
        }
    }
}

/// A finished write driver never leaves its stream open, and any failure it
/// reports is a structured error of kind `Unexpected`: a backend failure
/// during stream-open, seek, write, or close surfaces as such an error, with
/// no foreign value escaping and no dangling open stream.
pub proof fn lemma_done_driver_released(d: WriteDriver)
    requires
        d.wf(),
        d.is_done_spec(),
    ensures
        !d.stream_open_spec(),
        d.failure_spec() matches Some(e) ==> e.kind_spec() == ErrorKind::Unexpected,
{
}

} // verus!
