//! The iterator bridge: a forward-only cursor over a source feed. The feed
//! itself (opening a source identifier, fetching the next native record) is
//! outside this crate; the caller performs those blocking steps and hands
//! the outcome in as a [`PullEvent`]. The cursor owns every decision: when
//! the feed must still be polled, how a fetched record is converted, and
//! that pulling past the end terminates exactly once and stays inert.

use vstd::prelude::*;
use crate::adapter::{adapt, adapted, expected_error, native_valid};
use crate::element::{ConversionError, NativeRecord, RouteUpdateElement, SourceError};

verus! {

/// What one poll of the source feed produced: the next native record, or
/// the upstream end of the stream.
pub enum PullEvent {
    Record(NativeRecord),
    EndOfStream,
}

/// What one pull yields to the caller: a converted element, a conversion
/// failure scoped to this pull alone, or the terminal signal.
#[derive(Debug)]
pub enum PullOutcome {
    Element(RouteUpdateElement),
    Failed(ConversionError),
    Terminate,
}

/// The cursor of one iterator: bound to exactly one source feed instance,
/// strictly forward, single-pass. Two states: active (the feed may still
/// yield records) and exhausted (the feed signaled its end; every further
/// pull terminates with no further effect).
pub struct IteratorCursor {
    exhausted: bool,
}

impl IteratorCursor {
    /// The feed may still yield records.
    pub closed spec fn is_active(self) -> bool {
        !self.exhausted
    }

    /// Opens a cursor over a feed the caller tried to open: a cursor comes
    /// into being exactly when the feed opened, and starts active; an
    /// unopenable source yields the unavailability error and no cursor.
    pub fn open(feed_opened: bool) -> (r: Result<IteratorCursor, SourceError>)
        ensures
            feed_opened ==> (r matches Ok(c) && c.is_active()),
            !feed_opened ==> r == Err::<IteratorCursor, SourceError>(SourceError::SourceUnavailable),
    {
        if feed_opened {
            Ok(IteratorCursor { exhausted: false })
        } else {
            Err(SourceError::SourceUnavailable)
        }
    }

    /// Whether the caller must poll the feed before the next pull. An
    /// exhausted cursor never asks for another record, so repeated pulls
    /// past the end reach the feed no further.
    pub fn wants_record(&self) -> (b: bool)
        ensures
            b == self.is_active(),
    {
        !self.exhausted
    }

    /// One pull. On an active cursor, a fetched record is converted: a
    /// well-formed record yields its portable element and the cursor stays
    /// active; a malformed record yields a conversion failure scoped to
    /// this pull alone, and the cursor stays active so later records can
    /// still be pulled. The upstream end of the stream terminates the
    /// cursor. On an exhausted cursor, the pull is inert: it terminates
    /// again, whatever event is handed in, and the cursor stays exhausted.
    pub fn pull(&mut self, event: PullEvent) -> (r: PullOutcome)
        ensures
            !old(self).is_active() ==> !final (self).is_active() && (r matches
                PullOutcome::Terminate),
            old(self).is_active() ==> match event {
                PullEvent::Record(n) => final (self).is_active() && (if native_valid(n) {
                    r matches PullOutcome::Element(e) && adapted(e, n)
                } else {
                    r matches PullOutcome::Failed(err) && err == expected_error(n)
                }),
                PullEvent::EndOfStream => !final (self).is_active() && (r matches
                    PullOutcome::Terminate),
            },
    {
        if self.exhausted {
            return PullOutcome::Terminate;
        }
        match event {
            PullEvent::Record(n) => {
                match adapt(n) {
                    Ok(e) => PullOutcome::Element(e),
                    Err(err) => PullOutcome::Failed(err),
                }
            },
            PullEvent::EndOfStream => {
                self.exhausted = true;
                PullOutcome::Terminate
            },
        }
    }

    /// Releases the cursor: after closing, it is exhausted, so every
    /// further pull terminates. Idempotent.
    pub fn close(&mut self)
        ensures
            !final (self).is_active(),
    {
        self.exhausted = true;
    }
}

} // verus!
