use vstd::prelude::*;

use crate::errors::{spec_error_kind, AeronCError, AeronErrorType};

verus! {

/// Maps an Aeron publication position to a result: a non-negative value is the
/// new stream position, a negative value is an Aeron error code.
pub fn publication_position_to_result(position: i64) -> (r: Result<i64, AeronCError>)
    ensures
        position >= 0 ==> r == Ok::<i64, AeronCError>(position),
        position < 0 ==> r == Err::<i64, AeronCError>(AeronCError { code: position as i32 }),
{
    if position < 0 {
        Err(AeronCError::from_code(position as i32))
    } else {
        Ok(position)
    }
}

/// High-level connection state of a publication or subscription.
#[derive(Debug, Clone, Copy, PartialEq, Eq, Structural)]
pub enum AeronStatus {
    /// No publication/subscription image is currently connected.
    Disconnected,
    /// At least one image/publication is connected and the channel is usable.
    Connected,
    /// The publication is applying back-pressure; retry the offer shortly.
    BackPressured,
    /// The publication/subscription has been closed and is unusable.
    Closed,
}

/// The status an error stands for, if any.
pub open spec fn spec_status_of_error(code: i32) -> Option<AeronStatus> {
    if code == -2 {
        Some(AeronStatus::BackPressured)
    } else if code == -4 {
        Some(AeronStatus::Closed)
    } else {
        None
    }
}

/// The status of a handle from its closed and connected flags.
pub open spec fn spec_handle_status(is_closed: bool, is_connected: bool) -> AeronStatus {
    if is_closed {
        AeronStatus::Closed
    } else if is_connected {
        AeronStatus::Connected
    } else {
        AeronStatus::Disconnected
    }
}

impl AeronStatus {
    /// Derives a status from an `offer` / `try_claim` error when it is a known
    /// transition (`BackPressured` / `Closed`); `None` for other errors.
    pub fn from_error(error: &AeronCError) -> (r: Option<AeronStatus>)
        ensures
            r == spec_status_of_error(error.code),
    {
        match error.kind() {
            AeronErrorType::PublicationBackPressured => Some(AeronStatus::BackPressured),
            AeronErrorType::PublicationClosed => Some(AeronStatus::Closed),
            _ => None,
        }
    }
}

/// Tracks status transitions, emitting only when the observed status differs
/// from the previously recorded one.
#[derive(Debug, Clone, Copy, PartialEq, Eq, Structural)]
pub struct AeronStatusTracker {
    last_status: Option<AeronStatus>,
}

impl AeronStatusTracker {
    /// The most recent status observed, if any (spec view).
    pub closed spec fn last(self) -> Option<AeronStatus> {
        self.last_status
    }

    /// The tracker as `new` makes it: nothing recorded.
    pub closed spec fn fresh() -> AeronStatusTracker {
        AeronStatusTracker { last_status: None }
    }

    /// A tracker is determined by what it recorded: two trackers with the
    /// same last status are the same tracker.
    pub proof fn lemma_determined_by_last(a: AeronStatusTracker, b: AeronStatusTracker)
        ensures
            a.last() == b.last() <==> a == b,
    {
    }

    /// The fresh tracker has recorded nothing.
    pub proof fn lemma_fresh_has_no_status()
        ensures
            AeronStatusTracker::fresh().last() == None::<AeronStatus>,
    {
    }

    /// Creates a tracker with no recorded status.
    #[must_use]
    pub fn new() -> (r: AeronStatusTracker)
        ensures
            r == AeronStatusTracker::fresh(),
            r.last() == None::<AeronStatus>,
    {
        AeronStatusTracker { last_status: None }
    }

    /// Observes a status: returns `Some(status)` when it differs from the last
    /// one (or is the first), `None` when unchanged. The status is recorded.
    pub fn observe(&mut self, status: AeronStatus) -> (r: Option<AeronStatus>)
        ensures
            (final(self).last(), r) == spec_observe(old(self).last(), status),
    {
        let changed = match self.last_status {
            Some(last) => last != status,
            None => true,
        };
        if changed {
            self.last_status = Some(status);
            Some(status)
        } else {
            None
        }
    }

    /// Forgets the recorded status so the next observation emits.
    pub fn reset(&mut self)
        ensures
            *final(self) == AeronStatusTracker::fresh(),
            final(self).last() == None::<AeronStatus>,
    {
        self.last_status = None;
    }

    /// The most recent status observed, if any.
    #[must_use]
    pub fn last_status(&self) -> (r: Option<AeronStatus>)
        ensures
            r == self.last(),
    {
        self.last_status
    }
}

impl Default for AeronStatusTracker {
    fn default() -> (r: AeronStatusTracker)
        ensures
            r == AeronStatusTracker::fresh(),
            r.last() == None::<AeronStatus>,
    {
        AeronStatusTracker::new()
    }
}

/// The effect of observing `status` when `last` was recorded: the recorded
/// status afterwards and what the observation emits.
pub open spec fn spec_observe(last: Option<AeronStatus>, status: AeronStatus) -> (
    Option<AeronStatus>,
    Option<AeronStatus>,
) {
    if last == Some(status) {
        (last, None)
    } else {
        (Some(status), Some(status))
    }
}

/// Observing the same status twice in a row emits nothing the second time,
/// whatever was recorded before.
pub proof fn lemma_repeat_observation_is_silent(last: Option<AeronStatus>, status: AeronStatus)
    ensures
        spec_observe(spec_observe(last, status).0, status).1 == None::<AeronStatus>,
{
}

/// After a reset (nothing recorded), any observation emits the observed status.
pub proof fn lemma_observation_after_reset_emits(status: AeronStatus)
    ensures
        spec_observe(None, status).1 == Some(status),
{
}

/// The first observation on a new (or reset) tracker emits the observed
/// status and records it.
pub proof fn lemma_fresh_tracker_emits(status: AeronStatus)
    ensures
        spec_observe(AeronStatusTracker::fresh().last(), status) == (Some(status), Some(status)),
{
}

/// An observation emits exactly when the status changed, and what it emits is
/// the new status.
pub proof fn lemma_observe_emits_on_change(last: Option<AeronStatus>, status: AeronStatus)
    ensures
        spec_observe(last, status).1 is Some <==> last != Some(status),
        spec_observe(last, status).1 is Some ==> spec_observe(last, status).1 == Some(status),
{
}

} // verus!
