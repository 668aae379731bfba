use vstd::prelude::*;

use crate::errors::AeronCError;
use crate::status::{publication_position_to_result, spec_handle_status, AeronStatus};

verus! {

/// The connection state of a publication or subscription handle from its
/// closed and connected flags: closed wins, then connected, else disconnected.
pub fn status(is_closed: bool, is_connected: bool) -> (r: AeronStatus)
    ensures
        r == spec_handle_status(is_closed, is_connected),
{
    if is_closed {
        AeronStatus::Closed
    } else if is_connected {
        AeronStatus::Connected
    } else {
        AeronStatus::Disconnected
    }
}

/// The outcome of an `offer`: the new stream position, or the error that the
/// negative result code stands for.
pub fn offer_result(offer_position: i64) -> (r: Result<i64, AeronCError>)
    ensures
        offer_position >= 0 ==> r == Ok::<i64, AeronCError>(offer_position),
        offer_position < 0 ==> r == Err::<i64, AeronCError>(
            AeronCError { code: offer_position as i32 },
        ),
{
    publication_position_to_result(offer_position)
}

/// The outcome of a `try_claim`: the position of the claimed slot, or the error
/// that the negative result code stands for.
pub fn try_claim_result(claim_position: i64) -> (r: Result<i64, AeronCError>)
    ensures
        claim_position >= 0 ==> r == Ok::<i64, AeronCError>(claim_position),
        claim_position < 0 ==> r == Err::<i64, AeronCError>(
            AeronCError { code: claim_position as i32 },
        ),
{
    publication_position_to_result(claim_position)
}

/// A claim on `length` bytes of a publication's term buffer, with a one-shot
/// commit-or-abort lifecycle. A claim that is not finalised must be aborted
/// when it is dropped, so that its slot is released at once.
pub struct AeronClaim {
    length: usize,
    position: i64,
    finalised: bool,
}

impl AeronClaim {
    /// The claimed length (spec view).
    pub closed spec fn length_view(&self) -> usize {
        self.length
    }

    /// The stream position Aeron assigned (spec view).
    pub closed spec fn position_view(&self) -> i64 {
        self.position
    }

    /// The claim was committed or aborted (spec view).
    pub closed spec fn finalised_view(&self) -> bool {
        self.finalised
    }

    /// A claim of `length` bytes at `position`; `finalised` marks one that was
    /// already committed or aborted and must not be aborted again on drop.
    pub fn new(length: usize, position: i64, finalised: bool) -> (r: Self)
        ensures
            r.length_view() == length,
            r.position_view() == position,
            r.finalised_view() == finalised,
    {
        AeronClaim { length, position, finalised }
    }

    /// Length of the claimed slice in bytes.
    pub fn len(&self) -> (r: usize)
        ensures
            r == self.length_view(),
    {
        self.length
    }

    /// Whether the claimed slice is empty.
    pub fn is_empty(&self) -> (r: bool)
        ensures
            r == (self.length_view() == 0),
    {
        self.length == 0
    }

    /// Stream position Aeron assigned to this claim.
    pub fn position(&self) -> (r: i64)
        ensures
            r == self.position_view(),
    {
        self.position
    }

    /// Whether dropping the claim must abort it: it was neither committed nor
    /// aborted.
    pub fn needs_abort_on_drop(&self) -> (r: bool)
        ensures
            r == !self.finalised_view(),
    {
        !self.finalised
    }

    /// Commits the claim, given the status code of the buffer commit: the
    /// claim's position on success, else the error of the code. Consumes the
    /// claim, so it can be finalised only once.
    pub fn commit(self, commit_code: i32) -> (r: Result<i64, AeronCError>)
        ensures
            commit_code < 0 ==> r == Err::<i64, AeronCError>(AeronCError { code: commit_code }),
            commit_code >= 0 ==> r == Ok::<i64, AeronCError>(self.position_view()),
    {
        let mut claim = self;
        claim.finalised = true;
        if commit_code < 0 {
            return Err(AeronCError::from_code(commit_code));
        }
        Ok(claim.position)
    }

    /// Aborts the claim, given the status code of the buffer abort. Consumes the
    /// claim, so it can be finalised only once.
    pub fn abort(self, abort_code: i32) -> (r: Result<(), AeronCError>)
        ensures
            abort_code < 0 ==> r == Err::<(), AeronCError>(AeronCError { code: abort_code }),
            abort_code >= 0 ==> r is Ok,
    {
        let mut claim = self;
        claim.finalised = true;
        if abort_code < 0 {
            return Err(AeronCError::from_code(abort_code));
        }
        Ok(())
    }
}

/// What a claim asks of its term buffer slot.
#[derive(Debug, Clone, Copy, PartialEq, Eq, Structural)]
pub enum ClaimAction {
    Commit,
    Abort,
}

/// How a claim's life ends: by `commit`, by `abort`, or by being dropped.
#[derive(Debug, Clone, Copy, PartialEq, Eq, Structural)]
pub enum ClaimEnding {
    Committed,
    Aborted,
    Dropped,
}

/// The slot actions a claim issues over its life, given whether it was
/// already finalised and how it ends: `commit` and `abort` consume the claim
/// and issue their action; a drop aborts exactly the claims that still need it.
pub open spec fn claim_actions(finalised: bool, ending: ClaimEnding) -> Seq<ClaimAction> {
    match ending {
        ClaimEnding::Committed => seq![ClaimAction::Commit],
        ClaimEnding::Aborted => seq![ClaimAction::Abort],
        ClaimEnding::Dropped => if finalised {
            Seq::empty()
        } else {
            seq![ClaimAction::Abort]
        },
    }
}

/// A claim fresh from `try_claim_owned` issues exactly one slot action,
/// whichever way it ends: a commit only when committed, an abort otherwise
/// (also when it is dropped without either).
pub proof fn lemma_claim_is_one_shot(c: AeronClaim, ending: ClaimEnding)
    requires
        !c.finalised_view(),
    ensures
        claim_actions(c.finalised_view(), ending).len() == 1,
        claim_actions(c.finalised_view(), ending)[0] == ClaimAction::Commit <==> ending
            == ClaimEnding::Committed,
{
}

impl AeronClaim {
    /// The action a drop of this claim must issue: an abort while the claim
    /// is neither committed nor aborted, nothing after.
    pub fn drop_action(&self) -> (r: Option<ClaimAction>)
        ensures
            claim_actions(self.finalised_view(), ClaimEnding::Dropped) == (match r {
                Some(a) => seq![a],
                None => Seq::<ClaimAction>::empty(),
            }),
    {
        if self.finalised {
            None
        } else {
            Some(ClaimAction::Abort)
        }
    }
}

/// A zero-copy claim of `length` bytes from the position a `try_claim`
/// returned: an unfinalised claim on success, the error of a negative code.
pub fn try_claim_owned(length: usize, claim_position: i64) -> (r: Result<AeronClaim, AeronCError>)
    ensures
        claim_position < 0 ==> r == Err::<AeronClaim, AeronCError>(
            AeronCError { code: claim_position as i32 },
        ),
        claim_position >= 0 ==> (r matches Ok(c) && c.length_view() == length && c.position_view()
            == claim_position && !c.finalised_view()),
{
    let position = publication_position_to_result(claim_position)?;
    Ok(AeronClaim { length, position, finalised: false })
}

/// The frame values of a received fragment's header.
#[derive(Clone, Copy, Debug, PartialEq, Eq)]
pub struct AeronHeaderValues {
    pub session_id: i32,
    pub stream_id: i32,
    pub reserved_value: i64,
    pub term_id: i32,
    pub term_offset: i32,
}

/// A fragment header, with its frame values when they could be read.
#[derive(Clone, Copy, Debug, PartialEq, Eq)]
pub struct AeronHeader {
    pub values: Option<AeronHeaderValues>,
}

impl AeronHeader {
    /// Session id of this fragment, or `None` if the values lookup failed.
    pub fn session_id(&self) -> (r: Option<i32>)
        ensures
            r == (match self.values {
                Some(v) => Some(v.session_id),
                None => None::<i32>,
            }),
    {
        match self.values {
            Some(v) => Some(v.session_id),
            None => None,
        }
    }

    /// Stream id of this fragment, or `None` if the values lookup failed.
    pub fn stream_id(&self) -> (r: Option<i32>)
        ensures
            r == (match self.values {
                Some(v) => Some(v.stream_id),
                None => None::<i32>,
            }),
    {
        match self.values {
            Some(v) => Some(v.stream_id),
            None => None,
        }
    }

    /// Reserved value of this fragment, or `None` if the values lookup failed.
    pub fn reserved_value(&self) -> (r: Option<i64>)
        ensures
            r == (match self.values {
                Some(v) => Some(v.reserved_value),
                None => None::<i64>,
            }),
    {
        match self.values {
            Some(v) => Some(v.reserved_value),
            None => None,
        }
    }

    /// Term id of this fragment, or `None` if the values lookup failed.
    pub fn term_id(&self) -> (r: Option<i32>)
        ensures
            r == (match self.values {
                Some(v) => Some(v.term_id),
                None => None::<i32>,
            }),
    {
        match self.values {
            Some(v) => Some(v.term_id),
            None => None,
        }
    }

    /// Term offset of this fragment, or `None` if the values lookup failed.
    pub fn term_offset(&self) -> (r: Option<i32>)
        ensures
            r == (match self.values {
                Some(v) => Some(v.term_offset),
                None => None::<i32>,
            }),
    {
        match self.values {
            Some(v) => Some(v.term_offset),
            None => None,
        }
    }
}

} // verus!
