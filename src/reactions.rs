//! The reaction each user holds on each post.
//!
//! A user holds at most one reaction per post: an explosion (the post blew
//! their mind) or an implosion. Asking for either kind moves the pair to that
//! kind, whatever it held before.

use vstd::prelude::*;

use crate::model::{NotifyAboutMindExplosionRequest, NotifyAboutMindImplosionRequest, Uuid};

verus! {

/// What a (post, user) pair holds.
#[derive(Debug, Clone, Copy, PartialEq, Eq, Structural)]
pub enum ReactionState {
    NoReaction,
    Exploded,
    Imploded,
}

/// The state a pair moves to when its user asks for an explosion
/// (`explosion`) or an implosion (`!explosion`).
pub open spec fn next_state(state: ReactionState, explosion: bool) -> ReactionState {
    if explosion {
        ReactionState::Exploded
    } else {
        ReactionState::Imploded
    }
}

/// The state a row's flag stands for.
pub open spec fn state_of_flag(is_explosion: bool) -> ReactionState {
    if is_explosion {
        ReactionState::Exploded
    } else {
        ReactionState::Imploded
    }
}

/// One step of the state machine.
pub fn transition(state: ReactionState, explosion: bool) -> (r: ReactionState)
    ensures
        r == next_state(state, explosion),
{
    if explosion {
        ReactionState::Exploded
    } else {
        ReactionState::Imploded
    }
}

/// The state that a pair's stored row (if any) stands for.
pub fn state_of_row(existing: Option<bool>) -> (r: ReactionState)
    ensures
        r == match existing {
            Some(flag) => state_of_flag(flag),
            None => ReactionState::NoReaction,
        },
{
    match existing {
        Some(true) => ReactionState::Exploded,
        Some(false) => ReactionState::Imploded,
        None => ReactionState::NoReaction,
    }
}

/// The write that records a reaction: a new row where the pair has none,
/// else a change of the flag on the row it has.
#[derive(Debug, Clone, PartialEq, Eq)]
pub enum ReactionWrite {
    Insert { explosion: bool },
    Update { row: Uuid, explosion: bool },
}

/// The write for a request of kind `explosion`, given the pair's row, if it
/// has one.
pub fn plan_reaction(existing_row: Option<Uuid>, explosion: bool) -> (r: ReactionWrite)
    ensures
        match existing_row {
            Some(row) => r matches ReactionWrite::Update { row: w, explosion: e } && w@ == row@
                && e == explosion,
            None => r == (ReactionWrite::Insert { explosion }),
        },
{
    match existing_row {
        Some(row) => ReactionWrite::Update { row, explosion },
        None => ReactionWrite::Insert { explosion },
    }
}

/// Whether a write took effect: it touched at least one row.
pub fn write_took_effect(rows_affected: u64) -> (r: bool)
    ensures
        r == (rows_affected > 0),
{
    rows_affected > 0
}

impl NotifyAboutMindExplosionRequest {
    /// The write that records this explosion.
    pub fn plan(&self, existing_row: Option<Uuid>) -> (r: ReactionWrite)
        ensures
            match existing_row {
                Some(row) => r matches ReactionWrite::Update { row: w, explosion: true } && w@
                    == row@,
                None => r == (ReactionWrite::Insert { explosion: true }),
            },
    {
        plan_reaction(existing_row, true)
    }
}

impl NotifyAboutMindImplosionRequest {
    /// The write that records this implosion.
    pub fn plan(&self, existing_row: Option<Uuid>) -> (r: ReactionWrite)
        ensures
            match existing_row {
                Some(row) => r matches ReactionWrite::Update { row: w, explosion: false } && w@
                    == row@,
                None => r == (ReactionWrite::Insert { explosion: false }),
            },
    {
        plan_reaction(existing_row, false)
    }
}

} // verus!
