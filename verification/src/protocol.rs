//! The conversation between an operation and whoever carries it out.
//!
//! An operation never reads the clock or reaches the registry itself. It is
//! given a [`Signal`] and answers with a [`Turn`]: a call to make, the
//! settlement, or a refusal. Whoever drives it makes the call and reports
//! the reply as the next signal.

use crate::error::StakeError;
use crate::registry::RegistryCall;
use vstd::prelude::*;

verus! {

/// What an operation is told.
#[derive(Clone, Copy, Debug, PartialEq, Eq)]
pub enum Signal {
    /// The operation is invoked, and the host clock reads `now`. The clock
    /// is read once for each invocation.
    Clock { now: i64 },
    /// The registry has answered the call that the operation handed out
    /// last.
    Registry { accepted: bool },
}

/// What an operation answers.
#[derive(Debug, PartialEq, Eq)]
pub enum Turn<S> {
    /// Make this call, and report the registry's reply.
    Call(RegistryCall),
    /// The operation is complete and the records are updated.
    Settled(S),
    /// The operation is refused and the records are as they were.
    Failed(StakeError),
    /// The signal is not one that the operation awaits. Nothing changed.
    Ignored,
}

impl<S> Turn<S> {
    /// The calls that this answer hands out: one or none.
    pub open spec fn calls(self) -> Seq<RegistryCall> {
        match self {
            Turn::Call(call) => seq![call],
            _ => Seq::empty(),
        }
    }
}

} // verus!
