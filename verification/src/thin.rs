//! The thin bridge: the native session on the calling thread.

use vstd::prelude::*;
use crate::lowlevel::session::{advance, next_stage, Bridge, SessionStage};

verus! {

/// One step of the session of the thin bridge: given the call that was due
/// and how it went, tells the call that is due next.
pub fn fuse_main_thin(stage: SessionStage, succeeded: bool) -> (next: SessionStage)
    ensures
        next == next_stage(Bridge::Thin, stage, succeeded),
{
    advance(Bridge::Thin, stage, succeeded)
}

} // verus!
