//! The native session, step by step: which native call comes next, and
//! what a failed call means. The calls themselves are made by the caller,
//! who reports how each one went.

use vstd::prelude::*;
use crate::c_str::CString;
use crate::lowlevel::mount::{FuseMount, MountEvent, MountModel};
use crate::lowlevel::ops::FuseLowLevelOps;

verus! {

/// The two ways of running a session.
#[derive(Clone, Copy, Debug, PartialEq, Eq, Structural)]
pub enum Bridge {
    /// The session runs on a thread of its own and hands requests to a
    /// dispatch coordinator.
    Threaded,
    /// The session runs on the calling thread, with the native signal
    /// handlers installed.
    Thin,
}

/// Why a session could not be started.
#[derive(Clone, Copy, Debug, PartialEq, Eq, Structural)]
pub enum StartupError {
    InvalidCommandLine,
    MountFailed,
    SessionFailed,
    SignalHandlersFailed,
}

impl StartupError {
    /// What to tell the user.
    pub fn message(&self) -> (text: &'static str)
        ensures
            text@ == match self {
                StartupError::InvalidCommandLine => "Invalid command line options"@,
                StartupError::MountFailed => "Failed to mount"@,
                StartupError::SessionFailed => "Failed to create FUSE session"@,
                StartupError::SignalHandlersFailed => "Failed to set FUSE signal handlers"@,
            },
    {
        match self {
            StartupError::InvalidCommandLine => "Invalid command line options",
            StartupError::MountFailed => "Failed to mount",
            StartupError::SessionFailed => "Failed to create FUSE session",
            StartupError::SignalHandlersFailed => "Failed to set FUSE signal handlers",
        }
    }
}

/// The native call that is due, or how the session ended.
#[derive(Clone, Copy, Debug, PartialEq, Eq, Structural)]
pub enum SessionStage {
    /// Parse the arguments; this yields the mount point.
    ParseCmdline,
    /// Mount; this yields the native channel.
    Mount,
    /// Create the session, with the operation table.
    NewSession,
    /// Install the native signal handlers.
    SetSignalHandlers,
    /// Attach the channel to the session.
    AddChan,
    /// Run the session loop, which blocks until the session ends.
    Loop,
    /// Remove the native signal handlers.
    RemoveSignalHandlers,
    /// Detach the channel.
    RemoveChan,
    /// Destroy the session.
    DestroySession,
    /// Unmount.
    Unmount,
    /// Free the parsed arguments.
    FreeArgs,
    /// The session is over, and nothing is left to do.
    Done,
    /// The session could not be started.
    Failed(StartupError),
}

impl SessionStage {
    /// Whether the session has ended.
    pub open spec fn is_final(self) -> bool {
        self is Done || self is Failed
    }

    /// How many native calls are due at most before the session has ended.
    pub open spec fn calls_left(self) -> nat {
        match self {
            SessionStage::ParseCmdline => 11,
            SessionStage::Mount => 10,
            SessionStage::NewSession => 9,
            SessionStage::SetSignalHandlers => 8,
            SessionStage::AddChan => 7,
            SessionStage::Loop => 6,
            SessionStage::RemoveSignalHandlers => 5,
            SessionStage::RemoveChan => 4,
            SessionStage::DestroySession => 3,
            SessionStage::Unmount => 2,
            SessionStage::FreeArgs => 1,
            SessionStage::Done => 0,
            SessionStage::Failed(_) => 0,
        }
    }
}

/// What follows the call due at `stage`, when the call went as `succeeded`
/// says.
///
/// Arguments are parsed, the filesystem is mounted and the session created;
/// the channel is attached and the loop runs; then the channel is detached,
/// the session destroyed and the filesystem unmounted. The thin bridge
/// installs the signal handlers before the loop, removes them after it, and
/// frees the arguments at the end. A failure before the loop ends the
/// session at once: with an error, except for arguments that the thin
/// bridge cannot parse, where the native layer has said what was wrong. A
/// call from the loop on cannot fail.
pub open spec fn next_stage(bridge: Bridge, stage: SessionStage, succeeded: bool) -> SessionStage {
    match stage {
        SessionStage::ParseCmdline => if succeeded {
            SessionStage::Mount
        } else if bridge == Bridge::Thin {
            SessionStage::Done
        } else {
            SessionStage::Failed(StartupError::InvalidCommandLine)
        },
        SessionStage::Mount => if succeeded {
            SessionStage::NewSession
        } else {
            SessionStage::Failed(StartupError::MountFailed)
        },
        SessionStage::NewSession => if !succeeded {
            SessionStage::Failed(StartupError::SessionFailed)
        } else if bridge == Bridge::Thin {
            SessionStage::SetSignalHandlers
        } else {
            SessionStage::AddChan
        },
        SessionStage::SetSignalHandlers => if succeeded {
            SessionStage::AddChan
        } else {
            SessionStage::Failed(StartupError::SignalHandlersFailed)
        },
        SessionStage::AddChan => SessionStage::Loop,
        SessionStage::Loop => if bridge == Bridge::Thin {
            SessionStage::RemoveSignalHandlers
        } else {
            SessionStage::RemoveChan
        },
        SessionStage::RemoveSignalHandlers => SessionStage::RemoveChan,
        SessionStage::RemoveChan => SessionStage::DestroySession,
        SessionStage::DestroySession => SessionStage::Unmount,
        SessionStage::Unmount => if bridge == Bridge::Thin {
            SessionStage::FreeArgs
        } else {
            SessionStage::Done
        },
        SessionStage::FreeArgs => SessionStage::Done,
        SessionStage::Done => SessionStage::Done,
        SessionStage::Failed(e) => SessionStage::Failed(e),
    }
}

/// What a mount is to take note of when the call due at `stage` went as
/// `succeeded` says, in the threaded bridge: that the session was created,
/// that the startup failed, or that the loop ended.
pub open spec fn mount_event(stage: SessionStage, succeeded: bool) -> Option<MountEvent> {
    match stage {
        SessionStage::ParseCmdline | SessionStage::Mount => if succeeded {
            None
        } else {
            Some(MountEvent::StartupFailed)
        },
        SessionStage::NewSession => if succeeded {
            Some(MountEvent::SessionCreated)
        } else {
            Some(MountEvent::StartupFailed)
        },
        SessionStage::Loop => Some(MountEvent::Finish),
        _ => None,
    }
}

/// The state of a mount after it took note of `event`, if there is one.
pub open spec fn after_event(m: MountModel, event: Option<MountEvent>) -> MountModel {
    match event {
        Some(e) => m.step(e).0,
        None => m,
    }
}

/// Every session ends: each call that is made leaves fewer calls to make.
pub proof fn lemma_session_ends(bridge: Bridge, stage: SessionStage, succeeded: bool)
    requires
        !stage.is_final(),
    ensures
        next_stage(bridge, stage, succeeded).calls_left() < stage.calls_left(),
{
}

/// A session fails only before its loop: from the loop on, every call is
/// followed by the next one until the session is done.
pub proof fn lemma_no_failure_after_startup(bridge: Bridge, stage: SessionStage, succeeded: bool)
    requires
        stage.calls_left() <= SessionStage::AddChan.calls_left(),
        !(stage is Failed),
    ensures
        !(next_stage(bridge, stage, succeeded) is Failed),
{
}

/// Computes [`next_stage`].
pub fn advance(bridge: Bridge, stage: SessionStage, succeeded: bool) -> (next: SessionStage)
    ensures
        next == next_stage(bridge, stage, succeeded),
{
    let thin = match bridge {
        Bridge::Thin => true,
        Bridge::Threaded => false,
    };
    match stage {
        SessionStage::ParseCmdline => if succeeded {
            SessionStage::Mount
        } else if thin {
            SessionStage::Done
        } else {
            SessionStage::Failed(StartupError::InvalidCommandLine)
        },
        SessionStage::Mount => if succeeded {
            SessionStage::NewSession
        } else {
            SessionStage::Failed(StartupError::MountFailed)
        },
        SessionStage::NewSession => if !succeeded {
            SessionStage::Failed(StartupError::SessionFailed)
        } else if thin {
            SessionStage::SetSignalHandlers
        } else {
            SessionStage::AddChan
        },
        SessionStage::SetSignalHandlers => if succeeded {
            SessionStage::AddChan
        } else {
            SessionStage::Failed(StartupError::SignalHandlersFailed)
        },
        SessionStage::AddChan => SessionStage::Loop,
        SessionStage::Loop => if thin {
            SessionStage::RemoveSignalHandlers
        } else {
            SessionStage::RemoveChan
        },
        SessionStage::RemoveSignalHandlers => SessionStage::RemoveChan,
        SessionStage::RemoveChan => SessionStage::DestroySession,
        SessionStage::DestroySession => SessionStage::Unmount,
        SessionStage::Unmount => if thin {
            SessionStage::FreeArgs
        } else {
            SessionStage::Done
        },
        SessionStage::FreeArgs => SessionStage::Done,
        SessionStage::Done => SessionStage::Done,
        SessionStage::Failed(e) => SessionStage::Failed(e),
    }
}

/// One step of the session of the threaded bridge: given the call that was
/// due and how it went, tells the call that is due next, and has `mount`
/// take note of what happened. `mount_point` is the mount point that the
/// parsing of the arguments yielded; it is recorded when the session is
/// created.
pub fn c_api_loop(
    mount: &mut FuseMount,
    stage: SessionStage,
    succeeded: bool,
    mount_point: &CString,
) -> (next: SessionStage)
    ensures
        next == next_stage(Bridge::Threaded, stage, succeeded),
        final(mount)@ == after_event(old(mount)@, mount_event(stage, succeeded)),
        final(mount).same_setup(old(mount)),
        final(mount).session_mount_point() == if stage is NewSession && succeeded && old(
            mount,
        )@.state is Mounting {
            Some(mount_point@)
        } else {
            old(mount).session_mount_point()
        },
{
    match stage {
        SessionStage::ParseCmdline | SessionStage::Mount => {
            if !succeeded {
                mount.startup_failed();
            }
        },
        SessionStage::NewSession => {
            if succeeded {
                mount.session_created(mount_point);
            } else {
                mount.startup_failed();
            }
        },
        SessionStage::Loop => {
            mount.finish();
        },
        _ => {},
    }
    advance(Bridge::Threaded, stage, succeeded)
}

/// The native "init" callback: lets the filesystem know that it is mounted
/// and ready, then has `mount` take note of the signal. Returns whether the
/// caller of the mount is to be told that the session is ready.
pub fn init_impl<T: FuseLowLevelOps>(ops: &T, mount: &mut FuseMount) -> (ready: bool)
    ensures
        final(mount)@ == old(mount)@.step(MountEvent::Init).0,
        ready == (old(mount)@.step(MountEvent::Init).1 is Ready),
        final(mount).same_setup(old(mount)),
        final(mount).session_mount_point() == old(mount).session_mount_point(),
{
    ops.init();
    mount.init()
}

/// The native "destroy" callback: lets the filesystem know that it has been
/// unmounted.
pub fn destroy_impl<T: FuseLowLevelOps>(ops: &T) {
    ops.destroy();
}

} // verus!
