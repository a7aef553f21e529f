use rust_fuse::c_str::CString;
use rust_fuse::hello::HelloFs;
use rust_fuse::lowlevel::session::advance;
use rust_fuse::lowlevel::{
    c_api_loop, ext_unmount_args, ext_unmount_prog, init_impl, unmount_via_external_process,
    Bridge, CapabilityMismatch, FuseLowLevelOps, FuseMount, FuseMountOptions, FuseSession,
    HostOs, Lifecycle, MountState, SessionStage, StartupError, UnmountCommand, Verb,
};
use rust_fuse::thin::fuse_main_thin;

fn mount_point() -> CString {
    CString::new(b"/tmp/hello_fs_works").unwrap()
}

fn options() -> FuseMountOptions {
    FuseMountOptions { args: vec![b"hello_fs".to_vec(), b"/tmp/hello_fs_works".to_vec()] }
}

#[test]
fn default_options_have_no_arguments() {
    assert_eq!(FuseMountOptions::default(), FuseMountOptions { args: Vec::new() });
}

#[test]
fn new_mount_is_mounting_and_keeps_the_arguments() {
    let mount = FuseMount::new(options(), &HelloFs).unwrap();
    assert_eq!(mount.state(), MountState::Mounting);
    assert_eq!(mount.args(), &options().args);
    assert_eq!(mount.mount_point(), None);
    assert!(!mount.is_mounted(false));
    assert!(mount.table().has(Verb::Init));
    assert!(mount.table().has(Verb::Lookup));
    assert!(!mount.table().has(Verb::Write));
}

/// A filesystem that implements what `claimed` lists, and has a handler
/// for what `present` lists.
struct Claims {
    claimed: Vec<Verb>,
    present: Vec<Verb>,
}

impl FuseLowLevelOps for Claims {
    fn implemented(&self, verb: Verb) -> bool {
        self.claimed.contains(&verb)
    }

    fn handler_present(&self, verb: Verb) -> bool {
        self.present.contains(&verb)
    }
}

#[test]
fn mount_fails_for_a_verb_that_is_implemented_without_a_handler() {
    let ops = Claims { claimed: vec![Verb::Lookup, Verb::Read], present: vec![Verb::Lookup] };
    assert_eq!(
        FuseMount::new(options(), &ops).err(),
        Some(CapabilityMismatch { verb: Verb::Read })
    );
    let ops = Claims { claimed: vec![Verb::Lookup], present: Vec::new() };
    assert_eq!(
        FuseMount::new(options(), &ops).err(),
        Some(CapabilityMismatch { verb: Verb::Lookup })
    );
}

#[test]
fn mount_fails_for_a_verb_that_the_bridge_has_no_handler_for() {
    let ops = Claims {
        claimed: vec![Verb::Lookup, Verb::Getlk],
        present: vec![Verb::Lookup, Verb::Getlk],
    };
    assert_eq!(
        FuseMount::new(options(), &ops).err(),
        Some(CapabilityMismatch { verb: Verb::Getlk })
    );
}

#[test]
fn mount_fails_with_the_first_mismatch_in_table_order() {
    let ops = Claims { claimed: vec![Verb::Flock, Verb::Write, Verb::Mkdir], present: Vec::new() };
    assert_eq!(
        FuseMount::new(options(), &ops).err(),
        Some(CapabilityMismatch { verb: Verb::Mkdir })
    );
}

#[test]
fn mount_succeeds_where_every_implemented_verb_is_handled() {
    let ops = Claims {
        claimed: vec![Verb::Lookup, Verb::Write],
        present: vec![Verb::Write, Verb::Lookup, Verb::Open],
    };
    let mount = FuseMount::new(options(), &ops).unwrap();
    assert_eq!(mount.state(), MountState::Mounting);
    assert!(mount.table().has(Verb::Lookup));
    assert!(mount.table().has(Verb::Write));
    assert!(mount.table().has(Verb::Init));
    assert!(mount.table().has(Verb::Destroy));
    // A handler alone does not have a verb routed.
    assert!(!mount.table().has(Verb::Open));
    let nothing = Claims { claimed: Vec::new(), present: Vec::new() };
    assert!(FuseMount::new(options(), &nothing).is_ok());
}

#[test]
fn mount_goes_through_its_lifecycle() {
    let mut mount = FuseMount::new(options(), &HelloFs).unwrap();
    mount.session_created(&mount_point());
    assert_eq!(mount.state(), MountState::AwaitingInit);
    assert_eq!(mount.mount_point(), Some(&b"/tmp/hello_fs_works".to_vec()));
    assert!(!mount.is_mounted(false));
    assert!(mount.init());
    assert_eq!(mount.state(), MountState::Active);
    assert!(mount.is_mounted(false));
    assert!(!mount.is_mounted(true));
    let command = mount.unmount(HostOs::Linux).unwrap();
    assert_eq!(command.program, "fusermount");
    assert_eq!(command.args, vec![b"-u".to_vec(), b"/tmp/hello_fs_works".to_vec()]);
    assert_eq!(command.cwd, "/");
    assert_eq!(mount.state(), MountState::Unmounting);
    assert!(mount.is_mounted(false));
    mount.finish();
    assert_eq!(mount.state(), MountState::Unmounted);
    assert!(!mount.is_mounted(false));
    assert_eq!(mount.mount_point(), Some(&b"/tmp/hello_fs_works".to_vec()));
}

#[test]
fn unmount_of_a_mount_that_is_not_active_does_nothing() {
    let mut mount = FuseMount::new(options(), &HelloFs).unwrap();
    assert_eq!(mount.unmount(HostOs::Linux), None);
    assert_eq!(mount.state(), MountState::Mounting);
    mount.session_created(&mount_point());
    assert_eq!(mount.unmount(HostOs::Linux), None);
    assert_eq!(mount.state(), MountState::AwaitingInit);
    mount.init();
    assert!(mount.unmount(HostOs::MacOs).is_some());
    // Unmounting again, before or after the loop has ended, does nothing.
    assert_eq!(mount.unmount(HostOs::MacOs), None);
    assert_eq!(mount.state(), MountState::Unmounting);
    mount.finish();
    assert_eq!(mount.unmount(HostOs::MacOs), None);
    assert_eq!(mount.state(), MountState::Unmounted);
}

#[test]
fn events_out_of_turn_change_nothing() {
    let mut mount = FuseMount::new(options(), &HelloFs).unwrap();
    assert!(!mount.init());
    assert_eq!(mount.state(), MountState::Mounting);
    mount.session_created(&mount_point());
    mount.session_created(&CString::new(b"/elsewhere").unwrap());
    assert_eq!(mount.mount_point(), Some(&b"/tmp/hello_fs_works".to_vec()));
    assert!(mount.init());
    assert!(!mount.init());
    mount.startup_failed();
    assert_eq!(mount.state(), MountState::Active);
    mount.session_created(&CString::new(b"/elsewhere").unwrap());
    assert_eq!(mount.state(), MountState::Active);
}

#[test]
fn external_end_of_the_loop_unmounts_an_active_mount() {
    let mut mount = FuseMount::new(options(), &HelloFs).unwrap();
    mount.session_created(&mount_point());
    mount.init();
    mount.finish();
    assert_eq!(mount.state(), MountState::Unmounted);
    assert!(!mount.is_mounted(false));
}

#[test]
fn lifecycle_alone_follows_the_same_states() {
    let mut lifecycle = Lifecycle::new();
    assert_eq!(lifecycle.state(), MountState::Mounting);
    assert_eq!(lifecycle.mount_point(), None);
    lifecycle.session_created(&mount_point());
    assert_eq!(lifecycle.state(), MountState::AwaitingInit);
    assert!(lifecycle.init());
    assert_eq!(
        lifecycle.unmount(HostOs::MacOs),
        Some(UnmountCommand {
            program: "umount".to_string(),
            args: vec![b"/tmp/hello_fs_works".to_vec()],
            cwd: "/".to_string(),
        })
    );
    lifecycle.finish();
    assert_eq!(lifecycle.state(), MountState::Unmounted);

    let mut failed = Lifecycle::new();
    failed.session_created(&mount_point());
    failed.startup_failed();
    assert_eq!(failed.state(), MountState::Unmounted);
}

#[test]
fn session_keeps_the_mount_point_without_its_terminator() {
    let session = FuseSession::new(&mount_point());
    assert_eq!(session.mount_point, b"/tmp/hello_fs_works".to_vec());
}

#[test]
fn unmount_command_per_host() {
    let path = b"/mnt/x".to_vec();
    assert_eq!(ext_unmount_prog(HostOs::Linux), "fusermount");
    assert_eq!(ext_unmount_prog(HostOs::MacOs), "umount");
    assert_eq!(ext_unmount_args(HostOs::Linux, &path), vec![b"-u".to_vec(), path.clone()]);
    assert_eq!(ext_unmount_args(HostOs::MacOs, &path), vec![path.clone()]);
    assert_eq!(
        unmount_via_external_process(HostOs::Linux, &path),
        UnmountCommand {
            program: "fusermount".to_string(),
            args: vec![b"-u".to_vec(), path.clone()],
            cwd: "/".to_string(),
        }
    );
}

#[test]
fn init_callback_makes_the_mount_active_once() {
    let mut mount = FuseMount::new(options(), &HelloFs).unwrap();
    assert!(!init_impl(&HelloFs, &mut mount));
    mount.session_created(&mount_point());
    assert!(init_impl(&HelloFs, &mut mount));
    assert_eq!(mount.state(), MountState::Active);
    assert!(!init_impl(&HelloFs, &mut mount));
}

fn run_session(bridge: Bridge, fail_at: Option<SessionStage>) -> Vec<SessionStage> {
    let mut stage = SessionStage::ParseCmdline;
    let mut seen = vec![stage];
    while stage != SessionStage::Done && !matches!(stage, SessionStage::Failed(_)) {
        stage = advance(bridge, stage, Some(stage) != fail_at);
        seen.push(stage);
        assert!(seen.len() <= 12);
    }
    seen
}

#[test]
fn threaded_session_runs_its_calls_in_order() {
    assert_eq!(
        run_session(Bridge::Threaded, None),
        vec![
            SessionStage::ParseCmdline,
            SessionStage::Mount,
            SessionStage::NewSession,
            SessionStage::AddChan,
            SessionStage::Loop,
            SessionStage::RemoveChan,
            SessionStage::DestroySession,
            SessionStage::Unmount,
            SessionStage::Done,
        ]
    );
}

#[test]
fn thin_session_runs_its_calls_in_order() {
    let mut stage = SessionStage::ParseCmdline;
    let mut seen = vec![stage];
    while stage != SessionStage::Done {
        stage = fuse_main_thin(stage, true);
        seen.push(stage);
    }
    assert_eq!(
        seen,
        vec![
            SessionStage::ParseCmdline,
            SessionStage::Mount,
            SessionStage::NewSession,
            SessionStage::SetSignalHandlers,
            SessionStage::AddChan,
            SessionStage::Loop,
            SessionStage::RemoveSignalHandlers,
            SessionStage::RemoveChan,
            SessionStage::DestroySession,
            SessionStage::Unmount,
            SessionStage::FreeArgs,
            SessionStage::Done,
        ]
    );
    assert_eq!(seen, run_session(Bridge::Thin, None));
}

#[test]
fn startup_failures_end_the_session_with_their_error() {
    assert_eq!(
        run_session(Bridge::Threaded, Some(SessionStage::ParseCmdline)).last(),
        Some(&SessionStage::Failed(StartupError::InvalidCommandLine))
    );
    assert_eq!(
        run_session(Bridge::Threaded, Some(SessionStage::Mount)).last(),
        Some(&SessionStage::Failed(StartupError::MountFailed))
    );
    assert_eq!(
        run_session(Bridge::Threaded, Some(SessionStage::NewSession)).last(),
        Some(&SessionStage::Failed(StartupError::SessionFailed))
    );
    assert_eq!(
        run_session(Bridge::Thin, Some(SessionStage::SetSignalHandlers)),
        vec![
            SessionStage::ParseCmdline,
            SessionStage::Mount,
            SessionStage::NewSession,
            SessionStage::SetSignalHandlers,
            SessionStage::Failed(StartupError::SignalHandlersFailed),
        ]
    );
    assert_eq!(
        run_session(Bridge::Thin, Some(SessionStage::Mount)).last(),
        Some(&SessionStage::Failed(StartupError::MountFailed))
    );
}

#[test]
fn thin_session_ends_quietly_on_arguments_it_cannot_parse() {
    assert_eq!(fuse_main_thin(SessionStage::ParseCmdline, false), SessionStage::Done);
}

#[test]
fn calls_after_startup_cannot_fail() {
    for stage in [
        SessionStage::AddChan,
        SessionStage::Loop,
        SessionStage::RemoveSignalHandlers,
        SessionStage::RemoveChan,
        SessionStage::DestroySession,
        SessionStage::Unmount,
        SessionStage::FreeArgs,
    ] {
        for bridge in [Bridge::Threaded, Bridge::Thin] {
            assert_eq!(advance(bridge, stage, false), advance(bridge, stage, true));
        }
    }
}

#[test]
fn ended_session_stays_as_it_is() {
    let failed = SessionStage::Failed(StartupError::MountFailed);
    assert_eq!(advance(Bridge::Threaded, SessionStage::Done, true), SessionStage::Done);
    assert_eq!(advance(Bridge::Thin, failed, true), failed);
}

#[test]
fn startup_error_messages() {
    assert_eq!(StartupError::InvalidCommandLine.message(), "Invalid command line options");
    assert_eq!(StartupError::MountFailed.message(), "Failed to mount");
    assert_eq!(StartupError::SessionFailed.message(), "Failed to create FUSE session");
    assert_eq!(
        StartupError::SignalHandlersFailed.message(),
        "Failed to set FUSE signal handlers"
    );
}

#[test]
fn session_steps_drive_the_mount() {
    let mp = mount_point();
    let mut mount = FuseMount::new(options(), &HelloFs).unwrap();
    let mut stage = SessionStage::ParseCmdline;
    stage = c_api_loop(&mut mount, stage, true, &mp);
    assert_eq!((stage, mount.state()), (SessionStage::Mount, MountState::Mounting));
    stage = c_api_loop(&mut mount, stage, true, &mp);
    assert_eq!((stage, mount.state()), (SessionStage::NewSession, MountState::Mounting));
    stage = c_api_loop(&mut mount, stage, true, &mp);
    assert_eq!((stage, mount.state()), (SessionStage::AddChan, MountState::AwaitingInit));
    assert_eq!(mount.mount_point(), Some(&b"/tmp/hello_fs_works".to_vec()));
    stage = c_api_loop(&mut mount, stage, true, &mp);
    assert_eq!(stage, SessionStage::Loop);
    assert!(init_impl(&HelloFs, &mut mount));
    stage = c_api_loop(&mut mount, stage, true, &mp);
    assert_eq!((stage, mount.state()), (SessionStage::RemoveChan, MountState::Unmounted));
    stage = c_api_loop(&mut mount, stage, true, &mp);
    stage = c_api_loop(&mut mount, stage, true, &mp);
    stage = c_api_loop(&mut mount, stage, true, &mp);
    assert_eq!((stage, mount.state()), (SessionStage::Done, MountState::Unmounted));
}

#[test]
fn failed_session_step_fails_the_mount() {
    let mp = mount_point();
    for failing in 0..3 {
        let mut mount = FuseMount::new(options(), &HelloFs).unwrap();
        let mut stage = SessionStage::ParseCmdline;
        for step in 0..=failing {
            stage = c_api_loop(&mut mount, stage, step != failing, &mp);
        }
        assert!(matches!(stage, SessionStage::Failed(_)));
        assert_eq!(mount.state(), MountState::Unmounted);
        assert_eq!(mount.mount_point(), None);
    }
}
