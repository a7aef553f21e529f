//! The lifecycle of a mount and its dispatch coordinator, as a state
//! machine: what happens on each event is decided here; carrying it out (the
//! native session, the threads, the external unmount command) is the
//! caller's part.
//!
//! A mount goes from mounting, through waiting for the native "init"
//! signal, to active; from there, through unmounting or directly, to
//! unmounted. Requests that arrive are queued; the coordinator hands each
//! one to a worker of its own as soon as the mount is active, and never
//! waits for a worker. Every request is owed exactly one reply, which it
//! gets when its worker ends, however it ends.

use std::collections::VecDeque;
use vstd::prelude::*;
use crate::c_str::{cstr_as_bytes_no_term, CString};
use crate::errno::EIO;
use crate::lowlevel::dispatch::{
    supervise, supervised_reply, FSOperation, Request, WorkerOutcome,
};
use crate::lowlevel::ops::{
    make_checked_table, mismatched, CapabilityMismatch, FuseLowLevelOps, OperationTable, Verb,
};
use crate::lowlevel::reply::{NativeReply, NativeReplyView};
use crate::lowlevel::types::FuseMountOptions;
use crate::lowlevel::unmount::{
    unmount_command, unmount_via_external_process, HostOs, UnmountCommand,
};

verus! {

/// Where a mount is in its lifecycle.
#[derive(Clone, Copy, Debug, PartialEq, Eq, Structural)]
pub enum MountState {
    /// Not mounted: never mounted successfully, or unmounted again.
    Unmounted,
    /// The native session is being set up.
    Mounting,
    /// The native session exists; its "init" signal has not fired yet.
    AwaitingInit,
    /// Requests are being served.
    Active,
    /// Unmounting has been asked for; the native loop has not ended yet.
    Unmounting,
}

/// What the lifecycle reacts to.
pub enum MountEvent {
    /// The native session was created.
    SessionCreated,
    /// Setting the native session up failed.
    StartupFailed,
    /// The native "init" signal fired.
    Init,
    /// A request arrived from the native loop.
    Arrive(FSOperation),
    /// The coordinator asks for the next operation to hand to a worker.
    Next,
    /// The worker of a request ended.
    Complete(Request, WorkerOutcome),
    /// Unmounting was asked for.
    Unmount,
    /// The native loop ended.
    Finish,
}

/// What the caller is to do after an event.
pub enum MountAction {
    Nothing,
    /// Tell the caller of the mount that the session is ready.
    Ready,
    /// Run this operation in a worker of its own.
    Dispatch(FSOperation),
    /// Send this reply for this request.
    Reply(Request, NativeReplyView),
    /// Run the external unmount command.
    ExternalUnmount,
}

/// The state of a mount as a value.
pub struct MountModel {
    pub state: MountState,
    /// Requests that arrived and have not been handed to a worker, oldest
    /// first.
    pub queue: Seq<FSOperation>,
    /// Requests whose worker runs: handed out and not answered yet.
    pub in_flight: Seq<Request>,
}

/// The position of the first `req` in `s`, where there is one.
pub open spec fn first_position(s: Seq<Request>, req: Request) -> int {
    choose|i: int| 0 <= i < s.len() && s[i] == req && forall|j: int| 0 <= j < i ==> s[j] != req
}

/// How often `req` occurs in `s`.
pub open spec fn count(s: Seq<Request>, req: Request) -> nat
    decreases s.len(),
{
    if s.len() == 0 {
        0
    } else {
        count(s.drop_last(), req) + if s.last() == req {
            1nat
        } else {
            0nat
        }
    }
}

/// The requests of the operations in a queue, in its order.
pub open spec fn requests_of(queue: Seq<FSOperation>) -> Seq<Request> {
    queue.map_values(|f: FSOperation| f.req)
}

impl MountModel {
    /// A mount as it is made: mounting, with nothing queued or running.
    pub open spec fn initial() -> MountModel {
        MountModel { state: MountState::Mounting, queue: Seq::empty(), in_flight: Seq::empty() }
    }

    /// Whether the filesystem counts as mounted: from the "init" signal to
    /// the end of the native loop. It is while mounted that operations are
    /// handed to workers.
    pub open spec fn mounted(self) -> bool {
        self.state == MountState::Active || self.state == MountState::Unmounting
    }

    /// How many replies are owed to `req`: one for each time it is queued
    /// or running.
    pub open spec fn owed(self, req: Request) -> nat {
        count(requests_of(self.queue), req) + count(self.in_flight, req)
    }

    /// The state after `event`, and what the caller is to do.
    pub open spec fn step(self, event: MountEvent) -> (MountModel, MountAction) {
        match event {
            MountEvent::SessionCreated => if self.state == MountState::Mounting {
                (MountModel { state: MountState::AwaitingInit, ..self }, MountAction::Nothing)
            } else {
                (self, MountAction::Nothing)
            },
            MountEvent::StartupFailed => if self.state == MountState::Mounting || self.state
                == MountState::AwaitingInit {
                (MountModel { state: MountState::Unmounted, ..self }, MountAction::Nothing)
            } else {
                (self, MountAction::Nothing)
            },
            MountEvent::Init => if self.state == MountState::AwaitingInit {
                (MountModel { state: MountState::Active, ..self }, MountAction::Ready)
            } else {
                (self, MountAction::Nothing)
            },
            MountEvent::Arrive(fsop) => (
                MountModel { queue: self.queue.push(fsop), ..self },
                MountAction::Nothing,
            ),
            MountEvent::Next => if self.mounted() && self.queue.len() > 0 {
                (
                    MountModel {
                        queue: self.queue.subrange(1, self.queue.len() as int),
                        in_flight: self.in_flight.push(self.queue[0].req),
                        ..self
                    },
                    MountAction::Dispatch(self.queue[0]),
                )
            } else {
                (self, MountAction::Nothing)
            },
            MountEvent::Complete(req, outcome) => if self.in_flight.contains(req) {
                (
                    MountModel {
                        in_flight: self.in_flight.remove(first_position(self.in_flight, req)),
                        ..self
                    },
                    MountAction::Reply(req, supervised_reply(outcome)),
                )
            } else {
                (self, MountAction::Nothing)
            },
            MountEvent::Unmount => if self.state == MountState::Active {
                (MountModel { state: MountState::Unmounting, ..self }, MountAction::ExternalUnmount)
            } else {
                (self, MountAction::Nothing)
            },
            MountEvent::Finish => (
                MountModel { state: MountState::Unmounted, ..self },
                MountAction::Nothing,
            ),
        }
    }

    /// The state after a sequence of events.
    pub open spec fn run(self, events: Seq<MountEvent>) -> MountModel
        decreases events.len(),
    {
        if events.len() == 0 {
            self
        } else {
            self.run(events.drop_last()).step(events.last()).0
        }
    }

    /// What the caller is to do after the event at position `i` of a
    /// sequence of events.
    pub open spec fn action_at(self, events: Seq<MountEvent>, i: int) -> MountAction {
        self.run(events.take(i)).step(events[i]).1
    }

    /// How many replies for `req` the caller is told to send in the course
    /// of a sequence of events.
    pub open spec fn replies(self, events: Seq<MountEvent>, req: Request) -> nat
        decreases events.len(),
    {
        if events.len() == 0 {
            0
        } else {
            self.replies(events.drop_last(), req) + if self.run(events.drop_last()).step(
                events.last(),
            ).1 matches MountAction::Reply(r, _) && r == req {
                1nat
            } else {
                0nat
            }
        }
    }
}

/// How often `req` arrives in a sequence of events.
pub open spec fn arrivals(events: Seq<MountEvent>, req: Request) -> nat
    decreases events.len(),
{
    if events.len() == 0 {
        0
    } else {
        arrivals(events.drop_last(), req) + if events.last() matches MountEvent::Arrive(fsop)
            && fsop.req == req {
            1nat
        } else {
            0nat
        }
    }
}

/// Appending an element counts once more for that element.
proof fn lemma_count_push(s: Seq<Request>, x: Request, req: Request)
    ensures
        count(s.push(x), req) == count(s, req) + if x == req {
            1nat
        } else {
            0nat
        },
{
    assert(s.push(x).drop_last() == s);
}

/// Removing an element counts once less for that element.
proof fn lemma_count_remove(s: Seq<Request>, i: int, req: Request)
    requires
        0 <= i < s.len(),
    ensures
        count(s, req) == count(s.remove(i), req) + if s[i] == req {
            1nat
        } else {
            0nat
        },
    decreases s.len(),
{
    if i == s.len() - 1 {
        assert(s.remove(i) == s.drop_last());
    } else {
        lemma_count_remove(s.drop_last(), i, req);
        assert(s.remove(i).drop_last() == s.drop_last().remove(i));
        assert(s.remove(i).last() == s.last());
    }
}

/// In a sequence that holds `req`, [`first_position`] is the position of
/// its first occurrence.
pub proof fn lemma_first_position_is_first(s: Seq<Request>, req: Request)
    requires
        s.contains(req),
    ensures
        0 <= first_position(s, req) < s.len(),
        s[first_position(s, req)] == req,
        forall|j: int| 0 <= j < first_position(s, req) ==> s[j] != req,
{
    let i = choose|i: int| 0 <= i < s.len() && s[i] == req;
    lemma_first_occurrence_exists(s, req, i);
}

/// A sequence that holds `req` at some position holds it at a first one.
proof fn lemma_first_occurrence_exists(s: Seq<Request>, req: Request, i: int)
    requires
        0 <= i < s.len(),
        s[i] == req,
    ensures
        exists|k: int|
            0 <= k < s.len() && s[k] == req && forall|j: int| 0 <= j < k ==> s[j] != req,
    decreases i,
{
    if forall|j: int| 0 <= j < i ==> s[j] != req {
    } else {
        let j = choose|j: int| 0 <= j < i && s[j] == req;
        lemma_first_occurrence_exists(s, req, j);
    }
}

/// Every request is answered exactly once. In the course of any sequence of
/// events, a reply for a request is sent only against a reply owed to it,
/// and a reply is owed only for an arrival: the arrivals of a request, with
/// what it was owed before, are the replies sent for it and what it is
/// still owed. So from a mount as it is made, a request that arrived once
/// and is no longer queued or running has got one reply, and no request
/// ever gets a reply too many, however its worker ended.
pub proof fn lemma_every_request_answered_once(
    start: MountModel,
    events: Seq<MountEvent>,
    req: Request,
)
    ensures
        arrivals(events, req) + start.owed(req) == start.replies(events, req) + start.run(
            events,
        ).owed(req),
    decreases events.len(),
{
    if events.len() > 0 {
        lemma_every_request_answered_once(start, events.drop_last(), req);
        let before = start.run(events.drop_last());
        let after = before.step(events.last()).0;
        match events.last() {
            MountEvent::Arrive(fsop) => {
                assert(requests_of(before.queue.push(fsop)) == requests_of(before.queue).push(
                    fsop.req,
                ));
                lemma_count_push(requests_of(before.queue), fsop.req, req);
            },
            MountEvent::Next => {
                if before.mounted() && before.queue.len() > 0 {
                    let reqs = requests_of(before.queue);
                    assert(requests_of(before.queue.subrange(1, before.queue.len() as int))
                        == reqs.remove(0));
                    lemma_count_remove(reqs, 0, req);
                    lemma_count_push(before.in_flight, before.queue[0].req, req);
                }
            },
            MountEvent::Complete(r, _) => {
                if before.in_flight.contains(r) {
                    lemma_first_position_is_first(before.in_flight, r);
                    lemma_count_remove(before.in_flight, first_position(before.in_flight, r), req);
                }
            },
            _ => {},
        }
    }
}

/// A request that arrived once at a mount as it is made, and is neither
/// queued nor running after a sequence of events, has got exactly one
/// reply in its course.
pub proof fn lemma_served_request_answered_once(events: Seq<MountEvent>, req: Request)
    requires
        arrivals(events, req) == 1,
        MountModel::initial().run(events).owed(req) == 0,
    ensures
        MountModel::initial().replies(events, req) == 1,
{
    lemma_every_request_answered_once(MountModel::initial(), events, req);
    assert(requests_of(Seq::<FSOperation>::empty()) == Seq::<Request>::empty());
}

/// No request ever gets more replies than it arrived times, and a request
/// that never arrived gets none.
pub proof fn lemma_no_reply_without_arrival(events: Seq<MountEvent>, req: Request)
    ensures
        MountModel::initial().replies(events, req) <= arrivals(events, req),
{
    lemma_every_request_answered_once(MountModel::initial(), events, req);
    assert(requests_of(Seq::<FSOperation>::empty()) == Seq::<Request>::empty());
}

/// The end of a worker is always answered for: whatever the outcome, a
/// request in flight gets its reply, and is owed one reply less.
pub proof fn lemma_completion_always_answers(m: MountModel, req: Request, outcome: WorkerOutcome)
    requires
        m.in_flight.contains(req),
    ensures
        m.step(MountEvent::Complete(req, outcome)).1 == MountAction::Reply(
            req,
            supervised_reply(outcome),
        ),
        m.step(MountEvent::Complete(req, outcome)).0.owed(req) + 1 == m.owed(req),
{
    lemma_first_position_is_first(m.in_flight, req);
    lemma_count_remove(m.in_flight, first_position(m.in_flight, req), req);
}

/// Where the filesystem is mounted after a sequence of events, the "init"
/// signal is among the events.
proof fn lemma_mounted_follows_init(events: Seq<MountEvent>)
    requires
        MountModel::initial().run(events).mounted(),
    ensures
        exists|j: int| 0 <= j < events.len() && events[j] is Init,
    decreases events.len(),
{
    if events.len() > 0 {
        let before = MountModel::initial().run(events.drop_last());
        if events.last() is Init {
            assert(events[events.len() - 1] is Init);
        } else {
            assert(before.mounted());
            lemma_mounted_follows_init(events.drop_last());
            let j = choose|j: int| 0 <= j < events.len() - 1 && events.drop_last()[j] is Init;
            assert(events[j] is Init);
        }
    }
}

/// No request is handed to a worker before the native "init" signal has
/// fired: in any sequence of events from a mount as it is made, an event
/// after which an operation is to be dispatched comes after an "init".
pub proof fn lemma_no_dispatch_before_init(events: Seq<MountEvent>, i: int)
    requires
        0 <= i < events.len(),
        MountModel::initial().action_at(events, i) is Dispatch,
    ensures
        exists|j: int| 0 <= j < i && events[j] is Init,
{
    lemma_mounted_follows_init(events.take(i));
    let j = choose|j: int| 0 <= j < i && events.take(i)[j] is Init;
    assert(events[j] is Init);
}

/// A worker that ends abnormally is answered for with an I/O error, and
/// touches no other request: the state of the mount, the queue, and what
/// every other request is owed stay as they are, and the reply that another
/// request gets when its own worker ends is the same as if nothing had
/// happened.
pub proof fn lemma_panic_isolation(
    m: MountModel,
    failed: Request,
    other: Request,
    outcome: WorkerOutcome,
)
    requires
        m.in_flight.contains(failed),
        failed != other,
    ensures
        m.step(MountEvent::Complete(failed, WorkerOutcome::Panicked)).1 == MountAction::Reply(
            failed,
            NativeReplyView::Error(EIO),
        ),
        m.step(MountEvent::Complete(failed, WorkerOutcome::Panicked)).0.state == m.state,
        m.step(MountEvent::Complete(failed, WorkerOutcome::Panicked)).0.queue == m.queue,
        m.step(MountEvent::Complete(failed, WorkerOutcome::Panicked)).0.owed(other) == m.owed(
            other,
        ),
        m.step(MountEvent::Complete(failed, WorkerOutcome::Panicked)).0.step(
            MountEvent::Complete(other, outcome),
        ).1 == m.step(MountEvent::Complete(other, outcome)).1,
{
    lemma_first_position_is_first(m.in_flight, failed);
    let p = first_position(m.in_flight, failed);
    let after = m.step(MountEvent::Complete(failed, WorkerOutcome::Panicked)).0;
    assert(after.in_flight == m.in_flight.remove(p));
    lemma_count_remove(m.in_flight, p, other);
    lemma_remove_keeps_others(m.in_flight, p, other);
    if m.in_flight.contains(other) {
        lemma_first_position_is_first(m.in_flight, other);
        lemma_first_position_is_first(after.in_flight, other);
    }
}

/// Removing one element of a sequence leaves every other value in it, and
/// brings none in.
proof fn lemma_remove_keeps_others(s: Seq<Request>, p: int, other: Request)
    requires
        0 <= p < s.len(),
        s[p] != other,
    ensures
        s.remove(p).contains(other) == s.contains(other),
{
    let rest = s.remove(p);
    if s.contains(other) {
        let k = choose|k: int| 0 <= k < s.len() && s[k] == other;
        if k < p {
            assert(rest[k] == other);
        } else {
            assert(rest[k - 1] == other);
        }
    }
    if rest.contains(other) {
        let k = choose|k: int| 0 <= k < rest.len() && rest[k] == other;
        if k < p {
            assert(s[k] == other);
        } else {
            assert(s[k + 1] == other);
        }
    }
}

/// Handing out the next operation does not wait for running workers:
/// whether one is handed out, and which, is the same whatever is in flight.
pub proof fn lemma_dispatch_ignores_running_workers(m: MountModel, in_flight: Seq<Request>)
    ensures
        (MountModel { in_flight, ..m }).step(MountEvent::Next).1 == m.step(MountEvent::Next).1,
{
}

/// The native session of a mount.
#[derive(Clone, Debug, PartialEq, Eq)]
pub struct FuseSession {
    /// Where the filesystem is mounted: the path as the native layer gave
    /// it, without the terminator.
    pub mount_point: Vec<u8>,
}

impl FuseSession {
    /// The session for the mount point that the native layer reported.
    pub fn new(mount_point: &CString) -> (session: FuseSession)
        ensures
            session.mount_point@ == mount_point@,
    {
        let bytes = cstr_as_bytes_no_term(mount_point);
        FuseSession { mount_point: vstd::slice::slice_to_vec(bytes) }
    }
}

/// The lifecycle of one mount: its state, and its session from the moment
/// the native layer has created it.
pub struct Lifecycle {
    state: MountState,
    session: Option<FuseSession>,
}

impl Lifecycle {
    /// From the creation of the native session to the end of the native
    /// loop, the mount has its session.
    #[verifier::type_invariant]
    pub closed spec fn wf(&self) -> bool {
        self.state == MountState::AwaitingInit || self.state == MountState::Active || self.state
            == MountState::Unmounting ==> self.session is Some
    }

    /// The state of the lifecycle.
    pub closed spec fn current(&self) -> MountState {
        self.state
    }

    /// The mount point that the native layer reported, once it has.
    pub closed spec fn reported_mount_point(&self) -> Option<Seq<u8>> {
        match self.session {
            Some(session) => Some(session.mount_point@),
            None => None,
        }
    }

    /// The lifecycle as a mount begins: mounting, with no session yet.
    pub fn new() -> (lifecycle: Lifecycle)
        ensures
            lifecycle.current() == MountState::Mounting,
            lifecycle.reported_mount_point() is None,
    {
        Lifecycle { state: MountState::Mounting, session: None }
    }

    /// The state of the lifecycle.
    pub fn state(&self) -> (state: MountState)
        ensures
            state == self.current(),
    {
        self.state
    }

    /// While mounting: the native session exists, mounted at `mount_point`,
    /// and its "init" signal is awaited. In any other state nothing changes.
    pub fn session_created(&mut self, mount_point: &CString)
        ensures
            final(self).current() == if old(self).current() == MountState::Mounting {
                MountState::AwaitingInit
            } else {
                old(self).current()
            },
            final(self).reported_mount_point() == if old(self).current() == MountState::Mounting {
                Some(mount_point@)
            } else {
                old(self).reported_mount_point()
            },
    {
        if let MountState::Mounting = self.state {
            self.session = Some(FuseSession::new(mount_point));
            self.state = MountState::AwaitingInit;
        }
    }

    /// Before the "init" signal: the mount has failed, and is unmounted. In
    /// any later state nothing changes.
    pub fn startup_failed(&mut self)
        ensures
            final(self).current() == if old(self).current() == MountState::Mounting || old(
                self,
            ).current() == MountState::AwaitingInit {
                MountState::Unmounted
            } else {
                old(self).current()
            },
            final(self).reported_mount_point() == old(self).reported_mount_point(),
    {
        match self.state {
            MountState::Mounting | MountState::AwaitingInit => {
                self.state = MountState::Unmounted;
            },
            _ => {},
        }
    }

    /// While the "init" signal is awaited: the mount becomes active, and
    /// the result is `true`. In any other state nothing changes.
    pub fn init(&mut self) -> (ready: bool)
        ensures
            ready == (old(self).current() == MountState::AwaitingInit),
            final(self).current() == if ready {
                MountState::Active
            } else {
                old(self).current()
            },
            final(self).reported_mount_point() == old(self).reported_mount_point(),
    {
        proof {
            use_type_invariant(&*self);
        }
        if let MountState::AwaitingInit = self.state {
            self.state = MountState::Active;
            true
        } else {
            false
        }
    }

    /// While active: the mount is unmounting, and the result is the
    /// external command that unmounts its mount point on a host of kind
    /// `os`. In any other state nothing changes.
    pub fn unmount(&mut self, os: HostOs) -> (command: Option<UnmountCommand>)
        ensures
            command is Some == (old(self).current() == MountState::Active),
            command matches Some(c) ==> (old(self).reported_mount_point() matches Some(path) && c@
                == unmount_command(os, path)),
            final(self).current() == if command is Some {
                MountState::Unmounting
            } else {
                old(self).current()
            },
            final(self).reported_mount_point() == old(self).reported_mount_point(),
    {
        proof {
            use_type_invariant(&*self);
        }
        if let MountState::Active = self.state {
            match &self.session {
                Some(session) => {
                    let command = unmount_via_external_process(os, &session.mount_point);
                    self.state = MountState::Unmounting;
                    Some(command)
                },
                None => None,
            }
        } else {
            None
        }
    }

    /// The native loop has ended: the mount is unmounted.
    pub fn finish(&mut self)
        ensures
            final(self).current() == MountState::Unmounted,
            final(self).reported_mount_point() == old(self).reported_mount_point(),
    {
        self.state = MountState::Unmounted;
    }

    /// The path at which the filesystem is mounted, once the native layer
    /// has reported it, which it has from the creation of the session on.
    pub fn mount_point(&self) -> (path: Option<&Vec<u8>>)
        ensures
            path matches Some(p) ==> self.reported_mount_point() == Some(p@),
            path is None ==> self.reported_mount_point() is None,
            self.current() == MountState::AwaitingInit || self.current() == MountState::Active
                || self.current() == MountState::Unmounting ==> path is Some,
    {
        proof {
            use_type_invariant(self);
        }
        match &self.session {
            Some(session) => Some(&session.mount_point),
            None => None,
        }
    }
}

/// A mount: the capability table of its filesystem, its lifecycle, the
/// dispatch queue and the requests in flight.
///
/// Each method takes one event and returns what the caller is to do, as
/// [`MountModel::step`] says.
pub struct FuseMount {
    lifecycle: Lifecycle,
    table: OperationTable,
    args: Vec<Vec<u8>>,
    queue: VecDeque<FSOperation>,
    in_flight: Vec<Request>,
}

impl View for FuseMount {
    type V = MountModel;

    closed spec fn view(&self) -> MountModel {
        MountModel {
            state: self.lifecycle.current(),
            queue: self.queue@,
            in_flight: self.in_flight@,
        }
    }
}

impl FuseMount {
    /// The mount point that the native layer reported, once it has.
    pub closed spec fn session_mount_point(&self) -> Option<Seq<u8>> {
        self.lifecycle.reported_mount_point()
    }

    /// The arguments that go to the native layer.
    pub closed spec fn native_args(&self) -> Seq<Vec<u8>> {
        self.args@
    }

    /// The capability table.
    pub closed spec fn capabilities(&self) -> OperationTable {
        self.table
    }

    /// What a method that takes an event leaves as it is: the arguments and
    /// the capability table.
    pub open spec fn same_setup(&self, other: &FuseMount) -> bool {
        self.native_args() == other.native_args() && self.capabilities() == other.capabilities()
    }

    /// Starts a mount of the filesystem `ops` with the arguments in
    /// `options`.
    ///
    /// The capability table is made here, once, before the native session
    /// starts, and what the filesystem declares is checked against its
    /// handlers, as [`make_checked_table`] does. A filesystem that
    /// implements a verb which is not handled, by the bridge or by itself,
    /// is not mounted: the result names the first such verb in table order.
    /// Otherwise the mount is in the state of mounting, with nothing queued
    /// and no session yet; its table routes the two session notifications,
    /// and any other verb exactly when `ops` implements it.
    pub fn new<T: FuseLowLevelOps>(options: FuseMountOptions, ops: &T) -> (r: Result<
        FuseMount,
        CapabilityMismatch,
    >)
        ensures
            r is Ok <==> forall|verb: Verb| !#[trigger] mismatched(ops, verb),
            r matches Ok(mount) ==> mount@ == MountModel::initial() && mount.native_args()
                == options.args@ && mount.session_mount_point() is None,
            r matches Ok(mount) ==> forall|verb: Verb| #[trigger]
                mount.capabilities().routes(verb) == verb.routed_if(ops.implements(verb)),
            r matches Ok(mount) ==> mount.capabilities().routes(Verb::Init)
                && mount.capabilities().routes(Verb::Destroy),
            r matches Ok(mount) ==> forall|verb: Verb| #[trigger]
                mount.capabilities().routes(verb) ==> verb.has_handler() && (
                verb.is_notification() || ops.handles(verb)),
            r matches Err(e) ==> mismatched(ops, e.verb),
            r matches Err(e) ==> forall|verb: Verb| #[trigger]
                mismatched(ops, verb) ==> OperationTable::slot_index(e.verb)
                    <= OperationTable::slot_index(verb),
    {
        let FuseMountOptions { args } = options;
        match make_checked_table(ops) {
            Ok(table) => {
                assert(table.routes(Verb::Init) == Verb::Init.routed_if(
                    ops.implements(Verb::Init),
                ));
                assert(table.routes(Verb::Destroy) == Verb::Destroy.routed_if(
                    ops.implements(Verb::Destroy),
                ));
                Ok(
                    FuseMount {
                        lifecycle: Lifecycle::new(),
                        table,
                        args,
                        queue: VecDeque::new(),
                        in_flight: Vec::new(),
                    },
                )
            },
            Err(e) => Err(e),
        }
    }

    /// The arguments to hand to the native layer, as they were given.
    pub fn args(&self) -> (args: &Vec<Vec<u8>>)
        ensures
            args@ == self.native_args(),
    {
        &self.args
    }

    /// The capability table of the filesystem.
    pub fn table(&self) -> (table: &OperationTable)
        ensures
            *table == self.capabilities(),
    {
        &self.table
    }

    /// The state of the lifecycle.
    pub fn state(&self) -> (state: MountState)
        ensures
            state == self@.state,
    {
        self.lifecycle.state()
    }

    /// Takes note that the native session was created, mounted at
    /// `mount_point`. This counts while mounting only.
    pub fn session_created(&mut self, mount_point: &CString)
        ensures
            final(self)@ == old(self)@.step(MountEvent::SessionCreated).0,
            final(self).same_setup(old(self)),
            final(self).session_mount_point() == if old(self)@.state == MountState::Mounting {
                Some(mount_point@)
            } else {
                old(self).session_mount_point()
            },
    {
        self.lifecycle.session_created(mount_point);
    }

    /// Takes note that setting the native session up failed. Before the
    /// "init" signal this ends the mount.
    pub fn startup_failed(&mut self)
        ensures
            final(self)@ == old(self)@.step(MountEvent::StartupFailed).0,
            final(self).same_setup(old(self)),
            final(self).session_mount_point() == old(self).session_mount_point(),
    {
        self.lifecycle.startup_failed();
    }

    /// Takes note of the native "init" signal. Returns whether the caller of
    /// the mount is to be told that the session is ready, which is so when
    /// the signal was awaited.
    pub fn init(&mut self) -> (ready: bool)
        ensures
            final(self)@ == old(self)@.step(MountEvent::Init).0,
            ready == (old(self)@.step(MountEvent::Init).1 is Ready),
            final(self).same_setup(old(self)),
            final(self).session_mount_point() == old(self).session_mount_point(),
    {
        self.lifecycle.init()
    }

    /// Queues a request that arrived from the native loop, behind those
    /// queued before.
    pub fn send_to_dispatch(&mut self, fsop: FSOperation)
        ensures
            final(self)@ == old(self)@.step(MountEvent::Arrive(fsop)).0,
            final(self).same_setup(old(self)),
            final(self).session_mount_point() == old(self).session_mount_point(),
    {
        self.queue.push_back(fsop);
    }

    /// Hands out the operation to run in a worker next: the oldest one
    /// queued, once the "init" signal has fired and until the native loop
    /// has ended. Its request is in flight from then on. Workers that still
    /// run hold nothing back.
    pub fn next_operation(&mut self) -> (next: Option<FSOperation>)
        ensures
            final(self)@ == old(self)@.step(MountEvent::Next).0,
            next matches Some(fsop) ==> old(self)@.step(MountEvent::Next).1
                == MountAction::Dispatch(fsop),
            next is None ==> old(self)@.step(MountEvent::Next).1 is Nothing,
            final(self).same_setup(old(self)),
            final(self).session_mount_point() == old(self).session_mount_point(),
    {
        match self.lifecycle.state() {
            MountState::Active | MountState::Unmounting => {
                match self.queue.pop_front() {
                    Some(fsop) => {
                        self.in_flight.push(fsop.req);
                        Some(fsop)
                    },
                    None => None,
                }
            },
            _ => None,
        }
    }

    /// Takes note that the worker of `req` ended, and returns the reply to
    /// send for it: the worker's own, or an I/O error where the handler
    /// ended abnormally. Where `req` is not in flight there is no reply to
    /// send: it has been answered already.
    pub fn complete(&mut self, req: Request, outcome: WorkerOutcome) -> (reply: Option<NativeReply>)
        ensures
            final(self)@ == old(self)@.step(MountEvent::Complete(req, outcome)).0,
            reply matches Some(r) ==> old(self)@.step(MountEvent::Complete(req, outcome)).1
                == MountAction::Reply(req, r@),
            reply is None ==> old(self)@.step(MountEvent::Complete(req, outcome)).1 is Nothing,
            final(self).same_setup(old(self)),
            final(self).session_mount_point() == old(self).session_mount_point(),
    {
        let mut i: usize = 0;
        while i < self.in_flight.len()
            invariant
                i <= self.in_flight@.len(),
                *self == *old(self),
                forall|j: int| 0 <= j < i ==> self.in_flight@[j] != req,
            decreases self.in_flight@.len() - i,
        {
            if self.in_flight[i].token == req.token {
                proof {
                    assert(self.in_flight@[i as int] == req);
                    lemma_first_position_is_first(self.in_flight@, req);
                }
                self.in_flight.remove(i);
                return Some(supervise(outcome));
            }
            i += 1;
        }
        None
    }

    /// Asks for the unmount. Returns the external command that the caller
    /// is to run, which unmounts the mount point on a host of kind `os`,
    /// when the mount was active; on a mount that is not, this does nothing.
    pub fn unmount(&mut self, os: HostOs) -> (command: Option<UnmountCommand>)
        ensures
            final(self)@ == old(self)@.step(MountEvent::Unmount).0,
            command is Some == (old(self)@.step(MountEvent::Unmount).1 is ExternalUnmount),
            command matches Some(c) ==> (old(self).session_mount_point() matches Some(path) && c@
                == unmount_command(os, path)),
            final(self).same_setup(old(self)),
            final(self).session_mount_point() == old(self).session_mount_point(),
    {
        self.lifecycle.unmount(os)
    }

    /// Takes note that the native loop ended: the mount is unmounted.
    pub fn finish(&mut self)
        ensures
            final(self)@ == old(self)@.step(MountEvent::Finish).0,
            final(self).same_setup(old(self)),
            final(self).session_mount_point() == old(self).session_mount_point(),
    {
        self.lifecycle.finish();
    }

    /// Tells whether the filesystem is still mounted. `finished` says
    /// whether the native loop is known to have ended; it can have, by an
    /// unmount from outside, while this mount has not taken note yet.
    pub fn is_mounted(&self, finished: bool) -> (mounted: bool)
        ensures
            mounted == (self@.mounted() && !finished),
    {
        let mounted = match self.lifecycle.state() {
            MountState::Active | MountState::Unmounting => true,
            _ => false,
        };
        mounted && !finished
    }

    /// The path at which the filesystem is mounted, once the native layer
    /// has reported it, which it has while the filesystem is mounted.
    pub fn mount_point(&self) -> (path: Option<&Vec<u8>>)
        ensures
            path matches Some(p) ==> self.session_mount_point() == Some(p@),
            path is None ==> self.session_mount_point() is None,
            self@.mounted() ==> path is Some,
    {
        self.lifecycle.mount_point()
    }

    /// How many requests are in flight.
    pub fn outstanding(&self) -> (n: usize)
        ensures
            n == self@.in_flight.len(),
    {
        self.in_flight.len()
    }

    /// How many requests are queued.
    pub fn queued(&self) -> (n: usize)
        ensures
            n == self@.queue.len(),
    {
        self.queue.len()
    }
}

} // verus!
