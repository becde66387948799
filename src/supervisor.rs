use vstd::prelude::*;

use crate::endpoint::{origin_text, Endpoint};
use crate::interpreter::Interpreter;
use crate::launch::{bridge_command, planned_launch, LaunchPlan};
use crate::path::FsPath;

verus! {

/// Where the supervised backend process is in its life.
#[derive(PartialEq, Eq, Structural, Clone, Copy, Debug)]
pub enum Lifecycle {
    Uninitialized,
    Starting,
    Running,
    Terminated,
}

/// The operating system could not create the backend process.
pub struct SpawnError {
    pub message: String,
}

/// A notification from the host application's lifecycle.
#[derive(PartialEq, Eq, Structural, Clone, Copy, Debug)]
pub enum HostEvent {
    /// The application is about to exit.
    ExitRequested,
    /// Any other notification; the supervisor ignores it.
    Other,
}

/// What came of a start.
pub enum StartOutcome<H> {
    /// The backend runs. `origin` is the address to publish to the user
    /// interface; `displaced` is a handle that was held before, now the
    /// caller's to terminate.
    Running { origin: String, displaced: Option<H> },
    /// The process could not be created; nothing is to be published.
    Failed(SpawnError),
}

/// What a [`Supervisor`] holds.
pub struct SupervisorModel<H> {
    pub state: Lifecycle,
    pub handle: Option<H>,
}

impl<H> SupervisorModel<H> {
    /// Nothing started yet.
    pub open spec fn initial() -> Self {
        SupervisorModel { state: Lifecycle::Uninitialized, handle: None }
    }

    /// A handle is held exactly while the backend runs.
    pub open spec fn wf(self) -> bool {
        (self.handle is Some) <==> self.state == Lifecycle::Running
    }

    /// A start is under way; a running backend stays as it is.
    pub open spec fn prepared(self) -> Self {
        if self.handle is Some {
            self
        } else {
            SupervisorModel { state: Lifecycle::Starting, handle: None }
        }
    }

    /// The backend was created, and its handle is now the one held.
    pub open spec fn started(self, h: H) -> Self {
        SupervisorModel { state: Lifecycle::Running, handle: Some(h) }
    }

    /// The backend could not be created; a handle held before stays held.
    pub open spec fn start_failed(self) -> Self {
        if self.handle is Some {
            self
        } else {
            SupervisorModel { state: Lifecycle::Terminated, handle: None }
        }
    }

    /// The held handle, if any, has been taken out to be terminated.
    pub open spec fn terminated(self) -> Self {
        if self.handle is Some {
            SupervisorModel { state: Lifecycle::Terminated, handle: None }
        } else {
            self
        }
    }

    /// The supervisor after handling a host notification.
    pub open spec fn after_event(self, event: HostEvent) -> Self {
        match event {
            HostEvent::ExitRequested => self.terminated(),
            HostEvent::Other => self,
        }
    }

    /// The handle a host notification hands out for termination.
    pub open spec fn released_by(self, event: HostEvent) -> Option<H> {
        match event {
            HostEvent::ExitRequested => self.handle,
            HostEvent::Other => None,
        }
    }
}

/// The single owner of the backend process's handle: a one-slot container
/// whose handle is put in by a start and taken out, once, by termination.
pub struct Supervisor<H> {
    state: Lifecycle,
    handle: Option<H>,
}

impl<H> View for Supervisor<H> {
    type V = SupervisorModel<H>;

    closed spec fn view(&self) -> SupervisorModel<H> {
        SupervisorModel { state: self.state, handle: self.handle }
    }
}

impl<H> Supervisor<H> {
    /// A supervisor that holds nothing.
    pub fn new() -> (r: Self)
        ensures
            r@ == SupervisorModel::<H>::initial(),
            r@.wf(),
    {
        Supervisor { state: Lifecycle::Uninitialized, handle: None }
    }

    /// Where the backend is in its life.
    pub fn state(&self) -> (r: Lifecycle)
        ensures
            r == self@.state,
    {
        self.state
    }

    /// Whether a handle is held.
    pub fn is_holding(&self) -> (r: bool)
        ensures
            r == self@.handle is Some,
    {
        self.handle.is_some()
    }

    /// Begins a start: gives the command line that runs the backend with this
    /// interpreter, at this endpoint, from this project root.
    pub fn prepare(&mut self, root: &FsPath, endpoint: &Endpoint, choice: &Interpreter) -> (r:
        LaunchPlan)
        ensures
            final(self)@ == old(self)@.prepared(),
            old(self)@.wf() ==> final(self)@.wf(),
            r@ == planned_launch(root@, endpoint.port as nat, choice@),
    {
        if self.handle.is_none() {
            self.state = Lifecycle::Starting;
        }
        bridge_command(root, endpoint, choice)
    }

    /// Completes a start with what spawning the backend gave. Only a backend
    /// that was created yields an address to publish.
    pub fn finish_start(&mut self, spawned: Result<H, SpawnError>, endpoint: &Endpoint) -> (r:
        StartOutcome<H>)
        ensures
            old(self)@.wf() ==> final(self)@.wf(),
            match spawned {
                Ok(h) => {
                    &&& final(self)@ == old(self)@.started(h)
                    &&& match r {
                        StartOutcome::Running { origin, displaced } => {
                            &&& origin@ == origin_text(endpoint.port as nat)
                            &&& displaced == old(self)@.handle
                        },
                        StartOutcome::Failed(_) => false,
                    }
                },
                Err(e) => {
                    &&& final(self)@ == old(self)@.start_failed()
                    &&& r == StartOutcome::<H>::Failed(e)
                },
            },
    {
        match spawned {
            Ok(h) => {
                let displaced = self.handle.take();
                self.handle = Some(h);
                self.state = Lifecycle::Running;
                StartOutcome::Running { origin: endpoint.origin(), displaced }
            },
            Err(e) => {
                if self.handle.is_none() {
                    self.state = Lifecycle::Terminated;
                }
                StartOutcome::Failed(e)
            },
        }
    }

    /// Takes the held handle out for termination, leaving the slot empty.
    /// With nothing held it does nothing and hands out nothing.
    pub fn terminate(&mut self) -> (r: Option<H>)
        ensures
            r == old(self)@.handle,
            final(self)@ == old(self)@.terminated(),
            old(self)@.wf() ==> final(self)@.wf(),
    {
        let r = self.handle.take();
        if r.is_some() {
            self.state = Lifecycle::Terminated;
        }
        r
    }

    /// Handles a host notification: an exit request takes the held handle out
    /// for termination; anything else changes nothing.
    pub fn on_host_event(&mut self, event: HostEvent) -> (r: Option<H>)
        ensures
            r == old(self)@.released_by(event),
            final(self)@ == old(self)@.after_event(event),
            old(self)@.wf() ==> final(self)@.wf(),
    {
        match event {
            HostEvent::ExitRequested => self.terminate(),
            HostEvent::Other => None,
        }
    }
}

/// Termination is idempotent: a second termination hands out nothing and
/// changes nothing, and a termination before any start hands out nothing.
/// What a termination hands out is only ever the handle that was held.
pub proof fn lemma_terminate_idempotent<H>(s: SupervisorModel<H>)
    ensures
        s.terminated().handle is None,
        s.terminated().terminated() == s.terminated(),
        SupervisorModel::<H>::initial().handle is None,
        SupervisorModel::<H>::initial().terminated() == SupervisorModel::<H>::initial(),
{
}

/// After a successful start, an exit request hands out exactly the started
/// handle and empties the slot; a second exit request hands out nothing and
/// changes nothing.
pub proof fn lemma_exit_after_start<H>(s: SupervisorModel<H>, h: H)
    ensures
        s.started(h).released_by(HostEvent::ExitRequested) == Some(h),
        s.started(h).after_event(HostEvent::ExitRequested) == (SupervisorModel::<H> {
            state: Lifecycle::Terminated,
            handle: None,
        }),
        s.started(h).after_event(HostEvent::ExitRequested).released_by(HostEvent::ExitRequested)
            is None,
        s.started(h).after_event(HostEvent::ExitRequested).after_event(HostEvent::ExitRequested)
            == s.started(h).after_event(HostEvent::ExitRequested),
{
}

} // verus!
