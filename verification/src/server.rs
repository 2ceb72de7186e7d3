//! The service manager: the single authority for process-wide service
//! lifecycle.
//!
//! The manager owns the root cancellation scope and an exclusively-held
//! handle around each managed service. Lifecycle methods acquire the
//! handle without blocking: contention means two lifecycle operations
//! raced, which is caller misuse and is answered with a lock-contention
//! error instead of a wait.

use crate::api::{ApiService, LifecycleState};
use crate::conf::Settings;
use crate::error::AppError;
use crate::scope::ScopeArena;
use vstd::prelude::*;

verus! {

/// A single-writer slot around a managed service. Acquiring fails fast
/// when the slot is already held; it never queues.
#[derive(Debug)]
pub struct ManagedServiceHandle {
    pub held: bool,
    pub service: ApiService,
}

impl ManagedServiceHandle {
    /// Non-blocking exclusive acquisition: an error, not a wait, when the
    /// slot is already held.
    pub fn try_acquire(&mut self) -> (r: Result<(), AppError>)
        ensures
            old(self).held ==> (r matches Err(e) && e is LockContention && *final(self) == *old(
                self,
            )),
            !old(self).held ==> r is Ok && final(self).held && final(self).service == old(
                self,
            ).service,
    {
        if self.held {
            Err(AppError::LockContention)
        } else {
            self.held = true;
            Ok(())
        }
    }

    /// Releases the slot.
    pub fn release(&mut self)
        ensures
            !final(self).held,
            final(self).service == old(self).service,
    {
        self.held = false;
    }
}

/// The process-wide lifecycle authority: the root cancellation scope,
/// the configuration, and the exclusively-held API service.
#[derive(Debug)]
pub struct ServiceManager {
    pub settings: Settings,
    pub scopes: ScopeArena,
    pub root: usize,
    pub api_service: ManagedServiceHandle,
}

impl ServiceManager {
    /// Shape of a well-formed manager: a well-formed scope tree whose
    /// root has no parent, with the API service on a child scope derived
    /// from the root, and every scope in the tree below the root.
    pub open spec fn wf(self) -> bool {
        &&& self.scopes.wf()
        &&& self.root < self.scopes.len()
        &&& self.scopes.parent_of(self.root as int) is None
        &&& self.api_service.service.scope < self.scopes.len()
        &&& self.api_service.service.scope != self.root
        &&& self.scopes.parent_of(self.api_service.service.scope as int) == Option::Some(
            self.root,
        )
        &&& forall|j: int|
            0 <= j < self.scopes.len() ==> (j == self.root || #[trigger] self.scopes.reaches(
                j,
                self.root as int,
            ))
    }

    /// The service takes new connections only while it is listening and
    /// its scope has not been cancelled.
    pub open spec fn accepts_new_connections(self) -> bool {
        &&& self.api_service.service.state is Listening
        &&& !self.scopes.flag(self.api_service.service.scope as int)
    }

    /// Law: once the root scope of a well-formed manager is cancelled,
    /// every scope of the manager observes the cancellation — the flag
    /// is set on the root and every scope derived from it.
    pub proof fn lemma_root_cancellation_reaches_every_scope(self)
        requires
            self.wf(),
            self.scopes.flag(self.root as int),
        ensures
            forall|j: int| 0 <= j < self.scopes.len() ==> #[trigger] self.scopes.flag(j),
    {
        assert forall|j: int| 0 <= j < self.scopes.len() implies #[trigger] self.scopes.flag(
            j,
        ) by {
            if j != self.root {
                assert(self.scopes.reaches(j, self.root as int));
                self.scopes.lemma_cancelled_descendants(j, self.root as int);
            }
        }
    }

    /// Builds the root scope, derives a child scope for the API service
    /// and constructs the service around it. Fails only if a sub-service
    /// fails to construct, which is a fatal configuration error.
    pub fn new(settings: Settings) -> (r: Result<ServiceManager, AppError>)
        ensures
            r matches Ok(m),
            r matches Ok(m) ==> {
                &&& m.wf()
                &&& m.settings == settings
                &&& !m.api_service.held
                &&& m.api_service.service.args == settings.api
                &&& m.api_service.service.state is Constructed
                &&& m.api_service.service.in_flight == 0
                &&& m.api_service.service.completed == 0
                &&& m.api_service.service.aborted == 0
                &&& forall|j: int| 0 <= j < m.scopes.len() ==> !#[trigger] m.scopes.flag(j)
            },
    {
        let mut scopes = ScopeArena::new();
        let root = scopes.new_root();
        let child = scopes.new_child(root);
        let service = match ApiService::new(child, settings.api.clone()) {
            Ok(s) => s,
            Err(e) => {
                return Err(e);
            },
        };
        let manager = ServiceManager {
            settings,
            scopes,
            root,
            api_service: ManagedServiceHandle { held: false, service },
        };
        Ok(manager)
    }

    /// Acquires the service handle without blocking and starts the
    /// service; the caller then binds the listener and schedules the
    /// serving task. Contention on the handle is caller misuse and is
    /// reported, not waited out.
    pub fn start(&mut self) -> (r: Result<(), AppError>)
        requires
            old(self).wf(),
        ensures
            final(self).wf(),
            final(self).settings == old(self).settings,
            final(self).scopes == old(self).scopes,
            final(self).root == old(self).root,
            final(self).api_service.held == old(self).api_service.held,
            final(self).api_service.service.scope == old(self).api_service.service.scope,
            old(self).api_service.held ==> (r matches Err(e) && e is LockContention && final(self).api_service.service == old(self).api_service.service),
            !old(self).api_service.held && old(self).api_service.service.state is Constructed
                ==> r is Ok && final(self).api_service.service == (ApiService {
                state: LifecycleState::Listening,
                ..old(self).api_service.service
            }),
            !old(self).api_service.held && !(old(self).api_service.service.state is Constructed)
                ==> (r matches Err(e) && e is Configuration) && final(self).api_service.service
                == old(self).api_service.service,
    {
        match self.api_service.try_acquire() {
            Ok(()) => {},
            Err(e) => {
                return Err(e);
            },
        }
        let r = self.api_service.service.start();
        self.api_service.release();
        r
    }

    /// Graceful stop: under the same exclusive-access discipline, asks
    /// the service to drain and stop. The service's own scope is
    /// cancelled — a cooperative request — while the root scope is left
    /// alone. Stopping an already stopped manager is a no-op success.
    pub fn stop(&mut self) -> (r: Result<(), AppError>)
        requires
            old(self).wf(),
        ensures
            final(self).wf(),
            final(self).settings == old(self).settings,
            final(self).root == old(self).root,
            !final(self).api_service.held || old(self).api_service.held,
            final(self).api_service.service.scope == old(self).api_service.service.scope,
            old(self).api_service.held ==> (r matches Err(e) && e is LockContention && *final(self)
                == *old(self)),
            !old(self).api_service.held ==> {
                &&& r is Ok
                &&& final(self).scopes.flag(old(self).root as int) == old(self).scopes.flag(
                    old(self).root as int,
                )
                &&& final(self).scopes.flag(old(self).api_service.service.scope as int)
                &&& !final(self).accepts_new_connections()
                &&& (old(self).api_service.service.state is Listening && old(
                    self,
                ).api_service.service.in_flight > 0 ==> final(self).api_service.service
                    == (ApiService {
                    state: LifecycleState::Draining,
                    ..old(self).api_service.service
                }))
                &&& (old(self).api_service.service.state is Listening && old(
                    self,
                ).api_service.service.in_flight == 0 ==> final(self).api_service.service
                    == (ApiService {
                    state: LifecycleState::Stopped,
                    ..old(self).api_service.service
                }))
                &&& (!(old(self).api_service.service.state is Listening) ==> final(self).api_service.service == old(self).api_service.service)
            },
    {
        match self.api_service.try_acquire() {
            Ok(()) => {},
            Err(e) => {
                return Err(e);
            },
        }
        let ghost pre = *self;
        let r = self.api_service.service.stop(&mut self.scopes);
        self.api_service.release();
        proof {
            assert(self.scopes.flag(pre.root as int) == pre.scopes.flag(pre.root as int)) by {
                assert(!pre.scopes.reaches(pre.root as int, pre.api_service.service.scope as int));
            }
        }
        r
    }

    /// Forced stop: cancels the root scope, which every derived scope
    /// observes at once, and aborts whatever was in flight. Cancellation
    /// cannot fail, no guard is taken, and the call is idempotent: on an
    /// already force-stopped manager it changes nothing and still
    /// succeeds.
    pub fn stop_force(&mut self) -> (r: Result<(), AppError>)
        requires
            old(self).wf(),
            old(self).api_service.service.aborted + old(self).api_service.service.in_flight
                <= u64::MAX,
        ensures
            final(self).wf(),
            r is Ok,
            final(self).settings == old(self).settings,
            final(self).root == old(self).root,
            final(self).api_service.held == old(self).api_service.held,
            final(self).scopes.len() == old(self).scopes.len(),
            forall|j: int| 0 <= j < old(self).scopes.len() ==> #[trigger] final(self).scopes.flag(j),
            !final(self).accepts_new_connections(),
            old(self).api_service.service.state is Listening || old(
                self,
            ).api_service.service.state is Draining ==> final(self).api_service.service
                == (ApiService {
                state: LifecycleState::Stopped,
                in_flight: 0,
                aborted: (old(self).api_service.service.aborted + old(
                    self,
                ).api_service.service.in_flight) as u64,
                ..old(self).api_service.service
            }),
            !(old(self).api_service.service.state is Listening) && !(old(
                self,
            ).api_service.service.state is Draining) ==> final(self).api_service.service == old(
                self,
            ).api_service.service,
    {
        let ghost pre = *self;
        self.scopes.cancel(self.root);
        proof {
            assert forall|j: int| 0 <= j < pre.scopes.len() implies #[trigger] self.scopes.flag(
                j,
            ) by {
                if j != pre.root {
                    assert(pre.scopes.reaches(j, pre.root as int));
                }
            }
        }
        self.api_service.service.on_force_cancelled();
        Ok(())
    }
}

} // verus!
