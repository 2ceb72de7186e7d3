//! The HTTP API service: its lifecycle state machine and the decision
//! logic of its middleware pipeline.
//!
//! The pipeline order is fixed: tracing, per-request timeout, metrics,
//! generic error mapping, route dispatch, and a fallback for unmatched
//! routes. [`respond`] computes, from the request line and the observed
//! handling duration, exactly what leaves the process: a status from
//! {200, 404, 500} and a uniform envelope, or a hand-off to one of the
//! externally rendered endpoints (metrics exposition, API docs).
//!
//! The serving loop itself (sockets, tasks) runs outside this crate and
//! reports its observations — a request starting, completing, the drain
//! timeout elapsing — as events on the [`ApiService`] state machine.

use crate::error::AppError;
use crate::interface::{ApiBody, failed_text, handle_error, handler_404, index, get_users, not_found_text};
use crate::scope::ScopeArena;
use crate::text::{str_eq, str_starts_with};
use vstd::prelude::*;
use vstd::string::StringExecFns;

verus! {

/// Shared state handed to every route handler.
#[derive(Clone)]
pub struct ApiState {}

/// The API service's slice of the configuration: bind address, port and
/// the per-request (and drain) timeout in seconds.
#[derive(Debug)]
pub struct ApiServiceArgs {
    pub address: String,
    pub port: u16,
    pub timeout: u64,
}

impl Clone for ApiServiceArgs {
    fn clone(&self) -> (r: ApiServiceArgs)
        ensures
            r == *self,
    {
        ApiServiceArgs { address: self.address.clone(), port: self.port, timeout: self.timeout }
    }
}

/// Where a request line is dispatched.
#[derive(Debug, Clone, Copy, PartialEq, Eq, Structural)]
pub enum Route {
    Index,
    Users,
    Metrics,
    OpenApi,
    SwaggerUi,
    Unmatched,
}

/// The routing table: the two business routes under `/api`, the metrics
/// exposition route, the two documentation endpoints, and everything else
/// unmatched. Only GET requests are routed.
pub open spec fn spec_route_of(method: Seq<char>, path: Seq<char>) -> Route {
    if method != "GET"@ {
        Route::Unmatched
    } else if path == "/api"@ {
        Route::Index
    } else if path == "/api/users"@ {
        Route::Users
    } else if path == "/metrics"@ {
        Route::Metrics
    } else if path == "/api-docs/openapi.json"@ {
        Route::OpenApi
    } else if path == "/swagger-ui"@ || ("/swagger-ui/"@.len() <= path.len() && path.subrange(
        0,
        "/swagger-ui/"@.len() as int,
    ) == "/swagger-ui/"@) {
        Route::SwaggerUi
    } else {
        Route::Unmatched
    }
}

/// Dispatches a request line against the routing table.
pub fn route_of(method: &str, path: &str) -> (r: Route)
    ensures
        r == spec_route_of(method@, path@),
{
    if !str_eq(method, "GET") {
        Route::Unmatched
    } else if str_eq(path, "/api") {
        Route::Index
    } else if str_eq(path, "/api/users") {
        Route::Users
    } else if str_eq(path, "/metrics") {
        Route::Metrics
    } else if str_eq(path, "/api-docs/openapi.json") {
        Route::OpenApi
    } else if str_eq(path, "/swagger-ui") || str_starts_with(path, "/swagger-ui/") {
        Route::SwaggerUi
    } else {
        Route::Unmatched
    }
}

/// The metrics layer's ignore list: the exposition path itself is never
/// recorded, so scrape traffic cannot skew the histograms.
pub fn should_record_metrics(path: &str) -> (r: bool)
    ensures
        r == (path@ != "/metrics"@),
{
    !str_eq(path, "/metrics")
}

/// What leaves the process for one request: either a status and the
/// uniform envelope, or a hand-off to an externally rendered endpoint.
#[derive(Debug)]
pub enum HttpOutcome {
    Enveloped { status: u16, body: ApiBody<String> },
    External { route: Route },
}

/// What the tracing layer records about one request: method, path,
/// latency, and the status of the outcome (absent for externally
/// rendered endpoints).
#[derive(Debug)]
pub struct TraceRecord {
    pub method: String,
    pub path: String,
    pub duration_secs: u64,
    pub status: Option<u16>,
}

/// A request ran past the configured per-request timeout.
pub open spec fn spec_timed_out(args: ApiServiceArgs, duration_secs: u64) -> bool {
    duration_secs >= args.timeout
}

/// The full contract of [`respond`]: given the request line and the
/// observed handling duration, exactly one of these cases holds.
///
/// - The documentation endpoints are merged in beside the middleware
///   stack and answer under their own rendering contract.
/// - A timed-out request is short-circuited by the timeout layer and
///   mapped by the generic error layer to HTTP 500 with a failure
///   envelope — it never hangs and never leaks a raw error.
/// - A matched business handler's envelope is mapped to HTTP 200 when
///   its code is 0 (both fixed handlers always succeed here).
/// - The metrics route is rendered externally.
/// - An unmatched route falls back to HTTP 404 with code -1 and the
///   message `"<METHOD> <PATH> Not Found"`.
pub open spec fn respond_spec(
    args: ApiServiceArgs,
    method: Seq<char>,
    path: Seq<char>,
    duration_secs: u64,
    r: HttpOutcome,
) -> bool {
    let route = spec_route_of(method, path);
    if route is OpenApi || route is SwaggerUi {
        r == HttpOutcome::External { route }
    } else if spec_timed_out(args, duration_secs) {
        &&& r matches HttpOutcome::Enveloped { status, body }
        &&& status == 500u16
        &&& body.code == -1
        &&& body.message@ == failed_text(method, path)
        &&& body.data matches Some(d) && d@ == "request timed out"@
    } else if route is Index || route is Users {
        &&& r matches HttpOutcome::Enveloped { status, body }
        &&& status == 200u16
        &&& body.code == 0
        &&& body.message@ == "success"@
        &&& body.data matches Some(d) && d@ == "Hello World"@
    } else if route is Metrics {
        r == HttpOutcome::External { route: Route::Metrics }
    } else {
        &&& r matches HttpOutcome::Enveloped { status, body }
        &&& status == 404u16
        &&& body.code == -1
        &&& body.message@ == not_found_text(method, path)
        &&& body.data is None
    }
}

/// Runs one request line through the pipeline's decision logic.
pub fn respond(args: &ApiServiceArgs, method: &str, path: &str, duration_secs: u64) -> (r:
    HttpOutcome)
    ensures
        respond_spec(*args, method@, path@, duration_secs, r),
{
    let route = route_of(method, path);
    match route {
        Route::OpenApi => HttpOutcome::External { route },
        Route::SwaggerUi => HttpOutcome::External { route },
        _ => {
            if duration_secs >= args.timeout {
                let (status, body) = handle_error(method, path, AppError::RequestTimeout.message());
                HttpOutcome::Enveloped { status, body }
            } else {
                match route {
                    Route::Index => {
                        let (status, body) = index().into_response();
                        HttpOutcome::Enveloped { status, body }
                    },
                    Route::Users => {
                        let (status, body) = get_users().into_response();
                        HttpOutcome::Enveloped { status, body }
                    },
                    Route::Metrics => HttpOutcome::External { route: Route::Metrics },
                    _ => {
                        let (status, body) = handler_404(method, path);
                        HttpOutcome::Enveloped { status, body }
                    },
                }
            }
        },
    }
}

/// One request's full report: the wire outcome, what tracing records,
/// and whether the metrics layer counts it.
#[derive(Debug)]
pub struct RequestReport {
    pub outcome: HttpOutcome,
    pub trace: TraceRecord,
    pub metrics_recorded: bool,
}

/// The lifecycle of a managed service.
#[derive(Debug, Clone, Copy, PartialEq, Eq, Structural)]
pub enum LifecycleState {
    Constructed,
    Listening,
    Draining,
    Stopped,
}

/// The API service: its configuration, the index of its cancellation
/// scope, and its lifecycle state. `in_flight`, `completed` and
/// `aborted` count the requests currently being handled, those that
/// finished normally, and those abandoned by a forced stop or an
/// elapsed drain timeout.
#[derive(Debug)]
pub struct ApiService {
    pub args: ApiServiceArgs,
    pub scope: usize,
    pub state: LifecycleState,
    pub in_flight: u64,
    pub completed: u64,
    pub aborted: u64,
}

impl ApiService {
    /// Builds the service around its derived cancellation scope and its
    /// slice of the configuration. Construction itself cannot fail.
    pub fn new(scope: usize, args: ApiServiceArgs) -> (r: Result<ApiService, AppError>)
        ensures
            r matches Ok(s) && s == (ApiService {
                args,
                scope,
                state: LifecycleState::Constructed,
                in_flight: 0,
                completed: 0,
                aborted: 0,
            }),
    {
        Ok(
            ApiService {
                args,
                scope,
                state: LifecycleState::Constructed,
                in_flight: 0,
                completed: 0,
                aborted: 0,
            },
        )
    }

    /// Starts serving: the listener is bound and the serving task is
    /// scheduled by the caller; this transition records that the service
    /// is listening. Starting is not blocking and not idempotent — a
    /// second start finds the address taken and is a fatal configuration
    /// error.
    pub fn start(&mut self) -> (r: Result<(), AppError>)
        ensures
            old(self).state is Constructed ==> r is Ok && *final(self) == (ApiService {
                state: LifecycleState::Listening,
                ..*old(self)
            }),
            !(old(self).state is Constructed) ==> (r matches Err(e) && e matches
                AppError::Configuration(m) && m@ == "api service already started"@) && *final(self)
                == *old(self),
    {
        if let LifecycleState::Constructed = self.state {
            self.state = LifecycleState::Listening;
            Ok(())
        } else {
            Err(AppError::Configuration(String::from_str("api service already started")))
        }
    }

    /// Graceful stop: cancels the service's own scope — a cooperative
    /// request that cannot fail — and stops accepting new connections.
    /// With work in flight the service drains; with none it stops at
    /// once. Stopping an already stopped service is a no-op success.
    pub fn stop(&mut self, scopes: &mut ScopeArena) -> (r: Result<(), AppError>)
        requires
            old(scopes).wf(),
            old(self).scope < old(scopes).len(),
        ensures
            r is Ok,
            final(scopes).wf(),
            final(scopes).len() == old(scopes).len(),
            forall|j: int|
                0 <= j < old(scopes).len() ==> #[trigger] final(scopes).parent_of(j) == old(
                    scopes,
                ).parent_of(j),
            forall|j: int|
                0 <= j < old(scopes).len() ==> #[trigger] final(scopes).flag(j) == (old(
                    scopes,
                ).flag(j) || j == old(self).scope || old(scopes).reaches(j, old(self).scope as int)),
            forall|j: int, t: int|
                #[trigger] final(scopes).reaches(j, t) == old(scopes).reaches(j, t),
            old(self).state is Listening && old(self).in_flight > 0 ==> *final(self) == (ApiService {
                state: LifecycleState::Draining,
                ..*old(self)
            }),
            old(self).state is Listening && old(self).in_flight == 0 ==> *final(self) == (ApiService {
                state: LifecycleState::Stopped,
                ..*old(self)
            }),
            !(old(self).state is Listening) ==> *final(self) == *old(self),
    {
        scopes.cancel(self.scope);
        if let LifecycleState::Listening = self.state {
            if self.in_flight > 0 {
                self.state = LifecycleState::Draining;
            } else {
                self.state = LifecycleState::Stopped;
            }
        }
        Ok(())
    }

    /// A forced cancellation reached this service's scope: serving stops
    /// at the next suspension point and whatever was in flight is
    /// abandoned, not drained.
    pub fn on_force_cancelled(&mut self)
        requires
            old(self).aborted + old(self).in_flight <= u64::MAX,
        ensures
            old(self).state is Listening || old(self).state is Draining ==> *final(self)
                == (ApiService {
                state: LifecycleState::Stopped,
                in_flight: 0,
                aborted: (old(self).aborted + old(self).in_flight) as u64,
                ..*old(self)
            }),
            !(old(self).state is Listening) && !(old(self).state is Draining) ==> *final(self)
                == *old(self),
    {
        match self.state {
            LifecycleState::Listening | LifecycleState::Draining => {
                self.aborted = self.aborted + self.in_flight;
                self.in_flight = 0;
                self.state = LifecycleState::Stopped;
            },
            _ => {},
        }
    }

    /// The serving loop accepted a request. Only a listening service
    /// whose scope has not been cancelled accepts new connections.
    pub fn request_started(&mut self, scopes: &ScopeArena)
        requires
            old(self).state is Listening,
            old(self).scope < scopes.len(),
            !scopes.flag(old(self).scope as int),
            old(self).in_flight < u64::MAX,
        ensures
            *final(self) == (ApiService {
                in_flight: (old(self).in_flight + 1) as u64,
                ..*old(self)
            }),
    {
        self.in_flight = self.in_flight + 1;
    }

    /// An in-flight request finished normally. When it was the last one
    /// of a draining service, the serve task terminates: the service is
    /// stopped.
    pub fn request_completed(&mut self)
        requires
            old(self).in_flight > 0,
            old(self).completed < u64::MAX,
            old(self).state is Listening || old(self).state is Draining,
        ensures
            old(self).state is Draining && old(self).in_flight == 1 ==> *final(self) == (ApiService {
                state: LifecycleState::Stopped,
                in_flight: 0,
                completed: (old(self).completed + 1) as u64,
                ..*old(self)
            }),
            old(self).state is Draining && old(self).in_flight > 1 ==> *final(self) == (ApiService {
                in_flight: (old(self).in_flight - 1) as u64,
                completed: (old(self).completed + 1) as u64,
                ..*old(self)
            }),
            old(self).state is Listening ==> *final(self) == (ApiService {
                in_flight: (old(self).in_flight - 1) as u64,
                completed: (old(self).completed + 1) as u64,
                ..*old(self)
            }),
    {
        self.in_flight = self.in_flight - 1;
        self.completed = self.completed + 1;
        if self.in_flight == 0 {
            if let LifecycleState::Draining = self.state {
                self.state = LifecycleState::Stopped;
            }
        }
    }

    /// The drain timeout elapsed before every in-flight request finished:
    /// the remainder is aborted and the service stops.
    pub fn drain_timeout(&mut self)
        requires
            old(self).state is Draining,
            old(self).aborted + old(self).in_flight <= u64::MAX,
        ensures
            *final(self) == (ApiService {
                state: LifecycleState::Stopped,
                in_flight: 0,
                aborted: (old(self).aborted + old(self).in_flight) as u64,
                ..*old(self)
            }),
    {
        self.aborted = self.aborted + self.in_flight;
        self.in_flight = 0;
        self.state = LifecycleState::Stopped;
    }

    /// Runs one request through the whole pipeline: the outcome on the
    /// wire, the trace record, and whether the metrics layer counts it.
    pub fn handle_request(&self, method: &str, path: &str, duration_secs: u64) -> (r: RequestReport)
        ensures
            respond_spec(self.args, method@, path@, duration_secs, r.outcome),
            r.metrics_recorded == (path@ != "/metrics"@),
            r.trace.method@ == method@,
            r.trace.path@ == path@,
            r.trace.duration_secs == duration_secs,
            r.outcome matches HttpOutcome::Enveloped { status, .. } ==> r.trace.status == Some(
                status,
            ),
            r.outcome is External ==> r.trace.status is None,
    {
        let outcome = respond(&self.args, method, path, duration_secs);
        let status = match &outcome {
            HttpOutcome::Enveloped { status, .. } => Some(*status),
            HttpOutcome::External { .. } => None,
        };
        let trace = TraceRecord {
            method: String::from_str(method),
            path: String::from_str(path),
            duration_secs,
            status,
        };
        let metrics_recorded = should_record_metrics(path);
        RequestReport { outcome, trace, metrics_recorded }
    }
}

} // verus!
