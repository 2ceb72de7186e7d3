use service_manager::api::{ApiServiceArgs, LifecycleState};
use service_manager::conf::{DevOpsOptions, Settings};
use service_manager::error::AppError;
use service_manager::scope::ScopeArena;
use service_manager::server::ServiceManager;

fn settings() -> Settings {
    Settings {
        api: ApiServiceArgs { address: "127.0.0.1".to_string(), port: 8080, timeout: 2 },
        devops: DevOpsOptions {
            base_url: "http://devops.example".to_string(),
            access_token: "token".to_string(),
            user_id: "user".to_string(),
        },
    }
}

#[test]
fn cancel_propagates_to_all_descendants() {
    let mut scopes = ScopeArena::new();
    let root = scopes.new_root();
    let child = scopes.new_child(root);
    let grandchild = scopes.new_child(child);
    let other_root = scopes.new_root();
    let other_child = scopes.new_child(other_root);

    scopes.cancel(root);
    assert!(scopes.is_cancelled(root));
    assert!(scopes.is_cancelled(child));
    assert!(scopes.is_cancelled(grandchild));
    assert!(!scopes.is_cancelled(other_root));
    assert!(!scopes.is_cancelled(other_child));
}

#[test]
fn cancelling_a_child_leaves_the_parent_alone() {
    let mut scopes = ScopeArena::new();
    let root = scopes.new_root();
    let child = scopes.new_child(root);
    let grandchild = scopes.new_child(child);

    scopes.cancel(child);
    assert!(!scopes.is_cancelled(root));
    assert!(scopes.is_cancelled(child));
    assert!(scopes.is_cancelled(grandchild));
}

#[test]
fn cancellation_is_idempotent_and_monotonic() {
    let mut scopes = ScopeArena::new();
    let root = scopes.new_root();
    let child = scopes.new_child(root);
    scopes.cancel(root);
    scopes.cancel(root);
    assert!(scopes.is_cancelled(root));
    assert!(scopes.is_cancelled(child));
}

#[test]
fn child_of_cancelled_parent_is_born_cancelled() {
    let mut scopes = ScopeArena::new();
    let root = scopes.new_root();
    scopes.cancel(root);
    let late_child = scopes.new_child(root);
    assert!(scopes.is_cancelled(late_child));
}

#[test]
fn manager_start_stop_cycle() {
    let mut manager = ServiceManager::new(settings()).unwrap();
    assert_eq!(manager.api_service.service.state, LifecycleState::Constructed);
    assert!(manager.start().is_ok());
    assert_eq!(manager.api_service.service.state, LifecycleState::Listening);
    assert!(manager.stop().is_ok());
    assert_eq!(manager.api_service.service.state, LifecycleState::Stopped);
    assert!(!manager.scopes.is_cancelled(manager.root));
    assert!(manager.scopes.is_cancelled(manager.api_service.service.scope));
}

#[test]
fn stop_force_cancels_every_scope_and_is_idempotent() {
    let mut manager = ServiceManager::new(settings()).unwrap();
    assert!(manager.start().is_ok());
    assert!(manager.stop_force().is_ok());
    assert!(manager.scopes.is_cancelled(manager.root));
    assert!(manager.scopes.is_cancelled(manager.api_service.service.scope));
    assert_eq!(manager.api_service.service.state, LifecycleState::Stopped);

    assert!(manager.stop_force().is_ok());
    assert_eq!(manager.api_service.service.state, LifecycleState::Stopped);
    assert!(manager.scopes.is_cancelled(manager.root));
}

#[test]
fn no_new_connections_after_stop_force() {
    let mut manager = ServiceManager::new(settings()).unwrap();
    assert!(manager.start().is_ok());
    assert!(manager.stop_force().is_ok());
    let listening = manager.api_service.service.state == LifecycleState::Listening;
    let scope_live = !manager.scopes.is_cancelled(manager.api_service.service.scope);
    assert!(!(listening && scope_live));
}

#[test]
fn graceful_drain_completes_in_flight_request() {
    let mut manager = ServiceManager::new(settings()).unwrap();
    assert!(manager.start().is_ok());
    manager.api_service.service.request_started(&manager.scopes);
    assert_eq!(manager.api_service.service.in_flight, 1);

    assert!(manager.stop().is_ok());
    assert_eq!(manager.api_service.service.state, LifecycleState::Draining);

    manager.api_service.service.request_completed();
    assert_eq!(manager.api_service.service.state, LifecycleState::Stopped);
    assert_eq!(manager.api_service.service.in_flight, 0);
    assert_eq!(manager.api_service.service.completed, 1);
    assert_eq!(manager.api_service.service.aborted, 0);
}

#[test]
fn forced_stop_aborts_in_flight_requests() {
    let mut manager = ServiceManager::new(settings()).unwrap();
    assert!(manager.start().is_ok());
    manager.api_service.service.request_started(&manager.scopes);
    assert!(manager.stop_force().is_ok());
    assert_eq!(manager.api_service.service.state, LifecycleState::Stopped);
    assert_eq!(manager.api_service.service.in_flight, 0);
    assert_eq!(manager.api_service.service.completed, 0);
    assert_eq!(manager.api_service.service.aborted, 1);
}

#[test]
fn drain_timeout_aborts_the_remainder() {
    let mut manager = ServiceManager::new(settings()).unwrap();
    assert!(manager.start().is_ok());
    manager.api_service.service.request_started(&manager.scopes);
    manager.api_service.service.request_started(&manager.scopes);
    assert!(manager.stop().is_ok());
    manager.api_service.service.request_completed();
    assert_eq!(manager.api_service.service.state, LifecycleState::Draining);
    manager.api_service.service.drain_timeout();
    assert_eq!(manager.api_service.service.state, LifecycleState::Stopped);
    assert_eq!(manager.api_service.service.completed, 1);
    assert_eq!(manager.api_service.service.aborted, 1);
}

#[test]
fn lock_contention_is_an_error_not_a_wait() {
    let mut manager = ServiceManager::new(settings()).unwrap();
    assert!(manager.api_service.try_acquire().is_ok());
    assert_eq!(manager.start(), Err(AppError::LockContention));
    assert_eq!(manager.stop(), Err(AppError::LockContention));
    assert_eq!(manager.api_service.try_acquire(), Err(AppError::LockContention));
    manager.api_service.release();
    assert!(manager.start().is_ok());
}

#[test]
fn double_start_is_a_configuration_error() {
    let mut manager = ServiceManager::new(settings()).unwrap();
    assert!(manager.start().is_ok());
    match manager.start() {
        Err(AppError::Configuration(_)) => {},
        other => panic!("expected a configuration error, got {:?}", other),
    }
}

#[test]
fn stop_when_already_stopped_is_a_noop_success() {
    let mut manager = ServiceManager::new(settings()).unwrap();
    assert!(manager.start().is_ok());
    assert!(manager.stop().is_ok());
    assert!(manager.stop().is_ok());
    assert_eq!(manager.api_service.service.state, LifecycleState::Stopped);
}
