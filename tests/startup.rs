use service::lifecycle::{Capability, Lifecycle, LifecycleError, WorkerStatus};

fn load_all(l: &mut Lifecycle) {
    for c in [Capability::PromptInjection, Capability::Toxicity, Capability::Entities] {
        assert_eq!(l.may_load(c), Ok(()));
        l.record_load(c);
    }
}

#[test]
fn startup_runs_in_its_order() {
    let mut l = Lifecycle::new();
    assert!(!l.runtime_ready());
    l.init_runtime();
    assert!(l.runtime_ready());
    load_all(&mut l);
    assert!(!l.accepts_calls());
    assert_eq!(l.may_spawn(), Ok(()));
    l.spawn_worker();
    assert!(l.accepts_calls());
    assert_eq!(l.worker(), WorkerStatus::Running);
}

#[test]
fn loading_before_runtime_is_refused() {
    let l = Lifecycle::new();
    assert_eq!(l.may_load(Capability::Toxicity), Err(LifecycleError::RuntimeNotInitialized));
    assert_eq!(l.may_spawn(), Err(LifecycleError::RuntimeNotInitialized));
}

#[test]
fn capability_loads_once() {
    let mut l = Lifecycle::new();
    l.init_runtime();
    assert_eq!(l.may_load(Capability::Entities), Ok(()));
    l.record_load(Capability::Entities);
    assert_eq!(
        l.may_load(Capability::Entities),
        Err(LifecycleError::CapabilityAlreadyLoaded(Capability::Entities))
    );
    assert_eq!(l.may_load(Capability::Toxicity), Ok(()));
}

#[test]
fn worker_waits_for_every_capability() {
    let mut l = Lifecycle::new();
    l.init_runtime();
    assert_eq!(l.may_spawn(), Err(LifecycleError::CapabilityMissing(Capability::PromptInjection)));
    l.record_load(Capability::PromptInjection);
    assert_eq!(l.may_spawn(), Err(LifecycleError::CapabilityMissing(Capability::Toxicity)));
    l.record_load(Capability::Toxicity);
    assert_eq!(l.may_spawn(), Err(LifecycleError::CapabilityMissing(Capability::Entities)));
    l.record_load(Capability::Entities);
    assert_eq!(l.may_spawn(), Ok(()));
    l.spawn_worker();
    assert_eq!(l.may_spawn(), Err(LifecycleError::WorkerAlreadySpawned));
    assert_eq!(l.may_load(Capability::Entities), Err(LifecycleError::WorkerAlreadySpawned));
}

#[test]
fn shutdown_follows_the_running_worker() {
    let mut l = Lifecycle::new();
    l.worker_exited();
    assert_eq!(l.worker(), WorkerStatus::NotSpawned);
    l.init_runtime();
    load_all(&mut l);
    l.spawn_worker();
    l.begin_shutdown();
    assert_eq!(l.worker(), WorkerStatus::Stopping);
    assert!(!l.accepts_calls());
    l.worker_exited();
    assert_eq!(l.worker(), WorkerStatus::Stopped);
}
