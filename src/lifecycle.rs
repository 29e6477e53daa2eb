use vstd::prelude::*;

verus! {

/// A capability of the native runtime, loaded once at startup.
#[derive(Clone, Copy, Debug, PartialEq, Eq, Structural)]
pub enum Capability {
    PromptInjection,
    Toxicity,
    Entities,
}

/// Where the worker thread stands.
#[derive(Clone, Copy, Debug, PartialEq, Eq, Structural)]
pub enum WorkerStatus {
    NotSpawned,
    Running,
    Stopping,
    Stopped,
}

/// Why a startup step may not be taken now. Taking it anyway would be a fatal
/// startup bug, so the step itself demands that no such reason holds.
#[derive(Clone, Debug, PartialEq, Eq)]
pub enum LifecycleError {
    /// A step that needs the runtime came before its initialisation.
    RuntimeNotInitialized,
    /// The capability was already loaded.
    CapabilityAlreadyLoaded(Capability),
    /// The worker was to be spawned before this capability was loaded.
    CapabilityMissing(Capability),
    /// The worker was already spawned, so startup is over.
    WorkerAlreadySpawned,
}

pub struct LifecycleView {
    pub runtime_ready: bool,
    pub loaded: Set<Capability>,
    pub worker: WorkerStatus,
}

pub open spec fn all_capabilities() -> Set<Capability> {
    set![Capability::PromptInjection, Capability::Toxicity, Capability::Entities]
}

impl LifecycleView {
    /// The order of startup holds: nothing is loaded before the runtime is
    /// initialised, and the worker is spawned only once every capability is.
    pub open spec fn wf(self) -> bool {
        &&& !self.loaded.is_empty() ==> self.runtime_ready
        &&& self.worker != WorkerStatus::NotSpawned ==> self.runtime_ready && self.loaded
            == all_capabilities()
        &&& self.loaded.subset_of(all_capabilities())
    }

    pub open spec fn with_runtime(self) -> LifecycleView {
        LifecycleView { runtime_ready: true, ..self }
    }

    pub open spec fn with_loaded(self, c: Capability) -> LifecycleView {
        LifecycleView { loaded: self.loaded.insert(c), ..self }
    }

    pub open spec fn with_worker(self, w: WorkerStatus) -> LifecycleView {
        LifecycleView { worker: w, ..self }
    }

    /// Why loading `c` may not happen now, if it may not.
    pub open spec fn load_refusal(self, c: Capability) -> Option<LifecycleError> {
        if !self.runtime_ready {
            Some(LifecycleError::RuntimeNotInitialized)
        } else if self.worker != WorkerStatus::NotSpawned {
            Some(LifecycleError::WorkerAlreadySpawned)
        } else if self.loaded.contains(c) {
            Some(LifecycleError::CapabilityAlreadyLoaded(c))
        } else {
            None
        }
    }

    /// Why the worker may not be spawned now, if it may not.
    pub open spec fn spawn_refusal(self) -> Option<LifecycleError> {
        if !self.runtime_ready {
            Some(LifecycleError::RuntimeNotInitialized)
        } else if self.worker != WorkerStatus::NotSpawned {
            Some(LifecycleError::WorkerAlreadySpawned)
        } else if !self.loaded.contains(Capability::PromptInjection) {
            Some(LifecycleError::CapabilityMissing(Capability::PromptInjection))
        } else if !self.loaded.contains(Capability::Toxicity) {
            Some(LifecycleError::CapabilityMissing(Capability::Toxicity))
        } else if !self.loaded.contains(Capability::Entities) {
            Some(LifecycleError::CapabilityMissing(Capability::Entities))
        } else {
            None
        }
    }
}

/// The startup and shutdown sequence of the bridge: runtime initialisation,
/// then the loading of each capability, then the worker's spawn; later the
/// request to stop and the worker's exit.
pub struct Lifecycle {
    runtime_ready: bool,
    prompt_injection: bool,
    toxicity: bool,
    entities: bool,
    worker: WorkerStatus,
}

impl View for Lifecycle {
    type V = LifecycleView;

    closed spec fn view(&self) -> LifecycleView {
        LifecycleView {
            runtime_ready: self.runtime_ready,
            loaded: Set::new(
                |c: Capability|
                    match c {
                        Capability::PromptInjection => self.prompt_injection,
                        Capability::Toxicity => self.toxicity,
                        Capability::Entities => self.entities,
                    },
            ),
            worker: self.worker,
        }
    }
}

impl Lifecycle {
    pub fn new() -> (r: Self)
        ensures
            r@.wf(),
            !r@.runtime_ready,
            r@.loaded == Set::<Capability>::empty(),
            r@.worker == WorkerStatus::NotSpawned,
    {
        let r = Lifecycle {
            runtime_ready: false,
            prompt_injection: false,
            toxicity: false,
            entities: false,
            worker: WorkerStatus::NotSpawned,
        };
        assert(r@.loaded =~= Set::<Capability>::empty());
        r
    }

    fn is_loaded(&self, c: Capability) -> (r: bool)
        ensures
            r == self@.loaded.contains(c),
    {
        match c {
            Capability::PromptInjection => self.prompt_injection,
            Capability::Toxicity => self.toxicity,
            Capability::Entities => self.entities,
        }
    }

    pub fn runtime_ready(&self) -> (r: bool)
        ensures
            r == self@.runtime_ready,
    {
        self.runtime_ready
    }

    pub fn worker(&self) -> (r: WorkerStatus)
        ensures
            r == self@.worker,
    {
        self.worker
    }

    /// Whether callers may hand tasks to the worker: it has been spawned and
    /// has not been asked to stop.
    pub fn accepts_calls(&self) -> (r: bool)
        ensures
            r == (self@.worker == WorkerStatus::Running),
    {
        self.worker == WorkerStatus::Running
    }

    /// Records the runtime's initialisation, which happens once, first.
    pub fn init_runtime(&mut self)
        requires
            old(self)@.wf(),
            !old(self)@.runtime_ready,
        ensures
            final(self)@.wf(),
            final(self)@ == old(self)@.with_runtime(),
    {
        self.runtime_ready = true;
    }

    /// Whether capability `c` may be loaded now: after the runtime's
    /// initialisation, before the worker's spawn, and only once.
    pub fn may_load(&self, c: Capability) -> (r: Result<(), LifecycleError>)
        ensures
            match self@.load_refusal(c) {
                Some(e) => r == Err::<(), _>(e),
                None => r is Ok,
            },
    {
        if !self.runtime_ready {
            Err(LifecycleError::RuntimeNotInitialized)
        } else if self.worker != WorkerStatus::NotSpawned {
            Err(LifecycleError::WorkerAlreadySpawned)
        } else if self.is_loaded(c) {
            Err(LifecycleError::CapabilityAlreadyLoaded(c))
        } else {
            Ok(())
        }
    }

    /// Records that capability `c` has been loaded, in its turn.
    pub fn record_load(&mut self, c: Capability)
        requires
            old(self)@.wf(),
            old(self)@.load_refusal(c) is None,
        ensures
            final(self)@.wf(),
            final(self)@ == old(self)@.with_loaded(c),
    {
        match c {
            Capability::PromptInjection => self.prompt_injection = true,
            Capability::Toxicity => self.toxicity = true,
            Capability::Entities => self.entities = true,
        }
        assert(self@.loaded =~= old(self)@.loaded.insert(c));
    }

    /// Whether the worker may be spawned now: once, after the runtime's
    /// initialisation and the loading of every capability.
    pub fn may_spawn(&self) -> (r: Result<(), LifecycleError>)
        ensures
            match self@.spawn_refusal() {
                Some(e) => r == Err::<(), _>(e),
                None => r is Ok,
            },
    {
        if !self.runtime_ready {
            Err(LifecycleError::RuntimeNotInitialized)
        } else if self.worker != WorkerStatus::NotSpawned {
            Err(LifecycleError::WorkerAlreadySpawned)
        } else if !self.prompt_injection {
            Err(LifecycleError::CapabilityMissing(Capability::PromptInjection))
        } else if !self.toxicity {
            Err(LifecycleError::CapabilityMissing(Capability::Toxicity))
        } else if !self.entities {
            Err(LifecycleError::CapabilityMissing(Capability::Entities))
        } else {
            Ok(())
        }
    }

    /// Records the worker's spawn; from then on the bridge accepts calls.
    pub fn spawn_worker(&mut self)
        requires
            old(self)@.wf(),
            old(self)@.spawn_refusal() is None,
        ensures
            final(self)@.wf(),
            final(self)@ == old(self)@.with_worker(WorkerStatus::Running),
    {
        self.worker = WorkerStatus::Running;
        assert(self@.loaded =~= all_capabilities());
    }

    /// Records that the stop marker was sent and the producer side closed.
    pub fn begin_shutdown(&mut self)
        requires
            old(self)@.wf(),
            old(self)@.worker == WorkerStatus::Running,
        ensures
            final(self)@.wf(),
            final(self)@ == old(self)@.with_worker(WorkerStatus::Stopping),
    {
        self.worker = WorkerStatus::Stopping;
    }

    /// Records that the worker thread has left its loop.
    pub fn worker_exited(&mut self)
        requires
            old(self)@.wf(),
        ensures
            final(self)@.wf(),
            old(self)@.worker == WorkerStatus::NotSpawned ==> final(self)@ == old(self)@,
            old(self)@.worker != WorkerStatus::NotSpawned ==> final(self)@ == old(self)@.with_worker(
                WorkerStatus::Stopped,
            ),
    {
        if self.worker != WorkerStatus::NotSpawned {
            self.worker = WorkerStatus::Stopped;
        }
    }
}

} // verus!
