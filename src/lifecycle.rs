//! Process-wide bookkeeping of one streamer session: what the initializer acquired,
//! what is registered, and how the background worker ended, so that teardown can
//! release all of it.
use vstd::prelude::*;
use crate::failure::{Failure, failure_text};
use crate::status::{headline_status, initialize_status};

verus! {

/// Where the session stands.
#[derive(Clone, Copy, Debug, PartialEq, Eq, Structural)]
pub enum Phase {
    /// Nothing is held.
    Idle,
    /// The initializer is promoting handles.
    Starting,
    /// The initializer has returned and the worker was handed its handles.
    Running,
}

/// The managed objects whose references the initializer promotes.
#[derive(Clone, Copy, Debug, PartialEq, Eq, Structural)]
pub enum HandleKind {
    TransportClient,
    Subscriber,
    UriClass,
    StatusClass,
    ListenerBridgeClass,
    NativeBridgeClass,
    ClassLoader,
}

/// How far the background worker has come.
#[derive(Clone, Copy, Debug, PartialEq, Eq, Structural)]
pub enum WorkerState {
    NotStarted,
    Running,
    Succeeded,
    Failed(Failure),
}

/// Why a request on the session was refused.
#[derive(Clone, Copy, Debug, PartialEq, Eq, Structural)]
pub enum LifecycleError {
    /// A session is already starting or running.
    AlreadyActive,
    /// The request belongs to a session that is starting, and none is.
    NotStarting,
    /// The request belongs to a running session, and none is.
    NotRunning,
    /// This handle was already promoted in this session.
    HandleAlreadyHeld,
    /// A listener with this id is already registered.
    ListenerAlreadyRegistered,
    /// The session's worker is still under way and holds the session's handles.
    WorkerRunning,
}

/// The text that names each refusal.
pub open spec fn refusal_text(e: LifecycleError) -> Seq<char> {
    match e {
        LifecycleError::AlreadyActive => "a session is already active"@,
        LifecycleError::NotStarting => "no session is starting"@,
        LifecycleError::NotRunning => "no session is running"@,
        LifecycleError::HandleAlreadyHeld => "handle already held"@,
        LifecycleError::ListenerAlreadyRegistered => "listener already registered"@,
        LifecycleError::WorkerRunning => "worker still running"@,
    }
}

impl LifecycleError {
    /// The text that names this refusal.
    pub fn describe(&self) -> (r: &'static str)
        ensures
            r@ == refusal_text(*self),
    {
        match self {
            LifecycleError::AlreadyActive => "a session is already active",
            LifecycleError::NotStarting => "no session is starting",
            LifecycleError::NotRunning => "no session is running",
            LifecycleError::HandleAlreadyHeld => "handle already held",
            LifecycleError::ListenerAlreadyRegistered => "listener already registered",
            LifecycleError::WorkerRunning => "worker still running",
        }
    }
}

/// The mathematical state of a session.
pub struct BridgeModel {
    pub phase: Phase,
    pub held: Seq<HandleKind>,
    pub listeners: Seq<u64>,
    pub worker: WorkerState,
}

/// The state with nothing held, nothing registered and no worker.
pub open spec fn idle_model() -> BridgeModel {
    BridgeModel {
        phase: Phase::Idle,
        held: Seq::empty(),
        listeners: Seq::empty(),
        worker: WorkerState::NotStarted,
    }
}

/// Each handle is held once, each listener registered once, and an idle session
/// holds nothing; a starting one has no listeners yet.
pub open spec fn model_wf(m: BridgeModel) -> bool {
    &&& m.held.no_duplicates()
    &&& m.listeners.no_duplicates()
    &&& (m.phase == Phase::Idle ==> m == idle_model())
    &&& (m.phase == Phase::Starting ==> m.listeners.len() == 0)
}

/// Starting a session: accepted only from an idle one.
pub open spec fn begin_spec(m: BridgeModel) -> (BridgeModel, Result<(), LifecycleError>) {
    if m.phase == Phase::Idle {
        (BridgeModel { phase: Phase::Starting, ..idle_model() }, Ok(()))
    } else {
        (m, Err(LifecycleError::AlreadyActive))
    }
}

/// Recording a promoted handle: only while starting, and each kind once.
pub open spec fn record_handle_spec(m: BridgeModel, k: HandleKind) -> (BridgeModel, Result<(), LifecycleError>) {
    if m.phase != Phase::Starting {
        (m, Err(LifecycleError::NotStarting))
    } else if m.held.contains(k) {
        (m, Err(LifecycleError::HandleAlreadyHeld))
    } else {
        (BridgeModel { held: m.held.push(k), ..m }, Ok(()))
    }
}

/// Giving up a start: every handle held so far is handed back for release.
pub open spec fn abandon_spec(m: BridgeModel) -> (BridgeModel, Seq<HandleKind>) {
    if m.phase == Phase::Starting {
        (idle_model(), m.held)
    } else {
        (m, Seq::empty())
    }
}

/// Completing a start: the session runs and its worker is under way.
pub open spec fn complete_spec(m: BridgeModel) -> (BridgeModel, Result<(), LifecycleError>) {
    if m.phase == Phase::Starting {
        (BridgeModel { phase: Phase::Running, worker: WorkerState::Running, ..m }, Ok(()))
    } else {
        (m, Err(LifecycleError::NotStarting))
    }
}

/// Registering a listener: only while running, and each id once.
pub open spec fn register_spec(m: BridgeModel, id: u64) -> (BridgeModel, Result<(), LifecycleError>) {
    if m.phase != Phase::Running {
        (m, Err(LifecycleError::NotRunning))
    } else if m.listeners.contains(id) {
        (m, Err(LifecycleError::ListenerAlreadyRegistered))
    } else {
        (BridgeModel { listeners: m.listeners.push(id), ..m }, Ok(()))
    }
}

/// The worker's report: taken while the session's worker is under way, and
/// otherwise ignored. Teardown is refused while a worker is under way, so a
/// worker reports before its session ends and a report that is taken belongs
/// to the current session's worker.
pub open spec fn worker_finished_spec(m: BridgeModel, outcome: Result<(), Failure>) -> BridgeModel {
    if m.worker == WorkerState::Running {
        BridgeModel {
            worker: match outcome {
                Ok(()) => WorkerState::Succeeded,
                Err(f) => WorkerState::Failed(f),
            },
            ..m
        }
    } else {
        m
    }
}

/// What teardown released, and how the worker had ended.
pub struct TeardownReport {
    pub released_handles: Vec<HandleKind>,
    pub released_listeners: Vec<u64>,
    pub worker: WorkerState,
}

/// Teardown: everything held and registered is handed back, and the session is idle.
pub open spec fn teardown_spec(m: BridgeModel) -> (BridgeModel, Seq<HandleKind>, Seq<u64>, WorkerState) {
    (idle_model(), m.held, m.listeners, m.worker)
}

/// Adding an element that a sequence lacks keeps its elements distinct.
proof fn lemma_push_keeps_distinct<A>(s: Seq<A>, x: A)
    requires
        s.no_duplicates(),
        !s.contains(x),
    ensures
        s.push(x).no_duplicates(),
{
    let t = s.push(x);
    assert forall|a: int, b: int| 0 <= a < t.len() && 0 <= b < t.len() && a != b implies t[a] != t[b] by {
        if a == t.len() - 1 {
            if b < s.len() {
                assert(s[b] == t[b]);
            }
        } else if b == t.len() - 1 {
            assert(s[a] == t[a]);
        }
    };
}

/// The handles that a start promotes, in the order it promotes them.
pub open spec fn required_kinds() -> Seq<HandleKind> {
    seq![
        HandleKind::TransportClient,
        HandleKind::Subscriber,
        HandleKind::UriClass,
        HandleKind::StatusClass,
        HandleKind::ListenerBridgeClass,
        HandleKind::NativeBridgeClass,
        HandleKind::ClassLoader,
    ]
}

/// The handles that a start promotes, in the order it promotes them.
pub fn required_handles() -> (r: Vec<HandleKind>)
    ensures
        r@ == required_kinds(),
{
    let r = vec![
        HandleKind::TransportClient,
        HandleKind::Subscriber,
        HandleKind::UriClass,
        HandleKind::StatusClass,
        HandleKind::ListenerBridgeClass,
        HandleKind::NativeBridgeClass,
        HandleKind::ClassLoader,
    ];
    assert(r@ =~= required_kinds());
    r
}

/// Teardown, once the worker has reported (teardown is refused before), leaves
/// no handle held and no listener registered, whatever the session held before, and hands back exactly what it held and registered, so
/// nothing is leaked.
pub proof fn teardown_leaves_nothing(m: BridgeModel)
    requires
        model_wf(m),
        m.worker != WorkerState::Running,
    ensures
        teardown_spec(m).0 == idle_model(),
        teardown_spec(m).0.held.len() == 0,
        teardown_spec(m).0.listeners.len() == 0,
        teardown_spec(m).1 == m.held,
        teardown_spec(m).2 == m.listeners,
        model_wf(teardown_spec(m).0),
{
}

/// While a session is starting or running, a second start is refused and
/// changes nothing, and no step but abandoning the start or teardown makes the
/// session idle again: two starts never both succeed without one of those between.
pub proof fn start_refused_while_active(
    m: BridgeModel,
    k: HandleKind,
    id: u64,
    outcome: Result<(), Failure>,
)
    requires
        model_wf(m),
        m.phase != Phase::Idle,
    ensures
        begin_spec(m) == (m, Err::<(), LifecycleError>(LifecycleError::AlreadyActive)),
        record_handle_spec(m, k).0.phase != Phase::Idle,
        complete_spec(m).0.phase != Phase::Idle,
        register_spec(m, id).0.phase != Phase::Idle,
        worker_finished_spec(m, outcome).phase != Phase::Idle,
{
}

/// A start that succeeded is followed by a refused one.
pub proof fn second_start_refused(m: BridgeModel)
    requires
        model_wf(m),
        begin_spec(m).1 is Ok,
    ensures
        begin_spec(begin_spec(m).0) == (begin_spec(m).0, Err::<(), LifecycleError>(LifecycleError::AlreadyActive)),
{
}

/// A listener is never registered twice: once its id is registered, registering
/// it again is refused and changes nothing, and the id is held once.
pub proof fn listener_registered_once(m: BridgeModel, id: u64)
    requires
        model_wf(m),
        register_spec(m, id).1 is Ok,
    ensures
        register_spec(register_spec(m, id).0, id)
            == (register_spec(m, id).0, Err::<(), LifecycleError>(LifecycleError::ListenerAlreadyRegistered)),
        register_spec(m, id).0.listeners.contains(id),
        register_spec(m, id).0.listeners.no_duplicates(),
{
    let after = register_spec(m, id).0;
    assert(after.listeners[after.listeners.len() - 1] == id);
    lemma_push_keeps_distinct(m.listeners, id);
}

/// The status that a refused start reports.
pub fn refused_status(e: LifecycleError) -> (r: String)
    ensures
        r@ == "initialize refused"@ + seq!['\n'] + refusal_text(e),
        r@.len() > 0,
{
    proof {
        reveal_strlit("initialize refused");
    }
    headline_status("initialize refused", e.describe())
}

/// Ends a start on the outcome of promoting its handles. On success the session
/// runs and the caller gets the fixed placeholder status; on a failure the
/// session becomes idle again, every handle promoted so far is handed back for
/// release, and the status names the failure. Either way a non-empty status
/// comes back: a failed start never ends the caller's thread.
pub fn conclude_initialize(bridge: &mut Bridge, promotion: Result<(), Failure>) -> (r: (String, Vec<HandleKind>))
    requires
        model_wf(old(bridge)@),
        old(bridge)@.phase == Phase::Starting,
    ensures
        model_wf(final(bridge)@),
        r.0@.len() > 0,
        promotion is Ok ==> {
            &&& final(bridge)@ == complete_spec(old(bridge)@).0
            &&& final(bridge)@.phase == Phase::Running
            &&& r.0@ == seq!['\n'] + "mock_string"@
            &&& r.1@.len() == 0
        },
        promotion is Err ==> {
            &&& (final(bridge)@, r.1@) == abandon_spec(old(bridge)@)
            &&& final(bridge)@ == idle_model()
            &&& r.1@ == old(bridge)@.held
            &&& r.0@ == "initialize failed"@ + seq!['\n'] + failure_text(promotion->Err_0)
        },
{
    match promotion {
        Ok(()) => {
            let _ = bridge.complete_initialize();
            let status = initialize_status();
            proof {
                reveal_strlit("mock_string");
            }
            (status, Vec::new())
        },
        Err(f) => {
            let released = bridge.abandon_initialize();
            proof {
                reveal_strlit("initialize failed");
            }
            (headline_status("initialize failed", f.describe()), released)
        },
    }
}

/// One streamer session's bookkeeping.
pub struct Bridge {
    phase: Phase,
    held: Vec<HandleKind>,
    listeners: Vec<u64>,
    worker: WorkerState,
}

impl View for Bridge {
    type V = BridgeModel;

    closed spec fn view(&self) -> BridgeModel {
        BridgeModel {
            phase: self.phase,
            held: self.held@,
            listeners: self.listeners@,
            worker: self.worker,
        }
    }
}

fn holds_handle(v: &Vec<HandleKind>, k: HandleKind) -> (r: bool)
    ensures
        r == v@.contains(k),
{
    let mut i: usize = 0;
    while i < v.len()
        invariant
            i <= v@.len(),
            forall|j: int| 0 <= j < i ==> v@[j] != k,
        decreases v@.len() - i,
    {
        if v[i] == k {
            return true;
        }
        i = i + 1;
    }
    false
}

fn holds_id(v: &Vec<u64>, id: u64) -> (r: bool)
    ensures
        r == v@.contains(id),
{
    let mut i: usize = 0;
    while i < v.len()
        invariant
            i <= v@.len(),
            forall|j: int| 0 <= j < i ==> v@[j] != id,
        decreases v@.len() - i,
    {
        if v[i] == id {
            return true;
        }
        i = i + 1;
    }
    false
}

impl Bridge {
    /// An idle session.
    pub fn new() -> (r: Bridge)
        ensures
            r@ == idle_model(),
    {
        Bridge { phase: Phase::Idle, held: Vec::new(), listeners: Vec::new(), worker: WorkerState::NotStarted }
    }

    /// Where the session stands.
    pub fn phase(&self) -> (r: Phase)
        ensures
            r == self@.phase,
    {
        self.phase
    }

    /// How far the worker has come.
    pub fn worker(&self) -> (r: WorkerState)
        ensures
            r == self@.worker,
    {
        self.worker
    }

    /// The number of listeners registered.
    pub fn listener_count(&self) -> (r: usize)
        ensures
            r == self@.listeners.len(),
    {
        self.listeners.len()
    }

    /// The number of promoted handles held.
    pub fn handle_count(&self) -> (r: usize)
        ensures
            r == self@.held.len(),
    {
        self.held.len()
    }

    /// Starts a session; refused while one is starting or running.
    pub fn begin_initialize(&mut self) -> (r: Result<(), LifecycleError>)
        requires
            model_wf(old(self)@),
        ensures
            (final(self)@, r) == begin_spec(old(self)@),
            model_wf(final(self)@),
    {
        if self.phase != Phase::Idle {
            return Err(LifecycleError::AlreadyActive);
        }
        self.phase = Phase::Starting;
        self.held = Vec::new();
        self.listeners = Vec::new();
        self.worker = WorkerState::NotStarted;
        proof {
            assert(self@ =~= begin_spec(old(self)@).0);
        }
        Ok(())
    }

    /// Records that a handle of this kind was promoted and is now held.
    pub fn record_handle(&mut self, k: HandleKind) -> (r: Result<(), LifecycleError>)
        requires
            model_wf(old(self)@),
        ensures
            (final(self)@, r) == record_handle_spec(old(self)@, k),
            model_wf(final(self)@),
    {
        if self.phase != Phase::Starting {
            return Err(LifecycleError::NotStarting);
        }
        if holds_handle(&self.held, k) {
            return Err(LifecycleError::HandleAlreadyHeld);
        }
        self.held.push(k);
        proof {
            assert(self@ =~= record_handle_spec(old(self)@, k).0);
            lemma_push_keeps_distinct(old(self).held@, k);
        }
        Ok(())
    }

    /// Gives up a start: the session becomes idle and every handle it held is
    /// handed back, for the caller to release.
    pub fn abandon_initialize(&mut self) -> (r: Vec<HandleKind>)
        requires
            model_wf(old(self)@),
        ensures
            (final(self)@, r@) == abandon_spec(old(self)@),
            model_wf(final(self)@),
    {
        if self.phase != Phase::Starting {
            return Vec::new();
        }
        let mut released: Vec<HandleKind> = Vec::new();
        std::mem::swap(&mut released, &mut self.held);
        self.phase = Phase::Idle;
        self.listeners = Vec::new();
        self.worker = WorkerState::NotStarted;
        proof {
            assert(self@ =~= idle_model());
        }
        released
    }

    /// Completes a start: the session runs and its worker is under way.
    pub fn complete_initialize(&mut self) -> (r: Result<(), LifecycleError>)
        requires
            model_wf(old(self)@),
        ensures
            (final(self)@, r) == complete_spec(old(self)@),
            model_wf(final(self)@),
    {
        if self.phase != Phase::Starting {
            return Err(LifecycleError::NotStarting);
        }
        self.phase = Phase::Running;
        self.worker = WorkerState::Running;
        proof {
            assert(self@ =~= complete_spec(old(self)@).0);
        }
        Ok(())
    }

    /// Registers a listener by id; refused outside a running session and for an
    /// id that is already registered.
    pub fn register_listener(&mut self, id: u64) -> (r: Result<(), LifecycleError>)
        requires
            model_wf(old(self)@),
        ensures
            (final(self)@, r) == register_spec(old(self)@, id),
            model_wf(final(self)@),
    {
        if self.phase != Phase::Running {
            return Err(LifecycleError::NotRunning);
        }
        if holds_id(&self.listeners, id) {
            return Err(LifecycleError::ListenerAlreadyRegistered);
        }
        self.listeners.push(id);
        proof {
            assert(self@ =~= register_spec(old(self)@, id).0);
            lemma_push_keeps_distinct(old(self).listeners@, id);
        }
        Ok(())
    }

    /// Takes the worker's report of how it ended.
    pub fn worker_finished(&mut self, outcome: Result<(), Failure>)
        requires
            model_wf(old(self)@),
        ensures
            final(self)@ == worker_finished_spec(old(self)@, outcome),
            model_wf(final(self)@),
    {
        if self.worker != WorkerState::Running {
            return;
        }
        self.worker = match outcome {
            Ok(()) => WorkerState::Succeeded,
            Err(f) => WorkerState::Failed(f),
        };
        proof {
            assert(self@ =~= worker_finished_spec(old(self)@, outcome));
        }
    }

    /// Ends the session: hands back every held handle and registered listener,
    /// for the caller to release, and leaves the session idle. Refused, with
    /// nothing changed, while the worker is under way: the caller waits for it
    /// to report first.
    pub fn teardown(&mut self) -> (r: Result<TeardownReport, LifecycleError>)
        requires
            model_wf(old(self)@),
        ensures
            r is Err <==> old(self)@.worker == WorkerState::Running,
            r is Err ==> r == Err::<TeardownReport, LifecycleError>(LifecycleError::WorkerRunning)
                && final(self)@ == old(self)@,
            r is Ok ==> (final(self)@, r->Ok_0.released_handles@, r->Ok_0.released_listeners@, r->Ok_0.worker)
                == teardown_spec(old(self)@),
            r is Ok ==> final(self)@.held.len() == 0 && final(self)@.listeners.len() == 0,
            model_wf(final(self)@),
    {
        if self.worker == WorkerState::Running {
            return Err(LifecycleError::WorkerRunning);
        }
        let mut released_handles: Vec<HandleKind> = Vec::new();
        std::mem::swap(&mut released_handles, &mut self.held);
        let mut released_listeners: Vec<u64> = Vec::new();
        std::mem::swap(&mut released_listeners, &mut self.listeners);
        let worker = self.worker;
        self.phase = Phase::Idle;
        self.worker = WorkerState::NotStarted;
        proof {
            assert(self@ =~= idle_model());
        }
        Ok(TeardownReport { released_handles, released_listeners, worker })
    }
}

} // verus!
