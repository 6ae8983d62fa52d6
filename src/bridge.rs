//! One call into the embedded runtime, as a sequence of steps.
//!
//! The bridge decides; its driver acts. Each call of `on_event` takes what
//! became of the last step and returns the next one to perform. All steps
//! after the session is acquired run while it is held, and the session is
//! released with the call's result on every path, after the first failure
//! or after the callable returns. One bridge stands for the one embedded
//! runtime of the process: it takes a new call only once the last one has
//! been released.
use vstd::prelude::*;
use crate::table::Table;

verus! {

/// What one call hands to the runtime.
#[derive(Clone, Debug)]
pub struct Request {
    /// The table passed as the first argument.
    pub table: Table,
    /// The column plotted along the x axis.
    pub x_column: String,
    /// The column plotted along the y axis.
    pub y_column: String,
    /// The directory put at the front of the runtime's module search path.
    pub package_path: String,
    /// The source of the module that defines the callable.
    pub source: String,
}

/// Where a call stands.
#[derive(Clone, Copy, Debug, PartialEq, Eq, Structural)]
pub enum Stage {
    /// No call in progress.
    Idle,
    /// Waiting for exclusive access to the runtime.
    AwaitingSession,
    /// Putting the package directory at the front of the search path.
    InsertingPath,
    /// Loading the module source.
    Loading,
    /// Looking the callable up in the module.
    Resolving,
    /// Calling it.
    Calling,
}

/// The step that failed.
#[derive(Clone, Copy, Debug, PartialEq, Eq, Structural)]
pub enum ErrorKind {
    SearchPath,
    ModuleLoad,
    AttributeResolution,
    Invocation,
}

/// A failed call: the step that failed and the runtime's description.
#[derive(Clone, Debug)]
pub struct BridgeError {
    pub kind: ErrorKind,
    pub message: String,
}

/// What became of the last step. `V` is the runtime's value type.
#[derive(Clone, Debug)]
pub enum Event<V> {
    SessionAcquired,
    PathInserted,
    ModuleLoaded,
    AttributeResolved,
    /// The callable returned this value.
    Returned(V),
    /// The step failed, with the runtime's description.
    Failed(String),
}

/// The next step for the driver to perform.
#[derive(Debug)]
pub enum Action<V> {
    /// Acquire exclusive access to the runtime and hold it until `Release`.
    AcquireSession,
    /// Insert `path` at index 0 of the runtime's module search path.
    InsertSearchPath { path: String },
    /// Load `source` as the module `module_name`, labelled `file_name`.
    LoadModule { source: String, module_name: String, file_name: String },
    /// Look up the attribute `name` of the loaded module.
    ResolveAttribute { name: String },
    /// Call the attribute with the table and the two column names.
    Call { table: Table, x_column: String, y_column: String },
    /// Release the runtime and hand `result` to the caller.
    Release { result: Result<V, BridgeError> },
}

/// The name under which the source is loaded.
pub open spec fn module_name() -> Seq<char> {
    "hello"@
}

/// The file label of the loaded source.
pub open spec fn module_file() -> Seq<char> {
    "hello.py"@
}

/// The attribute called.
pub open spec fn callable_name() -> Seq<char> {
    "line_graph"@
}

/// The search path after one call has put `entry` at its front.
pub open spec fn with_entry_first(path: Seq<String>, entry: String) -> Seq<String> {
    seq![entry].add(path)
}

/// The stages in which the runtime must be held.
pub open spec fn holds_session(s: Stage) -> bool {
    s is InsertingPath || s is Loading || s is Resolving || s is Calling
}

/// The stages in which the request is still with the bridge.
pub open spec fn keeps_request(s: Stage) -> bool {
    s is AwaitingSession || s is InsertingPath || s is Loading || s is Resolving
}

/// The error kind of a failure in stage `s`.
pub open spec fn failure_kind(s: Stage) -> ErrorKind {
    match s {
        Stage::InsertingPath => ErrorKind::SearchPath,
        Stage::Loading => ErrorKind::ModuleLoad,
        Stage::Resolving => ErrorKind::AttributeResolution,
        _ => ErrorKind::Invocation,
    }
}

/// Whether `e` can follow the step that stage `s` waits on.
pub open spec fn accepts<V>(s: Stage, e: Event<V>) -> bool {
    match e {
        Event::SessionAcquired => s is AwaitingSession,
        Event::PathInserted => s is InsertingPath,
        Event::ModuleLoaded => s is Loading,
        Event::AttributeResolved => s is Resolving,
        Event::Returned(_) => s is Calling,
        Event::Failed(_) => holds_session(s),
    }
}

/// The search path after `n` calls that each put `entry` at its front.
pub open spec fn after_calls(path: Seq<String>, entry: String, n: nat) -> Seq<String>
    decreases n,
{
    if n == 0 {
        path
    } else {
        with_entry_first(after_calls(path, entry, (n - 1) as nat), entry)
    }
}

/// Every call inserts its entry again, with no check for one already
/// there: after `n` calls with the same entry the search path is `n`
/// longer, its first `n` entries are that entry, and the earlier path
/// follows unchanged.
pub proof fn lemma_search_path_grows(path: Seq<String>, entry: String, n: nat)
    ensures
        after_calls(path, entry, n).len() == path.len() + n,
        forall|i: int| 0 <= i < n ==> #[trigger] after_calls(path, entry, n)[i] == entry,
        after_calls(path, entry, n).subrange(n as int, (path.len() + n) as int) == path,
    decreases n,
{
    if n > 0 {
        lemma_search_path_grows(path, entry, (n - 1) as nat);
        let prev = after_calls(path, entry, (n - 1) as nat);
        assert(after_calls(path, entry, n) == seq![entry].add(prev));
        assert(after_calls(path, entry, n).subrange(n as int, (path.len() + n) as int) =~= prev.subrange(
            (n - 1) as int,
            (path.len() + n - 1) as int,
        ));
    }
}

/// Loading, lookup and the call run only while the runtime is held, so
/// the steps of two calls through one bridge never interleave.
pub proof fn lemma_steps_run_held(b: Bridge)
    requires
        b.wf(),
        b.stage() is Loading || b.stage() is Resolving || b.stage() is Calling,
    ensures
        b.session_held(),
{
}

/// A bridge with no call in progress takes no step: once a call has
/// ended, by a failure or by the callable's return, nothing more of it
/// is attempted.
pub proof fn lemma_ended_call_takes_no_step<V>(e: Event<V>)
    ensures
        !accepts(Stage::Idle, e),
{
}

/// The state of the embedded runtime as far as calls through it go.
pub struct Bridge {
    stage: Stage,
    session_held: bool,
    search_path: Vec<String>,
    request: Option<Request>,
}

impl Bridge {
    /// Where the current call stands.
    pub closed spec fn stage(&self) -> Stage {
        self.stage
    }

    /// Whether the runtime is held.
    pub closed spec fn session_held(&self) -> bool {
        self.session_held
    }

    /// The entries that calls have put at the front of the runtime's
    /// search path, frontmost first.
    pub closed spec fn search_path(&self) -> Seq<String> {
        self.search_path@
    }

    /// The request of the current call, until its table is handed over.
    pub closed spec fn request(&self) -> Option<Request> {
        self.request
    }

    /// The runtime is held exactly from acquisition to release, and the
    /// request is kept until the call step.
    pub open spec fn wf(&self) -> bool {
        &&& self.session_held() <==> holds_session(self.stage())
        &&& self.request() is Some <==> keeps_request(self.stage())
    }

    /// A bridge with no call in progress that has put nothing on the
    /// search path.
    pub fn new() -> (r: Bridge)
        ensures
            r.wf(),
            r.stage() == Stage::Idle,
            !r.session_held(),
            r.search_path() == Seq::<String>::empty(),
    {
        Bridge { stage: Stage::Idle, session_held: false, search_path: Vec::new(), request: None }
    }

    /// Where the current call stands.
    pub fn current_stage(&self) -> (r: Stage)
        ensures
            r == self.stage(),
    {
        self.stage
    }

    /// The entries that calls have put at the front of the search path,
    /// frontmost first.
    pub fn inserted_paths(&self) -> (r: &Vec<String>)
        ensures
            r@ == self.search_path(),
    {
        &self.search_path
    }

    /// Starts a call of `request`. The first step is to acquire the
    /// runtime. While another call is in progress nothing changes and the
    /// request is handed back.
    pub fn begin<V>(&mut self, request: Request) -> (r: Result<Action<V>, Request>)
        requires
            old(self).wf(),
        ensures
            final(self).wf(),
            old(self).stage() is Idle ==> {
                &&& r == Ok::<Action<V>, Request>(Action::AcquireSession)
                &&& final(self).stage() == Stage::AwaitingSession
                &&& final(self).request() == Some(request)
                &&& final(self).search_path() == old(self).search_path()
            },
            !(old(self).stage() is Idle) ==> {
                &&& r == Err::<Action<V>, Request>(request)
                &&& *final(self) == *old(self)
            },
    {
        if let Stage::Idle = self.stage {
            self.stage = Stage::AwaitingSession;
            self.request = Some(request);
            Ok(Action::AcquireSession)
        } else {
            Err(request)
        }
    }

    /// Whether `event` can follow the step in progress.
    pub fn expects<V>(&self, event: &Event<V>) -> (r: bool)
        ensures
            r == accepts(self.stage(), *event),
    {
        match event {
            Event::SessionAcquired => matches!(self.stage, Stage::AwaitingSession),
            Event::PathInserted => matches!(self.stage, Stage::InsertingPath),
            Event::ModuleLoaded => matches!(self.stage, Stage::Loading),
            Event::AttributeResolved => matches!(self.stage, Stage::Resolving),
            Event::Returned(_) => matches!(self.stage, Stage::Calling),
            Event::Failed(_) => matches!(
                self.stage,
                Stage::InsertingPath | Stage::Loading | Stage::Resolving | Stage::Calling
            ),
        }
    }
    /// Takes what became of the step in progress and returns the next
    /// step. A failure at any step ends the call with the error of that
    /// step, and nothing after it is attempted; so does the callable's
    /// return, with its value. Once the path is inserted it is the new
    /// front of the search path.
    pub fn on_event<V>(&mut self, event: Event<V>) -> (r: Action<V>)
        requires
            old(self).wf(),
            accepts(old(self).stage(), event),
        ensures
            final(self).wf(),
            event is SessionAcquired ==> {
                &&& r == (Action::<V>::InsertSearchPath {
                    path: old(self).request()->Some_0.package_path,
                })
                &&& final(self).stage() == Stage::InsertingPath
                &&& final(self).request() == old(self).request()
                &&& final(self).search_path() == old(self).search_path()
            },
            event is PathInserted ==> {
                &&& r matches Action::LoadModule { source: src, module_name: m, file_name: f }
                    && src == old(self).request()->Some_0.source
                    && m@ == module_name()
                    && f@ == module_file()
                &&& final(self).stage() == Stage::Loading
                &&& final(self).request() == old(self).request()
                &&& final(self).search_path() == with_entry_first(
                    old(self).search_path(),
                    old(self).request()->Some_0.package_path,
                )
            },
            event is ModuleLoaded ==> {
                &&& r matches Action::ResolveAttribute { name: a } && a@ == callable_name()
                &&& final(self).stage() == Stage::Resolving
                &&& final(self).request() == old(self).request()
                &&& final(self).search_path() == old(self).search_path()
            },
            event is AttributeResolved ==> {
                &&& r == (Action::<V>::Call {
                    table: old(self).request()->Some_0.table,
                    x_column: old(self).request()->Some_0.x_column,
                    y_column: old(self).request()->Some_0.y_column,
                })
                &&& final(self).stage() == Stage::Calling
                &&& final(self).search_path() == old(self).search_path()
            },
            event is Returned ==> {
                &&& r == (Action::<V>::Release { result: Ok(event->Returned_0) })
                &&& final(self).stage() == Stage::Idle
                &&& final(self).search_path() == old(self).search_path()
            },
            event is Failed ==> {
                &&& r == (Action::<V>::Release {
                    result: Err(
                        BridgeError {
                            kind: failure_kind(old(self).stage()),
                            message: event->Failed_0,
                        },
                    ),
                })
                &&& final(self).stage() == Stage::Idle
                &&& final(self).search_path() == old(self).search_path()
            },
    {
        match event {
            Event::SessionAcquired => {
                self.session_held = true;
                self.stage = Stage::InsertingPath;
                let path = match &self.request {
                    Some(req) => req.package_path.clone(),
                    None => String::new(),
                };
                Action::InsertSearchPath { path }
            },
            Event::PathInserted => {
                let (path, source) = match &self.request {
                    Some(req) => (req.package_path.clone(), req.source.clone()),
                    None => (String::new(), String::new()),
                };
                let ghost before = self.search_path@;
                self.search_path.insert(0, path);
                assert(self.search_path@ =~= with_entry_first(before, path));
                self.stage = Stage::Loading;
                Action::LoadModule {
                    source,
                    module_name: String::from_str("hello"),
                    file_name: String::from_str("hello.py"),
                }
            },
            Event::ModuleLoaded => {
                self.stage = Stage::Resolving;
                Action::ResolveAttribute { name: String::from_str("line_graph") }
            },
            Event::AttributeResolved => {
                self.stage = Stage::Calling;
                match self.request.take() {
                    Some(req) => Action::Call {
                        table: req.table,
                        x_column: req.x_column,
                        y_column: req.y_column,
                    },
                    None => Action::AcquireSession,
                }
            },
            Event::Returned(value) => {
                self.release();
                Action::Release { result: Ok(value) }
            },
            Event::Failed(message) => {
                let kind = match self.stage {
                    Stage::InsertingPath => ErrorKind::SearchPath,
                    Stage::Loading => ErrorKind::ModuleLoad,
                    Stage::Resolving => ErrorKind::AttributeResolution,
                    _ => ErrorKind::Invocation,
                };
                self.release();
                Action::Release { result: Err(BridgeError { kind, message }) }
            },
        }
    }

    /// Ends the current call: the runtime is released and the request
    /// dropped.
    fn release(&mut self)
        ensures
            final(self).wf(),
            final(self).stage() == Stage::Idle,
            final(self).search_path() == old(self).search_path(),
    {
        self.stage = Stage::Idle;
        self.session_held = false;
        self.request = None;
    }
}

} // verus!
