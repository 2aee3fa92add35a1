//! The engine orchestrator: an explicit lifecycle state machine, an action
//! queue consumed strictly in submission order, and the per-context
//! application of each action.
//!
//! The lifecycle admits exactly one forward path: `Created` to `Running` at
//! initialisation, then to `Disposed`, which is terminal. Every operation
//! checks the state first: before initialisation it is refused as "not
//! running", after disposal as "disposed", and neither refusal changes
//! anything.

use vstd::prelude::*;
use vstd::string::StringExecFns;
use crate::error::{JsError, JsResult};
use crate::module::ContextLocals;
use crate::source::{JsCode, JsEvalOptions, JsModule};
use crate::value::{v_model, JsValue};

verus! {

/// The lifecycle of an engine orchestrator.
#[derive(Clone, Copy, Debug, PartialEq, Eq, Structural)]
pub enum EngineState {
    /// Built, not yet initialised.
    Created,
    /// Initialised and consuming actions.
    Running,
    /// Disposed; terminal.
    Disposed,
}

/// One operation submitted to the orchestrator, with the correlation
/// identifier under which its result is reported.
#[derive(Debug, Clone)]
pub enum JsAction {
    /// Evaluate script text.
    Eval {
        /// Correlation identifier.
        id: u32,
        /// The source to evaluate.
        source: JsCode,
        /// Evaluation options; promise support is forced on when queued.
        options: Option<JsEvalOptions>,
    },
    /// Declare one module in the dynamic store without executing it.
    DeclareNewModule {
        /// Correlation identifier.
        id: u32,
        /// The module to declare.
        module: JsModule,
    },
    /// Declare several modules, stopping at the first failure.
    DeclareNewModules {
        /// Correlation identifier.
        id: u32,
        /// The modules to declare, in order.
        modules: Vec<JsModule>,
    },
    /// Remove every dynamically declared module.
    ClearNewModules {
        /// Correlation identifier.
        id: u32,
    },
    /// Declare a module and execute it, reporting its resulting value.
    EvaluateModule {
        /// Correlation identifier.
        id: u32,
        /// The module to declare and execute.
        module: JsModule,
    },
    /// List the dynamically declared module names.
    GetDeclaredModules {
        /// Correlation identifier.
        id: u32,
    },
    /// Ask whether a name is dynamically declared.
    IsModuleDeclared {
        /// Correlation identifier.
        id: u32,
        /// The name to look for.
        module_name: String,
    },
    /// Call an exported function of a module.
    CallFunction {
        /// Correlation identifier.
        id: u32,
        /// The module to import.
        module: String,
        /// The export to call.
        method: String,
        /// The arguments to pass.
        params: Option<Vec<JsValue>>,
    },
}

impl JsAction {
    /// The correlation identifier of this action.
    pub fn id(&self) -> (r: u32)
        ensures
            r == spec_action_id(*self),
    {
        match self {
            JsAction::Eval { id, .. } => *id,
            JsAction::DeclareNewModule { id, .. } => *id,
            JsAction::DeclareNewModules { id, .. } => *id,
            JsAction::ClearNewModules { id } => *id,
            JsAction::EvaluateModule { id, .. } => *id,
            JsAction::GetDeclaredModules { id } => *id,
            JsAction::IsModuleDeclared { id, .. } => *id,
            JsAction::CallFunction { id, .. } => *id,
        }
    }
}

/// The correlation identifier of an action.
pub open spec fn spec_action_id(a: JsAction) -> u32 {
    match a {
        JsAction::Eval { id, .. } => id,
        JsAction::DeclareNewModule { id, .. } => id,
        JsAction::DeclareNewModules { id, .. } => id,
        JsAction::ClearNewModules { id } => id,
        JsAction::EvaluateModule { id, .. } => id,
        JsAction::GetDeclaredModules { id } => id,
        JsAction::IsModuleDeclared { id, .. } => id,
        JsAction::CallFunction { id, .. } => id,
    }
}

/// The outcome of one action, reported under the action's own correlation
/// identifier, exactly once.
#[derive(Debug, Clone)]
pub struct JsActionResult {
    /// The identifier of the action this result answers.
    pub id: u32,
    /// The action's outcome.
    pub result: JsResult,
}

impl JsActionResult {
    /// Pairs an action's identifier with its outcome.
    pub fn new(id: u32, result: JsResult) -> (r: JsActionResult)
        ensures
            r == (JsActionResult { id, result }),
    {
        JsActionResult { id, result }
    }
}

/// An event the orchestrator reports to the host.
#[derive(Debug, Clone)]
pub enum JsCallback {
    /// The orchestrator finished initialising; reported once.
    Initialized,
    /// One action's result, delivered exactly once.
    Handler(JsActionResult),
    /// Script code called the host bridge with this argument.
    Bridge(JsValue),
}

/// The host's answer to a reported event.
#[derive(Debug, Clone)]
pub enum JsCallbackResult {
    /// Initialisation acknowledged.
    Initialized,
    /// Result delivery acknowledged.
    Handler,
    /// The bridge call's outcome: the script-side promise resolves with a
    /// value or rejects with the error's rendering.
    Bridge(JsResult),
}

/// The orchestrator core: the lifecycle state and the pending action queue,
/// consumed strictly in submission order.
#[derive(Debug)]
pub struct JsEngineCore {
    state: EngineState,
    queue: Vec<JsAction>,
}

impl JsEngineCore {
    /// The current lifecycle state.
    pub closed spec fn lifecycle(&self) -> EngineState {
        self.state
    }

    /// The pending actions, oldest first.
    pub closed spec fn pending(&self) -> Seq<JsAction> {
        self.queue@
    }

    /// Builds a core in the `Created` state with nothing pending.
    pub fn new() -> (r: JsEngineCore)
        ensures
            r.lifecycle() == EngineState::Created,
            r.pending() == Seq::<JsAction>::empty(),
    {
        JsEngineCore { state: EngineState::Created, queue: Vec::new() }
    }

    /// True exactly in the `Running` state.
    pub fn running(&self) -> (r: bool)
        ensures
            r == (self.lifecycle() == EngineState::Running),
    {
        self.state == EngineState::Running
    }

    /// True exactly in the `Disposed` state.
    pub fn disposed(&self) -> (r: bool)
        ensures
            r == (self.lifecycle() == EngineState::Disposed),
    {
        self.state == EngineState::Disposed
    }

    /// Initialises: exactly the one legal transition from `Created` to
    /// `Running`. A second initialisation fails, and initialising a
    /// disposed core fails; neither failure changes anything.
    pub fn init(&mut self) -> (r: Result<(), JsError>)
        ensures
            r is Ok <==> old(self).lifecycle() == EngineState::Created,
            old(self).lifecycle() == EngineState::Created ==> final(self).lifecycle()
                == EngineState::Running,
            old(self).lifecycle() != EngineState::Created ==> *final(self) == *old(self),
            final(self).pending() == old(self).pending(),
            old(self).lifecycle() == EngineState::Disposed ==> (r matches Err(e) && e matches
                JsError::Engine(m) && m@ == "Engine is disposed"@),
            old(self).lifecycle() == EngineState::Running ==> (r matches Err(e) && e matches
                JsError::Engine(m) && m@ == "Engine is already running"@),
    {
        match self.state {
            EngineState::Created => {
                self.state = EngineState::Running;
                Ok(())
            },
            EngineState::Running => Err(
                JsError::Engine(String::from_str("Engine is already running")),
            ),
            EngineState::Disposed => Err(JsError::Engine(String::from_str("Engine is disposed"))),
        }
    }

    /// Disposes: legal from `Created` and from `Running`, terminal
    /// afterwards. Disposing twice fails and changes nothing.
    pub fn dispose(&mut self) -> (r: Result<(), JsError>)
        ensures
            r is Ok <==> old(self).lifecycle() != EngineState::Disposed,
            r is Ok ==> final(self).lifecycle() == EngineState::Disposed,
            r is Err ==> *final(self) == *old(self),
            final(self).pending() == old(self).pending(),
            r matches Err(e) ==> (e matches JsError::Engine(m) && m@
                == "Engine is already disposed"@),
    {
        match self.state {
            EngineState::Disposed => Err(
                JsError::Engine(String::from_str("Engine is already disposed")),
            ),
            _ => {
                self.state = EngineState::Disposed;
                Ok(())
            },
        }
    }

    /// Guards one operation: allowed exactly in the `Running` state, so
    /// every operation fails before initialisation and after disposal.
    pub fn guard(&self) -> (r: Result<(), JsError>)
        ensures
            r is Ok <==> self.lifecycle() == EngineState::Running,
            self.lifecycle() == EngineState::Disposed ==> (r matches Err(e) && e matches
                JsError::Engine(m) && m@ == "Engine is disposed"@),
            self.lifecycle() == EngineState::Created ==> (r matches Err(e) && e matches
                JsError::Engine(m) && m@ == "Engine is not running"@),
    {
        match self.state {
            EngineState::Running => Ok(()),
            EngineState::Created => Err(JsError::Engine(String::from_str("Engine is not running"))),
            EngineState::Disposed => Err(JsError::Engine(String::from_str("Engine is disposed"))),
        }
    }

    /// Submits an action: appended to the queue when running, refused
    /// before initialisation and after disposal without being recorded.
    pub fn exec(&mut self, action: JsAction) -> (r: Result<(), JsError>)
        ensures
            r is Ok <==> old(self).lifecycle() == EngineState::Running,
            final(self).lifecycle() == old(self).lifecycle(),
            r is Ok ==> final(self).pending() == old(self).pending().push(action),
            r is Err ==> *final(self) == *old(self),
            old(self).lifecycle() == EngineState::Disposed ==> (r matches Err(e) && e matches
                JsError::Engine(m) && m@ == "Engine is disposed"@),
            old(self).lifecycle() == EngineState::Created ==> (r matches Err(e) && e matches
                JsError::Engine(m) && m@ == "Engine is not running"@),
    {
        match self.state {
            EngineState::Running => {
                self.queue.push(action);
                Ok(())
            },
            EngineState::Created => Err(JsError::Engine(String::from_str("Engine is not running"))),
            EngineState::Disposed => Err(JsError::Engine(String::from_str("Engine is disposed"))),
        }
    }

    /// Dequeues the oldest pending action, only while running: a disposed
    /// orchestrator's consumer stops dequeuing. The consumer must hand the
    /// action to an independent task and continue, never blocking on its
    /// completion.
    pub fn take_next(&mut self) -> (r: Option<JsAction>)
        ensures
            final(self).lifecycle() == old(self).lifecycle(),
            (old(self).lifecycle() == EngineState::Running && old(self).pending().len() > 0) ==> (
            r == Some(old(self).pending()[0]) && final(self).pending() == old(
                self,
            ).pending().drop_first()),
            !(old(self).lifecycle() == EngineState::Running && old(self).pending().len() > 0)
                ==> (r is None && *final(self) == *old(self)),
    {
        if self.state == EngineState::Running && self.queue.len() > 0 {
            let action = self.queue.remove(0);
            proof {
                assert(self.queue@ =~= old(self).queue@.drop_first());
            }
            Some(action)
        } else {
            None
        }
    }
}

/// Forces promise support on for a queued evaluation, as the consumer loop
/// does before handing the source to the engine; absent options start from
/// the unset defaults.
pub fn queued_eval_options(options: Option<JsEvalOptions>) -> (r: JsEvalOptions)
    ensures
        r.promise == Some(true),
        match options {
            Some(o) => r.global == o.global && r.strict == o.strict && r.backtrace_barrier
                == o.backtrace_barrier,
            None => r.global is None && r.strict is None && r.backtrace_barrier is None,
        },
{
    let mut o = match options {
        Some(o) => o,
        None => JsEvalOptions::default(),
    };
    o.promise = Some(true);
    o
}

/// Rejects the promise option in a cooperative (non-concurrent) execution
/// mode, which cannot drive the engine's job queue: such a request fails
/// outright rather than being silently ignored.
pub fn sync_promise_gate(options: &JsEvalOptions) -> (r: Result<(), JsError>)
    ensures
        r is Ok <==> options.promise != Some(true),
        r matches Err(e) ==> (e matches JsError::Promise(m) && m@
            == "Promise not supported in sync context"@),
{
    match options.promise {
        Some(true) => Err(
            JsError::Promise(String::from_str("Promise not supported in sync context")),
        ),
        _ => Ok(()),
    }
}

/// How a bridge call's argument list is judged: scripts must pass exactly
/// one argument; zero or several are engine-level arity errors, never
/// silently coerced.
#[derive(Debug, Clone, PartialEq, Eq, Structural)]
pub enum BridgeArity {
    /// Exactly one argument: the call proceeds.
    Accepted,
    /// No argument was passed.
    Missing,
    /// More than one argument was passed.
    TooMany,
}

/// Judges the number of arguments a script passed to the bridge entry
/// point.
pub fn bridge_arity(given: usize) -> (r: BridgeArity)
    ensures
        r == BridgeArity::Accepted <==> given == 1,
        r == BridgeArity::Missing <==> given == 0,
        r == BridgeArity::TooMany <==> given > 1,
{
    if given == 0 {
        BridgeArity::Missing
    } else if given == 1 {
        BridgeArity::Accepted
    } else {
        BridgeArity::TooMany
    }
}

/// Declares one resolved module in the context's dynamic store, replacing
/// any previous declaration of the name. Without a store the action fails
/// as a fatal `Storage` error and nothing changes.
pub fn declare_module(locals: &mut ContextLocals, name: String, source: Vec<u8>) -> (r: JsResult)
    requires
        old(locals).store matches Some(st) ==> st.wf(),
    ensures
        final(locals).attached == old(locals).attached,
        final(locals).module_names == old(locals).module_names,
        match old(locals).store {
            Some(st) => {
                &&& r == JsResult::Success(JsValue::Absent)
                &&& final(locals).store matches Some(st2) && st2.wf() && st2@ == st@.insert(
                    name@,
                    source@,
                )
            },
            None => {
                &&& final(locals).store is None
                &&& r matches JsResult::Failure(e) && (e matches JsError::Storage(m) && m@
                    == "Module storage not initialized"@)
            },
        },
{
    match &mut locals.store {
        Some(st) => {
            st.insert(name, source);
            JsResult::Success(JsValue::Absent)
        },
        None => JsResult::Failure(
            JsError::Storage(String::from_str("Module storage not initialized")),
        ),
    }
}

/// Removes every dynamically declared module. Without a store the action
/// fails as a fatal `Storage` error.
pub fn clear_modules(locals: &mut ContextLocals) -> (r: JsResult)
    ensures
        final(locals).attached == old(locals).attached,
        final(locals).module_names == old(locals).module_names,
        match old(locals).store {
            Some(_) => {
                &&& r == JsResult::Success(JsValue::Absent)
                &&& final(locals).store matches Some(st2) && st2.wf() && st2@ == Map::<
                    Seq<char>,
                    Seq<u8>,
                >::empty()
            },
            None => {
                &&& final(locals).store is None
                &&& r matches JsResult::Failure(e) && (e matches JsError::Storage(m) && m@
                    == "Module storage not initialized"@)
            },
        },
{
    match &mut locals.store {
        Some(st) => {
            st.clear();
            JsResult::Success(JsValue::Absent)
        },
        None => JsResult::Failure(
            JsError::Storage(String::from_str("Module storage not initialized")),
        ),
    }
}

/// Reports whether a name is dynamically declared. Without a store the
/// action fails as a fatal `Storage` error.
pub fn is_module_declared(locals: &ContextLocals, name: &str) -> (r: JsResult)
    ensures
        match locals.store {
            Some(st) => r == JsResult::Success(JsValue::Boolean(st@.dom().contains(name@))),
            None => r matches JsResult::Failure(e) && (e matches JsError::Storage(m) && m@
                == "Module storage not initialized"@),
        },
{
    match &locals.store {
        Some(st) => JsResult::Success(JsValue::Boolean(st.contains(name))),
        None => JsResult::Failure(
            JsError::Storage(String::from_str("Module storage not initialized")),
        ),
    }
}

/// Lists the dynamically declared module names, each exactly once, as an
/// array of strings. Without a store the action fails as a fatal `Storage`
/// error.
pub fn declared_module_names(locals: &ContextLocals) -> (r: JsResult)
    requires
        locals.store matches Some(st) ==> st.wf(),
    ensures
        match locals.store {
            Some(st) => r matches JsResult::Success(v) && (v matches JsValue::Array(xs) && (forall|
                i: int,
            |
                0 <= i < xs@.len() ==> ((#[trigger] xs@[i]) matches JsValue::String(s) && st@.dom()
                    .contains(s@))) && (forall|k: Seq<char>|
                st@.dom().contains(k) ==> exists|i: int|
                    0 <= i < xs@.len() && ((#[trigger] xs@[i]) matches JsValue::String(s) && s@
                        == k))),
            None => r matches JsResult::Failure(e) && (e matches JsError::Storage(m) && m@
                == "Module storage not initialized"@),
        },
{
    match &locals.store {
        Some(st) => {
            let names = st.names();
            let mut out: Vec<JsValue> = Vec::new();
            let mut i: usize = 0;
            while i < names.len()
                invariant
                    i <= names@.len(),
                    out@.len() == i,
                    forall|j: int|
                        0 <= j < i ==> ((#[trigger] out@[j]) matches JsValue::String(s) && s@
                            == names@[j]@),
                decreases names@.len() - i,
            {
                out.push(JsValue::String(names[i].clone()));
                i = i + 1;
            }
            proof {
                assert forall|k: Seq<char>| st@.dom().contains(k) implies exists|i2: int|
                    0 <= i2 < out@.len() && ((#[trigger] out@[i2]) matches JsValue::String(s) && s@
                        == k) by {
                    crate::module::lemma_str_views_len(names@);
                    assert(crate::module::contains_text(crate::module::str_views(names@), k));
                    let j = choose|j: int|
                        0 <= j < crate::module::str_views(names@).len()
                            && crate::module::str_views(names@)[j] == k;
                    crate::module::lemma_str_views_index(names@, j);
                    assert(out@[j] matches JsValue::String(s) && s@ == k);
                }
            }
            JsResult::Success(JsValue::Array(out))
        },
        None => JsResult::Failure(
            JsError::Storage(String::from_str("Module storage not initialized")),
        ),
    }
}

/// One module whose source the caller has already resolved: the bytes, or
/// the error resolution produced for it.
#[derive(Debug)]
pub struct ResolvedModule {
    /// The name to declare.
    pub name: String,
    /// The resolved source, or why resolving it failed.
    pub source: Result<Vec<u8>, JsError>,
}

/// The position of the first module whose resolution failed, if any.
pub open spec fn spec_first_failure(s: Seq<ResolvedModule>) -> Option<int>
    decreases s,
{
    if s.len() == 0 {
        None
    } else if s[0].source is Err {
        Some(0int)
    } else {
        match spec_first_failure(s.drop_first()) {
            Some(k) => Some(k + 1),
            None => None,
        }
    }
}

/// The store contents after declaring the first `k` modules, skipping
/// none: each successfully resolved module overwrites its name in order.
pub open spec fn spec_declared_prefix(
    m: Map<Seq<char>, Seq<u8>>,
    s: Seq<ResolvedModule>,
    k: int,
) -> Map<Seq<char>, Seq<u8>>
    decreases k,
{
    if k <= 0 {
        m
    } else {
        let prev = spec_declared_prefix(m, s, k - 1);
        match s[k - 1].source {
            Ok(b) => prev.insert(s[k - 1].name@, b@),
            Err(_) => prev,
        }
    }
}

/// When every module resolved, there is no first failure.
pub proof fn lemma_first_failure_none(s: Seq<ResolvedModule>)
    requires
        forall|j: int| 0 <= j < s.len() ==> (#[trigger] s[j]).source is Ok,
    ensures
        spec_first_failure(s) is None,
    decreases s,
{
    if s.len() > 0 {
        lemma_first_failure_none(s.drop_first());
    }
}

/// When the modules before `k` resolved and module `k` did not, `k` is the
/// first failure.
pub proof fn lemma_first_failure_at(s: Seq<ResolvedModule>, k: int)
    requires
        0 <= k < s.len(),
        forall|j: int| 0 <= j < k ==> (#[trigger] s[j]).source is Ok,
        s[k].source is Err,
    ensures
        spec_first_failure(s) == Some(k),
    decreases k,
{
    if k > 0 {
        lemma_first_failure_at(s.drop_first(), k - 1);
    }
}

/// Declares several resolved modules in order, stopping at the first
/// failure and reporting only that failure; the modules before it stay
/// declared. Without a store the action fails as a fatal `Storage` error.
#[verifier::loop_isolation(false)]
pub fn declare_modules(locals: &mut ContextLocals, modules: Vec<ResolvedModule>) -> (r: JsResult)
    requires
        old(locals).store matches Some(st) ==> st.wf(),
    ensures
        final(locals).attached == old(locals).attached,
        final(locals).module_names == old(locals).module_names,
        match old(locals).store {
            Some(st) => {
                &&& final(locals).store is Some
                &&& final(locals).store->0.wf()
                &&& match spec_first_failure(modules@) {
                    None => {
                        &&& r == JsResult::Success(JsValue::Absent)
                        &&& final(locals).store->0@ == spec_declared_prefix(
                            st@,
                            modules@,
                            modules@.len() as int,
                        )
                    },
                    Some(k) => {
                        &&& r == JsResult::Failure(modules@[k].source->Err_0)
                        &&& final(locals).store->0@ == spec_declared_prefix(st@, modules@, k)
                    },
                }
            },
            None => {
                &&& final(locals).store is None
                &&& r matches JsResult::Failure(e) && (e matches JsError::Storage(m) && m@
                    == "Module storage not initialized"@)
            },
        },
{
    let ghost all = modules@;
    match &mut locals.store {
        Some(st) => {
            let ghost st0 = st@;
            let mut rest = modules;
            let ghost mut i: int = 0;
            while rest.len() > 0
                invariant
                    st.wf(),
                    0 <= i,
                    i + rest@.len() == all.len(),
                    rest@ =~= all.skip(i),
                    forall|j: int| 0 <= j < i ==> (#[trigger] all[j]).source is Ok,
                    st@ == spec_declared_prefix(st0, all, i),
                decreases rest@.len(),
            {
                let m = rest.remove(0);
                proof {
                    assert(all[i] == m);
                    assert(rest@ =~= all.skip(i + 1));
                }
                match m.source {
                    Ok(bytes) => {
                        st.insert(m.name, bytes);
                    },
                    Err(e) => {
                        proof {
                            lemma_first_failure_at(all, i);
                        }
                        return JsResult::Failure(e);
                    },
                }
                proof {
                    i = i + 1;
                }
            }
            proof {
                lemma_first_failure_none(all);
            }
            JsResult::Success(JsValue::Absent)
        },
        None => JsResult::Failure(
            JsError::Storage(String::from_str("Module storage not initialized")),
        ),
    }
}

} // verus!
