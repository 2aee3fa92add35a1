//! Error taxonomy of the engine layer.
//!
//! Each kind carries an explicit recoverable/fatal classification: a fatal
//! error means the context or engine can no longer be trusted, while a
//! recoverable one is safe to retry with new input.

use vstd::prelude::*;
use vstd::string::StringExecFns;
use crate::text::{spec_u64_dec, u64_to_dec};
use crate::value::JsValue;

verus! {

/// The stable identifying code of each error kind.
pub open spec fn spec_error_code(e: JsError) -> Seq<char> {
    match e {
        JsError::Promise(_) => "PROMISE_ERROR"@,
        JsError::Module { .. } => "MODULE_ERROR"@,
        JsError::Context(_) => "CONTEXT_ERROR"@,
        JsError::Storage(_) => "STORAGE_ERROR"@,
        JsError::Io { .. } => "IO_ERROR"@,
        JsError::Runtime(_) => "RUNTIME_ERROR"@,
        JsError::Generic(_) => "GENERIC_ERROR"@,
        JsError::Engine(_) => "ENGINE_ERROR"@,
        JsError::Bridge(_) => "BRIDGE_ERROR"@,
        JsError::Conversion { .. } => "CONVERSION_ERROR"@,
        JsError::Timeout { .. } => "TIMEOUT_ERROR"@,
        JsError::MemoryLimit { .. } => "MEMORY_LIMIT_ERROR"@,
        JsError::StackOverflow(_) => "STACK_OVERFLOW_ERROR"@,
        JsError::Syntax { .. } => "SYNTAX_ERROR"@,
        JsError::Reference(_) => "REFERENCE_ERROR"@,
        JsError::Type(_) => "TYPE_ERROR"@,
        JsError::Cancelled(_) => "CANCELLED_ERROR"@,
    }
}

/// The human-readable rendering of each error.
pub open spec fn spec_error_message(e: JsError) -> Seq<char> {
    match e {
        JsError::Promise(msg) => "Promise error: "@ + msg@,
        JsError::Module { module, method, message } => match (module, method) {
            (Some(m), Some(me)) => "Module error - "@ + "module: "@ + m@ + ", "@ + "method: "@
                + me@ + ", "@ + "error: "@ + message@,
            (Some(m), None) => "Module error - "@ + "module: "@ + m@ + ", "@ + "error: "@
                + message@,
            (None, Some(me)) => "Module error - "@ + "method: "@ + me@ + ", "@ + "error: "@
                + message@,
            (None, None) => "Module error - "@ + "error: "@ + message@,
        },
        JsError::Context(msg) => "Context error: "@ + msg@,
        JsError::Storage(msg) => "Storage error: "@ + msg@,
        JsError::Io { path, message } => match path {
            Some(p) => "IO error at "@ + p@ + ": "@ + message@,
            None => "IO error: "@ + message@,
        },
        JsError::Runtime(msg) => "Runtime error: "@ + msg@,
        JsError::Generic(msg) => msg@,
        JsError::Engine(msg) => "Engine error: "@ + msg@,
        JsError::Bridge(msg) => "Bridge error: "@ + msg@,
        JsError::Conversion { from, to, message } => "Conversion error ("@ + from@ + " -> "@
            + to@ + "): "@ + message@,
        JsError::Timeout { operation, timeout_ms } => "Timeout error: "@ + operation@
            + " timed out after "@ + spec_u64_dec(timeout_ms) + "ms"@,
        JsError::MemoryLimit { current, limit } => "Memory limit exceeded: "@
            + spec_u64_dec(current) + " bytes used, "@ + spec_u64_dec(limit) + " bytes limit"@,
        JsError::StackOverflow(msg) => "Stack overflow: "@ + msg@,
        JsError::Syntax { line, column, message } => match (line, column) {
            (Some(l), Some(c)) => "Syntax error at line "@ + spec_u64_dec(l as u64)
                + ", column "@ + spec_u64_dec(c as u64) + ": "@ + message@,
            (Some(l), None) => "Syntax error at line "@ + spec_u64_dec(l as u64) + ": "@
                + message@,
            (None, _) => "Syntax error: "@ + message@,
        },
        JsError::Reference(msg) => "Reference error: "@ + msg@,
        JsError::Type(msg) => "Type error: "@ + msg@,
        JsError::Cancelled(msg) => "Cancelled: "@ + msg@,
    }
}

/// An error arising anywhere in the engine layer.
#[derive(Debug, Clone)]
pub enum JsError {
    /// Asynchronous operation failure, or promise support requested where it
    /// cannot be driven.
    Promise(String),
    /// Module import, resolution or export lookup failure.
    Module {
        /// Module name involved, when known.
        module: Option<String>,
        /// Method name involved, when known.
        method: Option<String>,
        /// Description of the failure.
        message: String,
    },
    /// Global-attachment failure while preparing a context (fatal).
    Context(String),
    /// Dynamic-module storage unavailable (fatal).
    Storage(String),
    /// Source read failure, including size-ceiling violations.
    Io {
        /// Path of the source file involved, when known.
        path: Option<String>,
        /// Description of the failure.
        message: String,
    },
    /// Exception reported by the script engine.
    Runtime(String),
    /// Catch-all for errors with no more specific kind.
    Generic(String),
    /// Lifecycle misuse: double initialisation, use before initialisation,
    /// use after disposal (fatal).
    Engine(String),
    /// Host-bridge communication failure.
    Bridge(String),
    /// Value conversion failure across the script/host boundary.
    Conversion {
        /// Name of the source type.
        from: String,
        /// Name of the target type.
        to: String,
        /// Description of the failure.
        message: String,
    },
    /// An operation exceeded its time budget.
    Timeout {
        /// The operation that timed out.
        operation: String,
        /// The budget, in milliseconds.
        timeout_ms: u64,
    },
    /// The engine exceeded its memory ceiling (fatal).
    MemoryLimit {
        /// Memory in use, in bytes.
        current: u64,
        /// The ceiling, in bytes.
        limit: u64,
    },
    /// The engine exhausted its call stack (fatal).
    StackOverflow(String),
    /// The script source failed to parse.
    Syntax {
        /// Line of the offending token, when known.
        line: Option<u32>,
        /// Column of the offending token, when known.
        column: Option<u32>,
        /// Description of the failure.
        message: String,
    },
    /// A name was used before being defined.
    Reference(String),
    /// A value was used against its type.
    Type(String),
    /// The operation was abandoned because its engine was disposed (fatal).
    Cancelled(String),
}

impl JsError {
    /// Builds a `Promise` error.
    pub fn promise(msg: String) -> (r: JsError)
        ensures
            r == JsError::Promise(msg),
    {
        JsError::Promise(msg)
    }

    /// Builds a `Module` error.
    pub fn module(module: Option<String>, method: Option<String>, message: String) -> (r: JsError)
        ensures
            r == (JsError::Module { module, method, message }),
    {
        JsError::Module { module, method, message }
    }

    /// Builds a `Context` error.
    pub fn context(msg: String) -> (r: JsError)
        ensures
            r == JsError::Context(msg),
    {
        JsError::Context(msg)
    }

    /// Builds a `Storage` error.
    pub fn storage(msg: String) -> (r: JsError)
        ensures
            r == JsError::Storage(msg),
    {
        JsError::Storage(msg)
    }

    /// Builds an `Io` error.
    pub fn io(path: Option<String>, message: String) -> (r: JsError)
        ensures
            r == (JsError::Io { path, message }),
    {
        JsError::Io { path, message }
    }

    /// Builds a `Runtime` error.
    pub fn runtime(msg: String) -> (r: JsError)
        ensures
            r == JsError::Runtime(msg),
    {
        JsError::Runtime(msg)
    }

    /// Builds a `Generic` error.
    pub fn generic(msg: String) -> (r: JsError)
        ensures
            r == JsError::Generic(msg),
    {
        JsError::Generic(msg)
    }

    /// Builds an `Engine` error.
    pub fn engine(msg: String) -> (r: JsError)
        ensures
            r == JsError::Engine(msg),
    {
        JsError::Engine(msg)
    }

    /// Builds a `Bridge` error.
    pub fn bridge(msg: String) -> (r: JsError)
        ensures
            r == JsError::Bridge(msg),
    {
        JsError::Bridge(msg)
    }

    /// Builds a `Conversion` error.
    pub fn conversion(from: String, to: String, message: String) -> (r: JsError)
        ensures
            r == (JsError::Conversion { from, to, message }),
    {
        JsError::Conversion { from, to, message }
    }

    /// Builds a `Timeout` error.
    pub fn timeout(operation: String, timeout_ms: u64) -> (r: JsError)
        ensures
            r == (JsError::Timeout { operation, timeout_ms }),
    {
        JsError::Timeout { operation, timeout_ms }
    }

    /// Builds a `MemoryLimit` error.
    pub fn memory_limit(current: u64, limit: u64) -> (r: JsError)
        ensures
            r == (JsError::MemoryLimit { current, limit }),
    {
        JsError::MemoryLimit { current, limit }
    }

    /// Builds a `Syntax` error.
    pub fn syntax(line: Option<u32>, column: Option<u32>, message: String) -> (r: JsError)
        ensures
            r == (JsError::Syntax { line, column, message }),
    {
        JsError::Syntax { line, column, message }
    }

    /// Builds a `Reference` error.
    pub fn reference(msg: String) -> (r: JsError)
        ensures
            r == JsError::Reference(msg),
    {
        JsError::Reference(msg)
    }

    /// Builds a `Type` error.
    pub fn type_error(msg: String) -> (r: JsError)
        ensures
            r == JsError::Type(msg),
    {
        JsError::Type(msg)
    }

    /// Builds a `Cancelled` error.
    pub fn cancelled(msg: String) -> (r: JsError)
        ensures
            r == JsError::Cancelled(msg),
    {
        JsError::Cancelled(msg)
    }

    /// The stable identifying code of this error's kind.
    pub fn code(&self) -> (r: String)
        ensures
            r@ == spec_error_code(*self),
    {
        match self {
            JsError::Promise(_) => String::from_str("PROMISE_ERROR"),
            JsError::Module { .. } => String::from_str("MODULE_ERROR"),
            JsError::Context(_) => String::from_str("CONTEXT_ERROR"),
            JsError::Storage(_) => String::from_str("STORAGE_ERROR"),
            JsError::Io { .. } => String::from_str("IO_ERROR"),
            JsError::Runtime(_) => String::from_str("RUNTIME_ERROR"),
            JsError::Generic(_) => String::from_str("GENERIC_ERROR"),
            JsError::Engine(_) => String::from_str("ENGINE_ERROR"),
            JsError::Bridge(_) => String::from_str("BRIDGE_ERROR"),
            JsError::Conversion { .. } => String::from_str("CONVERSION_ERROR"),
            JsError::Timeout { .. } => String::from_str("TIMEOUT_ERROR"),
            JsError::MemoryLimit { .. } => String::from_str("MEMORY_LIMIT_ERROR"),
            JsError::StackOverflow(_) => String::from_str("STACK_OVERFLOW_ERROR"),
            JsError::Syntax { .. } => String::from_str("SYNTAX_ERROR"),
            JsError::Reference(_) => String::from_str("REFERENCE_ERROR"),
            JsError::Type(_) => String::from_str("TYPE_ERROR"),
            JsError::Cancelled(_) => String::from_str("CANCELLED_ERROR"),
        }
    }

    /// The human-readable rendering of this error.
    pub fn to_string(&self) -> (r: String)
        ensures
            r@ == spec_error_message(*self),
    {
        let r: String = match self {
            JsError::Promise(msg) => {
                let mut s = String::from_str("Promise error: ");
                s.append(msg.as_str());
                s
            },
            JsError::Module { module, method, message } => {
                let mut s = String::from_str("Module error - ");
                if let Some(m) = module {
                    s.append("module: ");
                    s.append(m.as_str());
                    s.append(", ");
                }
                if let Some(me) = method {
                    s.append("method: ");
                    s.append(me.as_str());
                    s.append(", ");
                }
                s.append("error: ");
                s.append(message.as_str());
                s
            },
            JsError::Context(msg) => {
                let mut s = String::from_str("Context error: ");
                s.append(msg.as_str());
                s
            },
            JsError::Storage(msg) => {
                let mut s = String::from_str("Storage error: ");
                s.append(msg.as_str());
                s
            },
            JsError::Io { path, message } => {
                match path {
                    Some(p) => {
                        let mut s = String::from_str("IO error at ");
                        s.append(p.as_str());
                        s.append(": ");
                        s.append(message.as_str());
                        s
                    },
                    None => {
                        let mut s = String::from_str("IO error: ");
                        s.append(message.as_str());
                        s
                    },
                }
            },
            JsError::Runtime(msg) => {
                let mut s = String::from_str("Runtime error: ");
                s.append(msg.as_str());
                s
            },
            JsError::Generic(msg) => msg.clone(),
            JsError::Engine(msg) => {
                let mut s = String::from_str("Engine error: ");
                s.append(msg.as_str());
                s
            },
            JsError::Bridge(msg) => {
                let mut s = String::from_str("Bridge error: ");
                s.append(msg.as_str());
                s
            },
            JsError::Conversion { from, to, message } => {
                let mut s = String::from_str("Conversion error (");
                s.append(from.as_str());
                s.append(" -> ");
                s.append(to.as_str());
                s.append("): ");
                s.append(message.as_str());
                s
            },
            JsError::Timeout { operation, timeout_ms } => {
                let mut s = String::from_str("Timeout error: ");
                s.append(operation.as_str());
                s.append(" timed out after ");
                let ms = u64_to_dec(*timeout_ms);
                s.append(ms.as_str());
                s.append("ms");
                s
            },
            JsError::MemoryLimit { current, limit } => {
                let mut s = String::from_str("Memory limit exceeded: ");
                let c = u64_to_dec(*current);
                s.append(c.as_str());
                s.append(" bytes used, ");
                let l = u64_to_dec(*limit);
                s.append(l.as_str());
                s.append(" bytes limit");
                s
            },
            JsError::StackOverflow(msg) => {
                let mut s = String::from_str("Stack overflow: ");
                s.append(msg.as_str());
                s
            },
            JsError::Syntax { line, column, message } => {
                match line {
                    Some(l) => {
                        let mut s = String::from_str("Syntax error at line ");
                        let lr = u64_to_dec(*l as u64);
                        s.append(lr.as_str());
                        if let Some(c) = column {
                            s.append(", column ");
                            let cr = u64_to_dec(*c as u64);
                            s.append(cr.as_str());
                        }
                        s.append(": ");
                        s.append(message.as_str());
                        s
                    },
                    None => {
                        let mut s = String::from_str("Syntax error: ");
                        s.append(message.as_str());
                        s
                    },
                }
            },
            JsError::Reference(msg) => {
                let mut s = String::from_str("Reference error: ");
                s.append(msg.as_str());
                s
            },
            JsError::Type(msg) => {
                let mut s = String::from_str("Type error: ");
                s.append(msg.as_str());
                s
            },
            JsError::Cancelled(msg) => {
                let mut s = String::from_str("Cancelled: ");
                s.append(msg.as_str());
                s
            },
        };
        proof {
            assert(r@ =~= spec_error_message(*self));
        }
        r
    }

    /// True exactly for the recoverable kinds: every kind except `Context`,
    /// `Storage`, `Engine`, `MemoryLimit`, `StackOverflow` and `Cancelled`.
    /// A recoverable error is safe to retry with new input; a fatal one means
    /// the context or engine can no longer be trusted.
    pub fn is_recoverable(&self) -> (r: bool)
        ensures
            r == !(self is Context || self is Storage || self is Engine
                || self is MemoryLimit || self is StackOverflow || self is Cancelled),
    {
        match self {
            JsError::Context(_) => false,
            JsError::Storage(_) => false,
            JsError::Engine(_) => false,
            JsError::MemoryLimit { .. } => false,
            JsError::StackOverflow(_) => false,
            JsError::Cancelled(_) => false,
            _ => true,
        }
    }
}

/// Relied-on outside type: `anyhow::Error`, the catch-all error carrier;
/// only its rendered message is read here.
#[verifier::external_type_specification]
#[verifier::external_body]
pub struct ExAnyhowError(anyhow::Error);

/// Relied-on outside type: `std::io::Error`, the platform I/O error; only
/// its rendered message is read here.
#[verifier::external_type_specification]
#[verifier::external_body]
pub struct ExIoError(std::io::Error);

/// Relies on `anyhow::Error`'s `Display` rendering for the message text.
#[verifier::external_body]
fn anyhow_message(err: &anyhow::Error) -> (r: String) {
    err.to_string()
}

/// Relies on `std::io::Error`'s `Display` rendering for the message text.
#[verifier::external_body]
fn io_message(err: &std::io::Error) -> (r: String) {
    err.to_string()
}

impl From<anyhow::Error> for JsError {
    /// A catch-all error arrives as `Generic`, carrying its rendered
    /// message.
    fn from(err: anyhow::Error) -> (r: JsError)
        ensures
            r is Generic,
    {
        JsError::Generic(anyhow_message(&err))
    }
}

impl vstd::std_specs::convert::FromSpecImpl<anyhow::Error> for JsError {
    open spec fn obeys_from_spec() -> bool {
        false
    }

    open spec fn from_spec(v: anyhow::Error) -> JsError {
        arbitrary()
    }
}

impl From<std::io::Error> for JsError {
    /// An I/O failure arrives as `Io` without a path, carrying its rendered
    /// message.
    fn from(err: std::io::Error) -> (r: JsError)
        ensures
            r matches JsError::Io { path, message: _ } && path is None,
    {
        JsError::Io { path: None, message: io_message(&err) }
    }
}

impl vstd::std_specs::convert::FromSpecImpl<std::io::Error> for JsError {
    open spec fn obeys_from_spec() -> bool {
        false
    }

    open spec fn from_spec(v: std::io::Error) -> JsError {
        arbitrary()
    }
}

/// The outcome of one script operation: a canonical value, or the error
/// that stopped it.
#[derive(Debug, Clone)]
pub enum JsResult {
    /// The operation produced this value.
    Success(JsValue),
    /// The operation failed with this error.
    Failure(JsError),
}

impl JsResult {
    /// Wraps a value.
    pub fn ok(value: JsValue) -> (r: JsResult)
        ensures
            r == JsResult::Success(value),
    {
        JsResult::Success(value)
    }

    /// Wraps an error.
    pub fn err(error: JsError) -> (r: JsResult)
        ensures
            r == JsResult::Failure(error),
    {
        JsResult::Failure(error)
    }

    /// True exactly for a value outcome.
    pub fn is_ok(&self) -> (r: bool)
        ensures
            r == (self is Success),
    {
        matches!(self, JsResult::Success(_))
    }

    /// True exactly for an error outcome.
    pub fn is_err(&self) -> (r: bool)
        ensures
            r == (self is Failure),
    {
        matches!(self, JsResult::Failure(_))
    }

    /// Applies `f` to a value outcome; an error outcome passes through.
    pub fn map<U, F: FnOnce(JsValue) -> U>(self, f: F) -> (r: Result<U, JsError>)
        requires
            self matches JsResult::Success(v) ==> call_requires(f, (v,)),
        ensures
            match self {
                JsResult::Success(v) => r matches Ok(u) && call_ensures(f, (v,), u),
                JsResult::Failure(e) => r == Err::<U, JsError>(e),
            },
    {
        match self {
            JsResult::Success(v) => Ok(f(v)),
            JsResult::Failure(e) => Err(e),
        }
    }

    /// Applies `f` to an error outcome; a value outcome passes through.
    pub fn map_err<F: FnOnce(JsError) -> JsError>(self, f: F) -> (r: JsResult)
        requires
            self matches JsResult::Failure(e) ==> call_requires(f, (e,)),
        ensures
            match self {
                JsResult::Success(v) => r == JsResult::Success(v),
                JsResult::Failure(e) => r matches JsResult::Failure(e2) && call_ensures(f, (e,), e2),
            },
    {
        match self {
            JsResult::Success(v) => JsResult::Success(v),
            JsResult::Failure(e) => JsResult::Failure(f(e)),
        }
    }

    /// The same outcome as a plain `Result`.
    pub fn into_result(self) -> (r: Result<JsValue, JsError>)
        ensures
            match self {
                JsResult::Success(v) => r == Ok::<JsValue, JsError>(v),
                JsResult::Failure(e) => r == Err::<JsValue, JsError>(e),
            },
    {
        match self {
            JsResult::Success(v) => Ok(v),
            JsResult::Failure(e) => Err(e),
        }
    }
}

impl From<Result<JsValue, JsError>> for JsResult {
    /// A plain `Result` carries over variant for variant.
    fn from(result: Result<JsValue, JsError>) -> (r: JsResult) {
        match result {
            Ok(v) => JsResult::Success(v),
            Err(e) => JsResult::Failure(e),
        }
    }
}

impl vstd::std_specs::convert::FromSpecImpl<Result<JsValue, JsError>> for JsResult {
    open spec fn obeys_from_spec() -> bool {
        true
    }

    open spec fn from_spec(v: Result<JsValue, JsError>) -> JsResult {
        match v {
            Ok(value) => JsResult::Success(value),
            Err(e) => JsResult::Failure(e),
        }
    }
}

impl From<JsResult> for Result<JsValue, JsError> {
    /// An outcome carries over variant for variant.
    fn from(result: JsResult) -> (r: Result<JsValue, JsError>) {
        match result {
            JsResult::Success(v) => Ok(v),
            JsResult::Failure(e) => Err(e),
        }
    }
}

impl vstd::std_specs::convert::FromSpecImpl<JsResult> for Result<JsValue, JsError> {
    open spec fn obeys_from_spec() -> bool {
        true
    }

    open spec fn from_spec(v: JsResult) -> Result<JsValue, JsError> {
        match v {
            JsResult::Success(value) => Ok(value),
            JsResult::Failure(e) => Err(e),
        }
    }
}

} // verus!
