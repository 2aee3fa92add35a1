//! Source descriptors, evaluation options and the source resolver.
//!
//! A source is inline text, a file path, or raw bytes. Inline text and raw
//! bytes resolve synchronously and infallibly; a path is handed back to the
//! caller, who must learn the file's size, have it admitted by
//! [`admit_file_size`], and only then read the content. Checking the size
//! before any read is a deliberate guard and must not be reordered.

use vstd::prelude::*;
use vstd::string::StringExecFns;
use vstd::string::StrSliceExecFns;
use vstd::utf8::encode_utf8;
use crate::error::JsError;
use crate::text::{spec_u64_dec, u64_to_dec};

verus! {

/// Ceiling, in bytes, on the size of a script source file loaded from a
/// path.
pub const MAX_FILE_SIZE: u64 = 10 * 1024 * 1024;

/// Where the text of a script comes from.
#[derive(Debug, Clone, Hash, Eq, PartialEq, Ord, PartialOrd)]
pub enum JsCode {
    /// Inline script text.
    Code(String),
    /// Path of a file holding script text.
    Path(String),
    /// Raw script bytes, UTF-8 encoded.
    Bytes(Vec<u8>),
}

impl JsCode {
    /// Builds an inline-text source.
    pub fn code(code: String) -> (r: JsCode)
        ensures
            r == JsCode::Code(code),
    {
        JsCode::Code(code)
    }

    /// Builds a file-path source.
    pub fn path(path: String) -> (r: JsCode)
        ensures
            r == JsCode::Path(path),
    {
        JsCode::Path(path)
    }

    /// Builds a raw-bytes source.
    pub fn bytes(bytes: Vec<u8>) -> (r: JsCode)
        ensures
            r == JsCode::Bytes(bytes),
    {
        JsCode::Bytes(bytes)
    }

    /// The file path, when this is a path source.
    pub fn as_path(&self) -> (r: Option<&str>)
        ensures
            match r {
                Some(p) => self matches JsCode::Path(q) && p@ == q@,
                None => !(self is Path),
            },
    {
        match self {
            JsCode::Path(p) => Some(p.as_str()),
            _ => None,
        }
    }

    /// True exactly for a path source.
    pub fn is_path(&self) -> (r: bool)
        ensures
            r == (self is Path),
    {
        matches!(self, JsCode::Path(_))
    }

    /// True exactly for an inline-text source.
    pub fn is_code(&self) -> (r: bool)
        ensures
            r == (self is Code),
    {
        matches!(self, JsCode::Code(_))
    }

    /// True exactly for a raw-bytes source.
    pub fn is_bytes(&self) -> (r: bool)
        ensures
            r == (self is Bytes),
    {
        matches!(self, JsCode::Bytes(_))
    }
}

/// A named module: a module name and the source of its text. A registry
/// keys modules by name; re-declaring a name overwrites it.
#[derive(Debug, Clone, Hash, Eq, PartialEq, Ord, PartialOrd)]
pub struct JsModule {
    /// The name under which the module is imported.
    pub name: String,
    /// The source of the module's text.
    pub source: JsCode,
}

impl JsModule {
    /// Builds a module from a name and a source.
    pub fn new(name: String, source: JsCode) -> (r: JsModule)
        ensures
            r == (JsModule { name, source }),
    {
        JsModule { name, source }
    }

    /// Builds a module from inline text.
    pub fn code(module: String, code: String) -> (r: JsModule)
        ensures
            r == (JsModule { name: module, source: JsCode::Code(code) }),
    {
        JsModule { name: module, source: JsCode::Code(code) }
    }

    /// Builds a module from a file path.
    pub fn path(module: String, path: String) -> (r: JsModule)
        ensures
            r == (JsModule { name: module, source: JsCode::Path(path) }),
    {
        JsModule { name: module, source: JsCode::Path(path) }
    }

    /// Builds a module from raw bytes.
    pub fn bytes(module: String, bytes: Vec<u8>) -> (r: JsModule)
        ensures
            r == (JsModule { name: module, source: JsCode::Bytes(bytes) }),
    {
        JsModule { name: module, source: JsCode::Bytes(bytes) }
    }

    /// Builds a module from inline text.
    pub fn from_code(module: String, code: String) -> (r: JsModule)
        ensures
            r == (JsModule { name: module, source: JsCode::Code(code) }),
    {
        JsModule { name: module, source: JsCode::Code(code) }
    }

    /// Builds a module from a file path.
    pub fn from_path(module: String, path: String) -> (r: JsModule)
        ensures
            r == (JsModule { name: module, source: JsCode::Path(path) }),
    {
        JsModule { name: module, source: JsCode::Path(path) }
    }

    /// Builds a module from raw bytes.
    pub fn from_bytes(module: String, bytes: Vec<u8>) -> (r: JsModule)
        ensures
            r == (JsModule { name: module, source: JsCode::Bytes(bytes) }),
    {
        JsModule { name: module, source: JsCode::Bytes(bytes) }
    }
}

/// How a piece of script text is to be evaluated. An unset option takes the
/// engine boundary's documented default.
#[derive(Debug, Clone)]
pub struct JsEvalOptions {
    /// Evaluate in global scope rather than module scope.
    pub global: Option<bool>,
    /// Enforce strict mode.
    pub strict: Option<bool>,
    /// Insert a backtrace barrier for error reporting.
    pub backtrace_barrier: Option<bool>,
    /// Drive the engine's job queue so the result may be a promise
    /// (top-level-await support).
    pub promise: Option<bool>,
}

impl Default for JsEvalOptions {
    /// Every option unset.
    fn default() -> (r: JsEvalOptions)
        ensures
            r == (JsEvalOptions {
                global: None::<bool>,
                strict: None::<bool>,
                backtrace_barrier: None::<bool>,
                promise: None::<bool>,
            }),
    {
        JsEvalOptions { global: None, strict: None, backtrace_barrier: None, promise: None }
    }
}

impl JsEvalOptions {
    /// Builds options from each field.
    pub fn new(
        global: Option<bool>,
        strict: Option<bool>,
        backtrace_barrier: Option<bool>,
        promise: Option<bool>,
    ) -> (r: JsEvalOptions)
        ensures
            r == (JsEvalOptions { global, strict, backtrace_barrier, promise }),
    {
        JsEvalOptions { global, strict, backtrace_barrier, promise }
    }

    /// Global scope, strict mode, no barrier, no promise support.
    pub fn defaults() -> (r: JsEvalOptions)
        ensures
            r == (JsEvalOptions {
                global: Some(true),
                strict: Some(true),
                backtrace_barrier: Some(false),
                promise: Some(false),
            }),
    {
        JsEvalOptions {
            global: Some(true),
            strict: Some(true),
            backtrace_barrier: Some(false),
            promise: Some(false),
        }
    }

    /// Global scope, strict mode, promise support on.
    pub fn with_promise() -> (r: JsEvalOptions)
        ensures
            r == (JsEvalOptions {
                global: Some(true),
                strict: Some(true),
                backtrace_barrier: Some(false),
                promise: Some(true),
            }),
    {
        JsEvalOptions {
            global: Some(true),
            strict: Some(true),
            backtrace_barrier: Some(false),
            promise: Some(true),
        }
    }

    /// Module scope, strict mode, promise support on.
    pub fn module() -> (r: JsEvalOptions)
        ensures
            r == (JsEvalOptions {
                global: Some(false),
                strict: Some(true),
                backtrace_barrier: Some(false),
                promise: Some(true),
            }),
    {
        JsEvalOptions {
            global: Some(false),
            strict: Some(true),
            backtrace_barrier: Some(false),
            promise: Some(true),
        }
    }
}

/// The first step of resolving a source: what is already at hand, or the
/// file the caller must consult.
#[derive(Debug)]
pub enum SourceResolution {
    /// The source bytes, available without touching the file system.
    Ready(Vec<u8>),
    /// The path of the file that holds the source. The caller must learn the
    /// file's size, have it admitted by [`admit_file_size`], and only then
    /// read.
    NeedsFile(String),
}

/// Resolves a source as far as it goes without the file system: inline text
/// yields its UTF-8 bytes and raw bytes yield themselves, synchronously and
/// infallibly, while a path source yields the path to consult.
pub fn resolve_source(source: JsCode) -> (r: SourceResolution)
    ensures
        match source {
            JsCode::Code(c) => r matches SourceResolution::Ready(b) && b@ == encode_utf8(c@),
            JsCode::Bytes(b) => r == SourceResolution::Ready(b),
            JsCode::Path(p) => r == SourceResolution::NeedsFile(p),
        },
{
    match source {
        JsCode::Code(c) => SourceResolution::Ready(c.as_str().as_bytes_vec()),
        JsCode::Bytes(b) => SourceResolution::Ready(b),
        JsCode::Path(p) => SourceResolution::NeedsFile(p),
    }
}

/// The message reported when a file exceeds the size ceiling.
pub open spec fn spec_size_refusal_message(size: u64) -> Seq<char> {
    "File size exceeds maximum allowed size: "@ + spec_u64_dec(size) + " bytes, max: "@
        + spec_u64_dec(MAX_FILE_SIZE) + " bytes"@
}

/// Decides, from the file's size alone and before any content is read,
/// whether a path source may be read: admission succeeds exactly when the
/// size is within [`MAX_FILE_SIZE`], and a refusal is an `Io` error naming
/// the path.
pub fn admit_file_size(path: &str, size: u64) -> (r: Result<(), JsError>)
    ensures
        r is Ok <==> size <= MAX_FILE_SIZE,
        r matches Err(e) ==> e matches JsError::Io { path: p, message } && p matches Some(q)
            && q@ == path@ && message@ == spec_size_refusal_message(size),
{
    if size <= MAX_FILE_SIZE {
        Ok(())
    } else {
        let mut m = String::from_str("File size exceeds maximum allowed size: ");
        let sz = u64_to_dec(size);
        m.append(sz.as_str());
        m.append(" bytes, max: ");
        let mx = u64_to_dec(MAX_FILE_SIZE);
        m.append(mx.as_str());
        m.append(" bytes");
        proof {
            assert(m@ =~= spec_size_refusal_message(size));
        }
        Err(JsError::Io { path: Some(path.to_owned()), message: m })
    }
}

/// Which built-in module units a runtime offers. Each flag toggles one
/// independently loadable unit; an unset flag leaves the unit out.
#[derive(Debug, Clone)]
pub struct JsBuiltinOptions {
    /// Abort-signal support, installed globally.
    pub abort: Option<bool>,
    /// The assertion unit.
    pub assert: Option<bool>,
    /// The async-hooks unit.
    pub async_hooks: Option<bool>,
    /// The binary-buffer unit.
    pub buffer: Option<bool>,
    /// The child-process unit.
    pub child_process: Option<bool>,
    /// The console unit.
    pub console: Option<bool>,
    /// The cryptography unit.
    pub crypto: Option<bool>,
    /// The name-resolution unit.
    pub dns: Option<bool>,
    /// The event-emitter unit.
    pub events: Option<bool>,
    /// Structured exception types, installed globally.
    pub exceptions: Option<bool>,
    /// Fetch support, installed globally.
    pub fetch: Option<bool>,
    /// The file-system unit.
    pub fs: Option<bool>,
    /// The navigator object, installed globally.
    pub navigator: Option<bool>,
    /// The networking unit.
    pub net: Option<bool>,
    /// The operating-system unit.
    pub os: Option<bool>,
    /// The path unit.
    pub path: Option<bool>,
    /// The performance-hooks unit.
    pub perf_hooks: Option<bool>,
    /// The process unit.
    pub process: Option<bool>,
    /// The web-streams unit.
    pub stream_web: Option<bool>,
    /// The string-decoder unit.
    pub string_decoder: Option<bool>,
    /// The timers unit.
    pub timers: Option<bool>,
    /// The teletype unit.
    pub tty: Option<bool>,
    /// The URL unit.
    pub url: Option<bool>,
    /// The utilities unit.
    pub util: Option<bool>,
    /// The compression unit.
    pub zlib: Option<bool>,
    /// Sharpened JSON static methods, installed globally.
    pub json: Option<bool>,
}

/// The options with every unit switched on.
pub open spec fn spec_builtin_all() -> JsBuiltinOptions {
    JsBuiltinOptions {
        abort: Some(true),
        assert: Some(true),
        async_hooks: Some(true),
        buffer: Some(true),
        child_process: Some(true),
        console: Some(true),
        crypto: Some(true),
        dns: Some(true),
        events: Some(true),
        exceptions: Some(true),
        fetch: Some(true),
        fs: Some(true),
        navigator: Some(true),
        net: Some(true),
        os: Some(true),
        path: Some(true),
        perf_hooks: Some(true),
        process: Some(true),
        stream_web: Some(true),
        string_decoder: Some(true),
        timers: Some(true),
        tty: Some(true),
        url: Some(true),
        util: Some(true),
        zlib: Some(true),
        json: Some(true),
    }
}

/// The options with every unit left out.
pub open spec fn spec_builtin_none() -> JsBuiltinOptions {
    JsBuiltinOptions {
        abort: None,
        assert: None,
        async_hooks: None,
        buffer: None,
        child_process: None,
        console: None,
        crypto: None,
        dns: None,
        events: None,
        exceptions: None,
        fetch: None,
        fs: None,
        navigator: None,
        net: None,
        os: None,
        path: None,
        perf_hooks: None,
        process: None,
        stream_web: None,
        string_decoder: None,
        timers: None,
        tty: None,
        url: None,
        util: None,
        zlib: None,
        json: None,
    }
}

impl Default for JsBuiltinOptions {
    /// Every unit left out.
    fn default() -> (r: JsBuiltinOptions)
        ensures
            r == spec_builtin_none(),
    {
        JsBuiltinOptions {
            abort: None,
            assert: None,
            async_hooks: None,
            buffer: None,
            child_process: None,
            console: None,
            crypto: None,
            dns: None,
            events: None,
            exceptions: None,
            fetch: None,
            fs: None,
            navigator: None,
            net: None,
            os: None,
            path: None,
            perf_hooks: None,
            process: None,
            stream_web: None,
            string_decoder: None,
            timers: None,
            tty: None,
            url: None,
            util: None,
            zlib: None,
            json: None,
        }
    }
}

impl JsBuiltinOptions {
    /// Every unit switched on.
    pub fn all() -> (r: JsBuiltinOptions)
        ensures
            r == spec_builtin_all(),
    {
        JsBuiltinOptions {
            abort: Some(true),
            assert: Some(true),
            async_hooks: Some(true),
            buffer: Some(true),
            child_process: Some(true),
            console: Some(true),
            crypto: Some(true),
            dns: Some(true),
            events: Some(true),
            exceptions: Some(true),
            fetch: Some(true),
            fs: Some(true),
            navigator: Some(true),
            net: Some(true),
            os: Some(true),
            path: Some(true),
            perf_hooks: Some(true),
            process: Some(true),
            stream_web: Some(true),
            string_decoder: Some(true),
            timers: Some(true),
            tty: Some(true),
            url: Some(true),
            util: Some(true),
            zlib: Some(true),
            json: Some(true),
        }
    }

    /// Every unit left out.
    pub fn none() -> (r: JsBuiltinOptions)
        ensures
            r == spec_builtin_none(),
    {
        JsBuiltinOptions::default()
    }

    /// The essential units: console, timers, buffer, util and JSON.
    pub fn essential() -> (r: JsBuiltinOptions)
        ensures
            r == (JsBuiltinOptions {
                console: Some(true),
                timers: Some(true),
                buffer: Some(true),
                util: Some(true),
                json: Some(true),
                ..spec_builtin_none()
            }),
    {
        JsBuiltinOptions {
            console: Some(true),
            timers: Some(true),
            buffer: Some(true),
            util: Some(true),
            json: Some(true),
            ..JsBuiltinOptions::default()
        }
    }

    /// A web-like environment: console, timers, fetch, URL, cryptography,
    /// web streams, the navigator object, exceptions and JSON.
    pub fn web() -> (r: JsBuiltinOptions)
        ensures
            r == (JsBuiltinOptions {
                console: Some(true),
                timers: Some(true),
                fetch: Some(true),
                url: Some(true),
                crypto: Some(true),
                stream_web: Some(true),
                navigator: Some(true),
                exceptions: Some(true),
                json: Some(true),
                ..spec_builtin_none()
            }),
    {
        JsBuiltinOptions {
            console: Some(true),
            timers: Some(true),
            fetch: Some(true),
            url: Some(true),
            crypto: Some(true),
            stream_web: Some(true),
            navigator: Some(true),
            exceptions: Some(true),
            json: Some(true),
            ..JsBuiltinOptions::default()
        }
    }

    /// A server-like environment: most units, without the machine-specific
    /// ones.
    pub fn node() -> (r: JsBuiltinOptions)
        ensures
            r == (JsBuiltinOptions {
                abort: Some(true),
                assert: Some(true),
                async_hooks: Some(true),
                buffer: Some(true),
                console: Some(true),
                crypto: Some(true),
                dns: Some(true),
                events: Some(true),
                exceptions: Some(true),
                fs: Some(true),
                path: Some(true),
                perf_hooks: Some(true),
                process: Some(true),
                stream_web: Some(true),
                string_decoder: Some(true),
                timers: Some(true),
                url: Some(true),
                util: Some(true),
                json: Some(true),
                ..spec_builtin_none()
            }),
    {
        JsBuiltinOptions {
            abort: Some(true),
            assert: Some(true),
            async_hooks: Some(true),
            buffer: Some(true),
            console: Some(true),
            crypto: Some(true),
            dns: Some(true),
            events: Some(true),
            exceptions: Some(true),
            fs: Some(true),
            path: Some(true),
            perf_hooks: Some(true),
            process: Some(true),
            stream_web: Some(true),
            string_decoder: Some(true),
            timers: Some(true),
            url: Some(true),
            util: Some(true),
            json: Some(true),
            ..JsBuiltinOptions::default()
        }
    }
}

} // verus!
