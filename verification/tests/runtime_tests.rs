//! Tests for evaluation options, built-in unit options and the memory
//! statistics model.

use libfjs::memory::MemoryUsage;
use libfjs::source::{JsBuiltinOptions, JsEvalOptions};

#[test]
fn test_eval_options_defaults() {
    let options = JsEvalOptions::defaults();
    assert_eq!(options.global, Some(true));
    assert_eq!(options.strict, Some(true));
    assert_eq!(options.backtrace_barrier, Some(false));
    assert_eq!(options.promise, Some(false));
}

#[test]
fn test_eval_options_with_promise() {
    let options = JsEvalOptions::with_promise();
    assert_eq!(options.global, Some(true));
    assert_eq!(options.strict, Some(true));
    assert_eq!(options.promise, Some(true));
}

#[test]
fn test_eval_options_module() {
    let options = JsEvalOptions::module();
    assert_eq!(options.global, Some(false));
    assert_eq!(options.strict, Some(true));
    assert_eq!(options.promise, Some(true));
}

#[test]
fn test_eval_options_new() {
    let options = JsEvalOptions::new(Some(false), Some(false), Some(true), Some(true));
    assert_eq!(options.global, Some(false));
    assert_eq!(options.strict, Some(false));
    assert_eq!(options.backtrace_barrier, Some(true));
    assert_eq!(options.promise, Some(true));
}

#[test]
fn test_eval_options_unset() {
    let options = JsEvalOptions::default();
    assert_eq!(options.global, None);
    assert_eq!(options.strict, None);
    assert_eq!(options.backtrace_barrier, None);
    assert_eq!(options.promise, None);
}

#[test]
fn test_builtin_options_all() {
    let options = JsBuiltinOptions::all();
    assert_eq!(options.console, Some(true));
    assert_eq!(options.buffer, Some(true));
    assert_eq!(options.crypto, Some(true));
    assert_eq!(options.zlib, Some(true));
    assert_eq!(options.json, Some(true));
}

#[test]
fn test_builtin_options_none() {
    let options = JsBuiltinOptions::none();
    assert_eq!(options.console, None);
    assert_eq!(options.buffer, None);
    assert_eq!(options.crypto, None);
}

#[test]
fn test_builtin_options_essential() {
    let options = JsBuiltinOptions::essential();
    assert_eq!(options.console, Some(true));
    assert_eq!(options.timers, Some(true));
    assert_eq!(options.buffer, Some(true));
    assert_eq!(options.util, Some(true));
    assert_eq!(options.json, Some(true));
    assert_eq!(options.fs, None);
}

#[test]
fn test_builtin_options_web() {
    let options = JsBuiltinOptions::web();
    assert_eq!(options.console, Some(true));
    assert_eq!(options.fetch, Some(true));
    assert_eq!(options.url, Some(true));
    assert_eq!(options.crypto, Some(true));
    assert_eq!(options.stream_web, Some(true));
    assert_eq!(options.navigator, Some(true));
    assert_eq!(options.fs, None);
}

#[test]
fn test_builtin_options_node() {
    let options = JsBuiltinOptions::node();
    assert_eq!(options.fs, Some(true));
    assert_eq!(options.path, Some(true));
    assert_eq!(options.process, Some(true));
    assert_eq!(options.crypto, Some(true));
    assert_eq!(options.os, None);
    assert_eq!(options.tty, None);
}

#[test]
fn test_builtin_options_default() {
    let options = JsBuiltinOptions::default();
    assert_eq!(options.abort, None);
    assert_eq!(options.json, None);
}

fn zeroed_usage() -> MemoryUsage {
    MemoryUsage {
        malloc_size: 0,
        malloc_limit: 0,
        memory_used_size: 0,
        malloc_count: 0,
        memory_used_count: 0,
        atom_count: 0,
        atom_size: 0,
        str_count: 0,
        str_size: 0,
        obj_count: 0,
        obj_size: 0,
        prop_count: 0,
        prop_size: 0,
        shape_count: 0,
        shape_size: 0,
        js_func_count: 0,
        js_func_size: 0,
        js_func_code_size: 0,
        js_func_pc2line_count: 0,
        js_func_pc2line_size: 0,
        c_func_count: 0,
        array_count: 0,
        fast_array_count: 0,
        fast_array_elements: 0,
        binary_object_count: 0,
        binary_object_size: 0,
    }
}

#[test]
fn test_memory_usage_totals() {
    let mut usage = zeroed_usage();
    usage.memory_used_size = 4096;
    usage.malloc_count = 17;
    assert_eq!(usage.total_memory(), 4096);
    assert_eq!(usage.total_allocations(), 17);
}

#[test]
fn test_memory_usage_summary() {
    let mut usage = zeroed_usage();
    usage.memory_used_size = 1024;
    usage.obj_count = 10;
    usage.js_func_count = 3;
    usage.str_count = 7;
    assert_eq!(
        usage.summary(),
        "Memory: 1024 bytes, Objects: 10, Functions: 3, Strings: 7"
    );
}

#[test]
fn test_memory_usage_summary_negative_counter() {
    let mut usage = zeroed_usage();
    usage.memory_used_size = -1;
    assert_eq!(
        usage.summary(),
        "Memory: -1 bytes, Objects: 0, Functions: 0, Strings: 0"
    );
}

#[test]
fn test_memory_usage_clone() {
    let usage = zeroed_usage();
    let cloned = usage;
    assert_eq!(usage, cloned);
}
