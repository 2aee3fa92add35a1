//! Tests for source descriptors, the module registry tiers and the global
//! attachment.

use libfjs::module::{
    ContextLocals, DynamicModuleLoader, DynamicModuleResolver, DynamicModuleStore,
    GlobalAttachment, ModuleBuilder, ModuleNames, ModuleRegistry, ModuleResolver, ModuleSource,
    ModuleUnits,
};
use libfjs::source::{resolve_source, JsBuiltinOptions, JsCode, JsModule, SourceResolution};

#[test]
fn test_jscode_code_creation() {
    let code = JsCode::Code("console.log('hello')".to_string());
    assert!(code.is_code());
    assert!(!code.is_path());
    assert!(!code.is_bytes());
}

#[test]
fn test_jscode_path_creation() {
    let code = JsCode::Path("/path/to/script.js".to_string());
    assert!(code.is_path());
    assert!(!code.is_code());
    assert!(!code.is_bytes());
    assert_eq!(code.as_path(), Some("/path/to/script.js"));
}

#[test]
fn test_jscode_bytes_creation() {
    let code = JsCode::Bytes(vec![1, 2, 3]);
    assert!(code.is_bytes());
    assert!(!code.is_code());
    assert!(!code.is_path());
}

#[test]
fn test_jscode_code_helper() {
    let code = JsCode::code("test".to_string());
    assert!(code.is_code());
}

#[test]
fn test_jscode_path_helper() {
    let code = JsCode::path("/test.js".to_string());
    assert!(code.is_path());
}

#[test]
fn test_jscode_bytes_helper() {
    let code = JsCode::bytes(vec![1, 2, 3]);
    assert!(code.is_bytes());
}

#[test]
fn test_jscode_clone() {
    let code = JsCode::Code("test".to_string());
    let cloned = code.clone();
    assert_eq!(code, cloned);
}

#[test]
fn test_jscode_eq() {
    let code1 = JsCode::Code("test".to_string());
    let code2 = JsCode::Code("test".to_string());
    let code3 = JsCode::Code("different".to_string());

    assert_eq!(code1, code2);
    assert_ne!(code1, code3);
}

#[test]
fn test_jscode_hash() {
    let mut set = std::collections::HashSet::new();
    set.insert(JsCode::Code("test".to_string()));
    set.insert(JsCode::Code("test".to_string()));

    assert_eq!(set.len(), 1);
}

#[test]
fn test_jscode_ord() {
    let code1 = JsCode::Code("a".to_string());
    let code2 = JsCode::Code("b".to_string());

    assert!(code1 < code2);
}

#[test]
fn test_jsmodule_new() {
    let module = JsModule::new("test".to_string(), JsCode::Code("code".to_string()));
    assert_eq!(module.name, "test");
}

#[test]
fn test_jsmodule_code() {
    let module = JsModule::code("test".to_string(), "export const x = 1;".to_string());
    assert_eq!(module.name, "test");
    assert!(module.source.is_code());
}

#[test]
fn test_jsmodule_path() {
    let module = JsModule::path("test".to_string(), "/path/to/module.js".to_string());
    assert_eq!(module.name, "test");
    assert!(module.source.is_path());
}

#[test]
fn test_jsmodule_bytes() {
    let module = JsModule::bytes("test".to_string(), vec![1, 2, 3]);
    assert_eq!(module.name, "test");
    assert!(module.source.is_bytes());
}

#[test]
fn test_jsmodule_clone() {
    let module = JsModule::code("test".to_string(), "code".to_string());
    let cloned = module.clone();
    assert_eq!(module.name, cloned.name);
}

#[test]
fn test_jsmodule_eq() {
    let module1 = JsModule::code("test".to_string(), "code".to_string());
    let module2 = JsModule::code("test".to_string(), "code".to_string());
    let module3 = JsModule::code("different".to_string(), "code".to_string());

    assert_eq!(module1, module2);
    assert_ne!(module1, module3);
}

#[test]
fn test_jsmodule_hash() {
    let mut set = std::collections::HashSet::new();
    set.insert(JsModule::code("test".to_string(), "code".to_string()));
    set.insert(JsModule::code("test".to_string(), "code".to_string()));

    assert_eq!(set.len(), 1);
}

#[test]
fn test_get_raw_source_code_sync_from_code() {
    let code = JsCode::Code("test code".to_string());
    match resolve_source(code) {
        SourceResolution::Ready(bytes) => assert_eq!(bytes, b"test code".to_vec()),
        SourceResolution::NeedsFile(_) => panic!("inline text must resolve without a file"),
    }
}

#[test]
fn test_get_raw_source_code_sync_from_bytes() {
    let data = vec![1, 2, 3, 4];
    let code = JsCode::Bytes(data.clone());
    match resolve_source(code) {
        SourceResolution::Ready(bytes) => assert_eq!(bytes, data),
        SourceResolution::NeedsFile(_) => panic!("raw bytes must resolve without a file"),
    }
}

#[test]
fn test_resolve_source_path_defers_to_file() {
    let code = JsCode::Path("/srv/mod.js".to_string());
    match resolve_source(code) {
        SourceResolution::NeedsFile(p) => assert_eq!(p, "/srv/mod.js"),
        SourceResolution::Ready(_) => panic!("a path source needs the file system"),
    }
}

#[test]
fn test_builtin_options_to_module_builder() {
    let options = JsBuiltinOptions::essential();
    let _builder = options.to_module_builder();
}

#[test]
fn test_builtin_options_all_to_module_builder() {
    let options = JsBuiltinOptions::all();
    let _builder = options.to_module_builder();
}

#[test]
fn test_builtin_options_none_to_module_builder() {
    let options = JsBuiltinOptions::none();
    let _builder = options.to_module_builder();
}

#[test]
fn test_builtin_builder_unit_names() {
    let (resolver, units, attachment) = JsBuiltinOptions::essential().to_module_builder().build();
    // console, timers, buffer, util and the JSON global.
    for name in ["console", "timers", "buffer", "util"] {
        assert!(units.has(name), "missing unit {name}");
        assert!(resolver.can_resolve(name));
    }
    assert!(!units.has("fs"));
    assert!(!units.has("crypto"));
    let _ = attachment;
}

#[test]
fn test_builtin_builder_fs_serves_both_names() {
    let opts = JsBuiltinOptions {
        fs: Some(true),
        ..JsBuiltinOptions::default()
    };
    let (_, units, _) = opts.to_module_builder().build();
    assert!(units.has("fs"));
    assert!(units.has("fs/promises"));
}

#[test]
fn test_dynamic_module_resolver_not_found() {
    let resolver = DynamicModuleResolver::default();
    let result = resolver.resolve(None, ".", "nonexistent");
    assert!(result.is_none());
}

#[test]
fn test_dynamic_module_resolver_found() {
    let mut store = DynamicModuleStore::new();
    store.insert("test-module".to_string(), b"export const x = 1;".to_vec());

    let resolver = DynamicModuleResolver::default();
    let result = resolver.resolve(Some(&store), ".", "test-module");
    assert!(result.is_some());
    assert_eq!(result.unwrap(), "test-module");
}

#[test]
fn test_dynamic_module_loader_not_found() {
    let loader = DynamicModuleLoader::default();
    let result = loader.load(None, "nonexistent");
    assert!(result.is_none());
}

#[test]
fn test_dynamic_module_loader_found() {
    let mut store = DynamicModuleStore::new();
    store.insert("test-module".to_string(), b"export const x = 1;".to_vec());

    let loader = DynamicModuleLoader::default();
    let result = loader.load(Some(&store), "test-module");
    assert!(result.is_some());
    assert_eq!(result.unwrap(), b"export const x = 1;".to_vec());
}

#[test]
fn test_module_names_new() {
    let names = vec!["module1".to_string(), "module2".to_string()];

    let module_names = ModuleNames::new(names);
    let list = module_names.get_list();

    assert_eq!(list.len(), 2);
    assert!(list.contains(&"module1".to_string()));
    assert!(list.contains(&"module2".to_string()));
}

#[test]
fn test_global_attachment_default() {
    let attachment = GlobalAttachment::new();
    let mut locals = ContextLocals::with_store();
    let run = attachment.attach(&mut locals);
    assert!(run);
    assert!(locals.attached);
}

#[test]
fn test_global_attachment_add_name() {
    let attachment = GlobalAttachment::new().add_name("test-module".to_string());
    let mut locals = ContextLocals::with_store();
    let run = attachment.attach(&mut locals);
    assert!(run);
    let names = locals.module_names.expect("names must be recorded").get_list();
    assert!(names.contains(&"test-module".to_string()));
}

#[test]
fn test_global_attachment_add_function() {
    let attachment = GlobalAttachment::new().add_function();
    let mut locals = ContextLocals::with_store();
    // The caller runs its registered initializer exactly when told to.
    let run = attachment.attach(&mut locals);
    assert!(run);
}

#[test]
fn test_global_attachment_multiple_attach() {
    let attachment = GlobalAttachment::new();
    let mut locals = ContextLocals::with_store();

    let first = attachment.attach(&mut locals);
    assert!(first);

    // A second attach is a no-op: the initializers must not run again.
    let second = attachment.attach(&mut locals);
    assert!(!second);
    assert!(locals.attached);
}

#[test]
fn test_module_resolver_add_name() {
    let resolver = ModuleResolver::new().add_name("test-module".to_string());
    let result = resolver.resolve(".", "test-module");
    assert!(result.is_ok());
}

#[test]
fn test_module_resolver_not_found() {
    let resolver = ModuleResolver::new().add_name("existing".to_string());
    let result = resolver.resolve(".", "nonexistent");
    assert!(result.is_err());
}

#[test]
fn test_module_resolver_node_prefix() {
    let resolver = ModuleResolver::new().add_name("fs".to_string());
    let result = resolver.resolve(".", "node:fs");
    assert!(result.is_ok());
    assert_eq!(result.unwrap(), "fs");
}

#[test]
fn test_module_builder_new() {
    let builder = ModuleBuilder::new();
    let (resolver, units, attachment) = builder.build();
    let _ = resolver;
    let _ = units;
    let _ = attachment;
}

#[test]
fn test_module_builder_with_global() {
    let builder = ModuleBuilder::new().with_global();
    let (_resolver, _units, attachment) = builder.build();

    let mut locals = ContextLocals::with_store();
    let run = attachment.attach(&mut locals);
    assert!(run);
}

#[test]
fn test_store_insert_and_contains() {
    let mut store = DynamicModuleStore::new();
    assert!(!store.contains("m"));
    store.insert("m".to_string(), vec![1]);
    assert!(store.contains("m"));
    assert_eq!(store.get("m"), Some(&vec![1u8]));
}

#[test]
fn test_store_overwrite_keeps_second_source() {
    let mut store = DynamicModuleStore::new();
    store.insert("m".to_string(), b"first".to_vec());
    store.insert("m".to_string(), b"second".to_vec());
    assert_eq!(store.get("m"), Some(&b"second".to_vec()));
    assert_eq!(store.names().len(), 1);
}

#[test]
fn test_store_clear_undeclares_everything() {
    let mut store = DynamicModuleStore::new();
    store.insert("a".to_string(), vec![1]);
    store.insert("b".to_string(), vec![2]);
    assert_eq!(store.names().len(), 2);
    store.clear();
    assert!(!store.contains("a"));
    assert!(!store.contains("b"));
    assert!(store.names().is_empty());
}

#[test]
fn test_registry_precedence_builtin_first() {
    let registry = ModuleRegistry {
        builtin: ModuleResolver::new().add_name("path".to_string()),
        units: ModuleUnits::new().add("path".to_string()),
        additional: DynamicModuleStore::new(),
    };
    let mut dynamic = DynamicModuleStore::new();
    dynamic.insert("path".to_string(), b"shadowed".to_vec());

    // The built-in tier wins even when the dynamic store knows the name.
    let resolved = registry.resolve(Some(&dynamic), ".", "node:path").unwrap();
    assert_eq!(resolved, "path");
    assert!(matches!(
        registry.load(Some(&dynamic), "path").unwrap(),
        ModuleSource::Native
    ));
}

#[test]
fn test_registry_additional_then_dynamic() {
    let mut additional = DynamicModuleStore::new();
    additional.insert("pre".to_string(), b"preloaded".to_vec());
    let registry = ModuleRegistry {
        builtin: ModuleResolver::new(),
        units: ModuleUnits::new(),
        additional,
    };

    let mut dynamic = DynamicModuleStore::new();
    dynamic.insert("dyn".to_string(), b"registered later".to_vec());

    assert_eq!(registry.resolve(Some(&dynamic), ".", "pre").unwrap(), "pre");
    match registry.load(Some(&dynamic), "pre").unwrap() {
        ModuleSource::Text(bytes) => assert_eq!(bytes, b"preloaded".to_vec()),
        ModuleSource::Native => panic!("a preloaded module carries text"),
    }

    assert_eq!(registry.resolve(Some(&dynamic), ".", "dyn").unwrap(), "dyn");
    match registry.load(Some(&dynamic), "dyn").unwrap() {
        ModuleSource::Text(bytes) => assert_eq!(bytes, b"registered later".to_vec()),
        ModuleSource::Native => panic!("a dynamic module carries text"),
    }
}

#[test]
fn test_registry_miss_surfaces_not_found() {
    let registry = ModuleRegistry {
        builtin: ModuleResolver::new(),
        units: ModuleUnits::new(),
        additional: DynamicModuleStore::new(),
    };
    let err = registry.resolve(None, ".", "missing").unwrap_err();
    match err {
        libfjs::error::JsError::Module { module, method, message } => {
            assert_eq!(module, Some("missing".to_string()));
            assert_eq!(method, None);
            assert_eq!(message, "module not found");
        }
        _ => panic!("expected a module error"),
    }
}
