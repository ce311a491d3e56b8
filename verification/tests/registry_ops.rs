use analyzer_session::args::ArgType;
use analyzer_session::commands::default_registry;
use analyzer_session::errors::ErrorKind;
use analyzer_session::registry::{CommandDescriptor, ExtractKind, Registry};

fn simple(name: &str) -> CommandDescriptor {
    CommandDescriptor {
        name: name.to_string(),
        fields: Vec::new(),
        methods: vec!["analysis/run".to_string()],
        doc_args: Vec::new(),
        timeout_ms: 1000,
        extract: ExtractKind::TextSummary,
    }
}

#[test]
fn duplicate_registration_fails_fast() {
    let mut reg = Registry::new();
    assert!(reg.register(simple("alpha")).is_ok());
    assert_eq!(reg.register(simple("alpha")).unwrap_err(), ErrorKind::DuplicateCommand);
    assert_eq!(reg.commands.len(), 1);
    assert!(reg.register(simple("beta")).is_ok());
    assert_eq!(reg.commands.len(), 2);
}

#[test]
fn default_registry_holds_every_operation() {
    let reg = default_registry();
    let names = reg.names();
    assert_eq!(names.len(), 22);
    for expected in [
        "find_definition",
        "find_references",
        "get_diagnostics",
        "workspace_symbols",
        "rename_symbol",
        "format_code",
        "analyze_manifest",
        "run_cargo_check",
        "extract_function",
        "generate_struct",
        "generate_enum",
        "generate_trait_impl",
        "generate_tests",
        "inline_function",
        "change_signature",
        "organize_imports",
        "apply_clippy_suggestions",
        "validate_lifetimes",
        "get_type_hierarchy",
        "suggest_dependencies",
        "create_module",
        "move_items",
    ] {
        assert!(names.iter().any(|n| n == expected), "missing {expected}");
    }
}

#[test]
fn whole_project_commands_wait_longer_than_navigation() {
    let reg = default_registry();
    let check = reg.find("run_cargo_check").unwrap().timeout_ms;
    let nav = reg.find("find_definition").unwrap().timeout_ms;
    assert!(check > nav);
}

#[test]
fn rename_is_a_two_step_sequence() {
    let reg = default_registry();
    let d = reg.find("rename_symbol").unwrap();
    assert_eq!(d.methods.len(), 2);
    assert_eq!(d.methods[0], "textDocument/prepareRename");
    assert_eq!(d.methods[1], "textDocument/rename");
}

#[test]
fn schema_shapes_match_the_operations() {
    let reg = default_registry();
    let d = reg.find("generate_struct").unwrap();
    let derives = d.fields.iter().find(|f| f.name == "derives").unwrap();
    assert!(!derives.required);
    assert_eq!(derives.ty, ArgType::List);
    let fields = d.fields.iter().find(|f| f.name == "fields").unwrap();
    assert!(fields.required);
    let d = reg.find("create_module").unwrap();
    let is_public = d.fields.iter().find(|f| f.name == "is_public").unwrap();
    assert_eq!(is_public.ty, ArgType::Flag);
}
