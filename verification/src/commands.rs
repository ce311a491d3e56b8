//! The default command set: every supported operation registered once.

use vstd::prelude::*;

use crate::args::ArgType;
use crate::registry::{
    spec_find, unique_names, CommandDescriptor, ExtractKind, FieldSpec, Registry,
};

verus! {

/// A required schema field.
fn req(name: &str, ty: ArgType) -> (r: FieldSpec)
    ensures
        r.name@ == name@,
        r.ty == ty,
        r.required,
{
    FieldSpec { name: name.to_owned(), ty, required: true }
}

/// An optional schema field.
fn opt(name: &str, ty: ArgType) -> (r: FieldSpec)
    ensures
        r.name@ == name@,
        r.ty == ty,
        !r.required,
{
    FieldSpec { name: name.to_owned(), ty, required: false }
}

/// A one-step descriptor skeleton; fields and document arguments are
/// pushed by the caller.
fn cmd(name: &str, method: &str, timeout_ms: u64, extract: ExtractKind) -> (r: CommandDescriptor)
    ensures
        r.name@ == name@,
        r.methods@.len() == 1,
        r.methods@[0]@ == method@,
        r.fields@.len() == 0,
        r.doc_args@.len() == 0,
        r.timeout_ms == timeout_ms,
        r.extract == extract,
{
    let mut methods: Vec<String> = Vec::new();
    methods.push(method.to_owned());
    CommandDescriptor {
        name: name.to_owned(),
        fields: Vec::new(),
        methods,
        doc_args: Vec::new(),
        timeout_ms,
        extract,
    }
}

/// Whether the registry maps `name` to exactly this descriptor: these
/// protocol methods in this order, this schema, these document
/// arguments, this timeout and this result shape.
pub open spec fn has_command(
    r: Registry,
    name: Seq<char>,
    methods: Seq<Seq<char>>,
    fields: Seq<(Seq<char>, ArgType, bool)>,
    doc_args: Seq<Seq<char>>,
    timeout_ms: u64,
    extract: ExtractKind,
) -> bool {
    spec_find(r.commands@, name) matches Some(d) && {
        &&& d.name@ == name
        &&& d.methods@.len() == methods.len()
        &&& (forall|j: int| 0 <= j < methods.len() ==> (#[trigger] d.methods@[j])@ == methods[j])
        &&& d.fields@.len() == fields.len()
        &&& (forall|j: int|
            0 <= j < fields.len() ==> ((#[trigger] d.fields@[j]).name@ == fields[j].0
                && d.fields@[j].ty == fields[j].1 && d.fields@[j].required == fields[j].2))
        &&& d.doc_args@.len() == doc_args.len()
        &&& (forall|j: int| 0 <= j < doc_args.len() ==> (#[trigger] d.doc_args@[j])@ == doc_args[j])
        &&& d.timeout_ms == timeout_ms
        &&& d.extract == extract
    }
}

/// Registers every supported operation once; `register` would fail fast
/// on a duplicate, and the names are pairwise distinct, so every
/// registration succeeds and the returned registry holds exactly these
/// twenty-two operations.
#[verifier::rlimit(100)]
pub fn default_registry() -> (r: Registry)
    ensures
        r.commands@.len() == 22,
        unique_names(r.commands@),

        has_command(
            r,
            "find_definition"@,
            seq!["textDocument/definition"@],
            seq![("file_path"@, ArgType::Text, true), ("line"@, ArgType::Nat, true), ("character"@, ArgType::Nat, true)],
            seq!["file_path"@],
            5000,
            ExtractKind::LocationList,
        ),
        has_command(
            r,
            "find_references"@,
            seq!["textDocument/references"@],
            seq![("file_path"@, ArgType::Text, true), ("line"@, ArgType::Nat, true), ("character"@, ArgType::Nat, true)],
            seq!["file_path"@],
            5000,
            ExtractKind::LocationList,
        ),
        has_command(
            r,
            "get_diagnostics"@,
            Seq::empty(),
            seq![("file_path"@, ArgType::Text, true)],
            Seq::empty(),
            5000,
            ExtractKind::CachedDiagnostics,
        ),
        has_command(
            r,
            "workspace_symbols"@,
            seq!["workspace/symbol"@],
            seq![("query"@, ArgType::Text, true)],
            Seq::empty(),
            30000,
            ExtractKind::LocationList,
        ),
        has_command(
            r,
            "rename_symbol"@,
            seq!["textDocument/prepareRename"@, "textDocument/rename"@],
            seq![("file_path"@, ArgType::Text, true), ("line"@, ArgType::Nat, true), ("character"@, ArgType::Nat, true), ("new_name"@, ArgType::Text, true)],
            seq!["file_path"@],
            10000,
            ExtractKind::EditList,
        ),
        has_command(
            r,
            "format_code"@,
            seq!["textDocument/formatting"@],
            seq![("file_path"@, ArgType::Text, true)],
            seq!["file_path"@],
            10000,
            ExtractKind::EditList,
        ),
        has_command(
            r,
            "analyze_manifest"@,
            seq!["workspace/analyzeManifest"@],
            seq![("manifest_path"@, ArgType::Text, true)],
            Seq::empty(),
            30000,
            ExtractKind::TextSummary,
        ),
        has_command(
            r,
            "run_cargo_check"@,
            seq!["workspace/runCheck"@],
            seq![("workspace_path"@, ArgType::Text, true)],
            Seq::empty(),
            60000,
            ExtractKind::TextSummary,
        ),
        has_command(
            r,
            "extract_function"@,
            seq!["refactor/extractFunction"@],
            seq![("file_path"@, ArgType::Text, true), ("start_line"@, ArgType::Nat, true), ("start_character"@, ArgType::Nat, true), ("end_line"@, ArgType::Nat, true), ("end_character"@, ArgType::Nat, true), ("function_name"@, ArgType::Text, true)],
            seq!["file_path"@],
            15000,
            ExtractKind::EditList,
        ),
        has_command(
            r,
            "generate_struct"@,
            seq!["codegen/struct"@],
            seq![("struct_name"@, ArgType::Text, true), ("fields"@, ArgType::List, true), ("derives"@, ArgType::List, false), ("file_path"@, ArgType::Text, true)],
            seq!["file_path"@],
            15000,
            ExtractKind::EditList,
        ),
        has_command(
            r,
            "generate_enum"@,
            seq!["codegen/enum"@],
            seq![("enum_name"@, ArgType::Text, true), ("variants"@, ArgType::List, true), ("derives"@, ArgType::List, false), ("file_path"@, ArgType::Text, true)],
            seq!["file_path"@],
            15000,
            ExtractKind::EditList,
        ),
        has_command(
            r,
            "generate_trait_impl"@,
            seq!["codegen/traitImpl"@],
            seq![("trait_name"@, ArgType::Text, true), ("struct_name"@, ArgType::Text, true), ("file_path"@, ArgType::Text, true)],
            seq!["file_path"@],
            15000,
            ExtractKind::EditList,
        ),
        has_command(
            r,
            "generate_tests"@,
            seq!["codegen/tests"@],
            seq![("target_function"@, ArgType::Text, true), ("file_path"@, ArgType::Text, true), ("test_cases"@, ArgType::List, false)],
            seq!["file_path"@],
            15000,
            ExtractKind::EditList,
        ),
        has_command(
            r,
            "inline_function"@,
            seq!["refactor/inlineFunction"@],
            seq![("file_path"@, ArgType::Text, true), ("line"@, ArgType::Nat, true), ("character"@, ArgType::Nat, true)],
            seq!["file_path"@],
            15000,
            ExtractKind::EditList,
        ),
        has_command(
            r,
            "change_signature"@,
            seq!["refactor/changeSignature"@],
            seq![("file_path"@, ArgType::Text, true), ("line"@, ArgType::Nat, true), ("character"@, ArgType::Nat, true), ("new_signature"@, ArgType::Text, true)],
            seq!["file_path"@],
            15000,
            ExtractKind::EditList,
        ),
        has_command(
            r,
            "organize_imports"@,
            seq!["source/organizeImports"@],
            seq![("file_path"@, ArgType::Text, true)],
            seq!["file_path"@],
            10000,
            ExtractKind::EditList,
        ),
        has_command(
            r,
            "apply_clippy_suggestions"@,
            seq!["source/applyLintFixes"@],
            seq![("file_path"@, ArgType::Text, true)],
            seq!["file_path"@],
            30000,
            ExtractKind::EditList,
        ),
        has_command(
            r,
            "validate_lifetimes"@,
            seq!["analysis/validateLifetimes"@],
            seq![("file_path"@, ArgType::Text, true)],
            seq!["file_path"@],
            15000,
            ExtractKind::TextSummary,
        ),
        has_command(
            r,
            "get_type_hierarchy"@,
            seq!["typeHierarchy/resolve"@],
            seq![("file_path"@, ArgType::Text, true), ("line"@, ArgType::Nat, true), ("character"@, ArgType::Nat, true)],
            seq!["file_path"@],
            15000,
            ExtractKind::TextSummary,
        ),
        has_command(
            r,
            "suggest_dependencies"@,
            seq!["workspace/suggestDependencies"@],
            seq![("query"@, ArgType::Text, true), ("workspace_path"@, ArgType::Text, true)],
            Seq::empty(),
            30000,
            ExtractKind::TextSummary,
        ),
        has_command(
            r,
            "create_module"@,
            seq!["workspace/createModule"@],
            seq![("module_name"@, ArgType::Text, true), ("module_path"@, ArgType::Text, true), ("is_public"@, ArgType::Flag, true)],
            Seq::empty(),
            15000,
            ExtractKind::TextSummary,
        ),
        has_command(
            r,
            "move_items"@,
            seq!["refactor/moveItems"@],
            seq![("source_file"@, ArgType::Text, true), ("target_file"@, ArgType::Text, true), ("item_names"@, ArgType::List, true)],
            seq!["source_file"@, "target_file"@],
            15000,
            ExtractKind::EditList,
        ),

{
    let mut reg = Registry::new();
    proof {

        reveal_strlit("find_definition");
        reveal_strlit("find_references");
        reveal_strlit("get_diagnostics");
        reveal_strlit("workspace_symbols");
        reveal_strlit("rename_symbol");
        reveal_strlit("format_code");
        reveal_strlit("analyze_manifest");
        reveal_strlit("run_cargo_check");
        reveal_strlit("extract_function");
        reveal_strlit("generate_struct");
        reveal_strlit("generate_enum");
        reveal_strlit("generate_trait_impl");
        reveal_strlit("generate_tests");
        reveal_strlit("inline_function");
        reveal_strlit("change_signature");
        reveal_strlit("organize_imports");
        reveal_strlit("apply_clippy_suggestions");
        reveal_strlit("validate_lifetimes");
        reveal_strlit("get_type_hierarchy");
        reveal_strlit("suggest_dependencies");
        reveal_strlit("create_module");
        reveal_strlit("move_items");
        assert("find_definition"@ != "find_references"@) by {
            assert("find_definition"@[5] != "find_references"@[5]);
        }
        assert("find_definition"@ != "get_diagnostics"@) by {
            assert("find_definition"@[0] != "get_diagnostics"@[0]);
        }
        assert("find_definition"@ != "workspace_symbols"@) by {
            assert("find_definition"@.len() != "workspace_symbols"@.len());
        }
        assert("find_definition"@ != "rename_symbol"@) by {
            assert("find_definition"@.len() != "rename_symbol"@.len());
        }
        assert("find_definition"@ != "format_code"@) by {
            assert("find_definition"@.len() != "format_code"@.len());
        }
        assert("find_definition"@ != "analyze_manifest"@) by {
            assert("find_definition"@.len() != "analyze_manifest"@.len());
        }
        assert("find_definition"@ != "run_cargo_check"@) by {
            assert("find_definition"@[0] != "run_cargo_check"@[0]);
        }
        assert("find_definition"@ != "extract_function"@) by {
            assert("find_definition"@.len() != "extract_function"@.len());
        }
        assert("find_definition"@ != "generate_struct"@) by {
            assert("find_definition"@[0] != "generate_struct"@[0]);
        }
        assert("find_definition"@ != "generate_enum"@) by {
            assert("find_definition"@.len() != "generate_enum"@.len());
        }
        assert("find_definition"@ != "generate_trait_impl"@) by {
            assert("find_definition"@.len() != "generate_trait_impl"@.len());
        }
        assert("find_definition"@ != "generate_tests"@) by {
            assert("find_definition"@.len() != "generate_tests"@.len());
        }
        assert("find_definition"@ != "inline_function"@) by {
            assert("find_definition"@[0] != "inline_function"@[0]);
        }
        assert("find_definition"@ != "change_signature"@) by {
            assert("find_definition"@.len() != "change_signature"@.len());
        }
        assert("find_definition"@ != "organize_imports"@) by {
            assert("find_definition"@.len() != "organize_imports"@.len());
        }
        assert("find_definition"@ != "apply_clippy_suggestions"@) by {
            assert("find_definition"@.len() != "apply_clippy_suggestions"@.len());
        }
        assert("find_definition"@ != "validate_lifetimes"@) by {
            assert("find_definition"@.len() != "validate_lifetimes"@.len());
        }
        assert("find_definition"@ != "get_type_hierarchy"@) by {
            assert("find_definition"@.len() != "get_type_hierarchy"@.len());
        }
        assert("find_definition"@ != "suggest_dependencies"@) by {
            assert("find_definition"@.len() != "suggest_dependencies"@.len());
        }
        assert("find_definition"@ != "create_module"@) by {
            assert("find_definition"@.len() != "create_module"@.len());
        }
        assert("find_definition"@ != "move_items"@) by {
            assert("find_definition"@.len() != "move_items"@.len());
        }
        assert("find_references"@ != "get_diagnostics"@) by {
            assert("find_references"@[0] != "get_diagnostics"@[0]);
        }
        assert("find_references"@ != "workspace_symbols"@) by {
            assert("find_references"@.len() != "workspace_symbols"@.len());
        }
        assert("find_references"@ != "rename_symbol"@) by {
            assert("find_references"@.len() != "rename_symbol"@.len());
        }
        assert("find_references"@ != "format_code"@) by {
            assert("find_references"@.len() != "format_code"@.len());
        }
        assert("find_references"@ != "analyze_manifest"@) by {
            assert("find_references"@.len() != "analyze_manifest"@.len());
        }
        assert("find_references"@ != "run_cargo_check"@) by {
            assert("find_references"@[0] != "run_cargo_check"@[0]);
        }
        assert("find_references"@ != "extract_function"@) by {
            assert("find_references"@.len() != "extract_function"@.len());
        }
        assert("find_references"@ != "generate_struct"@) by {
            assert("find_references"@[0] != "generate_struct"@[0]);
        }
        assert("find_references"@ != "generate_enum"@) by {
            assert("find_references"@.len() != "generate_enum"@.len());
        }
        assert("find_references"@ != "generate_trait_impl"@) by {
            assert("find_references"@.len() != "generate_trait_impl"@.len());
        }
        assert("find_references"@ != "generate_tests"@) by {
            assert("find_references"@.len() != "generate_tests"@.len());
        }
        assert("find_references"@ != "inline_function"@) by {
            assert("find_references"@[0] != "inline_function"@[0]);
        }
        assert("find_references"@ != "change_signature"@) by {
            assert("find_references"@.len() != "change_signature"@.len());
        }
        assert("find_references"@ != "organize_imports"@) by {
            assert("find_references"@.len() != "organize_imports"@.len());
        }
        assert("find_references"@ != "apply_clippy_suggestions"@) by {
            assert("find_references"@.len() != "apply_clippy_suggestions"@.len());
        }
        assert("find_references"@ != "validate_lifetimes"@) by {
            assert("find_references"@.len() != "validate_lifetimes"@.len());
        }
        assert("find_references"@ != "get_type_hierarchy"@) by {
            assert("find_references"@.len() != "get_type_hierarchy"@.len());
        }
        assert("find_references"@ != "suggest_dependencies"@) by {
            assert("find_references"@.len() != "suggest_dependencies"@.len());
        }
        assert("find_references"@ != "create_module"@) by {
            assert("find_references"@.len() != "create_module"@.len());
        }
        assert("find_references"@ != "move_items"@) by {
            assert("find_references"@.len() != "move_items"@.len());
        }
        assert("get_diagnostics"@ != "workspace_symbols"@) by {
            assert("get_diagnostics"@.len() != "workspace_symbols"@.len());
        }
        assert("get_diagnostics"@ != "rename_symbol"@) by {
            assert("get_diagnostics"@.len() != "rename_symbol"@.len());
        }
        assert("get_diagnostics"@ != "format_code"@) by {
            assert("get_diagnostics"@.len() != "format_code"@.len());
        }
        assert("get_diagnostics"@ != "analyze_manifest"@) by {
            assert("get_diagnostics"@.len() != "analyze_manifest"@.len());
        }
        assert("get_diagnostics"@ != "run_cargo_check"@) by {
            assert("get_diagnostics"@[0] != "run_cargo_check"@[0]);
        }
        assert("get_diagnostics"@ != "extract_function"@) by {
            assert("get_diagnostics"@.len() != "extract_function"@.len());
        }
        assert("get_diagnostics"@ != "generate_struct"@) by {
            assert("get_diagnostics"@[2] != "generate_struct"@[2]);
        }
        assert("get_diagnostics"@ != "generate_enum"@) by {
            assert("get_diagnostics"@.len() != "generate_enum"@.len());
        }
        assert("get_diagnostics"@ != "generate_trait_impl"@) by {
            assert("get_diagnostics"@.len() != "generate_trait_impl"@.len());
        }
        assert("get_diagnostics"@ != "generate_tests"@) by {
            assert("get_diagnostics"@.len() != "generate_tests"@.len());
        }
        assert("get_diagnostics"@ != "inline_function"@) by {
            assert("get_diagnostics"@[0] != "inline_function"@[0]);
        }
        assert("get_diagnostics"@ != "change_signature"@) by {
            assert("get_diagnostics"@.len() != "change_signature"@.len());
        }
        assert("get_diagnostics"@ != "organize_imports"@) by {
            assert("get_diagnostics"@.len() != "organize_imports"@.len());
        }
        assert("get_diagnostics"@ != "apply_clippy_suggestions"@) by {
            assert("get_diagnostics"@.len() != "apply_clippy_suggestions"@.len());
        }
        assert("get_diagnostics"@ != "validate_lifetimes"@) by {
            assert("get_diagnostics"@.len() != "validate_lifetimes"@.len());
        }
        assert("get_diagnostics"@ != "get_type_hierarchy"@) by {
            assert("get_diagnostics"@.len() != "get_type_hierarchy"@.len());
        }
        assert("get_diagnostics"@ != "suggest_dependencies"@) by {
            assert("get_diagnostics"@.len() != "suggest_dependencies"@.len());
        }
        assert("get_diagnostics"@ != "create_module"@) by {
            assert("get_diagnostics"@.len() != "create_module"@.len());
        }
        assert("get_diagnostics"@ != "move_items"@) by {
            assert("get_diagnostics"@.len() != "move_items"@.len());
        }
        assert("workspace_symbols"@ != "rename_symbol"@) by {
            assert("workspace_symbols"@.len() != "rename_symbol"@.len());
        }
        assert("workspace_symbols"@ != "format_code"@) by {
            assert("workspace_symbols"@.len() != "format_code"@.len());
        }
        assert("workspace_symbols"@ != "analyze_manifest"@) by {
            assert("workspace_symbols"@.len() != "analyze_manifest"@.len());
        }
        assert("workspace_symbols"@ != "run_cargo_check"@) by {
            assert("workspace_symbols"@.len() != "run_cargo_check"@.len());
        }
        assert("workspace_symbols"@ != "extract_function"@) by {
            assert("workspace_symbols"@.len() != "extract_function"@.len());
        }
        assert("workspace_symbols"@ != "generate_struct"@) by {
            assert("workspace_symbols"@.len() != "generate_struct"@.len());
        }
        assert("workspace_symbols"@ != "generate_enum"@) by {
            assert("workspace_symbols"@.len() != "generate_enum"@.len());
        }
        assert("workspace_symbols"@ != "generate_trait_impl"@) by {
            assert("workspace_symbols"@.len() != "generate_trait_impl"@.len());
        }
        assert("workspace_symbols"@ != "generate_tests"@) by {
            assert("workspace_symbols"@.len() != "generate_tests"@.len());
        }
        assert("workspace_symbols"@ != "inline_function"@) by {
            assert("workspace_symbols"@.len() != "inline_function"@.len());
        }
        assert("workspace_symbols"@ != "change_signature"@) by {
            assert("workspace_symbols"@.len() != "change_signature"@.len());
        }
        assert("workspace_symbols"@ != "organize_imports"@) by {
            assert("workspace_symbols"@.len() != "organize_imports"@.len());
        }
        assert("workspace_symbols"@ != "apply_clippy_suggestions"@) by {
            assert("workspace_symbols"@.len() != "apply_clippy_suggestions"@.len());
        }
        assert("workspace_symbols"@ != "validate_lifetimes"@) by {
            assert("workspace_symbols"@.len() != "validate_lifetimes"@.len());
        }
        assert("workspace_symbols"@ != "get_type_hierarchy"@) by {
            assert("workspace_symbols"@.len() != "get_type_hierarchy"@.len());
        }
        assert("workspace_symbols"@ != "suggest_dependencies"@) by {
            assert("workspace_symbols"@.len() != "suggest_dependencies"@.len());
        }
        assert("workspace_symbols"@ != "create_module"@) by {
            assert("workspace_symbols"@.len() != "create_module"@.len());
        }
        assert("workspace_symbols"@ != "move_items"@) by {
            assert("workspace_symbols"@.len() != "move_items"@.len());
        }
        assert("rename_symbol"@ != "format_code"@) by {
            assert("rename_symbol"@.len() != "format_code"@.len());
        }
        assert("rename_symbol"@ != "analyze_manifest"@) by {
            assert("rename_symbol"@.len() != "analyze_manifest"@.len());
        }
        assert("rename_symbol"@ != "run_cargo_check"@) by {
            assert("rename_symbol"@.len() != "run_cargo_check"@.len());
        }
        assert("rename_symbol"@ != "extract_function"@) by {
            assert("rename_symbol"@.len() != "extract_function"@.len());
        }
        assert("rename_symbol"@ != "generate_struct"@) by {
            assert("rename_symbol"@.len() != "generate_struct"@.len());
        }
        assert("rename_symbol"@ != "generate_enum"@) by {
            assert("rename_symbol"@[0] != "generate_enum"@[0]);
        }
        assert("rename_symbol"@ != "generate_trait_impl"@) by {
            assert("rename_symbol"@.len() != "generate_trait_impl"@.len());
        }
        assert("rename_symbol"@ != "generate_tests"@) by {
            assert("rename_symbol"@.len() != "generate_tests"@.len());
        }
        assert("rename_symbol"@ != "inline_function"@) by {
            assert("rename_symbol"@.len() != "inline_function"@.len());
        }
        assert("rename_symbol"@ != "change_signature"@) by {
            assert("rename_symbol"@.len() != "change_signature"@.len());
        }
        assert("rename_symbol"@ != "organize_imports"@) by {
            assert("rename_symbol"@.len() != "organize_imports"@.len());
        }
        assert("rename_symbol"@ != "apply_clippy_suggestions"@) by {
            assert("rename_symbol"@.len() != "apply_clippy_suggestions"@.len());
        }
        assert("rename_symbol"@ != "validate_lifetimes"@) by {
            assert("rename_symbol"@.len() != "validate_lifetimes"@.len());
        }
        assert("rename_symbol"@ != "get_type_hierarchy"@) by {
            assert("rename_symbol"@.len() != "get_type_hierarchy"@.len());
        }
        assert("rename_symbol"@ != "suggest_dependencies"@) by {
            assert("rename_symbol"@.len() != "suggest_dependencies"@.len());
        }
        assert("rename_symbol"@ != "create_module"@) by {
            assert("rename_symbol"@[0] != "create_module"@[0]);
        }
        assert("rename_symbol"@ != "move_items"@) by {
            assert("rename_symbol"@.len() != "move_items"@.len());
        }
        assert("format_code"@ != "analyze_manifest"@) by {
            assert("format_code"@.len() != "analyze_manifest"@.len());
        }
        assert("format_code"@ != "run_cargo_check"@) by {
            assert("format_code"@.len() != "run_cargo_check"@.len());
        }
        assert("format_code"@ != "extract_function"@) by {
            assert("format_code"@.len() != "extract_function"@.len());
        }
        assert("format_code"@ != "generate_struct"@) by {
            assert("format_code"@.len() != "generate_struct"@.len());
        }
        assert("format_code"@ != "generate_enum"@) by {
            assert("format_code"@.len() != "generate_enum"@.len());
        }
        assert("format_code"@ != "generate_trait_impl"@) by {
            assert("format_code"@.len() != "generate_trait_impl"@.len());
        }
        assert("format_code"@ != "generate_tests"@) by {
            assert("format_code"@.len() != "generate_tests"@.len());
        }
        assert("format_code"@ != "inline_function"@) by {
            assert("format_code"@.len() != "inline_function"@.len());
        }
        assert("format_code"@ != "change_signature"@) by {
            assert("format_code"@.len() != "change_signature"@.len());
        }
        assert("format_code"@ != "organize_imports"@) by {
            assert("format_code"@.len() != "organize_imports"@.len());
        }
        assert("format_code"@ != "apply_clippy_suggestions"@) by {
            assert("format_code"@.len() != "apply_clippy_suggestions"@.len());
        }
        assert("format_code"@ != "validate_lifetimes"@) by {
            assert("format_code"@.len() != "validate_lifetimes"@.len());
        }
        assert("format_code"@ != "get_type_hierarchy"@) by {
            assert("format_code"@.len() != "get_type_hierarchy"@.len());
        }
        assert("format_code"@ != "suggest_dependencies"@) by {
            assert("format_code"@.len() != "suggest_dependencies"@.len());
        }
        assert("format_code"@ != "create_module"@) by {
            assert("format_code"@.len() != "create_module"@.len());
        }
        assert("format_code"@ != "move_items"@) by {
            assert("format_code"@.len() != "move_items"@.len());
        }
        assert("analyze_manifest"@ != "run_cargo_check"@) by {
            assert("analyze_manifest"@.len() != "run_cargo_check"@.len());
        }
        assert("analyze_manifest"@ != "extract_function"@) by {
            assert("analyze_manifest"@[0] != "extract_function"@[0]);
        }
        assert("analyze_manifest"@ != "generate_struct"@) by {
            assert("analyze_manifest"@.len() != "generate_struct"@.len());
        }
        assert("analyze_manifest"@ != "generate_enum"@) by {
            assert("analyze_manifest"@.len() != "generate_enum"@.len());
        }
        assert("analyze_manifest"@ != "generate_trait_impl"@) by {
            assert("analyze_manifest"@.len() != "generate_trait_impl"@.len());
        }
        assert("analyze_manifest"@ != "generate_tests"@) by {
            assert("analyze_manifest"@.len() != "generate_tests"@.len());
        }
        assert("analyze_manifest"@ != "inline_function"@) by {
            assert("analyze_manifest"@.len() != "inline_function"@.len());
        }
        assert("analyze_manifest"@ != "change_signature"@) by {
            assert("analyze_manifest"@[0] != "change_signature"@[0]);
        }
        assert("analyze_manifest"@ != "organize_imports"@) by {
            assert("analyze_manifest"@[0] != "organize_imports"@[0]);
        }
        assert("analyze_manifest"@ != "apply_clippy_suggestions"@) by {
            assert("analyze_manifest"@.len() != "apply_clippy_suggestions"@.len());
        }
        assert("analyze_manifest"@ != "validate_lifetimes"@) by {
            assert("analyze_manifest"@.len() != "validate_lifetimes"@.len());
        }
        assert("analyze_manifest"@ != "get_type_hierarchy"@) by {
            assert("analyze_manifest"@.len() != "get_type_hierarchy"@.len());
        }
        assert("analyze_manifest"@ != "suggest_dependencies"@) by {
            assert("analyze_manifest"@.len() != "suggest_dependencies"@.len());
        }
        assert("analyze_manifest"@ != "create_module"@) by {
            assert("analyze_manifest"@.len() != "create_module"@.len());
        }
        assert("analyze_manifest"@ != "move_items"@) by {
            assert("analyze_manifest"@.len() != "move_items"@.len());
        }
        assert("run_cargo_check"@ != "extract_function"@) by {
            assert("run_cargo_check"@.len() != "extract_function"@.len());
        }
        assert("run_cargo_check"@ != "generate_struct"@) by {
            assert("run_cargo_check"@[0] != "generate_struct"@[0]);
        }
        assert("run_cargo_check"@ != "generate_enum"@) by {
            assert("run_cargo_check"@.len() != "generate_enum"@.len());
        }
        assert("run_cargo_check"@ != "generate_trait_impl"@) by {
            assert("run_cargo_check"@.len() != "generate_trait_impl"@.len());
        }
        assert("run_cargo_check"@ != "generate_tests"@) by {
            assert("run_cargo_check"@.len() != "generate_tests"@.len());
        }
        assert("run_cargo_check"@ != "inline_function"@) by {
            assert("run_cargo_check"@[0] != "inline_function"@[0]);
        }
        assert("run_cargo_check"@ != "change_signature"@) by {
            assert("run_cargo_check"@.len() != "change_signature"@.len());
        }
        assert("run_cargo_check"@ != "organize_imports"@) by {
            assert("run_cargo_check"@.len() != "organize_imports"@.len());
        }
        assert("run_cargo_check"@ != "apply_clippy_suggestions"@) by {
            assert("run_cargo_check"@.len() != "apply_clippy_suggestions"@.len());
        }
        assert("run_cargo_check"@ != "validate_lifetimes"@) by {
            assert("run_cargo_check"@.len() != "validate_lifetimes"@.len());
        }
        assert("run_cargo_check"@ != "get_type_hierarchy"@) by {
            assert("run_cargo_check"@.len() != "get_type_hierarchy"@.len());
        }
        assert("run_cargo_check"@ != "suggest_dependencies"@) by {
            assert("run_cargo_check"@.len() != "suggest_dependencies"@.len());
        }
        assert("run_cargo_check"@ != "create_module"@) by {
            assert("run_cargo_check"@.len() != "create_module"@.len());
        }
        assert("run_cargo_check"@ != "move_items"@) by {
            assert("run_cargo_check"@.len() != "move_items"@.len());
        }
        assert("extract_function"@ != "generate_struct"@) by {
            assert("extract_function"@.len() != "generate_struct"@.len());
        }
        assert("extract_function"@ != "generate_enum"@) by {
            assert("extract_function"@.len() != "generate_enum"@.len());
        }
        assert("extract_function"@ != "generate_trait_impl"@) by {
            assert("extract_function"@.len() != "generate_trait_impl"@.len());
        }
        assert("extract_function"@ != "generate_tests"@) by {
            assert("extract_function"@.len() != "generate_tests"@.len());
        }
        assert("extract_function"@ != "inline_function"@) by {
            assert("extract_function"@.len() != "inline_function"@.len());
        }
        assert("extract_function"@ != "change_signature"@) by {
            assert("extract_function"@[0] != "change_signature"@[0]);
        }
        assert("extract_function"@ != "organize_imports"@) by {
            assert("extract_function"@[0] != "organize_imports"@[0]);
        }
        assert("extract_function"@ != "apply_clippy_suggestions"@) by {
            assert("extract_function"@.len() != "apply_clippy_suggestions"@.len());
        }
        assert("extract_function"@ != "validate_lifetimes"@) by {
            assert("extract_function"@.len() != "validate_lifetimes"@.len());
        }
        assert("extract_function"@ != "get_type_hierarchy"@) by {
            assert("extract_function"@.len() != "get_type_hierarchy"@.len());
        }
        assert("extract_function"@ != "suggest_dependencies"@) by {
            assert("extract_function"@.len() != "suggest_dependencies"@.len());
        }
        assert("extract_function"@ != "create_module"@) by {
            assert("extract_function"@.len() != "create_module"@.len());
        }
        assert("extract_function"@ != "move_items"@) by {
            assert("extract_function"@.len() != "move_items"@.len());
        }
        assert("generate_struct"@ != "generate_enum"@) by {
            assert("generate_struct"@.len() != "generate_enum"@.len());
        }
        assert("generate_struct"@ != "generate_trait_impl"@) by {
            assert("generate_struct"@.len() != "generate_trait_impl"@.len());
        }
        assert("generate_struct"@ != "generate_tests"@) by {
            assert("generate_struct"@.len() != "generate_tests"@.len());
        }
        assert("generate_struct"@ != "inline_function"@) by {
            assert("generate_struct"@[0] != "inline_function"@[0]);
        }
        assert("generate_struct"@ != "change_signature"@) by {
            assert("generate_struct"@.len() != "change_signature"@.len());
        }
        assert("generate_struct"@ != "organize_imports"@) by {
            assert("generate_struct"@.len() != "organize_imports"@.len());
        }
        assert("generate_struct"@ != "apply_clippy_suggestions"@) by {
            assert("generate_struct"@.len() != "apply_clippy_suggestions"@.len());
        }
        assert("generate_struct"@ != "validate_lifetimes"@) by {
            assert("generate_struct"@.len() != "validate_lifetimes"@.len());
        }
        assert("generate_struct"@ != "get_type_hierarchy"@) by {
            assert("generate_struct"@.len() != "get_type_hierarchy"@.len());
        }
        assert("generate_struct"@ != "suggest_dependencies"@) by {
            assert("generate_struct"@.len() != "suggest_dependencies"@.len());
        }
        assert("generate_struct"@ != "create_module"@) by {
            assert("generate_struct"@.len() != "create_module"@.len());
        }
        assert("generate_struct"@ != "move_items"@) by {
            assert("generate_struct"@.len() != "move_items"@.len());
        }
        assert("generate_enum"@ != "generate_trait_impl"@) by {
            assert("generate_enum"@.len() != "generate_trait_impl"@.len());
        }
        assert("generate_enum"@ != "generate_tests"@) by {
            assert("generate_enum"@.len() != "generate_tests"@.len());
        }
        assert("generate_enum"@ != "inline_function"@) by {
            assert("generate_enum"@.len() != "inline_function"@.len());
        }
        assert("generate_enum"@ != "change_signature"@) by {
            assert("generate_enum"@.len() != "change_signature"@.len());
        }
        assert("generate_enum"@ != "organize_imports"@) by {
            assert("generate_enum"@.len() != "organize_imports"@.len());
        }
        assert("generate_enum"@ != "apply_clippy_suggestions"@) by {
            assert("generate_enum"@.len() != "apply_clippy_suggestions"@.len());
        }
        assert("generate_enum"@ != "validate_lifetimes"@) by {
            assert("generate_enum"@.len() != "validate_lifetimes"@.len());
        }
        assert("generate_enum"@ != "get_type_hierarchy"@) by {
            assert("generate_enum"@.len() != "get_type_hierarchy"@.len());
        }
        assert("generate_enum"@ != "suggest_dependencies"@) by {
            assert("generate_enum"@.len() != "suggest_dependencies"@.len());
        }
        assert("generate_enum"@ != "create_module"@) by {
            assert("generate_enum"@[0] != "create_module"@[0]);
        }
        assert("generate_enum"@ != "move_items"@) by {
            assert("generate_enum"@.len() != "move_items"@.len());
        }
        assert("generate_trait_impl"@ != "generate_tests"@) by {
            assert("generate_trait_impl"@.len() != "generate_tests"@.len());
        }
        assert("generate_trait_impl"@ != "inline_function"@) by {
            assert("generate_trait_impl"@.len() != "inline_function"@.len());
        }
        assert("generate_trait_impl"@ != "change_signature"@) by {
            assert("generate_trait_impl"@.len() != "change_signature"@.len());
        }
        assert("generate_trait_impl"@ != "organize_imports"@) by {
            assert("generate_trait_impl"@.len() != "organize_imports"@.len());
        }
        assert("generate_trait_impl"@ != "apply_clippy_suggestions"@) by {
            assert("generate_trait_impl"@.len() != "apply_clippy_suggestions"@.len());
        }
        assert("generate_trait_impl"@ != "validate_lifetimes"@) by {
            assert("generate_trait_impl"@.len() != "validate_lifetimes"@.len());
        }
        assert("generate_trait_impl"@ != "get_type_hierarchy"@) by {
            assert("generate_trait_impl"@.len() != "get_type_hierarchy"@.len());
        }
        assert("generate_trait_impl"@ != "suggest_dependencies"@) by {
            assert("generate_trait_impl"@.len() != "suggest_dependencies"@.len());
        }
        assert("generate_trait_impl"@ != "create_module"@) by {
            assert("generate_trait_impl"@.len() != "create_module"@.len());
        }
        assert("generate_trait_impl"@ != "move_items"@) by {
            assert("generate_trait_impl"@.len() != "move_items"@.len());
        }
        assert("generate_tests"@ != "inline_function"@) by {
            assert("generate_tests"@.len() != "inline_function"@.len());
        }
        assert("generate_tests"@ != "change_signature"@) by {
            assert("generate_tests"@.len() != "change_signature"@.len());
        }
        assert("generate_tests"@ != "organize_imports"@) by {
            assert("generate_tests"@.len() != "organize_imports"@.len());
        }
        assert("generate_tests"@ != "apply_clippy_suggestions"@) by {
            assert("generate_tests"@.len() != "apply_clippy_suggestions"@.len());
        }
        assert("generate_tests"@ != "validate_lifetimes"@) by {
            assert("generate_tests"@.len() != "validate_lifetimes"@.len());
        }
        assert("generate_tests"@ != "get_type_hierarchy"@) by {
            assert("generate_tests"@.len() != "get_type_hierarchy"@.len());
        }
        assert("generate_tests"@ != "suggest_dependencies"@) by {
            assert("generate_tests"@.len() != "suggest_dependencies"@.len());
        }
        assert("generate_tests"@ != "create_module"@) by {
            assert("generate_tests"@.len() != "create_module"@.len());
        }
        assert("generate_tests"@ != "move_items"@) by {
            assert("generate_tests"@.len() != "move_items"@.len());
        }
        assert("inline_function"@ != "change_signature"@) by {
            assert("inline_function"@.len() != "change_signature"@.len());
        }
        assert("inline_function"@ != "organize_imports"@) by {
            assert("inline_function"@.len() != "organize_imports"@.len());
        }
        assert("inline_function"@ != "apply_clippy_suggestions"@) by {
            assert("inline_function"@.len() != "apply_clippy_suggestions"@.len());
        }
        assert("inline_function"@ != "validate_lifetimes"@) by {
            assert("inline_function"@.len() != "validate_lifetimes"@.len());
        }
        assert("inline_function"@ != "get_type_hierarchy"@) by {
            assert("inline_function"@.len() != "get_type_hierarchy"@.len());
        }
        assert("inline_function"@ != "suggest_dependencies"@) by {
            assert("inline_function"@.len() != "suggest_dependencies"@.len());
        }
        assert("inline_function"@ != "create_module"@) by {
            assert("inline_function"@.len() != "create_module"@.len());
        }
        assert("inline_function"@ != "move_items"@) by {
            assert("inline_function"@.len() != "move_items"@.len());
        }
        assert("change_signature"@ != "organize_imports"@) by {
            assert("change_signature"@[0] != "organize_imports"@[0]);
        }
        assert("change_signature"@ != "apply_clippy_suggestions"@) by {
            assert("change_signature"@.len() != "apply_clippy_suggestions"@.len());
        }
        assert("change_signature"@ != "validate_lifetimes"@) by {
            assert("change_signature"@.len() != "validate_lifetimes"@.len());
        }
        assert("change_signature"@ != "get_type_hierarchy"@) by {
            assert("change_signature"@.len() != "get_type_hierarchy"@.len());
        }
        assert("change_signature"@ != "suggest_dependencies"@) by {
            assert("change_signature"@.len() != "suggest_dependencies"@.len());
        }
        assert("change_signature"@ != "create_module"@) by {
            assert("change_signature"@.len() != "create_module"@.len());
        }
        assert("change_signature"@ != "move_items"@) by {
            assert("change_signature"@.len() != "move_items"@.len());
        }
        assert("organize_imports"@ != "apply_clippy_suggestions"@) by {
            assert("organize_imports"@.len() != "apply_clippy_suggestions"@.len());
        }
        assert("organize_imports"@ != "validate_lifetimes"@) by {
            assert("organize_imports"@.len() != "validate_lifetimes"@.len());
        }
        assert("organize_imports"@ != "get_type_hierarchy"@) by {
            assert("organize_imports"@.len() != "get_type_hierarchy"@.len());
        }
        assert("organize_imports"@ != "suggest_dependencies"@) by {
            assert("organize_imports"@.len() != "suggest_dependencies"@.len());
        }
        assert("organize_imports"@ != "create_module"@) by {
            assert("organize_imports"@.len() != "create_module"@.len());
        }
        assert("organize_imports"@ != "move_items"@) by {
            assert("organize_imports"@.len() != "move_items"@.len());
        }
        assert("apply_clippy_suggestions"@ != "validate_lifetimes"@) by {
            assert("apply_clippy_suggestions"@.len() != "validate_lifetimes"@.len());
        }
        assert("apply_clippy_suggestions"@ != "get_type_hierarchy"@) by {
            assert("apply_clippy_suggestions"@.len() != "get_type_hierarchy"@.len());
        }
        assert("apply_clippy_suggestions"@ != "suggest_dependencies"@) by {
            assert("apply_clippy_suggestions"@.len() != "suggest_dependencies"@.len());
        }
        assert("apply_clippy_suggestions"@ != "create_module"@) by {
            assert("apply_clippy_suggestions"@.len() != "create_module"@.len());
        }
        assert("apply_clippy_suggestions"@ != "move_items"@) by {
            assert("apply_clippy_suggestions"@.len() != "move_items"@.len());
        }
        assert("validate_lifetimes"@ != "get_type_hierarchy"@) by {
            assert("validate_lifetimes"@[0] != "get_type_hierarchy"@[0]);
        }
        assert("validate_lifetimes"@ != "suggest_dependencies"@) by {
            assert("validate_lifetimes"@.len() != "suggest_dependencies"@.len());
        }
        assert("validate_lifetimes"@ != "create_module"@) by {
            assert("validate_lifetimes"@.len() != "create_module"@.len());
        }
        assert("validate_lifetimes"@ != "move_items"@) by {
            assert("validate_lifetimes"@.len() != "move_items"@.len());
        }
        assert("get_type_hierarchy"@ != "suggest_dependencies"@) by {
            assert("get_type_hierarchy"@.len() != "suggest_dependencies"@.len());
        }
        assert("get_type_hierarchy"@ != "create_module"@) by {
            assert("get_type_hierarchy"@.len() != "create_module"@.len());
        }
        assert("get_type_hierarchy"@ != "move_items"@) by {
            assert("get_type_hierarchy"@.len() != "move_items"@.len());
        }
        assert("suggest_dependencies"@ != "create_module"@) by {
            assert("suggest_dependencies"@.len() != "create_module"@.len());
        }
        assert("suggest_dependencies"@ != "move_items"@) by {
            assert("suggest_dependencies"@.len() != "move_items"@.len());
        }
        assert("create_module"@ != "move_items"@) by {
            assert("create_module"@.len() != "move_items"@.len());
        }
        assert(unique_names(reg.commands@));
    }

    let mut d = cmd("find_definition", "textDocument/definition", 5000, ExtractKind::LocationList);
    d.fields.push(req("file_path", ArgType::Text));
    d.fields.push(req("line", ArgType::Nat));
    d.fields.push(req("character", ArgType::Nat));
    d.doc_args.push("file_path".to_owned());
    proof {
        assert(spec_find(reg.commands@, "find_definition"@) is None);
    }
    let _ = reg.register(d);
    proof {
        assert forall|n: Seq<char>| n != "find_definition"@ implies spec_find(
            reg.commands@,
            n,
        ) is None by {}
    }

    let mut d = cmd("find_references", "textDocument/references", 5000, ExtractKind::LocationList);
    d.fields.push(req("file_path", ArgType::Text));
    d.fields.push(req("line", ArgType::Nat));
    d.fields.push(req("character", ArgType::Nat));
    d.doc_args.push("file_path".to_owned());
    proof {
        assert(spec_find(reg.commands@, "find_references"@) is None);
    }
    let _ = reg.register(d);
    proof {
        assert forall|n: Seq<char>| n != "find_definition"@ && n != "find_references"@ implies spec_find(
            reg.commands@,
            n,
        ) is None by {}
    }

    let mut d = cmd("get_diagnostics", "", 5000, ExtractKind::CachedDiagnostics);
    d.methods = Vec::new();
    d.fields.push(req("file_path", ArgType::Text));
    proof {
        assert(spec_find(reg.commands@, "get_diagnostics"@) is None);
    }
    let _ = reg.register(d);
    proof {
        assert forall|n: Seq<char>| n != "find_definition"@ && n != "find_references"@ && n != "get_diagnostics"@ implies spec_find(
            reg.commands@,
            n,
        ) is None by {}
    }

    let mut d = cmd("workspace_symbols", "workspace/symbol", 30000, ExtractKind::LocationList);
    d.fields.push(req("query", ArgType::Text));
    proof {
        assert(spec_find(reg.commands@, "workspace_symbols"@) is None);
    }
    let _ = reg.register(d);
    proof {
        assert forall|n: Seq<char>| n != "find_definition"@ && n != "find_references"@ && n != "get_diagnostics"@ && n != "workspace_symbols"@ implies spec_find(
            reg.commands@,
            n,
        ) is None by {}
    }

    let mut d = cmd("rename_symbol", "textDocument/prepareRename", 10000, ExtractKind::EditList);
    d.methods.push("textDocument/rename".to_owned());
    d.fields.push(req("file_path", ArgType::Text));
    d.fields.push(req("line", ArgType::Nat));
    d.fields.push(req("character", ArgType::Nat));
    d.fields.push(req("new_name", ArgType::Text));
    d.doc_args.push("file_path".to_owned());
    proof {
        assert(spec_find(reg.commands@, "rename_symbol"@) is None);
    }
    let _ = reg.register(d);
    proof {
        assert forall|n: Seq<char>| n != "find_definition"@ && n != "find_references"@ && n != "get_diagnostics"@ && n != "workspace_symbols"@ && n != "rename_symbol"@ implies spec_find(
            reg.commands@,
            n,
        ) is None by {}
    }

    let mut d = cmd("format_code", "textDocument/formatting", 10000, ExtractKind::EditList);
    d.fields.push(req("file_path", ArgType::Text));
    d.doc_args.push("file_path".to_owned());
    proof {
        assert(spec_find(reg.commands@, "format_code"@) is None);
    }
    let _ = reg.register(d);
    proof {
        assert forall|n: Seq<char>| n != "find_definition"@ && n != "find_references"@ && n != "get_diagnostics"@ && n != "workspace_symbols"@ && n != "rename_symbol"@ && n != "format_code"@ implies spec_find(
            reg.commands@,
            n,
        ) is None by {}
    }

    let mut d = cmd("analyze_manifest", "workspace/analyzeManifest", 30000, ExtractKind::TextSummary);
    d.fields.push(req("manifest_path", ArgType::Text));
    proof {
        assert(spec_find(reg.commands@, "analyze_manifest"@) is None);
    }
    let _ = reg.register(d);
    proof {
        assert forall|n: Seq<char>| n != "find_definition"@ && n != "find_references"@ && n != "get_diagnostics"@ && n != "workspace_symbols"@ && n != "rename_symbol"@ && n != "format_code"@ && n != "analyze_manifest"@ implies spec_find(
            reg.commands@,
            n,
        ) is None by {}
    }

    let mut d = cmd("run_cargo_check", "workspace/runCheck", 60000, ExtractKind::TextSummary);
    d.fields.push(req("workspace_path", ArgType::Text));
    proof {
        assert(spec_find(reg.commands@, "run_cargo_check"@) is None);
    }
    let _ = reg.register(d);
    proof {
        assert forall|n: Seq<char>| n != "find_definition"@ && n != "find_references"@ && n != "get_diagnostics"@ && n != "workspace_symbols"@ && n != "rename_symbol"@ && n != "format_code"@ && n != "analyze_manifest"@ && n != "run_cargo_check"@ implies spec_find(
            reg.commands@,
            n,
        ) is None by {}
    }

    let mut d = cmd("extract_function", "refactor/extractFunction", 15000, ExtractKind::EditList);
    d.fields.push(req("file_path", ArgType::Text));
    d.fields.push(req("start_line", ArgType::Nat));
    d.fields.push(req("start_character", ArgType::Nat));
    d.fields.push(req("end_line", ArgType::Nat));
    d.fields.push(req("end_character", ArgType::Nat));
    d.fields.push(req("function_name", ArgType::Text));
    d.doc_args.push("file_path".to_owned());
    proof {
        assert(spec_find(reg.commands@, "extract_function"@) is None);
    }
    let _ = reg.register(d);
    proof {
        assert forall|n: Seq<char>| n != "find_definition"@ && n != "find_references"@ && n != "get_diagnostics"@ && n != "workspace_symbols"@ && n != "rename_symbol"@ && n != "format_code"@ && n != "analyze_manifest"@ && n != "run_cargo_check"@ && n != "extract_function"@ implies spec_find(
            reg.commands@,
            n,
        ) is None by {}
    }

    let mut d = cmd("generate_struct", "codegen/struct", 15000, ExtractKind::EditList);
    d.fields.push(req("struct_name", ArgType::Text));
    d.fields.push(req("fields", ArgType::List));
    d.fields.push(opt("derives", ArgType::List));
    d.fields.push(req("file_path", ArgType::Text));
    d.doc_args.push("file_path".to_owned());
    proof {
        assert(spec_find(reg.commands@, "generate_struct"@) is None);
    }
    let _ = reg.register(d);
    proof {
        assert forall|n: Seq<char>| n != "find_definition"@ && n != "find_references"@ && n != "get_diagnostics"@ && n != "workspace_symbols"@ && n != "rename_symbol"@ && n != "format_code"@ && n != "analyze_manifest"@ && n != "run_cargo_check"@ && n != "extract_function"@ && n != "generate_struct"@ implies spec_find(
            reg.commands@,
            n,
        ) is None by {}
    }

    let mut d = cmd("generate_enum", "codegen/enum", 15000, ExtractKind::EditList);
    d.fields.push(req("enum_name", ArgType::Text));
    d.fields.push(req("variants", ArgType::List));
    d.fields.push(opt("derives", ArgType::List));
    d.fields.push(req("file_path", ArgType::Text));
    d.doc_args.push("file_path".to_owned());
    proof {
        assert(spec_find(reg.commands@, "generate_enum"@) is None);
    }
    let _ = reg.register(d);
    proof {
        assert forall|n: Seq<char>| n != "find_definition"@ && n != "find_references"@ && n != "get_diagnostics"@ && n != "workspace_symbols"@ && n != "rename_symbol"@ && n != "format_code"@ && n != "analyze_manifest"@ && n != "run_cargo_check"@ && n != "extract_function"@ && n != "generate_struct"@ && n != "generate_enum"@ implies spec_find(
            reg.commands@,
            n,
        ) is None by {}
    }

    let mut d = cmd("generate_trait_impl", "codegen/traitImpl", 15000, ExtractKind::EditList);
    d.fields.push(req("trait_name", ArgType::Text));
    d.fields.push(req("struct_name", ArgType::Text));
    d.fields.push(req("file_path", ArgType::Text));
    d.doc_args.push("file_path".to_owned());
    proof {
        assert(spec_find(reg.commands@, "generate_trait_impl"@) is None);
    }
    let _ = reg.register(d);
    proof {
        assert forall|n: Seq<char>| n != "find_definition"@ && n != "find_references"@ && n != "get_diagnostics"@ && n != "workspace_symbols"@ && n != "rename_symbol"@ && n != "format_code"@ && n != "analyze_manifest"@ && n != "run_cargo_check"@ && n != "extract_function"@ && n != "generate_struct"@ && n != "generate_enum"@ && n != "generate_trait_impl"@ implies spec_find(
            reg.commands@,
            n,
        ) is None by {}
    }

    let mut d = cmd("generate_tests", "codegen/tests", 15000, ExtractKind::EditList);
    d.fields.push(req("target_function", ArgType::Text));
    d.fields.push(req("file_path", ArgType::Text));
    d.fields.push(opt("test_cases", ArgType::List));
    d.doc_args.push("file_path".to_owned());
    proof {
        assert(spec_find(reg.commands@, "generate_tests"@) is None);
    }
    let _ = reg.register(d);
    proof {
        assert forall|n: Seq<char>| n != "find_definition"@ && n != "find_references"@ && n != "get_diagnostics"@ && n != "workspace_symbols"@ && n != "rename_symbol"@ && n != "format_code"@ && n != "analyze_manifest"@ && n != "run_cargo_check"@ && n != "extract_function"@ && n != "generate_struct"@ && n != "generate_enum"@ && n != "generate_trait_impl"@ && n != "generate_tests"@ implies spec_find(
            reg.commands@,
            n,
        ) is None by {}
    }

    let mut d = cmd("inline_function", "refactor/inlineFunction", 15000, ExtractKind::EditList);
    d.fields.push(req("file_path", ArgType::Text));
    d.fields.push(req("line", ArgType::Nat));
    d.fields.push(req("character", ArgType::Nat));
    d.doc_args.push("file_path".to_owned());
    proof {
        assert(spec_find(reg.commands@, "inline_function"@) is None);
    }
    let _ = reg.register(d);
    proof {
        assert forall|n: Seq<char>| n != "find_definition"@ && n != "find_references"@ && n != "get_diagnostics"@ && n != "workspace_symbols"@ && n != "rename_symbol"@ && n != "format_code"@ && n != "analyze_manifest"@ && n != "run_cargo_check"@ && n != "extract_function"@ && n != "generate_struct"@ && n != "generate_enum"@ && n != "generate_trait_impl"@ && n != "generate_tests"@ && n != "inline_function"@ implies spec_find(
            reg.commands@,
            n,
        ) is None by {}
    }

    let mut d = cmd("change_signature", "refactor/changeSignature", 15000, ExtractKind::EditList);
    d.fields.push(req("file_path", ArgType::Text));
    d.fields.push(req("line", ArgType::Nat));
    d.fields.push(req("character", ArgType::Nat));
    d.fields.push(req("new_signature", ArgType::Text));
    d.doc_args.push("file_path".to_owned());
    proof {
        assert(spec_find(reg.commands@, "change_signature"@) is None);
    }
    let _ = reg.register(d);
    proof {
        assert forall|n: Seq<char>| n != "find_definition"@ && n != "find_references"@ && n != "get_diagnostics"@ && n != "workspace_symbols"@ && n != "rename_symbol"@ && n != "format_code"@ && n != "analyze_manifest"@ && n != "run_cargo_check"@ && n != "extract_function"@ && n != "generate_struct"@ && n != "generate_enum"@ && n != "generate_trait_impl"@ && n != "generate_tests"@ && n != "inline_function"@ && n != "change_signature"@ implies spec_find(
            reg.commands@,
            n,
        ) is None by {}
    }

    let mut d = cmd("organize_imports", "source/organizeImports", 10000, ExtractKind::EditList);
    d.fields.push(req("file_path", ArgType::Text));
    d.doc_args.push("file_path".to_owned());
    proof {
        assert(spec_find(reg.commands@, "organize_imports"@) is None);
    }
    let _ = reg.register(d);
    proof {
        assert forall|n: Seq<char>| n != "find_definition"@ && n != "find_references"@ && n != "get_diagnostics"@ && n != "workspace_symbols"@ && n != "rename_symbol"@ && n != "format_code"@ && n != "analyze_manifest"@ && n != "run_cargo_check"@ && n != "extract_function"@ && n != "generate_struct"@ && n != "generate_enum"@ && n != "generate_trait_impl"@ && n != "generate_tests"@ && n != "inline_function"@ && n != "change_signature"@ && n != "organize_imports"@ implies spec_find(
            reg.commands@,
            n,
        ) is None by {}
    }

    let mut d = cmd("apply_clippy_suggestions", "source/applyLintFixes", 30000, ExtractKind::EditList);
    d.fields.push(req("file_path", ArgType::Text));
    d.doc_args.push("file_path".to_owned());
    proof {
        assert(spec_find(reg.commands@, "apply_clippy_suggestions"@) is None);
    }
    let _ = reg.register(d);
    proof {
        assert forall|n: Seq<char>| n != "find_definition"@ && n != "find_references"@ && n != "get_diagnostics"@ && n != "workspace_symbols"@ && n != "rename_symbol"@ && n != "format_code"@ && n != "analyze_manifest"@ && n != "run_cargo_check"@ && n != "extract_function"@ && n != "generate_struct"@ && n != "generate_enum"@ && n != "generate_trait_impl"@ && n != "generate_tests"@ && n != "inline_function"@ && n != "change_signature"@ && n != "organize_imports"@ && n != "apply_clippy_suggestions"@ implies spec_find(
            reg.commands@,
            n,
        ) is None by {}
    }

    let mut d = cmd("validate_lifetimes", "analysis/validateLifetimes", 15000, ExtractKind::TextSummary);
    d.fields.push(req("file_path", ArgType::Text));
    d.doc_args.push("file_path".to_owned());
    proof {
        assert(spec_find(reg.commands@, "validate_lifetimes"@) is None);
    }
    let _ = reg.register(d);
    proof {
        assert forall|n: Seq<char>| n != "find_definition"@ && n != "find_references"@ && n != "get_diagnostics"@ && n != "workspace_symbols"@ && n != "rename_symbol"@ && n != "format_code"@ && n != "analyze_manifest"@ && n != "run_cargo_check"@ && n != "extract_function"@ && n != "generate_struct"@ && n != "generate_enum"@ && n != "generate_trait_impl"@ && n != "generate_tests"@ && n != "inline_function"@ && n != "change_signature"@ && n != "organize_imports"@ && n != "apply_clippy_suggestions"@ && n != "validate_lifetimes"@ implies spec_find(
            reg.commands@,
            n,
        ) is None by {}
    }

    let mut d = cmd("get_type_hierarchy", "typeHierarchy/resolve", 15000, ExtractKind::TextSummary);
    d.fields.push(req("file_path", ArgType::Text));
    d.fields.push(req("line", ArgType::Nat));
    d.fields.push(req("character", ArgType::Nat));
    d.doc_args.push("file_path".to_owned());
    proof {
        assert(spec_find(reg.commands@, "get_type_hierarchy"@) is None);
    }
    let _ = reg.register(d);
    proof {
        assert forall|n: Seq<char>| n != "find_definition"@ && n != "find_references"@ && n != "get_diagnostics"@ && n != "workspace_symbols"@ && n != "rename_symbol"@ && n != "format_code"@ && n != "analyze_manifest"@ && n != "run_cargo_check"@ && n != "extract_function"@ && n != "generate_struct"@ && n != "generate_enum"@ && n != "generate_trait_impl"@ && n != "generate_tests"@ && n != "inline_function"@ && n != "change_signature"@ && n != "organize_imports"@ && n != "apply_clippy_suggestions"@ && n != "validate_lifetimes"@ && n != "get_type_hierarchy"@ implies spec_find(
            reg.commands@,
            n,
        ) is None by {}
    }

    let mut d = cmd("suggest_dependencies", "workspace/suggestDependencies", 30000, ExtractKind::TextSummary);
    d.fields.push(req("query", ArgType::Text));
    d.fields.push(req("workspace_path", ArgType::Text));
    proof {
        assert(spec_find(reg.commands@, "suggest_dependencies"@) is None);
    }
    let _ = reg.register(d);
    proof {
        assert forall|n: Seq<char>| n != "find_definition"@ && n != "find_references"@ && n != "get_diagnostics"@ && n != "workspace_symbols"@ && n != "rename_symbol"@ && n != "format_code"@ && n != "analyze_manifest"@ && n != "run_cargo_check"@ && n != "extract_function"@ && n != "generate_struct"@ && n != "generate_enum"@ && n != "generate_trait_impl"@ && n != "generate_tests"@ && n != "inline_function"@ && n != "change_signature"@ && n != "organize_imports"@ && n != "apply_clippy_suggestions"@ && n != "validate_lifetimes"@ && n != "get_type_hierarchy"@ && n != "suggest_dependencies"@ implies spec_find(
            reg.commands@,
            n,
        ) is None by {}
    }

    let mut d = cmd("create_module", "workspace/createModule", 15000, ExtractKind::TextSummary);
    d.fields.push(req("module_name", ArgType::Text));
    d.fields.push(req("module_path", ArgType::Text));
    d.fields.push(req("is_public", ArgType::Flag));
    proof {
        assert(spec_find(reg.commands@, "create_module"@) is None);
    }
    let _ = reg.register(d);
    proof {
        assert forall|n: Seq<char>| n != "find_definition"@ && n != "find_references"@ && n != "get_diagnostics"@ && n != "workspace_symbols"@ && n != "rename_symbol"@ && n != "format_code"@ && n != "analyze_manifest"@ && n != "run_cargo_check"@ && n != "extract_function"@ && n != "generate_struct"@ && n != "generate_enum"@ && n != "generate_trait_impl"@ && n != "generate_tests"@ && n != "inline_function"@ && n != "change_signature"@ && n != "organize_imports"@ && n != "apply_clippy_suggestions"@ && n != "validate_lifetimes"@ && n != "get_type_hierarchy"@ && n != "suggest_dependencies"@ && n != "create_module"@ implies spec_find(
            reg.commands@,
            n,
        ) is None by {}
    }

    let mut d = cmd("move_items", "refactor/moveItems", 15000, ExtractKind::EditList);
    d.fields.push(req("source_file", ArgType::Text));
    d.fields.push(req("target_file", ArgType::Text));
    d.fields.push(req("item_names", ArgType::List));
    d.doc_args.push("source_file".to_owned());
    d.doc_args.push("target_file".to_owned());
    proof {
        assert(spec_find(reg.commands@, "move_items"@) is None);
    }
    let _ = reg.register(d);
    proof {
        assert forall|n: Seq<char>| n != "find_definition"@ && n != "find_references"@ && n != "get_diagnostics"@ && n != "workspace_symbols"@ && n != "rename_symbol"@ && n != "format_code"@ && n != "analyze_manifest"@ && n != "run_cargo_check"@ && n != "extract_function"@ && n != "generate_struct"@ && n != "generate_enum"@ && n != "generate_trait_impl"@ && n != "generate_tests"@ && n != "inline_function"@ && n != "change_signature"@ && n != "organize_imports"@ && n != "apply_clippy_suggestions"@ && n != "validate_lifetimes"@ && n != "get_type_hierarchy"@ && n != "suggest_dependencies"@ && n != "create_module"@ && n != "move_items"@ implies spec_find(
            reg.commands@,
            n,
        ) is None by {}
    }

    proof {

        assert(has_command(
            reg,
            "find_definition"@,
            seq!["textDocument/definition"@],
            seq![("file_path"@, ArgType::Text, true), ("line"@, ArgType::Nat, true), ("character"@, ArgType::Nat, true)],
            seq!["file_path"@],
            5000,
            ExtractKind::LocationList,
        ));
        assert(has_command(
            reg,
            "find_references"@,
            seq!["textDocument/references"@],
            seq![("file_path"@, ArgType::Text, true), ("line"@, ArgType::Nat, true), ("character"@, ArgType::Nat, true)],
            seq!["file_path"@],
            5000,
            ExtractKind::LocationList,
        ));
        assert(has_command(
            reg,
            "get_diagnostics"@,
            Seq::empty(),
            seq![("file_path"@, ArgType::Text, true)],
            Seq::empty(),
            5000,
            ExtractKind::CachedDiagnostics,
        ));
        assert(has_command(
            reg,
            "workspace_symbols"@,
            seq!["workspace/symbol"@],
            seq![("query"@, ArgType::Text, true)],
            Seq::empty(),
            30000,
            ExtractKind::LocationList,
        ));
        assert(has_command(
            reg,
            "rename_symbol"@,
            seq!["textDocument/prepareRename"@, "textDocument/rename"@],
            seq![("file_path"@, ArgType::Text, true), ("line"@, ArgType::Nat, true), ("character"@, ArgType::Nat, true), ("new_name"@, ArgType::Text, true)],
            seq!["file_path"@],
            10000,
            ExtractKind::EditList,
        ));
        assert(has_command(
            reg,
            "format_code"@,
            seq!["textDocument/formatting"@],
            seq![("file_path"@, ArgType::Text, true)],
            seq!["file_path"@],
            10000,
            ExtractKind::EditList,
        ));
        assert(has_command(
            reg,
            "analyze_manifest"@,
            seq!["workspace/analyzeManifest"@],
            seq![("manifest_path"@, ArgType::Text, true)],
            Seq::empty(),
            30000,
            ExtractKind::TextSummary,
        ));
        assert(has_command(
            reg,
            "run_cargo_check"@,
            seq!["workspace/runCheck"@],
            seq![("workspace_path"@, ArgType::Text, true)],
            Seq::empty(),
            60000,
            ExtractKind::TextSummary,
        ));
        assert(has_command(
            reg,
            "extract_function"@,
            seq!["refactor/extractFunction"@],
            seq![("file_path"@, ArgType::Text, true), ("start_line"@, ArgType::Nat, true), ("start_character"@, ArgType::Nat, true), ("end_line"@, ArgType::Nat, true), ("end_character"@, ArgType::Nat, true), ("function_name"@, ArgType::Text, true)],
            seq!["file_path"@],
            15000,
            ExtractKind::EditList,
        ));
        assert(has_command(
            reg,
            "generate_struct"@,
            seq!["codegen/struct"@],
            seq![("struct_name"@, ArgType::Text, true), ("fields"@, ArgType::List, true), ("derives"@, ArgType::List, false), ("file_path"@, ArgType::Text, true)],
            seq!["file_path"@],
            15000,
            ExtractKind::EditList,
        ));
        assert(has_command(
            reg,
            "generate_enum"@,
            seq!["codegen/enum"@],
            seq![("enum_name"@, ArgType::Text, true), ("variants"@, ArgType::List, true), ("derives"@, ArgType::List, false), ("file_path"@, ArgType::Text, true)],
            seq!["file_path"@],
            15000,
            ExtractKind::EditList,
        ));
        assert(has_command(
            reg,
            "generate_trait_impl"@,
            seq!["codegen/traitImpl"@],
            seq![("trait_name"@, ArgType::Text, true), ("struct_name"@, ArgType::Text, true), ("file_path"@, ArgType::Text, true)],
            seq!["file_path"@],
            15000,
            ExtractKind::EditList,
        ));
        assert(has_command(
            reg,
            "generate_tests"@,
            seq!["codegen/tests"@],
            seq![("target_function"@, ArgType::Text, true), ("file_path"@, ArgType::Text, true), ("test_cases"@, ArgType::List, false)],
            seq!["file_path"@],
            15000,
            ExtractKind::EditList,
        ));
        assert(has_command(
            reg,
            "inline_function"@,
            seq!["refactor/inlineFunction"@],
            seq![("file_path"@, ArgType::Text, true), ("line"@, ArgType::Nat, true), ("character"@, ArgType::Nat, true)],
            seq!["file_path"@],
            15000,
            ExtractKind::EditList,
        ));
        assert(has_command(
            reg,
            "change_signature"@,
            seq!["refactor/changeSignature"@],
            seq![("file_path"@, ArgType::Text, true), ("line"@, ArgType::Nat, true), ("character"@, ArgType::Nat, true), ("new_signature"@, ArgType::Text, true)],
            seq!["file_path"@],
            15000,
            ExtractKind::EditList,
        ));
        assert(has_command(
            reg,
            "organize_imports"@,
            seq!["source/organizeImports"@],
            seq![("file_path"@, ArgType::Text, true)],
            seq!["file_path"@],
            10000,
            ExtractKind::EditList,
        ));
        assert(has_command(
            reg,
            "apply_clippy_suggestions"@,
            seq!["source/applyLintFixes"@],
            seq![("file_path"@, ArgType::Text, true)],
            seq!["file_path"@],
            30000,
            ExtractKind::EditList,
        ));
        assert(has_command(
            reg,
            "validate_lifetimes"@,
            seq!["analysis/validateLifetimes"@],
            seq![("file_path"@, ArgType::Text, true)],
            seq!["file_path"@],
            15000,
            ExtractKind::TextSummary,
        ));
        assert(has_command(
            reg,
            "get_type_hierarchy"@,
            seq!["typeHierarchy/resolve"@],
            seq![("file_path"@, ArgType::Text, true), ("line"@, ArgType::Nat, true), ("character"@, ArgType::Nat, true)],
            seq!["file_path"@],
            15000,
            ExtractKind::TextSummary,
        ));
        assert(has_command(
            reg,
            "suggest_dependencies"@,
            seq!["workspace/suggestDependencies"@],
            seq![("query"@, ArgType::Text, true), ("workspace_path"@, ArgType::Text, true)],
            Seq::empty(),
            30000,
            ExtractKind::TextSummary,
        ));
        assert(has_command(
            reg,
            "create_module"@,
            seq!["workspace/createModule"@],
            seq![("module_name"@, ArgType::Text, true), ("module_path"@, ArgType::Text, true), ("is_public"@, ArgType::Flag, true)],
            Seq::empty(),
            15000,
            ExtractKind::TextSummary,
        ));
        assert(has_command(
            reg,
            "move_items"@,
            seq!["refactor/moveItems"@],
            seq![("source_file"@, ArgType::Text, true), ("target_file"@, ArgType::Text, true), ("item_names"@, ArgType::List, true)],
            seq!["source_file"@, "target_file"@],
            15000,
            ExtractKind::EditList,
        ));
    }
    reg
}

} // verus!
