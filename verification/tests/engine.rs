use ink_generator::generator::ast::{
    compare_attributes, extract_attribute_expression, extract_fn_by_ident,
    extract_fn_implementation_by_attr, extract_impl_blocks, extract_impl_by_ident,
    field_to_fn_arg, find_attribute, find_struct_by_attr, generate_field_value,
    get_ident_from_impl_block, merge_fn_with_start_index, parse_expr_as_number, replace_fn_body,
};
use ink_generator::generator::merge::constructor_values::{
    produce_metadata_field_expr, produce_psp22_metadata_field_expr,
};
use ink_generator::generator::merge::errors::{ComparisonError, MergeError};
use ink_generator::generator::merge::state::{
    append_fields_to_struct, append_params_to_fn, export_fields_from_struct,
    extend_constructor, extend_constructor_body, merge_state_and_constructor,
    strip_field_attributes,
};
use ink_generator::generator::merge::uses::{
    already_has_the_same_use, extract_uses, get_last_path_segments, has_use, names_overlap,
};
use ink_generator::generator::merge::{
    check_fn_merge_directives, filter_global_imports, filter_standard_imports, merge_functions, merge_impl_blocks,
    merge_imports, parse_fn_merge_strategy, parse_main_mod, tag_attribute, tag_attribute_with,
    AstMerger, FnMergeStrategy, Merger,
};
use ink_generator::generator::source_parser::{ExtensionContext, ExtensionKind};
use ink_generator::generator::tree::{
    is_text, same_str, same_text, Attribute, Declaration, Expr, Field, FieldInit, ImplBlock, Import, ImportEntry, ImportLeaf,
    Item, Method, Module, Param, SourceFile, Statement, StructType,
};
use ink_generator::{Metadata, Standard};

fn s(text: &str) -> String {
    text.to_string()
}

fn tag(name: &str) -> Attribute {
    Attribute { tag: s(name), payload: None }
}

fn tag_word(name: &str, word: &str) -> Attribute {
    Attribute { tag: s(name), payload: Some(Expr::Verbatim(s(word))) }
}

fn append_at(line: &str) -> Attribute {
    Attribute {
        tag: s("smart_beaver::append"),
        payload: Some(Expr::AssignInt { target: s("line"), digits: s(line) }),
    }
}

fn call(text: &str) -> Statement {
    Statement::Expression(s(text))
}

fn method(name: &str, attrs: Vec<Attribute>, body: Vec<Statement>) -> Method {
    Method { visibility: s(""), name: s(name), params: vec![], output: s(""), body, attrs }
}

fn inherent(receiver: &str, methods: Vec<Method>) -> ImplBlock {
    ImplBlock { trait_name: None, self_ty: s(receiver), attrs: vec![], methods }
}

fn of_trait(name: &str, receiver: &str, methods: Vec<Method>) -> ImplBlock {
    ImplBlock { trait_name: Some(s(name)), self_ty: s(receiver), attrs: vec![], methods }
}

fn field(name: &str, ty: &str, attrs: Vec<Attribute>) -> Field {
    Field { visibility: s(""), name: s(name), ty: s(ty), attrs }
}

fn import(path: &[&str], leaf: &str) -> Import {
    Import {
        visibility: s(""), entries: vec![ImportEntry {
            qualifiers: path.iter().map(|p| s(p)).collect(),
            leaf: ImportLeaf::Name(s(leaf)),
        }],
    }
}

fn wildcard(path: &[&str]) -> Import {
    Import {
        visibility: s(""), entries: vec![ImportEntry {
            qualifiers: path.iter().map(|p| s(p)).collect(),
            leaf: ImportLeaf::Wildcard,
        }],
    }
}

fn alias(path: &[&str], name: &str, other: &str) -> Import {
    Import {
        visibility: s(""), entries: vec![ImportEntry {
            qualifiers: path.iter().map(|p| s(p)).collect(),
            leaf: ImportLeaf::Alias { name: s(name), alias: s(other) },
        }],
    }
}

fn module(name: &str, attr: &str, declarations: Vec<Declaration>) -> Module {
    Module { visibility: s(""), name: s(name), attrs: vec![tag(attr)], declarations }
}

fn contract(declarations: Vec<Declaration>) -> SourceFile {
    SourceFile { items: vec![Item::Module(module("token", "ink::contract", declarations))] }
}

fn fragment(kind: ExtensionKind, declarations: Vec<Declaration>) -> ExtensionContext {
    ExtensionContext {
        kind,
        ast: SourceFile {
            items: vec![Item::Module(module("extension", "smart_beaver::extension", declarations))],
        },
    }
}

fn main_module(file: &SourceFile) -> &Module {
    match &file.items[0] {
        Item::Module(m) => m,
        _ => panic!("no module"),
    }
}

fn balance_storage() -> StructType {
    StructType {
        visibility: s(""), name: s("Token"),
        attrs: vec![tag_word("ink", "storage")],
        fields: vec![field("balance", "u64", vec![])],
    }
}

fn balance_constructor() -> Method {
    Method {
        visibility: s(""), name: s("new"),
        params: vec![],
        output: s("Self"),
        body: vec![Statement::StructLiteral {
            path: s("Self"),
            fields: vec![FieldInit { name: s("balance"), value: Some(Expr::Int(s("0"))) }], rest: s(""),
        }],
        attrs: vec![tag_word("ink", "constructor")],
    }
}

fn extension_storage(fields: Vec<Field>) -> StructType {
    StructType { visibility: s(""), name: s("Data"), attrs: vec![tag("smart_beaver::storage")], fields }
}

fn base_declarations() -> Vec<Declaration> {
    vec![
        Declaration::Struct(balance_storage()),
        Declaration::Impl(inherent("Token", vec![balance_constructor()])),
    ]
}

fn constructor_of(module: &Module) -> &Method {
    for declaration in module.declarations.iter() {
        if let Declaration::Impl(block) = declaration {
            return &block.methods[0];
        }
    }
    panic!("no implementation block");
}

// Texts and expressions

#[test]
fn expressions_are_the_same_by_shape_and_text() {
    let all = vec![
        Expr::Int(s("1")),
        Expr::Byte(1),
        Expr::Str(s("1")),
        Expr::SomeStr(s("1")),
        Expr::Nothing,
        Expr::AssignInt { target: s("line"), digits: s("1") },
        Expr::Verbatim(s("1")),
    ];
    for (i, a) in all.iter().enumerate() {
        for (j, b) in all.iter().enumerate() {
            assert_eq!(a.same(b), i == j);
        }
        assert!(a.same(&a.clone()));
    }
    assert!(!Expr::Int(s("1")).same(&Expr::Int(s("01"))));
    assert!(!Expr::Byte(1).same(&Expr::Byte(2)));
    let other_target = Expr::AssignInt { target: s("at"), digits: s("1") };
    assert!(!other_target.same(&Expr::AssignInt { target: s("line"), digits: s("1") }));
}

#[test]
fn texts_are_compared_by_their_characters() {
    assert!(same_text(&s("abc"), &s("abc")));
    assert!(!same_text(&s("abc"), &s("abd")));
    assert!(is_text(&s("crate"), "crate"));
    assert!(!is_text(&s("crate"), "crat"));
    assert!(same_str("", ""));
    assert!(!same_str("a", "A"));
}

// Attributes

#[test]
fn attributes_with_the_same_tag_and_no_payload_are_equal() {
    assert!(compare_attributes(&tag("ink::contract"), &tag("ink::contract")));
    assert!(!compare_attributes(&tag("ink::contract"), &tag("ink::event")));
}

#[test]
fn attribute_payloads_are_compared_only_where_both_have_one() {
    assert!(compare_attributes(&tag_word("ink", "storage"), &tag_word("ink", "storage")));
    assert!(!compare_attributes(&tag_word("ink", "storage"), &tag_word("ink", "constructor")));
    assert!(compare_attributes(&append_at("3"), &tag("smart_beaver::append")));
    assert!(compare_attributes(&tag("smart_beaver::append"), &append_at("3")));
    assert!(!compare_attributes(&append_at("3"), &append_at("4")));
}

#[test]
fn tag_attribute_builds_the_marker() {
    assert_eq!(tag_attribute("smart_beaver::init"), tag("smart_beaver::init"));
    assert_eq!(tag_attribute_with("ink", "storage"), tag_word("ink", "storage"));
}

#[test]
fn find_attribute_gives_the_first_match() {
    let attrs = vec![tag("doc"), append_at("1"), append_at("2")];
    assert_eq!(find_attribute(&attrs, &tag("smart_beaver::append")), Some(1));
    assert_eq!(find_attribute(&attrs, &append_at("2")), Some(2));
    assert_eq!(find_attribute(&attrs, &tag("smart_beaver::replace")), None);
    assert_eq!(find_attribute(&vec![], &tag("doc")), None);
}

#[test]
fn attribute_expression_is_that_of_the_first_match_with_a_payload() {
    let attrs = vec![tag("smart_beaver::append"), append_at("7"), append_at("9")];
    assert_eq!(
        extract_attribute_expression(&attrs, &tag("smart_beaver::append")),
        Some(Expr::AssignInt { target: s("line"), digits: s("7") })
    );
    assert_eq!(extract_attribute_expression(&attrs, &tag("smart_beaver::init")), None);
    assert_eq!(
        extract_attribute_expression(&vec![tag("smart_beaver::append")], &tag("smart_beaver::append")),
        None
    );
}

// Line numbers

#[test]
fn line_number_is_read_from_an_assignment() {
    let expr = Expr::AssignInt { target: s("line"), digits: s("12") };
    assert_eq!(parse_expr_as_number(&expr), Ok(12));
    let zero = Expr::AssignInt { target: s("line"), digits: s("0") };
    assert_eq!(parse_expr_as_number(&zero), Ok(0));
    let padded = Expr::AssignInt { target: s("line"), digits: s("007") };
    assert_eq!(parse_expr_as_number(&padded), Ok(7));
}

#[test]
fn line_number_takes_the_largest_machine_word() {
    let digits = usize::MAX.to_string();
    let expr = Expr::AssignInt { target: s("line"), digits };
    assert_eq!(parse_expr_as_number(&expr), Ok(usize::MAX));
}

#[test]
fn line_number_refuses_what_is_no_assignment_of_a_number() {
    let malformed = Err(MergeError::MalformedAttribute);
    assert_eq!(parse_expr_as_number(&Expr::Int(s("3"))), malformed);
    assert_eq!(parse_expr_as_number(&Expr::Verbatim(s("line = a"))), malformed);
    assert_eq!(parse_expr_as_number(&Expr::Str(s("1"))), malformed);
    assert_eq!(parse_expr_as_number(&Expr::Nothing), malformed);
    let empty = Expr::AssignInt { target: s("line"), digits: s("") };
    assert_eq!(parse_expr_as_number(&empty), malformed);
    let letters = Expr::AssignInt { target: s("line"), digits: s("1x") };
    assert_eq!(parse_expr_as_number(&letters), malformed);
    let signed = Expr::AssignInt { target: s("line"), digits: s("-1") };
    assert_eq!(parse_expr_as_number(&signed), malformed);
}

#[test]
fn line_number_refuses_a_number_beyond_the_machine_word() {
    let digits = format!("{}0", usize::MAX);
    let expr = Expr::AssignInt { target: s("line"), digits };
    assert_eq!(parse_expr_as_number(&expr), Err(MergeError::MalformedAttribute));
    let next = format!("{}", usize::MAX as u128 + 1);
    let expr = Expr::AssignInt { target: s("line"), digits: next };
    assert_eq!(parse_expr_as_number(&expr), Err(MergeError::MalformedAttribute));
}

// Strategy

#[test]
fn strategy_is_append_where_only_append_is_there() {
    assert_eq!(
        parse_fn_merge_strategy(&vec![append_at("4")]),
        Some(FnMergeStrategy::Append { line: 4 })
    );
}

#[test]
fn strategy_append_without_a_line_starts_at_zero() {
    assert_eq!(
        parse_fn_merge_strategy(&vec![tag("smart_beaver::append")]),
        Some(FnMergeStrategy::Append { line: 0 })
    );
}

#[test]
fn strategy_append_with_a_malformed_line_starts_at_zero() {
    let attr = Attribute { tag: s("smart_beaver::append"), payload: Some(Expr::Verbatim(s("soon"))) };
    assert_eq!(parse_fn_merge_strategy(&vec![attr]), Some(FnMergeStrategy::Append { line: 0 }));
}

#[test]
fn strategy_is_replace_where_only_replace_is_there() {
    assert_eq!(
        parse_fn_merge_strategy(&vec![tag("doc"), tag("smart_beaver::replace")]),
        Some(FnMergeStrategy::Replace)
    );
}

#[test]
fn strategy_is_none_without_a_directive() {
    assert_eq!(parse_fn_merge_strategy(&vec![]), None);
    assert_eq!(parse_fn_merge_strategy(&vec![tag_word("ink", "message")]), None);
}

#[test]
fn strategy_is_none_where_both_directives_are_there() {
    assert_eq!(
        parse_fn_merge_strategy(&vec![append_at("1"), tag("smart_beaver::replace")]),
        None
    );
}

#[test]
fn directives_are_checked_for_a_diagnostic() {
    assert_eq!(check_fn_merge_directives(&vec![]), None);
    assert_eq!(check_fn_merge_directives(&vec![append_at("3")]), None);
    assert_eq!(check_fn_merge_directives(&vec![tag("smart_beaver::append")]), None);
    assert_eq!(check_fn_merge_directives(&vec![tag("smart_beaver::replace")]), None);
    assert_eq!(
        check_fn_merge_directives(&vec![append_at("3"), tag("smart_beaver::replace")]),
        Some(MergeError::AmbiguousMergeDirective)
    );
    assert_eq!(
        check_fn_merge_directives(&vec![append_at("three")]),
        Some(MergeError::MalformedAttribute)
    );
    let wordy = Attribute { tag: s("smart_beaver::append"), payload: Some(Expr::Str(s("3"))) };
    assert_eq!(check_fn_merge_directives(&vec![wordy]), Some(MergeError::MalformedAttribute));
}

// Splicing

#[test]
fn append_at_one_splices_between_the_statements() {
    let mut target = method("f", vec![], vec![call("s1"), call("s2")]);
    merge_fn_with_start_index(&mut target, &vec![call("a"), call("b")], 1);
    assert_eq!(target.body, vec![call("s1"), call("a"), call("b"), call("s2")]);
}

#[test]
fn append_at_zero_puts_the_source_in_front() {
    let mut target = method("f", vec![], vec![call("s1"), call("s2")]);
    merge_fn_with_start_index(&mut target, &vec![call("a"), call("b")], 0);
    assert_eq!(target.body, vec![call("a"), call("b"), call("s1"), call("s2")]);
}

#[test]
fn append_past_the_end_is_append_at_the_end() {
    let source = vec![call("a"), call("b")];
    let mut at_end = method("f", vec![], vec![call("s1"), call("s2")]);
    merge_fn_with_start_index(&mut at_end, &source, 2);
    let mut past_end = method("f", vec![], vec![call("s1"), call("s2")]);
    merge_fn_with_start_index(&mut past_end, &source, 40);
    let mut far = method("f", vec![], vec![call("s1"), call("s2")]);
    merge_fn_with_start_index(&mut far, &source, usize::MAX);
    assert_eq!(at_end.body, vec![call("s1"), call("s2"), call("a"), call("b")]);
    assert_eq!(past_end, at_end);
    assert_eq!(far, at_end);
}

#[test]
fn append_into_an_empty_body_gives_the_source() {
    let mut target = method("f", vec![], vec![]);
    merge_fn_with_start_index(&mut target, &vec![call("a")], 0);
    assert_eq!(target.body, vec![call("a")]);
}

#[test]
fn append_of_nothing_changes_nothing() {
    let mut target = method("f", vec![tag("doc")], vec![call("s1")]);
    merge_fn_with_start_index(&mut target, &vec![], 0);
    assert_eq!(target, method("f", vec![tag("doc")], vec![call("s1")]));
}

#[test]
fn append_keeps_the_signature_and_the_attributes() {
    let mut target = Method {
        visibility: s(""), name: s("f"),
        params: vec![Param { name: s("x"), ty: s("u8") }],
        output: s("bool"),
        body: vec![call("s1")],
        attrs: vec![tag_word("ink", "message")],
    };
    merge_fn_with_start_index(&mut target, &vec![call("a")], 1);
    assert_eq!(target.name, "f");
    assert_eq!(target.params, vec![Param { name: s("x"), ty: s("u8") }]);
    assert_eq!(target.output, "bool");
    assert_eq!(target.attrs, vec![tag_word("ink", "message")]);
    assert_eq!(target.body, vec![call("s1"), call("a")]);
}

#[test]
fn replace_changes_only_the_body() {
    let mut target = Method {
        visibility: s(""), name: s("f"),
        params: vec![Param { name: s("x"), ty: s("u8") }],
        output: s("bool"),
        body: vec![call("s1"), call("s2")],
        attrs: vec![tag_word("ink", "message")],
    };
    replace_fn_body(&mut target, &vec![call("other")]);
    assert_eq!(
        target,
        Method {
            visibility: s(""), name: s("f"),
            params: vec![Param { name: s("x"), ty: s("u8") }],
            output: s("bool"),
            body: vec![call("other")],
            attrs: vec![tag_word("ink", "message")],
        }
    );
}

// Navigation

#[test]
fn method_by_name_is_the_last_of_that_name() {
    let block = inherent(
        "Token",
        vec![method("f", vec![], vec![]), method("g", vec![], vec![]), method("f", vec![], vec![])],
    );
    assert_eq!(extract_fn_by_ident(&block, &s("f")), Some(2));
    assert_eq!(extract_fn_by_ident(&block, &s("g")), Some(1));
    assert_eq!(extract_fn_by_ident(&block, &s("h")), None);
}

#[test]
fn method_by_attribute_is_the_first_with_it() {
    let block = inherent(
        "Token",
        vec![
            method("f", vec![], vec![]),
            method("new", vec![tag_word("ink", "constructor")], vec![]),
            method("other", vec![tag_word("ink", "constructor")], vec![]),
        ],
    );
    assert_eq!(extract_fn_implementation_by_attr(&block, &tag_word("ink", "constructor")), Some(1));
    assert_eq!(extract_fn_implementation_by_attr(&block, &tag_word("ink", "message")), None);
}

#[test]
fn impl_identity_is_the_trait_or_else_the_receiver() {
    assert_eq!(get_ident_from_impl_block(&inherent("Token", vec![])), "Token");
    assert_eq!(get_ident_from_impl_block(&of_trait("PSP22", "Token", vec![])), "PSP22");
}

#[test]
fn impl_by_name_is_the_last_of_that_name() {
    let m = module(
        "token",
        "ink::contract",
        vec![
            Declaration::Impl(inherent("Token", vec![])),
            Declaration::Other(s("const A: u8 = 1;")),
            Declaration::Impl(of_trait("PSP22", "Token", vec![])),
            Declaration::Impl(inherent("Token", vec![])),
        ],
    );
    assert_eq!(extract_impl_by_ident(&m, &s("Token")), Some(3));
    assert_eq!(extract_impl_by_ident(&m, &s("PSP22")), Some(2));
    assert_eq!(extract_impl_by_ident(&m, &s("Other")), None);
    assert_eq!(extract_impl_blocks(&m), vec![0, 2, 3]);
}

#[test]
fn struct_by_attribute_is_the_first_with_it() {
    let m = module(
        "token",
        "ink::contract",
        vec![
            Declaration::Struct(StructType { visibility: s(""), name: s("Event"), attrs: vec![tag_word("ink", "event")], fields: vec![] }),
            Declaration::Struct(balance_storage()),
            Declaration::Struct(balance_storage()),
        ],
    );
    assert_eq!(find_struct_by_attr(&m, &tag_word("ink", "storage")), Some(1));
    assert_eq!(find_struct_by_attr(&m, &tag_word("ink", "event")), Some(0));
    assert_eq!(find_struct_by_attr(&m, &tag("smart_beaver::storage")), None);
}

#[test]
fn main_module_is_the_first_with_the_marker() {
    let file = SourceFile {
        items: vec![
            Item::Other(s("use a::B;")),
            Item::Module(module("helpers", "cfg", vec![])),
            Item::Module(Module {
                visibility: s(""), name: s("token"),
                attrs: vec![tag("doc"), tag_word("ink::contract", "env = E")],
                declarations: vec![],
            }),
        ],
    };
    assert_eq!(parse_main_mod(&file, &tag("ink::contract")), Ok(2));
    assert_eq!(parse_main_mod(&file, &tag("smart_beaver::extension")), Err(MergeError::NotFound));
    assert_eq!(parse_main_mod(&SourceFile { items: vec![] }, &tag("ink::contract")), Err(MergeError::NotFound));
}

#[test]
fn field_value_and_parameter_carry_the_field_name() {
    assert_eq!(
        generate_field_value(&s("owner"), None),
        FieldInit { name: s("owner"), value: None }
    );
    assert_eq!(
        generate_field_value(&s("cap"), Some(Expr::Int(s("5")))),
        FieldInit { name: s("cap"), value: Some(Expr::Int(s("5"))) }
    );
    assert_eq!(
        field_to_fn_arg(&field("owner", "Address", vec![tag("doc")])),
        Param { name: s("owner"), ty: s("Address") }
    );
}

// Methods

#[test]
fn method_without_directive_is_copied_where_absent() {
    let mut target = inherent("Token", vec![method("f", vec![], vec![call("x")])]);
    let source = inherent("Token", vec![method("g", vec![tag("doc")], vec![call("y")])]);
    let changes = merge_functions(&mut target, &source);
    assert_eq!(changes, 1);
    assert_eq!(
        target.methods,
        vec![method("f", vec![], vec![call("x")]), method("g", vec![tag("doc")], vec![call("y")])]
    );
}

#[test]
fn method_without_directive_is_left_out_where_present() {
    let mut target = inherent("Token", vec![method("f", vec![], vec![call("x")])]);
    let source = inherent("Token", vec![method("f", vec![], vec![call("y")])]);
    assert_eq!(merge_functions(&mut target, &source), 0);
    assert_eq!(target.methods, vec![method("f", vec![], vec![call("x")])]);
}

#[test]
fn method_with_directive_is_dropped_where_absent() {
    let mut target = inherent("Token", vec![]);
    let source = inherent(
        "Token",
        vec![
            method("f", vec![append_at("0")], vec![call("y")]),
            method("g", vec![tag("smart_beaver::replace")], vec![call("z")]),
        ],
    );
    assert_eq!(merge_functions(&mut target, &source), 0);
    assert_eq!(target.methods, vec![]);
}

#[test]
fn method_with_both_directives_is_left_out_where_present() {
    let mut target = inherent("Token", vec![method("f", vec![], vec![call("x")])]);
    let source = inherent(
        "Token",
        vec![method("f", vec![append_at("0"), tag("smart_beaver::replace")], vec![call("y")])],
    );
    assert_eq!(merge_functions(&mut target, &source), 0);
    assert_eq!(target.methods, vec![method("f", vec![], vec![call("x")])]);
}

#[test]
fn method_with_both_directives_is_copied_where_absent() {
    let mut target = inherent("Token", vec![]);
    let both = method("f", vec![append_at("0"), tag("smart_beaver::replace")], vec![call("y")]);
    let source = inherent("Token", vec![both]);
    assert_eq!(merge_functions(&mut target, &source), 1);
    assert_eq!(target.methods.len(), 1);
    assert_eq!(target.methods[0].name, "f");
}

#[test]
fn replace_directive_replaces_the_body_of_the_last_target() {
    let mut target = inherent(
        "Token",
        vec![method("f", vec![], vec![call("first")]), method("f", vec![tag("doc")], vec![call("second")])],
    );
    let source = inherent("Token", vec![method("f", vec![tag("smart_beaver::replace")], vec![call("new")])]);
    assert_eq!(merge_functions(&mut target, &source), 1);
    assert_eq!(
        target.methods,
        vec![method("f", vec![], vec![call("first")]), method("f", vec![tag("doc")], vec![call("new")])]
    );
}

#[test]
fn transfer_with_append_at_one_gets_the_call_in_the_middle() {
    let mut target = of_trait(
        "PSP22",
        "Token",
        vec![method("transfer", vec![], vec![call("check_balance()"), call("move_funds()")])],
    );
    let source = of_trait(
        "PSP22",
        "Token",
        vec![method("transfer", vec![append_at("1")], vec![call("log_call()")])],
    );
    assert_eq!(merge_functions(&mut target, &source), 1);
    assert_eq!(
        target.methods,
        vec![method(
            "transfer",
            vec![],
            vec![call("check_balance()"), call("log_call()"), call("move_funds()")]
        )]
    );
}

#[test]
fn later_methods_see_what_earlier_ones_did() {
    let mut target = inherent("Token", vec![]);
    let source = inherent(
        "Token",
        vec![
            method("f", vec![], vec![call("a")]),
            method("f", vec![append_at("1")], vec![call("b")]),
            method("f", vec![append_at("0")], vec![call("c")]),
        ],
    );
    assert_eq!(merge_functions(&mut target, &source), 3);
    assert_eq!(target.methods, vec![method("f", vec![], vec![call("c"), call("a"), call("b")])]);
}

#[test]
fn copying_twice_into_an_empty_block_is_copying_once() {
    let source = inherent(
        "Token",
        vec![
            method("f", vec![], vec![call("a")]),
            method("g", vec![tag_word("ink", "message")], vec![call("b")]),
            method("f", vec![], vec![call("shadowed")]),
        ],
    );
    let mut once = inherent("Token", vec![]);
    assert_eq!(merge_functions(&mut once, &source), 2);
    let mut twice = inherent("Token", vec![]);
    merge_functions(&mut twice, &source);
    assert_eq!(merge_functions(&mut twice, &source), 0);
    assert_eq!(once, twice);
    assert_eq!(
        once.methods,
        vec![
            method("f", vec![], vec![call("a")]),
            method("g", vec![tag_word("ink", "message")], vec![call("b")]),
        ]
    );
}

#[test]
fn merge_keeps_the_header_of_the_target_block() {
    let mut target = ImplBlock {
        trait_name: Some(s("PSP22")),
        self_ty: s("Token"),
        attrs: vec![tag("doc")],
        methods: vec![],
    };
    let source = of_trait("Other", "Else", vec![method("f", vec![], vec![])]);
    merge_functions(&mut target, &source);
    assert_eq!(target.trait_name, Some(s("PSP22")));
    assert_eq!(target.self_ty, "Token");
    assert_eq!(target.attrs, vec![tag("doc")]);
}

// Implementation blocks

#[test]
fn block_of_a_known_name_is_merged_into_the_last_such_block() {
    let mut base = module(
        "token",
        "ink::contract",
        vec![
            Declaration::Impl(inherent("Token", vec![method("f", vec![], vec![])])),
            Declaration::Impl(inherent("Token", vec![])),
        ],
    );
    let extension = module(
        "extension",
        "smart_beaver::extension",
        vec![Declaration::Impl(inherent("Token", vec![method("f", vec![], vec![call("x")])]))],
    );
    merge_impl_blocks(&mut base, &extension);
    assert_eq!(
        base.declarations,
        vec![
            Declaration::Impl(inherent("Token", vec![method("f", vec![], vec![])])),
            Declaration::Impl(inherent("Token", vec![method("f", vec![], vec![call("x")])])),
        ]
    );
}

#[test]
fn block_of_a_new_name_is_added_with_its_copied_methods() {
    let mut base = module("token", "ink::contract", vec![Declaration::Impl(inherent("Token", vec![]))]);
    let extension = module(
        "extension",
        "smart_beaver::extension",
        vec![Declaration::Impl(ImplBlock {
            trait_name: Some(s("Ownable")),
            self_ty: s("Token"),
            attrs: vec![tag("doc")],
            methods: vec![
                method("owner", vec![], vec![call("self.owner")]),
                method("mint", vec![append_at("0")], vec![call("check()")]),
            ],
        })],
    );
    merge_impl_blocks(&mut base, &extension);
    assert_eq!(
        base.declarations,
        vec![
            Declaration::Impl(inherent("Token", vec![])),
            Declaration::Impl(ImplBlock {
                trait_name: Some(s("Ownable")),
                self_ty: s("Token"),
                attrs: vec![tag("doc")],
                methods: vec![method("owner", vec![], vec![call("self.owner")])],
            }),
        ]
    );
}

#[test]
fn block_of_a_new_name_without_mergeable_methods_is_dropped() {
    let mut base = module("token", "ink::contract", vec![Declaration::Impl(inherent("Token", vec![]))]);
    let extension = module(
        "extension",
        "smart_beaver::extension",
        vec![
            Declaration::Impl(of_trait(
                "Mintable",
                "Token",
                vec![method("mint", vec![tag("smart_beaver::replace")], vec![call("x")])],
            )),
            Declaration::Impl(of_trait("Empty", "Token", vec![])),
        ],
    );
    merge_impl_blocks(&mut base, &extension);
    assert_eq!(base.declarations, vec![Declaration::Impl(inherent("Token", vec![]))]);
}

#[test]
fn merging_a_block_twice_into_an_empty_module_is_merging_it_once() {
    let block = of_trait(
        "Ownable",
        "Token",
        vec![
            method("owner", vec![], vec![call("self.owner")]),
            method("renounce", vec![tag_word("ink", "message")], vec![call("self.owner = None")]),
        ],
    );
    let extension = module("extension", "smart_beaver::extension", vec![Declaration::Impl(block.clone())]);
    let mut once = module("token", "ink::contract", vec![]);
    merge_impl_blocks(&mut once, &extension);
    let mut twice = module("token", "ink::contract", vec![]);
    merge_impl_blocks(&mut twice, &extension);
    merge_impl_blocks(&mut twice, &extension);
    assert_eq!(once, twice);
    assert_eq!(once.declarations, vec![Declaration::Impl(block)]);
}

#[test]
fn trait_block_and_inherent_block_are_told_apart_by_name() {
    let mut base = module(
        "token",
        "ink::contract",
        vec![
            Declaration::Impl(inherent("Token", vec![])),
            Declaration::Impl(of_trait("PSP22", "Token", vec![])),
        ],
    );
    let extension = module(
        "extension",
        "smart_beaver::extension",
        vec![Declaration::Impl(inherent("Token", vec![method("f", vec![], vec![])]))],
    );
    merge_impl_blocks(&mut base, &extension);
    assert_eq!(
        base.declarations,
        vec![
            Declaration::Impl(inherent("Token", vec![method("f", vec![], vec![])])),
            Declaration::Impl(of_trait("PSP22", "Token", vec![])),
        ]
    );
}

// Imports

#[test]
fn leaf_names_of_an_import() {
    let both = Import {
        visibility: s(""), entries: vec![
            ImportEntry { qualifiers: vec![s("a"), s("b")], leaf: ImportLeaf::Name(s("C")) },
            ImportEntry { qualifiers: vec![s("a")], leaf: ImportLeaf::Name(s("D")) },
        ],
    };
    assert_eq!(get_last_path_segments(&both), Ok(vec![s("C"), s("D")]));
    assert_eq!(get_last_path_segments(&Import { visibility: s(""), entries: vec![] }), Ok(vec![]));
}

#[test]
fn wildcard_and_alias_are_refused_with_their_messages() {
    assert_eq!(
        get_last_path_segments(&wildcard(&["a"])),
        Err(ComparisonError::new(
            "Usage of * in use clauses is not yet supported. Specify dependencies you want to use!"
        ))
    );
    assert_eq!(
        get_last_path_segments(&alias(&["a"], "B", "C")),
        Err(ComparisonError::new(
            "Usage of aliases in use clauses is not yet supported. Specify dependencies you want to use!"
        ))
    );
    let mixed = Import {
        visibility: s(""), entries: vec![
            ImportEntry { qualifiers: vec![], leaf: ImportLeaf::Name(s("A")) },
            ImportEntry { qualifiers: vec![], leaf: ImportLeaf::Alias { name: s("B"), alias: s("C") } },
            ImportEntry { qualifiers: vec![], leaf: ImportLeaf::Wildcard },
        ],
    };
    assert_eq!(
        get_last_path_segments(&mixed).unwrap_err().to_string(),
        "Comparison failed: Usage of aliases in use clauses is not yet supported. Specify dependencies you want to use!"
    );
}

#[test]
fn names_overlap_where_one_is_shared() {
    assert!(names_overlap(&vec![s("A"), s("B")], &vec![s("C"), s("B")]));
    assert!(!names_overlap(&vec![s("A"), s("B")], &vec![s("C"), s("D")]));
    assert!(!names_overlap(&vec![], &vec![s("C")]));
    assert!(!names_overlap(&vec![s("C")], &vec![]));
}

#[test]
fn imports_with_the_same_leaf_are_the_same_use() {
    assert_eq!(already_has_the_same_use(&import(&["a", "b"], "C"), &import(&["x", "y"], "C")), Ok(true));
    assert_eq!(already_has_the_same_use(&import(&["a", "b"], "C"), &import(&["a", "b"], "D")), Ok(false));
    assert!(already_has_the_same_use(&wildcard(&["a"]), &import(&["a"], "D")).is_err());
    assert!(already_has_the_same_use(&import(&["a"], "D"), &alias(&["a"], "D", "E")).is_err());
}

#[test]
fn has_use_looks_through_the_imports_in_order() {
    let items = vec![
        Declaration::Other(s("const A: u8 = 1;")),
        Declaration::Import(import(&["a"], "B")),
        Declaration::Import(import(&["a"], "C")),
        Declaration::Import(wildcard(&["z"])),
    ];
    assert_eq!(has_use(&items, &import(&["x"], "C")), Ok(true));
    assert_eq!(
        has_use(&items, &import(&["x"], "D")).unwrap_err().0,
        "Usage of * in use clauses is not yet supported. Specify dependencies you want to use!"
    );
    assert_eq!(
        has_use(&items, &alias(&["x"], "B", "D")).unwrap_err().0,
        "Usage of aliases in use clauses is not yet supported. Specify dependencies you want to use!"
    );
    assert!(has_use(&items, &wildcard(&["x"])).is_err());
    assert_eq!(has_use(&items[..3].to_vec_by_clone(), &import(&["x"], "D")), Ok(false));
    assert_eq!(has_use(&vec![], &import(&["x"], "D")), Ok(false));
    assert!(has_use(&vec![], &alias(&["x"], "D", "E")).is_err());
    assert_eq!(extract_uses(&items), vec![1, 2, 3]);
}

trait CloneSlice {
    fn to_vec_by_clone(&self) -> Vec<Declaration>;
}

impl CloneSlice for [Declaration] {
    fn to_vec_by_clone(&self) -> Vec<Declaration> {
        self.iter().map(|d| d.clone()).collect()
    }
}

#[test]
fn second_import_of_a_shared_leaf_is_dropped() {
    let mut base = module("token", "ink::contract", vec![Declaration::Other(s("const A: u8 = 1;"))]);
    let extension = module(
        "extension",
        "smart_beaver::extension",
        vec![
            Declaration::Import(import(&["a", "b"], "C")),
            Declaration::Import(import(&["x", "y"], "C")),
        ],
    );
    assert_eq!(merge_imports(&mut base, &extension), Ok(()));
    assert_eq!(
        base.declarations,
        vec![
            Declaration::Import(import(&["a", "b"], "C")),
            Declaration::Other(s("const A: u8 = 1;")),
        ]
    );
}

#[test]
fn new_imports_go_to_the_front_one_by_one() {
    let mut base = module(
        "token",
        "ink::contract",
        vec![Declaration::Import(import(&["ink"], "Env")), Declaration::Struct(balance_storage())],
    );
    let extension = module(
        "extension",
        "smart_beaver::extension",
        vec![
            Declaration::Import(import(&["a"], "First")),
            Declaration::Struct(extension_storage(vec![])),
            Declaration::Import(import(&["other"], "Env")),
            Declaration::Import(import(&["a"], "Second")),
        ],
    );
    assert_eq!(merge_imports(&mut base, &extension), Ok(()));
    assert_eq!(
        base.declarations,
        vec![
            Declaration::Import(import(&["a"], "Second")),
            Declaration::Import(import(&["a"], "First")),
            Declaration::Import(import(&["ink"], "Env")),
            Declaration::Struct(balance_storage()),
        ]
    );
    assert_eq!(base.name, "token");
    assert_eq!(base.attrs, vec![tag("ink::contract")]);
}

#[test]
fn unsupported_import_leaves_the_base_module_as_it_was() {
    let mut base = module("token", "ink::contract", vec![Declaration::Struct(balance_storage())]);
    let extension = module(
        "extension",
        "smart_beaver::extension",
        vec![Declaration::Import(import(&["a"], "First")), Declaration::Import(wildcard(&["a"]))],
    );
    assert_eq!(merge_imports(&mut base, &extension), Err(MergeError::UnsupportedImport));
    assert_eq!(base, module("token", "ink::contract", vec![Declaration::Struct(balance_storage())]));
}

#[test]
fn unsupported_import_in_the_base_stops_a_comparison() {
    let mut base = module("token", "ink::contract", vec![Declaration::Import(alias(&["a"], "B", "C"))]);
    let extension = module(
        "extension",
        "smart_beaver::extension",
        vec![Declaration::Import(import(&["a"], "First"))],
    );
    assert_eq!(merge_imports(&mut base, &extension), Err(MergeError::UnsupportedImport));
}

// Storage and constructor

#[test]
fn fields_are_exported_with_and_stripped_of_attributes() {
    let storage = extension_storage(vec![field("owner", "Address", vec![tag("doc")])]);
    assert_eq!(export_fields_from_struct(&storage), vec![field("owner", "Address", vec![tag("doc")])]);
    assert_eq!(
        strip_field_attributes(&field("owner", "Address", vec![tag("doc")])),
        field("owner", "Address", vec![])
    );
    let public = Field { visibility: s("pub"), name: s("a"), ty: s("u8"), attrs: vec![tag("doc")] };
    assert_eq!(
        strip_field_attributes(&public),
        Field { visibility: s("pub"), name: s("a"), ty: s("u8"), attrs: vec![] }
    );
    let mut target = balance_storage();
    append_fields_to_struct(&mut target, &vec![field("owner", "Address", vec![tag("doc")])]);
    assert_eq!(
        target,
        StructType {
            visibility: s(""), name: s("Token"),
            attrs: vec![tag_word("ink", "storage")],
            fields: vec![field("balance", "u64", vec![]), field("owner", "Address", vec![])],
        }
    );
}

#[test]
fn parameters_are_added_for_fields_without_a_value_of_their_own() {
    let mut constructor = balance_constructor();
    let init = Attribute { tag: s("smart_beaver::init"), payload: Some(Expr::Verbatim(s("Vec::new()"))) };
    let fields = vec![
        field("owner", "Address", vec![]),
        field("log", "Vec<u8>", vec![init]),
        field("cap", "u128", vec![tag("smart_beaver::init")]),
    ];
    append_params_to_fn(&mut constructor, &fields, &tag("smart_beaver::init"));
    assert_eq!(
        constructor.params,
        vec![Param { name: s("owner"), ty: s("Address") }, Param { name: s("cap"), ty: s("u128") }]
    );
    assert_eq!(constructor.body, balance_constructor().body);
}

#[test]
fn initializers_go_into_the_first_expression_statement() {
    let mut constructor = balance_constructor();
    constructor.body.insert(0, Statement::Other(s("let caller = Self::env().caller();")));
    let init = Attribute { tag: s("smart_beaver::init"), payload: Some(Expr::Verbatim(s("caller"))) };
    let fields = vec![field("owner", "Address", vec![init]), field("cap", "u128", vec![])];
    extend_constructor_body(
        &mut constructor,
        &fields,
        &tag("smart_beaver::init"),
        &ExtensionKind::Ownable,
        Standard::PSP22,
        &None,
    );
    assert_eq!(
        constructor.body,
        vec![
            Statement::Other(s("let caller = Self::env().caller();")),
            Statement::StructLiteral {
                path: s("Self"),
                fields: vec![
                    FieldInit { name: s("balance"), value: Some(Expr::Int(s("0"))) },
                    FieldInit { name: s("owner"), value: Some(Expr::Verbatim(s("caller"))) },
                    FieldInit { name: s("cap"), value: None },
                ], rest: s(""),
        },
        ]
    );
    assert_eq!(constructor.params, vec![]);
}

#[test]
fn body_without_a_struct_literal_in_front_stays() {
    let mut constructor = balance_constructor();
    constructor.body.insert(0, call("Self::default()"));
    let before = constructor.clone();
    extend_constructor_body(
        &mut constructor,
        &vec![field("owner", "Address", vec![])],
        &tag("smart_beaver::init"),
        &ExtensionKind::Ownable,
        Standard::PSP22,
        &None,
    );
    assert_eq!(constructor, before);
    let mut bare = method("new", vec![], vec![Statement::Other(s("let a = 1;"))]);
    extend_constructor_body(
        &mut bare,
        &vec![field("owner", "Address", vec![])],
        &tag("smart_beaver::init"),
        &ExtensionKind::Ownable,
        Standard::PSP22,
        &None,
    );
    assert_eq!(bare, method("new", vec![], vec![Statement::Other(s("let a = 1;"))]));
}

#[test]
fn every_block_has_its_first_constructor_extended() {
    let other = method("other", vec![tag_word("ink", "constructor")], balance_constructor().body);
    let mut base = module(
        "token",
        "ink::contract",
        vec![
            Declaration::Impl(inherent("Token", vec![balance_constructor(), other])),
            Declaration::Impl(of_trait("PSP22", "Token", vec![method("f", vec![], vec![])])),
            Declaration::Impl(inherent("Token", vec![balance_constructor()])),
        ],
    );
    extend_constructor(
        &mut base,
        &vec![field("owner", "Address", vec![])],
        &ExtensionKind::Ownable,
        Standard::PSP22,
        &None,
    );
    let mut extended = balance_constructor();
    extended.params.push(Param { name: s("owner"), ty: s("Address") });
    extended.body = vec![Statement::StructLiteral {
        path: s("Self"),
        fields: vec![
            FieldInit { name: s("balance"), value: Some(Expr::Int(s("0"))) },
            FieldInit { name: s("owner"), value: None },
        ], rest: s(""),
        }];
    let untouched = method("other", vec![tag_word("ink", "constructor")], balance_constructor().body);
    assert_eq!(
        base.declarations,
        vec![
            Declaration::Impl(inherent("Token", vec![extended.clone(), untouched])),
            Declaration::Impl(of_trait("PSP22", "Token", vec![method("f", vec![], vec![])])),
            Declaration::Impl(inherent("Token", vec![extended])),
        ]
    );
}

#[test]
fn missing_storage_struct_is_no_change() {
    let mut base = module("token", "ink::contract", base_declarations());
    let extension = module("extension", "smart_beaver::extension", vec![]);
    merge_state_and_constructor(&mut base, &extension, &ExtensionKind::Ownable, Standard::PSP22, &None);
    assert_eq!(base.declarations, base_declarations());

    let mut bare = module("token", "ink::contract", vec![Declaration::Impl(inherent("Token", vec![balance_constructor()]))]);
    let extension = module(
        "extension",
        "smart_beaver::extension",
        vec![Declaration::Struct(extension_storage(vec![field("owner", "Address", vec![])]))],
    );
    merge_state_and_constructor(&mut bare, &extension, &ExtensionKind::Ownable, Standard::PSP22, &None);
    assert_eq!(bare.declarations, vec![Declaration::Impl(inherent("Token", vec![balance_constructor()]))]);
}

#[test]
fn zero_field_extension_leaves_the_constructor_as_it_is() {
    let mut base = module("token", "ink::contract", base_declarations());
    let extension = module(
        "extension",
        "smart_beaver::extension",
        vec![Declaration::Struct(extension_storage(vec![]))],
    );
    merge_state_and_constructor(&mut base, &extension, &ExtensionKind::Pausable, Standard::PSP22, &None);
    assert_eq!(base.declarations, base_declarations());
    assert_eq!(constructor_of(&base).params, vec![]);
}

#[test]
fn metadata_extension_adds_fields_and_values_but_no_parameters() {
    let mut base = module("token", "ink::contract", base_declarations());
    let extension = module(
        "extension",
        "smart_beaver::extension",
        vec![Declaration::Struct(extension_storage(vec![
            field("name", "Option<String>", vec![]),
            field("symbol", "Option<String>", vec![]),
            field("decimals", "u8", vec![]),
            field("extra", "u8", vec![]),
        ]))],
    );
    let metadata = Some(Metadata::new(Some(s("Beaver")), None, Some(s("uri")), Some(8)));
    merge_state_and_constructor(&mut base, &extension, &ExtensionKind::Metadata, Standard::PSP22, &metadata);
    let constructor = constructor_of(&base);
    assert_eq!(constructor.params, vec![]);
    assert_eq!(
        constructor.body,
        vec![Statement::StructLiteral {
            path: s("Self"),
            fields: vec![
                FieldInit { name: s("balance"), value: Some(Expr::Int(s("0"))) },
                FieldInit { name: s("name"), value: Some(Expr::SomeStr(s("Beaver"))) },
                FieldInit { name: s("symbol"), value: Some(Expr::Nothing) },
                FieldInit { name: s("decimals"), value: Some(Expr::Byte(8)) },
                FieldInit { name: s("extra"), value: Some(Expr::Int(s("0"))) },
            ], rest: s(""),
        }]
    );
    match &base.declarations[0] {
        Declaration::Struct(storage) => assert_eq!(storage.fields.len(), 5),
        _ => panic!("no storage"),
    }
}

#[test]
fn metadata_values_by_field_name() {
    let metadata = Some(Metadata::new(Some(s("Beaver")), Some(s("BVR")), None, None));
    let kind = ExtensionKind::Metadata;
    let value = |name: &str, m: &Option<Metadata>| produce_psp22_metadata_field_expr(&kind, &field(name, "T", vec![]), m);
    assert_eq!(value("name", &metadata), Expr::SomeStr(s("Beaver")));
    assert_eq!(value("symbol", &metadata), Expr::SomeStr(s("BVR")));
    assert_eq!(value("decimals", &metadata), Expr::Int(s("0")));
    assert_eq!(value("uri", &metadata), Expr::Int(s("0")));
    assert_eq!(value("name", &None), Expr::Nothing);
    assert_eq!(value("symbol", &None), Expr::Nothing);
    assert_eq!(value("decimals", &None), Expr::Int(s("0")));
    let with_decimals = Some(Metadata::new(None, None, None, Some(255)));
    assert_eq!(value("decimals", &with_decimals), Expr::Byte(255));
    assert_eq!(value("name", &with_decimals), Expr::Nothing);
}

#[test]
fn metadata_values_are_zero_for_another_kind() {
    let metadata = Some(Metadata::new(Some(s("Beaver")), Some(s("BVR")), None, Some(2)));
    let f = field("name", "T", vec![]);
    assert_eq!(produce_psp22_metadata_field_expr(&ExtensionKind::Mintable, &f, &metadata), Expr::Int(s("0")));
    assert_eq!(
        produce_metadata_field_expr(&ExtensionKind::Metadata, Standard::PSP34, &f, &metadata),
        Expr::SomeStr(s("Beaver"))
    );
    assert_eq!(
        produce_metadata_field_expr(&ExtensionKind::Metadata, Standard::PSP22, &f, &metadata),
        Expr::SomeStr(s("Beaver"))
    );
}

// Packaging

#[test]
fn single_file_psp22_keeps_only_the_main_module() {
    let mut file = SourceFile {
        items: vec![
            Item::Other(s("mod data;")),
            Item::Module(module("helpers", "cfg", vec![])),
            Item::Module(module("token", "ink::contract", vec![])),
            Item::Other(s("use data::*;")),
        ],
    };
    let before = file.clone();
    filter_global_imports(&mut file, false, Standard::PSP22);
    assert_eq!(file, before);
    filter_global_imports(&mut file, true, Standard::PSP34);
    assert_eq!(file, before);
    filter_global_imports(&mut file, true, Standard::PSP22);
    assert_eq!(file, SourceFile { items: vec![Item::Module(module("token", "ink::contract", vec![]))] });
}

#[test]
fn single_file_psp22_rewrites_local_imports() {
    let declarations = vec![
        Declaration::Import(import(&["crate"], "PSP22")),
        Declaration::Import(import(&["ink", "crate"], "Env")),
        Declaration::Import(import(&[], "crate")),
        Declaration::Import(Import {
            visibility: s(""), entries: vec![
                ImportEntry { qualifiers: vec![s("crate"), s("data")], leaf: ImportLeaf::Name(s("A")) },
                ImportEntry { qualifiers: vec![s("core")], leaf: ImportLeaf::Name(s("B")) },
            ],
        }),
        Declaration::Other(s("use crate::x;")),
    ];
    let mut main = module("token", "ink::contract", declarations.to_vec_by_clone());
    filter_standard_imports(&mut main, false, Standard::PSP22);
    assert_eq!(main.declarations, declarations);
    filter_standard_imports(&mut main, true, Standard::PSP34);
    assert_eq!(main.declarations, declarations);
    filter_standard_imports(&mut main, true, Standard::PSP22);
    assert_eq!(
        main.declarations,
        vec![
            Declaration::Import(import(&["psp22-full"], "PSP22")),
            Declaration::Import(import(&["ink", "crate"], "Env")),
            Declaration::Import(import(&[], "crate")),
            Declaration::Import(Import {
                visibility: s(""), entries: vec![
                    ImportEntry { qualifiers: vec![s("psp22-full"), s("data")], leaf: ImportLeaf::Name(s("A")) },
                    ImportEntry { qualifiers: vec![s("core")], leaf: ImportLeaf::Name(s("B")) },
                ],
            }),
            Declaration::Other(s("use crate::x;")),
        ]
    );
}

// The whole merge

#[test]
fn merge_without_extensions_returns_the_base() {
    let base = contract(base_declarations());
    assert_eq!(Merger::merge(&base, vec![], Standard::PSP22, &None, false), Ok(contract(base_declarations())));
}

#[test]
fn owner_field_goes_through_the_constructor() {
    let base = contract(base_declarations());
    let extension = fragment(
        ExtensionKind::Ownable,
        vec![Declaration::Struct(extension_storage(vec![field("owner", "Address", vec![tag("doc")])]))],
    );
    let merged = Merger::merge(&base, vec![extension], Standard::PSP22, &None, false).unwrap();
    let expected_constructor = Method {
        visibility: s(""), name: s("new"),
        params: vec![Param { name: s("owner"), ty: s("Address") }],
        output: s("Self"),
        body: vec![Statement::StructLiteral {
            path: s("Self"),
            fields: vec![
                FieldInit { name: s("balance"), value: Some(Expr::Int(s("0"))) },
                FieldInit { name: s("owner"), value: None },
            ], rest: s(""),
        }],
        attrs: vec![tag_word("ink", "constructor")],
    };
    assert_eq!(
        merged,
        contract(vec![
            Declaration::Struct(StructType {
                visibility: s(""), name: s("Token"),
                attrs: vec![tag_word("ink", "storage")],
                fields: vec![field("balance", "u64", vec![]), field("owner", "Address", vec![])],
            }),
            Declaration::Impl(inherent("Token", vec![expected_constructor])),
        ])
    );
    assert_eq!(base, contract(base_declarations()));
}

#[test]
fn appended_call_goes_into_the_transfer_of_the_base() {
    let transfer = method("transfer", vec![], vec![call("check_balance()"), call("move_funds()")]);
    let base = contract(vec![Declaration::Impl(of_trait("PSP22", "Token", vec![transfer]))]);
    let extension = fragment(
        ExtensionKind::Pausable,
        vec![Declaration::Impl(of_trait(
            "PSP22",
            "Token",
            vec![method("transfer", vec![append_at("1")], vec![call("log_call()")])],
        ))],
    );
    let merged = Merger::merge(&base, vec![extension], Standard::PSP22, &None, false).unwrap();
    assert_eq!(
        merged,
        contract(vec![Declaration::Impl(of_trait(
            "PSP22",
            "Token",
            vec![method(
                "transfer",
                vec![],
                vec![call("check_balance()"), call("log_call()"), call("move_funds()")]
            )]
        ))])
    );
}

#[test]
fn wildcard_import_in_an_extension_fails_the_merge() {
    let base = contract(base_declarations());
    let good = fragment(
        ExtensionKind::Ownable,
        vec![Declaration::Struct(extension_storage(vec![field("owner", "Address", vec![])]))],
    );
    let bad = fragment(
        ExtensionKind::Mintable,
        vec![
            Declaration::Import(wildcard(&["a"])),
            Declaration::Impl(inherent("Token", vec![method("mint", vec![], vec![])])),
        ],
    );
    assert_eq!(
        Merger::merge(&base, vec![good, bad], Standard::PSP22, &None, false),
        Err(MergeError::UnsupportedImport)
    );
    assert_eq!(base, contract(base_declarations()));
}

#[test]
fn base_without_main_module_fails_the_merge() {
    let base = SourceFile { items: vec![Item::Other(s("fn main() {}"))] };
    assert_eq!(Merger::merge(&base, vec![], Standard::PSP22, &None, false), Err(MergeError::NotFound));
    assert_eq!(Merger::merge(&base, vec![], Standard::PSP34, &None, true), Err(MergeError::NotFound));
}

#[test]
fn extension_without_main_module_fails_the_merge() {
    let base = contract(base_declarations());
    let lost = ExtensionContext { kind: ExtensionKind::Batch, ast: contract(vec![]) };
    let bad = fragment(ExtensionKind::Mintable, vec![Declaration::Import(wildcard(&["a"]))]);
    assert_eq!(
        Merger::merge(&base, vec![lost, bad], Standard::PSP22, &None, false),
        Err(MergeError::NotFound)
    );
}

#[test]
fn extensions_are_merged_in_their_order() {
    let base = contract(vec![
        Declaration::Struct(balance_storage()),
        Declaration::Impl(inherent("Token", vec![balance_constructor(), method("mint", vec![], vec![call("base()")])])),
    ]);
    let first = fragment(
        ExtensionKind::Ownable,
        vec![
            Declaration::Import(import(&["crate", "data"], "Owner")),
            Declaration::Struct(extension_storage(vec![field("owner", "Address", vec![])])),
            Declaration::Impl(inherent("Token", vec![method("mint", vec![append_at("0")], vec![call("only_owner()")])])),
        ],
    );
    let second = fragment(
        ExtensionKind::Capped,
        vec![
            Declaration::Import(import(&["other"], "Owner")),
            Declaration::Import(import(&["crate"], "Cap")),
            Declaration::Struct(extension_storage(vec![field(
                "cap",
                "u128",
                vec![Attribute { tag: s("smart_beaver::init"), payload: Some(Expr::Int(s("100"))) }],
            )])),
            Declaration::Impl(inherent("Token", vec![method("mint", vec![append_at("1")], vec![call("check_cap()")])])),
            Declaration::Impl(of_trait("Capped", "Token", vec![method("cap", vec![], vec![call("self.cap")])])),
        ],
    );
    let merged = Merger::merge(&base, vec![first, second], Standard::PSP22, &None, true).unwrap();
    let module = main_module(&merged);
    assert_eq!(
        module.declarations,
        vec![
            Declaration::Import(import(&["psp22-full"], "Cap")),
            Declaration::Import(import(&["psp22-full", "data"], "Owner")),
            Declaration::Struct(StructType {
                visibility: s(""), name: s("Token"),
                attrs: vec![tag_word("ink", "storage")],
                fields: vec![
                    field("balance", "u64", vec![]),
                    field("owner", "Address", vec![]),
                    field("cap", "u128", vec![]),
                ],
            }),
            Declaration::Impl(inherent(
                "Token",
                vec![
                    Method {
                        visibility: s(""), name: s("new"),
                        params: vec![Param { name: s("owner"), ty: s("Address") }],
                        output: s("Self"),
                        body: vec![Statement::StructLiteral {
                            path: s("Self"),
                            fields: vec![
                                FieldInit { name: s("balance"), value: Some(Expr::Int(s("0"))) },
                                FieldInit { name: s("owner"), value: None },
                                FieldInit { name: s("cap"), value: Some(Expr::Int(s("100"))) },
                            ], rest: s(""),
        }],
                        attrs: vec![tag_word("ink", "constructor")],
                    },
                    method("mint", vec![], vec![call("only_owner()"), call("check_cap()"), call("base()")]),
                ]
            )),
            Declaration::Impl(of_trait("Capped", "Token", vec![method("cap", vec![], vec![call("self.cap")])])),
        ]
    );
}
