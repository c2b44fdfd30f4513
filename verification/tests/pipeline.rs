use js_transformer::dialect::{select_sourcetype_based_on_enum, Language, ModuleKind, SourceType};
use js_transformer::hooks::HookUsage;
use js_transformer::instructions::{FileInstructions, FunctionInstructions};
use js_transformer::pipeline::{
    transform_code_str, transform_code_str_insert_sca, transform_user_code_str, Action, Event,
    ParseReport, Pass, Stage, TransformError,
};
use js_transformer::syntax::{Expression, Statement};

const SOURCE: &str = "@aikidosec/firewall/instrument/internals";

fn ident(name: &str) -> Expression {
    Expression::Identifier(name.to_string())
}

fn text(value: &str) -> Expression {
    Expression::StringLiteral(value.to_string())
}

fn call(callee: Expression, arguments: Vec<Expression>) -> Expression {
    Expression::Call { callee: Box::new(callee), arguments, optional: false }
}

fn file(locals: &[&str]) -> FileInstructions {
    FileInstructions {
        path: "lib/index.js".to_string(),
        identifier: "pkg.lib/index.js.v1".to_string(),
        version_range: "^1.0.0".to_string(),
        functions: vec![FunctionInstructions {
            node_type: "FunctionDeclaration".to_string(),
            name: "f".to_string(),
            identifier: "pkg.f".to_string(),
            inspect_args: true,
            modify_args: false,
            modify_return_value: false,
            modify_arguments_object: false,
        }],
        access_local_variables: locals.iter().map(|l| l.to_string()).collect(),
    }
}

fn clean(has_module_syntax: bool) -> Event {
    Event::Parsed(ParseReport { panicked: false, errors: Vec::new(), has_module_syntax })
}

fn require(names: &[&str]) -> Statement {
    Statement::Require {
        names: names.iter().map(|n| n.to_string()).collect(),
        source: SOURCE.to_string(),
    }
}

fn import(names: &[&str]) -> Statement {
    Statement::Import {
        names: names.iter().map(|n| n.to_string()).collect(),
        source: SOURCE.to_string(),
    }
}

fn inspect_only() -> HookUsage {
    let mut usage = HookUsage::new();
    usage.inspect_args = true;
    usage
}

#[test]
fn instrumentation_run_goes_through_all_stages() {
    let instructions = file(&[]);
    let (mut run, first) =
        transform_code_str("pkg", "1.0.0", "function f() {}", &instructions, "cjs", false);
    assert_eq!(run.pass, Pass::Instrument);
    assert_eq!(run.stage, Stage::Parsing);
    assert_eq!(
        first,
        Action::Parse(SourceType {
            language: Language::JavaScript,
            module_kind: ModuleKind::Script,
            jsx: false
        })
    );
    assert_eq!(run.step(clean(false)), Action::Analyze);
    assert_eq!(run.stage, Stage::Analyzing);
    assert_eq!(run.step(Event::Analyzed(Vec::new())), Action::Traverse);
    assert_eq!(run.stage, Stage::Traversing);
    let traversed = Event::Traversed { usage: inspect_only(), body: vec![Statement::Opaque(1)] };
    assert_eq!(
        run.step(traversed),
        Action::Print(vec![require(&["__instrumentInspectArgs"]), Statement::Opaque(1)])
    );
    assert_eq!(run.stage, Stage::Printing);
    assert_eq!(
        run.step(Event::Printed("printed text".to_string())),
        Action::Finish(Ok("printed text".to_string()))
    );
    assert_eq!(run.stage, Stage::Finished);
}

#[test]
fn instrumented_text_is_refused_before_it_is_parsed() {
    let instructions = file(&[]);
    let code = "const { __instrumentInspectArgs } = require('x'); function f() {}";
    let (run, first) = transform_code_str("pkg", "1.0.0", code, &instructions, "cjs", false);
    assert_eq!(first, Action::Finish(Err(TransformError::AlreadyInstrumented)));
    assert_eq!(run.stage, Stage::Finished);
}

#[test]
fn each_of_the_four_hooks_makes_a_text_refused() {
    let instructions = file(&[]);
    for hook in [
        "__instrumentInspectArgs",
        "__instrumentModifyArgs",
        "__instrumentModifyReturnValue",
        "__instrumentAccessLocalVariables",
    ] {
        let code = format!("function f() {{ {}('a'); }}", hook);
        let (_, first) = transform_code_str("pkg", "1.0.0", &code, &instructions, "mjs", false);
        assert_eq!(first, Action::Finish(Err(TransformError::AlreadyInstrumented)), "{}", hook);
    }
}

#[test]
fn finished_run_takes_no_more_events() {
    let instructions = file(&[]);
    let code = "__instrumentModifyArgs()";
    let (mut run, _) = transform_code_str("pkg", "1.0.0", code, &instructions, "cjs", false);
    assert_eq!(run.step(clean(false)), Action::Finish(Err(TransformError::UnexpectedEvent)));
    assert_eq!(run.stage, Stage::Finished);
}

#[test]
fn parser_errors_end_the_run() {
    let instructions = file(&[]);
    let (mut run, _) = transform_code_str("pkg", "1.0.0", "function (", &instructions, "cjs", false);
    let report = ParseReport {
        panicked: false,
        errors: vec!["Unexpected token".to_string(), "Expected `)`".to_string()],
        has_module_syntax: false,
    };
    assert_eq!(
        run.step(Event::Parsed(report)),
        Action::Finish(Err(TransformError::Syntax(vec![
            "Unexpected token".to_string(),
            "Expected `)`".to_string()
        ])))
    );
    assert_eq!(run.stage, Stage::Finished);
}

#[test]
fn parser_that_gave_up_ends_the_run_even_without_errors() {
    let (mut run, _) = transform_user_code_str("x", "ts");
    let report = ParseReport { panicked: true, errors: Vec::new(), has_module_syntax: true };
    assert_eq!(
        run.step(Event::Parsed(report)),
        Action::Finish(Err(TransformError::Syntax(Vec::new())))
    );
    assert_eq!(run.stage, Stage::Finished);
}

#[test]
fn scope_errors_end_the_run() {
    let instructions = file(&[]);
    let (mut run, _) =
        transform_code_str("pkg", "1.0.0", "let a; let a;", &instructions, "mjs", false);
    assert_eq!(run.step(clean(false)), Action::Analyze);
    assert_eq!(
        run.step(Event::Analyzed(vec!["Identifier `a` has already been declared".to_string()])),
        Action::Finish(Err(TransformError::Semantic(vec![
            "Identifier `a` has already been declared".to_string()
        ])))
    );
    assert_eq!(run.stage, Stage::Finished);
}

#[test]
fn events_out_of_turn_end_the_run() {
    let instructions = file(&[]);
    let (mut run, _) = transform_code_str("pkg", "1.0.0", "f()", &instructions, "cjs", false);
    assert_eq!(
        run.step(Event::Analyzed(Vec::new())),
        Action::Finish(Err(TransformError::UnexpectedEvent))
    );
    assert_eq!(run.stage, Stage::Finished);

    let (mut run, _) = transform_code_str("pkg", "1.0.0", "f()", &instructions, "cjs", false);
    run.step(clean(false));
    assert_eq!(
        run.step(Event::Printed("x".to_string())),
        Action::Finish(Err(TransformError::UnexpectedEvent))
    );

    let (mut run, _) = transform_code_str("pkg", "1.0.0", "f()", &instructions, "cjs", false);
    run.step(clean(false));
    run.step(Event::Analyzed(Vec::new()));
    assert_eq!(run.step(clean(false)), Action::Finish(Err(TransformError::UnexpectedEvent)));
}

#[test]
fn run_without_any_hook_prints_the_program_without_import() {
    let instructions = file(&[]);
    let (mut run, _) = transform_code_str("pkg", "1.0.0", "g()", &instructions, "mjs", false);
    run.step(clean(true));
    run.step(Event::Analyzed(Vec::new()));
    let traversed = Event::Traversed {
        usage: HookUsage::new(),
        body: vec![Statement::Opaque(1), Statement::Opaque(2)],
    };
    assert_eq!(run.step(traversed), Action::Print(vec![Statement::Opaque(1), Statement::Opaque(2)]));
}

#[test]
fn module_syntax_found_by_the_parser_decides_the_import_style() {
    let instructions = file(&[]);
    let (mut run, _) =
        transform_code_str("pkg", "1.0.0", "function f() {}", &instructions, "unambiguous", false);
    run.step(clean(false));
    assert!(!run.has_module_syntax);
    run.step(Event::Analyzed(Vec::new()));
    let traversed = Event::Traversed { usage: inspect_only(), body: vec![Statement::Opaque(1)] };
    assert_eq!(
        run.step(traversed),
        Action::Print(vec![require(&["__instrumentInspectArgs"]), Statement::Opaque(1)])
    );

    let (mut run, _) = transform_code_str(
        "pkg",
        "1.0.0",
        "import x from 'x'; function f() {}",
        &instructions,
        "unambiguous",
        false,
    );
    run.step(clean(true));
    assert!(run.has_module_syntax);
    run.step(Event::Analyzed(Vec::new()));
    let traversed = Event::Traversed { usage: inspect_only(), body: vec![Statement::Opaque(1)] };
    assert_eq!(
        run.step(traversed),
        Action::Print(vec![import(&["__instrumentInspectArgs"]), Statement::Opaque(1)])
    );
}

#[test]
fn local_variables_and_bundle_marker_are_appended_and_imported() {
    let instructions = file(&["app", "router"]);
    let (mut run, _) = transform_code_str("express", "4.18.2", "f()", &instructions, "cjs", true);
    run.step(clean(false));
    run.step(Event::Analyzed(Vec::new()));
    let traversed = Event::Traversed { usage: inspect_only(), body: vec![Statement::Opaque(1)] };
    assert_eq!(
        run.step(traversed),
        Action::Print(vec![
            require(&[
                "__instrumentInspectArgs",
                "__instrumentAccessLocalVariables",
                "__instrumentPackageWrapped"
            ]),
            Statement::Opaque(1),
            Statement::Expression(call(
                ident("__instrumentAccessLocalVariables"),
                vec![
                    text("pkg.lib/index.js.v1"),
                    Expression::Array(vec![ident("app"), ident("router")])
                ],
            )),
            Statement::Expression(call(
                ident("__instrumentPackageWrapped"),
                vec![text("express"), text("4.18.2")],
            )),
        ])
    );
}

#[test]
fn local_variables_alone_need_only_their_hook() {
    let instructions = file(&["db"]);
    let (mut run, _) = transform_code_str("pkg", "1.0.0", "f()", &instructions, "mjs", false);
    run.step(clean(false));
    run.step(Event::Analyzed(Vec::new()));
    let traversed = Event::Traversed { usage: HookUsage::new(), body: Vec::new() };
    assert_eq!(
        run.step(traversed),
        Action::Print(vec![
            import(&["__instrumentAccessLocalVariables"]),
            Statement::Expression(call(
                ident("__instrumentAccessLocalVariables"),
                vec![text("pkg.lib/index.js.v1"), Expression::Array(vec![ident("db")])],
            )),
        ])
    );
}

#[test]
fn sca_run_skips_scope_resolution_and_marks_the_package() {
    let (mut run, first) = transform_code_str_insert_sca("express", "4.18.2", "f()", "unambiguous");
    assert_eq!(run.pass, Pass::InsertSca);
    assert_eq!(first, Action::Parse(select_sourcetype_based_on_enum("unambiguous")));
    assert_eq!(run.step(clean(false)), Action::Traverse);
    let traversed = Event::Traversed { usage: HookUsage::new(), body: vec![Statement::Opaque(1)] };
    assert_eq!(
        run.step(traversed),
        Action::Print(vec![
            require(&["__instrumentPackageLoaded"]),
            Statement::Opaque(1),
            Statement::Expression(call(
                ident("__instrumentPackageLoaded"),
                vec![text("express"), text("4.18.2")],
            )),
        ])
    );
    assert_eq!(
        run.step(Event::Printed("out".to_string())),
        Action::Finish(Ok("out".to_string()))
    );
}

#[test]
fn sca_run_takes_text_that_names_hooks() {
    let (run, first) =
        transform_code_str_insert_sca("pkg", "1.0.0", "__instrumentInspectArgs()", "mjs");
    assert_eq!(first, Action::Parse(select_sourcetype_based_on_enum("mjs")));
    assert_eq!(run.stage, Stage::Parsing);
}

#[test]
fn sca_run_in_a_module_imports() {
    let (mut run, _) = transform_code_str_insert_sca("pkg", "1.0.0", "export {}", "unambiguous");
    run.step(clean(true));
    let traversed = Event::Traversed { usage: HookUsage::new(), body: Vec::new() };
    assert_eq!(
        run.step(traversed),
        Action::Print(vec![
            import(&["__instrumentPackageLoaded"]),
            Statement::Expression(call(
                ident("__instrumentPackageLoaded"),
                vec![text("pkg"), text("1.0.0")],
            )),
        ])
    );
}

#[test]
fn taint_run_without_a_site_gives_the_text_back_unchanged() {
    let code = "const  a = 1 ;\n\n// spaced   oddly\n";
    let (mut run, first) = transform_user_code_str(code, "unambiguous");
    assert_eq!(first, Action::Parse(select_sourcetype_based_on_enum("unambiguous")));
    assert_eq!(run.step(clean(false)), Action::Analyze);
    assert_eq!(run.step(Event::Analyzed(Vec::new())), Action::Traverse);
    let traversed = Event::Traversed { usage: HookUsage::new(), body: vec![Statement::Opaque(1)] };
    assert_eq!(run.step(traversed), Action::Finish(Ok(code.to_string())));
    assert_eq!(run.stage, Stage::Finished);
}

#[test]
fn taint_run_with_sites_imports_the_hooks_in_use() {
    let (mut run, _) = transform_user_code_str("a + b.trim()", "mjs");
    run.step(clean(false));
    run.step(Event::Analyzed(Vec::new()));
    let mut usage = HookUsage::new();
    usage.wrap_method_call = true;
    usage.wrap_concat = true;
    let traversed = Event::Traversed { usage, body: vec![Statement::Opaque(1)] };
    assert_eq!(
        run.step(traversed),
        Action::Print(vec![
            import(&["__zen_wrapMethodCallResult", "__zen_wrapConcat"]),
            Statement::Opaque(1)
        ])
    );
    assert_eq!(
        run.step(Event::Printed("rewritten".to_string())),
        Action::Finish(Ok("rewritten".to_string()))
    );
}

#[test]
fn taint_run_with_one_kind_of_site_imports_one_hook() {
    let (mut run, _) = transform_user_code_str("a + b", "cjs");
    run.step(clean(false));
    run.step(Event::Analyzed(Vec::new()));
    let mut usage = HookUsage::new();
    usage.wrap_concat = true;
    let traversed = Event::Traversed { usage, body: vec![Statement::Opaque(1)] };
    assert_eq!(
        run.step(traversed),
        Action::Print(vec![require(&["__zen_wrapConcat"]), Statement::Opaque(1)])
    );
}

#[test]
fn wrapped_text_is_refused_by_the_taint_run() {
    let (run, first) = transform_user_code_str("__zen_wrapConcat(a, b)", "cjs");
    assert_eq!(first, Action::Finish(Err(TransformError::AlreadyWrapped)));
    assert_eq!(run.stage, Stage::Finished);
    let (_, first) = transform_user_code_str("__zen_wrapMethodCallResult(a, f)", "cjs");
    assert_eq!(first, Action::Finish(Err(TransformError::AlreadyWrapped)));
    let (_, first) = transform_user_code_str("__instrumentInspectArgs()", "cjs");
    assert_eq!(first, Action::Parse(select_sourcetype_based_on_enum("cjs")));
}

#[test]
fn each_error_has_its_message() {
    assert_eq!(
        TransformError::AlreadyInstrumented.message(),
        "Code already contains instrument functions"
    );
    assert_eq!(
        TransformError::AlreadyWrapped.message(),
        "Code already contains taint tracking hook"
    );
    assert_eq!(
        TransformError::Syntax(vec!["a".to_string(), "b".to_string(), "c".to_string()]).message(),
        "Error while parsing code: [a, b, c]"
    );
    assert_eq!(TransformError::Syntax(Vec::new()).message(), "Error while parsing code: []");
    assert_eq!(
        TransformError::Semantic(vec!["only".to_string()]).message(),
        "Error during semantic analysis: [only]"
    );
    assert_eq!(
        TransformError::UnexpectedEvent.message(),
        "Unexpected event for this stage of the run"
    );
}
