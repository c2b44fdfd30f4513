//! What holds of the program that a run hands to the printer.
use vstd::prelude::*;
use crate::calls::{
    any_expression_calls, any_statement_calls, lemma_any_expression_calls, lemma_calls_after_insert,
    lemma_calls_after_push, statement_calls,
};
use crate::dialect::common_js;
use crate::handles::{
    all_statement_handles, expression_handles, lemma_expression_handles_two,
    lemma_handles_after_insert, lemma_handles_after_push, statement_handles,
};
use crate::hooks::{ACCESS_LOCAL_VARIABLES, HookUsage, PACKAGE_WRAPPED};
use crate::imports::import_statement;
use crate::insert_code::{
    access_local_variables_statement, identifier_views, package_marker_statement,
};
use crate::laws::hooks_called::{lemma_identifiers_call_nothing, lemma_named_call_calls};
use crate::laws::nodes_kept::{lemma_identifiers_hold_no_handle, lemma_named_call_handles};
use crate::pipeline::{
    finished_instrument, hands_over_locals, instrument_usage, next, ActionView, EventView, Pass,
    Run, Stage, TransformErrorView,
};
use crate::syntax::{ExpressionView, StatementView};

verus! {

/// A run that is over stays over: whatever is reported to it, it answers
/// that it was not waiting for it.
pub proof fn lemma_finished_run_takes_nothing(run: Run, event: EventView)
    requires
        run.stage == Stage::Finished,
    ensures
        next(run, event) == (
            Stage::Finished,
            ActionView::Finish(Err(TransformErrorView::UnexpectedEvent)),
        ),
{
}

/// A text whose parser gave up or reported an error is never walked: the run
/// ends with the errors of the parser, whichever pass it is.
pub proof fn lemma_parser_errors_end_the_run(
    run: Run,
    panicked: bool,
    errors: Seq<Seq<char>>,
    has_module_syntax: bool,
)
    requires
        run.stage == Stage::Parsing,
        panicked || errors.len() > 0,
    ensures
        next(run, EventView::Parsed { panicked, errors, has_module_syntax }) == (
            Stage::Finished,
            ActionView::Finish(Err(TransformErrorView::Syntax(errors))),
        ),
{
}

/// A run of the taint pass whose walk rewrote nothing ends with the text that
/// it was given, unchanged.
pub proof fn lemma_no_rewrite_gives_the_text_back(run: Run, body: Seq<StatementView>)
    requires
        run.pass == Pass::UserCode,
        run.stage == Stage::Traversing,
    ensures
        next(run, EventView::Traversed { usage: HookUsage::none(), body }) == (
            Stage::Finished,
            ActionView::Finish(Ok(run.code@)),
        ),
{
}

/// A program that a run of the instrumentation pass completes with a hook in
/// use starts with the statement that loads the hooks in use, and the
/// statements that follow are those of the program as the walk left it and
/// what the run appended.
pub proof fn lemma_completed_program_loads_its_hooks(
    run: Run,
    usage: HookUsage,
    body: Seq<StatementView>,
)
    requires
        instrument_usage(run, usage).any(),
    ensures
        finished_instrument(run, usage, body).len() > body.len(),
        finished_instrument(run, usage, body)[0] == import_statement(
            common_js(run.source_type, run.has_module_syntax),
            instrument_usage(run, usage).names(),
        ),
        instrument_usage(run, usage).names().len() > 0,
        finished_instrument(run, usage, body).subrange(1, 1 + body.len() as int) == body,
{
    crate::hooks::lemma_names_empty(instrument_usage(run, usage));
    assert(finished_instrument(run, usage, body).subrange(1, 1 + body.len() as int) =~= body);
}

/// What a run of the instrumentation pass adds to a program calls the hooks
/// that it adds to the hooks in use, and no other function: the statement
/// that loads the hooks calls nothing, the statement that hands over the local
/// variables calls the hook for them, and the marker of a bundle calls its own.
pub proof fn lemma_completed_program_calls(
    run: Run,
    usage: HookUsage,
    body: Seq<StatementView>,
    hook: Seq<char>,
)
    ensures
        any_statement_calls(finished_instrument(run, usage, body), hook) <==> any_statement_calls(
            body,
            hook,
        ) || (hands_over_locals(run) && hook == ACCESS_LOCAL_VARIABLES@) || (run.bundling && hook
            == PACKAGE_WRAPPED@),
{
    let mut now = body;
    if hands_over_locals(run) {
        let instructions = run.file_instructions->Some_0;
        let names = crate::syntax::texts(instructions.access_local_variables@);
        let statement = access_local_variables_statement(instructions.identifier@, names);
        let list = ExpressionView::Array(identifier_views(names));
        let arguments = seq![ExpressionView::StringLiteral(instructions.identifier@), list];
        lemma_identifiers_call_nothing(names, hook);
        lemma_any_expression_calls(arguments, hook);
        lemma_named_call_calls(ACCESS_LOCAL_VARIABLES@, arguments, hook);
        assert(!any_expression_calls(arguments, hook));
        assert(statement_calls(statement, hook) <==> hook == ACCESS_LOCAL_VARIABLES@);
        lemma_calls_after_push(now, statement, hook);
        now = now.push(statement);
    }
    if run.bundling {
        let statement = package_marker_statement(
            PACKAGE_WRAPPED@,
            run.pkg_name@,
            run.pkg_version@,
        );
        let arguments = seq![
            ExpressionView::StringLiteral(run.pkg_name@),
            ExpressionView::StringLiteral(run.pkg_version@),
        ];
        lemma_any_expression_calls(arguments, hook);
        lemma_named_call_calls(PACKAGE_WRAPPED@, arguments, hook);
        assert(!any_expression_calls(arguments, hook));
        assert(statement_calls(statement, hook) <==> hook == PACKAGE_WRAPPED@);
        lemma_calls_after_push(now, statement, hook);
        now = now.push(statement);
    }
    let used = instrument_usage(run, usage);
    if used.any() {
        let load = import_statement(
            common_js(run.source_type, run.has_module_syntax),
            used.names(),
        );
        assert(!statement_calls(load, hook));
        lemma_calls_after_insert(now, 0, load, hook);
    }
}

/// A run of the instrumentation pass moves no statement of a program: what
/// it hands to the printer holds the handles that the program held, each once
/// and in their order.
pub proof fn lemma_completed_program_keeps_handles(
    run: Run,
    usage: HookUsage,
    body: Seq<StatementView>,
)
    ensures
        all_statement_handles(finished_instrument(run, usage, body)) == all_statement_handles(body),
{
    let mut now = body;
    if hands_over_locals(run) {
        let instructions = run.file_instructions->Some_0;
        let names = crate::syntax::texts(instructions.access_local_variables@);
        let statement = access_local_variables_statement(instructions.identifier@, names);
        let list = ExpressionView::Array(identifier_views(names));
        lemma_identifiers_hold_no_handle(names);
        assert(expression_handles(list).len() == 0);
        let literal = ExpressionView::StringLiteral(instructions.identifier@);
        lemma_expression_handles_two(literal, list);
        assert(expression_handles(literal).len() == 0);
        lemma_named_call_handles(ACCESS_LOCAL_VARIABLES@, seq![literal, list]);
        assert(statement_handles(statement).len() == 0);
        lemma_handles_after_push(now, statement);
        now = now.push(statement);
    }
    if run.bundling {
        let statement = package_marker_statement(
            PACKAGE_WRAPPED@,
            run.pkg_name@,
            run.pkg_version@,
        );
        let name = ExpressionView::StringLiteral(run.pkg_name@);
        let version = ExpressionView::StringLiteral(run.pkg_version@);
        lemma_expression_handles_two(name, version);
        assert(expression_handles(name).len() == 0);
        assert(expression_handles(version).len() == 0);
        lemma_named_call_handles(PACKAGE_WRAPPED@, seq![name, version]);
        assert(statement_handles(statement).len() == 0);
        lemma_handles_after_push(now, statement);
        now = now.push(statement);
    }
    let used = instrument_usage(run, usage);
    if used.any() {
        let load = import_statement(
            common_js(run.source_type, run.has_module_syntax),
            used.names(),
        );
        assert(statement_handles(load).len() == 0);
        lemma_handles_after_insert(now, 0, load);
    }
}

} // verus!
