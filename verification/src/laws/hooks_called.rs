//! That a function body calls the hooks that the pass reports, and no other.
use vstd::prelude::*;
use crate::calls::{
    any_expression_calls, any_list_calls, any_statement_calls, expression_calls,
    lemma_any_expression_calls, lemma_calls_after_insert, statement_calls,
};
use crate::hooks::{
    lemma_hook_names_differ, lemma_names_are_the_hooks_in_use, INSPECT_ARGS, MODIFY_ARGS,
    MODIFY_RETURN_VALUE,
};
use crate::insert_code::{
    hooks_inserted, identifier_views, insert_position, inspect_args_statement, instrumented_body,
    modifies_args, modify_args_call, modify_args_statement, static_call, with_inspect_args,
    with_modify_args,
};
use crate::instructions::FunctionInstructions;
use crate::laws::insertion::lemma_insert_position_stable;
use crate::return_statements::{
    holds_return, holds_return_in, holds_return_in_any, return_hook_call, rewrite_returns,
    rewrite_returns_in, rewrite_returns_in_each, wrapped_return_value, ARGUMENTS, UNDEFINED,
};
use crate::syntax::{ExpressionView, StatementView};

verus! {

/// A list of plain names holds no call.
pub proof fn lemma_identifiers_call_nothing(names: Seq<Seq<char>>, hook: Seq<char>)
    ensures
        !any_expression_calls(identifier_views(names), hook),
        !expression_calls(ExpressionView::Array(identifier_views(names)), hook),
{
    lemma_any_expression_calls(identifier_views(names), hook);
}

/// A call of the function named `name` calls that function, and what its
/// arguments call.
pub proof fn lemma_named_call_calls(name: Seq<char>, arguments: Seq<ExpressionView>, hook: Seq<char>)
    ensures
        expression_calls(
            ExpressionView::Call {
                callee: Box::new(ExpressionView::Identifier(name)),
                arguments,
                optional: false,
            },
            hook,
        ) <==> hook == name || any_expression_calls(arguments, hook),
{
    assert(!expression_calls(ExpressionView::Identifier(name), hook));
}

/// The statement that inspects the arguments calls the hook for it, and no
/// other function.
pub proof fn lemma_inspect_statement_calls(
    identifier: Seq<char>,
    pkg_version: Seq<char>,
    hook: Seq<char>,
)
    ensures
        statement_calls(inspect_args_statement(identifier, pkg_version), hook) <==> hook
            == INSPECT_ARGS@,
{
    let arguments = seq![
        ExpressionView::StringLiteral(identifier),
        ExpressionView::Identifier(ARGUMENTS@),
        ExpressionView::StringLiteral(pkg_version),
        ExpressionView::This,
    ];
    lemma_any_expression_calls(arguments, hook);
    lemma_named_call_calls(INSPECT_ARGS@, arguments, hook);
    assert(!any_expression_calls(arguments, hook));
}

/// The call of the hook that may replace the arguments `args` calls that
/// hook, and what `args` calls.
proof fn lemma_modify_args_call_calls(identifier: Seq<char>, args: ExpressionView, hook: Seq<char>)
    ensures
        expression_calls(modify_args_call(identifier, args), hook) <==> hook == MODIFY_ARGS@
            || expression_calls(args, hook),
{
    let arguments = seq![ExpressionView::StringLiteral(identifier), args, ExpressionView::This];
    lemma_any_expression_calls(arguments, hook);
    lemma_named_call_calls(MODIFY_ARGS@, arguments, hook);
    if expression_calls(args, hook) {
        assert(expression_calls(arguments[1], hook));
    }
    assert(any_expression_calls(arguments, hook) <==> expression_calls(args, hook));
}

/// `name.property(arguments)` calls what its arguments call.
proof fn lemma_static_call_calls(
    name: Seq<char>,
    property: Seq<char>,
    arguments: Seq<ExpressionView>,
    hook: Seq<char>,
)
    ensures
        expression_calls(static_call(name, property, arguments), hook) <==> any_expression_calls(
            arguments,
            hook,
        ),
{
    let callee = ExpressionView::StaticMember {
        object: Box::new(ExpressionView::Identifier(name)),
        property,
    };
    assert(!expression_calls(ExpressionView::Identifier(name), hook));
    assert(!expression_calls(callee, hook));
    assert(callee != ExpressionView::Identifier(hook));
}

/// The statement that replaces the arguments calls the hook for it, and no
/// other function that is named by a plain name.
pub proof fn lemma_modify_statement_calls(
    identifier: Seq<char>,
    arg_names: Seq<Seq<char>>,
    modify_arguments_object: bool,
    hook: Seq<char>,
)
    ensures
        statement_calls(
            modify_args_statement(identifier, arg_names, modify_arguments_object),
            hook,
        ) <==> hook == MODIFY_ARGS@,
{
    if modify_arguments_object {
        let from_arguments = seq![ExpressionView::Identifier(ARGUMENTS@)];
        let from = static_call("Array"@, "from"@, from_arguments);
        lemma_any_expression_calls(from_arguments, hook);
        assert(!any_expression_calls(from_arguments, hook));
        lemma_static_call_calls("Array"@, "from"@, from_arguments, hook);
        lemma_modify_args_call_calls(identifier, from, hook);
        let inner = modify_args_call(identifier, from);
        let assign_arguments = seq![ExpressionView::Identifier(ARGUMENTS@), inner];
        lemma_any_expression_calls(assign_arguments, hook);
        lemma_static_call_calls("Object"@, "assign"@, assign_arguments, hook);
        if hook == MODIFY_ARGS@ {
            assert(expression_calls(assign_arguments[1], hook));
        }
        assert(any_expression_calls(assign_arguments, hook) <==> hook == MODIFY_ARGS@);
        assert(modify_args_statement(identifier, arg_names, modify_arguments_object)
            == StatementView::Expression(static_call("Object"@, "assign"@, assign_arguments)));
    } else {
        let list = ExpressionView::Array(identifier_views(arg_names));
        lemma_identifiers_call_nothing(arg_names, hook);
        lemma_modify_args_call_calls(identifier, list, hook);
        let right = modify_args_call(identifier, list);
        let whole = ExpressionView::Assignment {
            operator: crate::syntax::AssignmentOperator::Assign,
            left: Box::new(list),
            right: Box::new(right),
        };
        assert(expression_calls(whole, hook) <==> expression_calls(list, hook)
            || expression_calls(right, hook));
        assert(modify_args_statement(identifier, arg_names, modify_arguments_object)
            == StatementView::Expression(whole));
    }
}

/// The call of the return-value hook calls that hook, and what the value
/// calls that is handed to it.
pub proof fn lemma_return_hook_call_calls(
    identifier: Seq<char>,
    value: ExpressionView,
    hook: Seq<char>,
)
    ensures
        expression_calls(return_hook_call(identifier, value), hook) <==> hook
            == MODIFY_RETURN_VALUE@ || expression_calls(value, hook),
{
    let arguments = seq![
        ExpressionView::StringLiteral(identifier),
        ExpressionView::Identifier(ARGUMENTS@),
        value,
        ExpressionView::This,
    ];
    lemma_any_expression_calls(arguments, hook);
    lemma_named_call_calls(MODIFY_RETURN_VALUE@, arguments, hook);
    if expression_calls(value, hook) {
        assert(expression_calls(arguments[2], hook));
    }
    assert(any_expression_calls(arguments, hook) <==> expression_calls(value, hook));
}

/// What a rewritten `return` returns calls the return-value hook, and what
/// the value called that was returned before.
proof fn lemma_wrapped_return_value_calls(
    identifier: Seq<char>,
    argument: Option<ExpressionView>,
    hook: Seq<char>,
)
    ensures
        expression_calls(wrapped_return_value(identifier, argument), hook) <==> hook
            == MODIFY_RETURN_VALUE@ || match argument {
            Some(value) => expression_calls(value, hook),
            None => false,
        },
{
    match argument {
        Some(ExpressionView::Await(inner)) => {
            lemma_return_hook_call_calls(identifier, *inner, hook);
            let call = return_hook_call(identifier, *inner);
            assert(expression_calls(ExpressionView::Await(Box::new(call)), hook)
                == expression_calls(call, hook));
            assert(expression_calls(ExpressionView::Await(inner), hook) == expression_calls(
                *inner,
                hook,
            ));
        },
        Some(value) => {
            lemma_return_hook_call_calls(identifier, value, hook);
        },
        None => {
            lemma_return_hook_call_calls(
                identifier,
                ExpressionView::Identifier(UNDEFINED@),
                hook,
            );
            assert(!expression_calls(ExpressionView::Identifier(UNDEFINED@), hook));
        },
    }
}

/// A rewritten statement calls what it called before, and the return-value
/// hook where a `return` in it was rewritten.
pub proof fn lemma_rewritten_statement_calls(
    identifier: Seq<char>,
    statement: StatementView,
    hook: Seq<char>,
)
    ensures
        statement_calls(rewrite_returns(identifier, statement), hook) <==> statement_calls(
            statement,
            hook,
        ) || (hook == MODIFY_RETURN_VALUE@ && holds_return(statement)),
    decreases statement,
{
    match statement {
        StatementView::Return(argument) => {
            lemma_wrapped_return_value_calls(identifier, argument, hook);
        },
        StatementView::Block(body) => {
            lemma_rewritten_statements_call(identifier, body, hook);
        },
        StatementView::If { consequent, alternate } => {
            lemma_rewritten_statement_calls(identifier, *consequent, hook);
            match alternate {
                Some(statement) => {
                    lemma_rewritten_statement_calls(identifier, *statement, hook);
                },
                None => {},
            }
        },
        StatementView::Loop(body) => {
            lemma_rewritten_statement_calls(identifier, *body, hook);
        },
        StatementView::Labeled(body) => {
            lemma_rewritten_statement_calls(identifier, *body, hook);
        },
        StatementView::Switch(cases) => {
            lemma_rewritten_lists_call(identifier, cases, hook);
        },
        StatementView::Try { block, handler, finalizer } => {
            lemma_rewritten_statements_call(identifier, block, hook);
            match handler {
                Some(statements) => {
                    lemma_rewritten_statements_call(identifier, statements, hook);
                },
                None => {},
            }
            match finalizer {
                Some(statements) => {
                    lemma_rewritten_statements_call(identifier, statements, hook);
                },
                None => {},
            }
        },
        _ => {},
    }
}

/// A rewritten function body calls what it called before, and the
/// return-value hook where a `return` in it was rewritten.
pub proof fn lemma_rewritten_statements_call(
    identifier: Seq<char>,
    list: Seq<StatementView>,
    hook: Seq<char>,
)
    ensures
        any_statement_calls(rewrite_returns_in(identifier, list), hook) <==> any_statement_calls(
            list,
            hook,
        ) || (hook == MODIFY_RETURN_VALUE@ && holds_return_in(list)),
    decreases list,
{
    if list.len() > 0 {
        let front = list.drop_last();
        lemma_rewritten_statements_call(identifier, front, hook);
        lemma_rewritten_statement_calls(identifier, list.last(), hook);
        let result = rewrite_returns_in(identifier, list);
        assert(result.drop_last() =~= rewrite_returns_in(identifier, front));
        assert(result.last() == rewrite_returns(identifier, list.last()));
    }
}

/// The rewritten cases of a `switch` call what they called before, and the
/// return-value hook where a `return` in them was rewritten.
pub proof fn lemma_rewritten_lists_call(
    identifier: Seq<char>,
    lists: Seq<Seq<StatementView>>,
    hook: Seq<char>,
)
    ensures
        any_list_calls(rewrite_returns_in_each(identifier, lists), hook) <==> any_list_calls(
            lists,
            hook,
        ) || (hook == MODIFY_RETURN_VALUE@ && holds_return_in_any(lists)),
    decreases lists,
{
    if lists.len() > 0 {
        let front = lists.drop_last();
        lemma_rewritten_lists_call(identifier, front, hook);
        lemma_rewritten_statements_call(identifier, lists.last(), hook);
        let result = rewrite_returns_in_each(identifier, lists);
        assert(result.drop_last() =~= rewrite_returns_in_each(identifier, front));
        assert(result.last() == rewrite_returns_in(identifier, lists.last()));
    }
}

/// After the pass, a function body calls what it called before and the hooks
/// that the pass reports as inserted, and nothing else.  So the statement
/// that loads the hooks, which names the hooks reported, names a hook of the
/// pass exactly where a body that did not call it before calls it now.
pub proof fn lemma_body_calls_the_hooks_inserted(
    instruction: FunctionInstructions,
    arg_names: Seq<Seq<char>>,
    pkg_version: Seq<char>,
    body: Seq<StatementView>,
    is_constructor: bool,
    hook: Seq<char>,
)
    ensures
        any_statement_calls(
            instrumented_body(instruction, arg_names, pkg_version, body, is_constructor),
            hook,
        ) <==> any_statement_calls(body, hook) || hooks_inserted(
            instruction,
            arg_names,
            body,
            is_constructor,
        ).names().contains(hook),
{
    let inserted = hooks_inserted(instruction, arg_names, body, is_constructor);
    lemma_names_are_the_hooks_in_use(inserted, hook);
    lemma_hook_names_differ();
    let modify = modify_args_statement(
        instruction.identifier@,
        arg_names,
        instruction.modify_arguments_object,
    );
    let inspect = inspect_args_statement(instruction.identifier@, pkg_version);
    let first = with_modify_args(instruction, arg_names, body, is_constructor);
    let second = with_inspect_args(instruction, pkg_version, first, is_constructor);
    lemma_insert_position_stable(body, is_constructor, modify);
    lemma_insert_position_stable(first, is_constructor, inspect);
    lemma_modify_statement_calls(
        instruction.identifier@,
        arg_names,
        instruction.modify_arguments_object,
        hook,
    );
    lemma_inspect_statement_calls(instruction.identifier@, pkg_version, hook);
    if modifies_args(instruction, arg_names) {
        lemma_calls_after_insert(body, insert_position(body, is_constructor), modify, hook);
    }
    if instruction.inspect_args {
        lemma_calls_after_insert(first, insert_position(first, is_constructor), inspect, hook);
    }
    if instruction.modify_return_value && !is_constructor {
        lemma_rewritten_statements_call(instruction.identifier@, second, hook);
        crate::insert_code::lemma_insertions_hold_no_return(
            instruction,
            arg_names,
            pkg_version,
            body,
        );
    }
    let all = crate::hooks::all_hook_names();
    assert(all[0] == INSPECT_ARGS@ && all[1] == MODIFY_ARGS@ && all[2] == MODIFY_RETURN_VALUE@);
}

} // verus!
