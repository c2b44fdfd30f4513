//! That the instrumentation pass moves no node: none is dropped, none is
//! there twice.
use vstd::prelude::*;
use crate::handles::{
    all_expression_handles, all_list_handles, all_statement_handles, expression_handles,
    lemma_expression_handles_four, lemma_expression_handles_one, lemma_expression_handles_three,
    lemma_expression_handles_two, lemma_handles_after_insert, statement_handles,
};
use crate::hooks::{INSPECT_ARGS, MODIFY_ARGS, MODIFY_RETURN_VALUE};
use crate::insert_code::{
    identifier_views, insert_position, inspect_args_statement, instrumented_body, modifies_args,
    modify_args_call, modify_args_statement, static_call, with_inspect_args, with_modify_args,
};
use crate::instructions::FunctionInstructions;
use crate::laws::insertion::lemma_insert_position_stable;
use crate::return_statements::{
    return_hook_call, rewrite_returns, rewrite_returns_in, rewrite_returns_in_each,
    wrapped_return_value, ARGUMENTS, UNDEFINED,
};
use crate::syntax::{ExpressionView, StatementView};

verus! {

/// A list of plain names holds no handle.
pub proof fn lemma_identifiers_hold_no_handle(names: Seq<Seq<char>>)
    ensures
        all_expression_handles(identifier_views(names)) == Seq::<u64>::empty(),
    decreases names.len(),
{
    if names.len() > 0 {
        lemma_identifiers_hold_no_handle(names.drop_last());
        let list = identifier_views(names);
        assert(list.drop_last() =~= identifier_views(names.drop_last()));
        assert(expression_handles(list.last()) =~= Seq::<u64>::empty());
        assert(all_expression_handles(list) =~= Seq::<u64>::empty());
    }
}

/// A call of a function that is named by a plain name holds the handles of
/// its arguments.
pub proof fn lemma_named_call_handles(name: Seq<char>, arguments: Seq<ExpressionView>)
    ensures
        expression_handles(
            ExpressionView::Call {
                callee: Box::new(ExpressionView::Identifier(name)),
                arguments,
                optional: false,
            },
        ) == all_expression_handles(arguments),
{
    assert(expression_handles(ExpressionView::Identifier(name)) =~= Seq::<u64>::empty());
    assert(Seq::<u64>::empty() + all_expression_handles(arguments) =~= all_expression_handles(
        arguments,
    ));
}

/// The call of the return-value hook holds the handles of the value that is
/// handed to it, and no other.
proof fn lemma_return_hook_call_handles(identifier: Seq<char>, value: ExpressionView)
    ensures
        expression_handles(return_hook_call(identifier, value)) == expression_handles(value),
{
    let a = ExpressionView::StringLiteral(identifier);
    let b = ExpressionView::Identifier(ARGUMENTS@);
    let d = ExpressionView::This;
    lemma_expression_handles_four(a, b, value, d);
    assert(expression_handles(ExpressionView::Identifier(MODIFY_RETURN_VALUE@)) =~= Seq::<
        u64,
    >::empty());
    assert(expression_handles(return_hook_call(identifier, value)) =~= expression_handles(value));
}

/// What a rewritten `return` returns holds the handles of what it returned
/// before.
proof fn lemma_wrapped_return_value_handles(identifier: Seq<char>, argument: Option<ExpressionView>)
    ensures
        expression_handles(wrapped_return_value(identifier, argument)) == match argument {
            Some(value) => expression_handles(value),
            None => Seq::empty(),
        },
{
    match argument {
        Some(ExpressionView::Await(inner)) => {
            lemma_return_hook_call_handles(identifier, *inner);
            let call = return_hook_call(identifier, *inner);
            assert(expression_handles(ExpressionView::Await(Box::new(call))) == expression_handles(
                call,
            ));
            assert(expression_handles(ExpressionView::Await(inner)) == expression_handles(*inner));
        },
        Some(value) => {
            lemma_return_hook_call_handles(identifier, value);
        },
        None => {
            lemma_return_hook_call_handles(identifier, ExpressionView::Identifier(UNDEFINED@));
            assert(expression_handles(ExpressionView::Identifier(UNDEFINED@)) =~= Seq::<
                u64,
            >::empty());
        },
    }
}

/// Rewriting the returns of a statement moves no node: the handles in it are
/// those that were in it, in their order.
pub proof fn lemma_rewritten_statement_keeps_handles(identifier: Seq<char>, statement: StatementView)
    ensures
        statement_handles(rewrite_returns(identifier, statement)) == statement_handles(statement),
    decreases statement,
{
    match statement {
        StatementView::Return(argument) => {
            lemma_wrapped_return_value_handles(identifier, argument);
        },
        StatementView::Block(body) => {
            lemma_rewritten_statements_keep_handles(identifier, body);
        },
        StatementView::If { consequent, alternate } => {
            lemma_rewritten_statement_keeps_handles(identifier, *consequent);
            match alternate {
                Some(statement) => {
                    lemma_rewritten_statement_keeps_handles(identifier, *statement);
                },
                None => {},
            }
        },
        StatementView::Loop(body) => {
            lemma_rewritten_statement_keeps_handles(identifier, *body);
        },
        StatementView::Labeled(body) => {
            lemma_rewritten_statement_keeps_handles(identifier, *body);
        },
        StatementView::Switch(cases) => {
            lemma_rewritten_lists_keep_handles(identifier, cases);
        },
        StatementView::Try { block, handler, finalizer } => {
            lemma_rewritten_statements_keep_handles(identifier, block);
            match handler {
                Some(statements) => {
                    lemma_rewritten_statements_keep_handles(identifier, statements);
                },
                None => {},
            }
            match finalizer {
                Some(statements) => {
                    lemma_rewritten_statements_keep_handles(identifier, statements);
                },
                None => {},
            }
        },
        _ => {},
    }
}

/// Rewriting the returns of a function body moves no node.
pub proof fn lemma_rewritten_statements_keep_handles(identifier: Seq<char>, list: Seq<StatementView>)
    ensures
        all_statement_handles(rewrite_returns_in(identifier, list)) == all_statement_handles(list),
    decreases list,
{
    if list.len() > 0 {
        let front = list.drop_last();
        lemma_rewritten_statements_keep_handles(identifier, front);
        lemma_rewritten_statement_keeps_handles(identifier, list.last());
        let result = rewrite_returns_in(identifier, list);
        assert(result.drop_last() =~= rewrite_returns_in(identifier, front));
        assert(result.last() == rewrite_returns(identifier, list.last()));
    } else {
        assert(rewrite_returns_in(identifier, list) =~= list);
    }
}

/// Rewriting the returns of the cases of a `switch` moves no node.
pub proof fn lemma_rewritten_lists_keep_handles(
    identifier: Seq<char>,
    lists: Seq<Seq<StatementView>>,
)
    ensures
        all_list_handles(rewrite_returns_in_each(identifier, lists)) == all_list_handles(lists),
    decreases lists,
{
    if lists.len() > 0 {
        let front = lists.drop_last();
        lemma_rewritten_lists_keep_handles(identifier, front);
        lemma_rewritten_statements_keep_handles(identifier, lists.last());
        let result = rewrite_returns_in_each(identifier, lists);
        assert(result.drop_last() =~= rewrite_returns_in_each(identifier, front));
        assert(result.last() == rewrite_returns_in(identifier, lists.last()));
    } else {
        assert(rewrite_returns_in_each(identifier, lists) =~= lists);
    }
}

/// The statement that inspects the arguments holds no handle.
proof fn lemma_inspect_statement_holds_no_handle(identifier: Seq<char>, pkg_version: Seq<char>)
    ensures
        statement_handles(inspect_args_statement(identifier, pkg_version)).len() == 0,
{
    let a = ExpressionView::StringLiteral(identifier);
    let b = ExpressionView::Identifier(ARGUMENTS@);
    let c = ExpressionView::StringLiteral(pkg_version);
    let d = ExpressionView::This;
    lemma_expression_handles_four(a, b, c, d);
    assert(expression_handles(a).len() == 0);
    assert(expression_handles(b).len() == 0);
    assert(expression_handles(c).len() == 0);
    assert(expression_handles(d).len() == 0);
    lemma_named_call_handles(INSPECT_ARGS@, seq![a, b, c, d]);
}

/// The call of the hook that may replace the arguments holds the handles of
/// the arguments that it is handed.
proof fn lemma_modify_args_call_handles(identifier: Seq<char>, args: ExpressionView)
    ensures
        expression_handles(modify_args_call(identifier, args)) == expression_handles(args),
{
    lemma_expression_handles_three(
        ExpressionView::StringLiteral(identifier),
        args,
        ExpressionView::This,
    );
    assert(expression_handles(ExpressionView::Identifier(MODIFY_ARGS@)).len() == 0);
    assert(expression_handles(modify_args_call(identifier, args)) =~= expression_handles(args));
}

/// The statement that replaces the arguments holds no handle.
proof fn lemma_modify_statement_holds_no_handle(
    identifier: Seq<char>,
    arg_names: Seq<Seq<char>>,
    modify_arguments_object: bool,
)
    ensures
        statement_handles(
            modify_args_statement(identifier, arg_names, modify_arguments_object),
        ).len() == 0,
{
    let arguments = ExpressionView::Identifier(ARGUMENTS@);
    assert(expression_handles(arguments).len() == 0);
    if modify_arguments_object {
        let from = static_call("Array"@, "from"@, seq![arguments]);
        lemma_expression_handles_one(arguments);
        assert(expression_handles(ExpressionView::Identifier("Array"@)).len() == 0);
        assert(expression_handles(
            ExpressionView::StaticMember {
                object: Box::new(ExpressionView::Identifier("Array"@)),
                property: "from"@,
            },
        ).len() == 0);
        assert(expression_handles(from).len() == 0);
        lemma_modify_args_call_handles(identifier, from);
        let inner = modify_args_call(identifier, from);
        lemma_expression_handles_two(arguments, inner);
        assert(expression_handles(ExpressionView::Identifier("Object"@)).len() == 0);
        assert(expression_handles(
            ExpressionView::StaticMember {
                object: Box::new(ExpressionView::Identifier("Object"@)),
                property: "assign"@,
            },
        ).len() == 0);
        let whole = static_call("Object"@, "assign"@, seq![arguments, inner]);
        assert(expression_handles(whole).len() == 0);
        assert(modify_args_statement(identifier, arg_names, modify_arguments_object)
            == StatementView::Expression(whole));
    } else {
        let list = ExpressionView::Array(identifier_views(arg_names));
        lemma_identifiers_hold_no_handle(arg_names);
        assert(expression_handles(list).len() == 0);
        lemma_modify_args_call_handles(identifier, list);
        let right = modify_args_call(identifier, list);
        let whole = ExpressionView::Assignment {
            operator: crate::syntax::AssignmentOperator::Assign,
            left: Box::new(list),
            right: Box::new(right),
        };
        assert(expression_handles(whole) =~= expression_handles(list) + expression_handles(right));
        assert(modify_args_statement(identifier, arg_names, modify_arguments_object)
            == StatementView::Expression(whole));
    }
}

/// The pass moves no node of a function body: whatever it inserts and
/// rewrites, the handles in the body are those that were in it, each once and
/// in their order.  Nothing that the body held is dropped, and nothing is
/// there twice.
pub proof fn lemma_body_keeps_its_handles(
    instruction: FunctionInstructions,
    arg_names: Seq<Seq<char>>,
    pkg_version: Seq<char>,
    body: Seq<StatementView>,
    is_constructor: bool,
)
    ensures
        all_statement_handles(
            instrumented_body(instruction, arg_names, pkg_version, body, is_constructor),
        ) == all_statement_handles(body),
{
    let modify = modify_args_statement(
        instruction.identifier@,
        arg_names,
        instruction.modify_arguments_object,
    );
    let inspect = inspect_args_statement(instruction.identifier@, pkg_version);
    let first = with_modify_args(instruction, arg_names, body, is_constructor);
    let second = with_inspect_args(instruction, pkg_version, first, is_constructor);
    lemma_insert_position_stable(body, is_constructor, modify);
    lemma_insert_position_stable(first, is_constructor, inspect);
    lemma_modify_statement_holds_no_handle(
        instruction.identifier@,
        arg_names,
        instruction.modify_arguments_object,
    );
    lemma_inspect_statement_holds_no_handle(instruction.identifier@, pkg_version);
    if modifies_args(instruction, arg_names) {
        lemma_handles_after_insert(body, insert_position(body, is_constructor), modify);
    }
    if instruction.inspect_args {
        lemma_handles_after_insert(first, insert_position(first, is_constructor), inspect);
    }
    if instruction.modify_return_value && !is_constructor {
        lemma_rewritten_statements_keep_handles(instruction.identifier@, second);
    }
}

} // verus!
