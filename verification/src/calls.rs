//! Which hooks a piece of a tree calls.
use vstd::prelude::*;
use crate::syntax::{ExpressionView, StatementView};

verus! {

/// The expression holds a call of the function named `hook`.
pub open spec fn expression_calls(expression: ExpressionView, hook: Seq<char>) -> bool
    decreases expression,
{
    match expression {
        ExpressionView::Array(elements) => any_expression_calls(elements, hook),
        ExpressionView::StaticMember { object, .. } => expression_calls(*object, hook),
        ExpressionView::ComputedMember { object, property } => expression_calls(*object, hook)
            || expression_calls(*property, hook),
        ExpressionView::Call { callee, arguments, .. } => *callee == ExpressionView::Identifier(hook)
            || expression_calls(*callee, hook) || any_expression_calls(arguments, hook),
        ExpressionView::Binary { left, right, .. } => expression_calls(*left, hook)
            || expression_calls(*right, hook),
        ExpressionView::Assignment { left, right, .. } => expression_calls(*left, hook)
            || expression_calls(*right, hook),
        ExpressionView::Await(argument) => expression_calls(*argument, hook),
        ExpressionView::Function(function) => match function.body {
            Some(statements) => any_statement_calls(statements, hook),
            None => false,
        },
        _ => false,
    }
}

/// One of the expressions holds a call of the function named `hook`.
pub open spec fn any_expression_calls(list: Seq<ExpressionView>, hook: Seq<char>) -> bool
    decreases list,
{
    if list.len() == 0 {
        false
    } else {
        any_expression_calls(list.drop_last(), hook) || expression_calls(list.last(), hook)
    }
}

/// The statement holds a call of the function named `hook`.
pub open spec fn statement_calls(statement: StatementView, hook: Seq<char>) -> bool
    decreases statement,
{
    match statement {
        StatementView::Expression(expression) => expression_calls(expression, hook),
        StatementView::Return(argument) => match argument {
            Some(value) => expression_calls(value, hook),
            None => false,
        },
        StatementView::Block(body) => any_statement_calls(body, hook),
        StatementView::If { consequent, alternate } => statement_calls(*consequent, hook)
            || match alternate {
            Some(statement) => statement_calls(*statement, hook),
            None => false,
        },
        StatementView::Loop(body) => statement_calls(*body, hook),
        StatementView::Labeled(body) => statement_calls(*body, hook),
        StatementView::Switch(cases) => any_list_calls(cases, hook),
        StatementView::Try { block, handler, finalizer } => any_statement_calls(block, hook)
            || match handler {
            Some(statements) => any_statement_calls(statements, hook),
            None => false,
        } || match finalizer {
            Some(statements) => any_statement_calls(statements, hook),
            None => false,
        },
        _ => false,
    }
}

/// One of the statements holds a call of the function named `hook`.
pub open spec fn any_statement_calls(list: Seq<StatementView>, hook: Seq<char>) -> bool
    decreases list,
{
    if list.len() == 0 {
        false
    } else {
        any_statement_calls(list.drop_last(), hook) || statement_calls(list.last(), hook)
    }
}

/// One of the statement lists holds a call of the function named `hook`.
pub open spec fn any_list_calls(lists: Seq<Seq<StatementView>>, hook: Seq<char>) -> bool
    decreases lists,
{
    if lists.len() == 0 {
        false
    } else {
        any_list_calls(lists.drop_last(), hook) || any_statement_calls(lists.last(), hook)
    }
}

/// A list of expressions holds a call exactly where one of them does.
pub proof fn lemma_any_expression_calls(list: Seq<ExpressionView>, hook: Seq<char>)
    ensures
        any_expression_calls(list, hook) <==> exists|i: int|
            0 <= i < list.len() && #[trigger] expression_calls(list[i], hook),
    decreases list.len(),
{
    if list.len() > 0 {
        let front = list.drop_last();
        lemma_any_expression_calls(front, hook);
        if any_expression_calls(front, hook) {
            let i = choose|i: int| 0 <= i < front.len() && #[trigger] expression_calls(front[i], hook);
            assert(expression_calls(list[i], hook));
        }
        if expression_calls(list.last(), hook) {
            assert(expression_calls(list[list.len() - 1], hook));
        }
        if exists|i: int| 0 <= i < list.len() && #[trigger] expression_calls(list[i], hook) {
            let i = choose|i: int| 0 <= i < list.len() && #[trigger] expression_calls(list[i], hook);
            if i < front.len() {
                assert(expression_calls(front[i], hook));
            } else {
                assert(list[i] == list.last());
            }
        }
    }
}

/// A list of statements holds a call exactly where one of them does.
pub proof fn lemma_any_statement_calls(list: Seq<StatementView>, hook: Seq<char>)
    ensures
        any_statement_calls(list, hook) <==> exists|i: int|
            0 <= i < list.len() && #[trigger] statement_calls(list[i], hook),
    decreases list.len(),
{
    if list.len() > 0 {
        let front = list.drop_last();
        lemma_any_statement_calls(front, hook);
        if any_statement_calls(front, hook) {
            let i = choose|i: int| 0 <= i < front.len() && #[trigger] statement_calls(front[i], hook);
            assert(statement_calls(list[i], hook));
        }
        if statement_calls(list.last(), hook) {
            assert(statement_calls(list[list.len() - 1], hook));
        }
        if exists|i: int| 0 <= i < list.len() && #[trigger] statement_calls(list[i], hook) {
            let i = choose|i: int| 0 <= i < list.len() && #[trigger] statement_calls(list[i], hook);
            if i < front.len() {
                assert(statement_calls(front[i], hook));
            } else {
                assert(list[i] == list.last());
            }
        }
    }
}

/// A list with one more statement in it holds a call exactly where the list
/// did or the statement does.
pub proof fn lemma_calls_after_insert(
    list: Seq<StatementView>,
    at: int,
    statement: StatementView,
    hook: Seq<char>,
)
    requires
        0 <= at <= list.len(),
    ensures
        any_statement_calls(list.insert(at, statement), hook) == (any_statement_calls(list, hook)
            || statement_calls(statement, hook)),
{
    let after = list.insert(at, statement);
    lemma_any_statement_calls(list, hook);
    lemma_any_statement_calls(after, hook);
    if any_statement_calls(list, hook) {
        let i = choose|i: int| 0 <= i < list.len() && #[trigger] statement_calls(list[i], hook);
        if i < at {
            assert(after[i] == list[i]);
            assert(statement_calls(after[i], hook));
        } else {
            assert(after[i + 1] == list[i]);
            assert(statement_calls(after[i + 1], hook));
        }
    }
    if statement_calls(statement, hook) {
        assert(after[at] == statement);
        assert(statement_calls(after[at], hook));
    }
    if any_statement_calls(after, hook) {
        let i = choose|i: int| 0 <= i < after.len() && #[trigger] statement_calls(after[i], hook);
        if i < at {
            assert(after[i] == list[i]);
            assert(statement_calls(list[i], hook));
        } else if i == at {
            assert(after[i] == statement);
        } else {
            assert(after[i] == list[i - 1]);
            assert(statement_calls(list[i - 1], hook));
        }
    }
}

/// A list with one more statement at its end holds a call exactly where the
/// list did or the statement does.
pub proof fn lemma_calls_after_push(list: Seq<StatementView>, statement: StatementView, hook: Seq<char>)
    ensures
        any_statement_calls(list.push(statement), hook) == (any_statement_calls(list, hook)
            || statement_calls(statement, hook)),
{
    assert(list.push(statement).drop_last() =~= list);
}

} // verus!
