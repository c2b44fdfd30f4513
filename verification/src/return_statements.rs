//! Rewriting the return statements of a function body, so that every value
//! the function returns passes through the return-value hook.
use vstd::prelude::*;
use crate::hooks::MODIFY_RETURN_VALUE;
use crate::nodes::{await_expression, call, string_literal};
use crate::syntax::{
    expression_views, statement_list_views,
    statement_view, statement_views, Expression, ExpressionView, Statement, StatementView,
};

verus! {

/// The name under which a function reaches the arguments it was called with.
pub const ARGUMENTS: &'static str = "arguments";

/// The name of the value that a `return;` without an argument returns.
pub const UNDEFINED: &'static str = "undefined";

/// `__instrumentModifyReturnValue('identifier', arguments, value, this)`
pub open spec fn return_hook_call(identifier: Seq<char>, value: ExpressionView) -> ExpressionView {
    ExpressionView::Call {
        callee: Box::new(ExpressionView::Identifier(MODIFY_RETURN_VALUE@)),
        arguments: seq![
            ExpressionView::StringLiteral(identifier),
            ExpressionView::Identifier(ARGUMENTS@),
            value,
            ExpressionView::This,
        ],
        optional: false,
    }
}

/// What a rewritten `return` returns.  `return await p;` awaits the hook's
/// result for `p`; `return;` hands the hook `undefined`.
pub open spec fn wrapped_return_value(
    identifier: Seq<char>,
    argument: Option<ExpressionView>,
) -> ExpressionView {
    match argument {
        Some(ExpressionView::Await(inner)) => ExpressionView::Await(
            Box::new(return_hook_call(identifier, *inner)),
        ),
        Some(value) => return_hook_call(identifier, value),
        None => return_hook_call(identifier, ExpressionView::Identifier(UNDEFINED@)),
    }
}

/// A statement with every `return` in it rewritten.  The walk goes through
/// blocks, branches, loops, labels, the cases of a `switch` and the three parts
/// of a `try`; it enters no expression, and so no other function.
pub open spec fn rewrite_returns(identifier: Seq<char>, statement: StatementView) -> StatementView
    decreases statement,
{
    match statement {
        StatementView::Return(argument) => StatementView::Return(
            Some(wrapped_return_value(identifier, argument)),
        ),
        StatementView::Block(body) => StatementView::Block(rewrite_returns_in(identifier, body)),
        StatementView::If { consequent, alternate } => StatementView::If {
            consequent: Box::new(rewrite_returns(identifier, *consequent)),
            alternate: match alternate {
                Some(statement) => Some(Box::new(rewrite_returns(identifier, *statement))),
                None => None,
            },
        },
        StatementView::Loop(body) => StatementView::Loop(
            Box::new(rewrite_returns(identifier, *body)),
        ),
        StatementView::Labeled(body) => StatementView::Labeled(
            Box::new(rewrite_returns(identifier, *body)),
        ),
        StatementView::Switch(cases) => StatementView::Switch(
            rewrite_returns_in_each(identifier, cases),
        ),
        StatementView::Try { block, handler, finalizer } => StatementView::Try {
            block: rewrite_returns_in(identifier, block),
            handler: match handler {
                Some(statements) => Some(rewrite_returns_in(identifier, statements)),
                None => None,
            },
            finalizer: match finalizer {
                Some(statements) => Some(rewrite_returns_in(identifier, statements)),
                None => None,
            },
        },
        _ => statement,
    }
}

/// A statement list with every `return` in it rewritten.
pub open spec fn rewrite_returns_in(identifier: Seq<char>, list: Seq<StatementView>) -> Seq<
    StatementView,
>
    decreases list,
{
    Seq::new(
        list.len(),
        |i: int|
            if 0 <= i < list.len() {
                rewrite_returns(identifier, list[i])
            } else {
                StatementView::Opaque(0)
            },
    )
}

/// Each statement list of a list with every `return` in it rewritten.
pub open spec fn rewrite_returns_in_each(
    identifier: Seq<char>,
    lists: Seq<Seq<StatementView>>,
) -> Seq<Seq<StatementView>>
    decreases lists,
{
    Seq::new(
        lists.len(),
        |i: int|
            if 0 <= i < lists.len() {
                rewrite_returns_in(identifier, lists[i])
            } else {
                Seq::empty()
            },
    )
}

/// The statement holds a `return` that the walk reaches.
pub open spec fn holds_return(statement: StatementView) -> bool
    decreases statement,
{
    match statement {
        StatementView::Return(_) => true,
        StatementView::Block(body) => holds_return_in(body),
        StatementView::If { consequent, alternate } => holds_return(*consequent) || match alternate {
            Some(statement) => holds_return(*statement),
            None => false,
        },
        StatementView::Loop(body) => holds_return(*body),
        StatementView::Labeled(body) => holds_return(*body),
        StatementView::Switch(cases) => holds_return_in_any(cases),
        StatementView::Try { block, handler, finalizer } => holds_return_in(block) || match handler {
            Some(statements) => holds_return_in(statements),
            None => false,
        } || match finalizer {
            Some(statements) => holds_return_in(statements),
            None => false,
        },
        _ => false,
    }
}

/// The statement list holds a `return` that the walk reaches.
pub open spec fn holds_return_in(list: Seq<StatementView>) -> bool
    decreases list,
{
    if list.len() == 0 {
        false
    } else {
        holds_return_in(list.drop_last()) || holds_return(list.last())
    }
}

/// One of the statement lists holds a `return` that the walk reaches.
pub open spec fn holds_return_in_any(lists: Seq<Seq<StatementView>>) -> bool
    decreases lists,
{
    if lists.len() == 0 {
        false
    } else {
        holds_return_in_any(lists.drop_last()) || holds_return_in(lists.last())
    }
}

/// Builds the call of the return-value hook for `value`.
fn build_return_hook_call(identifier: &str, value: Expression) -> (node: Expression)
    ensures
        node@ == return_hook_call(identifier@, value@),
{
    let mut arguments: Vec<Expression> = Vec::new();
    arguments.push(string_literal(identifier));
    arguments.push(crate::nodes::identifier(ARGUMENTS));
    arguments.push(value);
    arguments.push(Expression::This);
    assert(expression_views(arguments@) =~= seq![
        ExpressionView::StringLiteral(identifier@),
        ExpressionView::Identifier(ARGUMENTS@),
        value@,
        ExpressionView::This,
    ]);
    call(crate::nodes::identifier(MODIFY_RETURN_VALUE), arguments, false)
}

/// A list holds a reached `return` exactly where one of its statements does.
pub proof fn lemma_holds_return_in(list: Seq<StatementView>)
    ensures
        holds_return_in(list) <==> exists|i: int|
            0 <= i < list.len() && #[trigger] holds_return(list[i]),
    decreases list.len(),
{
    if list.len() > 0 {
        let front = list.drop_last();
        lemma_holds_return_in(front);
        if holds_return_in(front) {
            let i = choose|i: int| 0 <= i < front.len() && #[trigger] holds_return(front[i]);
            assert(holds_return(list[i]));
        }
        if holds_return(list.last()) {
            assert(holds_return(list[list.len() - 1]));
        }
        if exists|i: int| 0 <= i < list.len() && #[trigger] holds_return(list[i]) {
            let i = choose|i: int| 0 <= i < list.len() && #[trigger] holds_return(list[i]);
            if i < front.len() {
                assert(holds_return(front[i]));
            } else {
                assert(list[i] == list.last());
            }
        }
    }
}

/// Rewrites the argument of one `return`.
fn transform_return_argument(identifier: &str, argument: &mut Option<Expression>)
    ensures
        *final(argument) matches Some(value) && value@ == wrapped_return_value(
            identifier@,
            match *old(argument) {
                Some(value) => Some(value@),
                None => None,
            },
        ),
{
    let value = match argument.take() {
        Some(Expression::Await(inner)) => await_expression(
            build_return_hook_call(identifier, *inner),
        ),
        Some(value) => build_return_hook_call(identifier, value),
        None => build_return_hook_call(identifier, crate::nodes::identifier(UNDEFINED)),
    };
    *argument = Some(value);
}

/// Rewrites every `return` in each statement list of `cases`.
fn transform_return_statements_in_each(identifier: &str, cases: &mut Vec<Vec<Statement>>) -> (rewritten:
    bool)
    ensures
        statement_list_views(final(cases)@) == rewrite_returns_in_each(
            identifier@,
            statement_list_views(old(cases)@),
        ),
        rewritten == holds_return_in_any(statement_list_views(old(cases)@)),
    decreases *old(cases),
{
    let mut found = false;
    let mut i: usize = 0;
    while i < cases.len()
        invariant
            i <= cases@.len(),
            cases@.len() == old(cases)@.len(),
            forall|j: int|
                0 <= j < i ==> statement_views(#[trigger] cases@[j]@) == rewrite_returns_in(
                    identifier@,
                    statement_views(old(cases)@[j]@),
                ),
            forall|j: int| i <= j < cases@.len() ==> #[trigger] cases@[j] == old(cases)@[j],
            found == holds_return_in_any(
                statement_list_views(old(cases)@).subrange(0, i as int),
            ),
        decreases cases@.len() - i,
    {
        let here = transform_return_statements(identifier, &mut cases[i]);
        found = found || here;
        i += 1;
        proof {
            let views = statement_list_views(old(cases)@);
            assert(views.subrange(0, i as int).drop_last() =~= views.subrange(0, i - 1));
        }
    }
    proof {
        let views = statement_list_views(old(cases)@);
        assert(views.subrange(0, i as int) =~= views);
    }
    found
}

/// Rewrites every `return` that is reached from `statement` without entering
/// another function.  Returns whether there was one.
pub fn transform_return_statement(identifier: &str, statement: &mut Statement) -> (rewritten: bool)
    ensures
        final(statement)@ == rewrite_returns(identifier@, old(statement)@),
        rewritten == holds_return(old(statement)@),
    decreases *old(statement),
{
    match statement {
        Statement::Return(argument) => {
            transform_return_argument(identifier, argument);
            true
        },
        Statement::Block(body) => transform_return_statements(identifier, body),
        Statement::If { consequent, alternate } => {
            let first = transform_return_statement(identifier, consequent);
            let second = match alternate {
                Some(statement) => transform_return_statement(identifier, statement),
                None => false,
            };
            first || second
        },
        Statement::Loop(body) => transform_return_statement(identifier, body),
        Statement::Labeled(body) => transform_return_statement(identifier, body),
        Statement::Switch(cases) => transform_return_statements_in_each(identifier, cases),
        Statement::Try { block, handler, finalizer } => {
            let first = transform_return_statements(identifier, block);
            let second = match handler {
                Some(statements) => transform_return_statements(identifier, statements),
                None => false,
            };
            let third = match finalizer {
                Some(statements) => transform_return_statements(identifier, statements),
                None => false,
            };
            first || second || third
        },
        _ => false,
    }
}

/// Rewrites every `return` of a function body, so that the function returns
/// what the return-value hook makes of each value.  Returns whether the body
/// held a `return`.
pub fn transform_return_statements(identifier: &str, statements: &mut Vec<Statement>) -> (rewritten:
    bool)
    ensures
        statement_views(final(statements)@) == rewrite_returns_in(
            identifier@,
            statement_views(old(statements)@),
        ),
        rewritten == holds_return_in(statement_views(old(statements)@)),
    decreases *old(statements),
{
    let mut found = false;
    let mut i: usize = 0;
    while i < statements.len()
        invariant
            i <= statements@.len(),
            statements@.len() == old(statements)@.len(),
            forall|j: int|
                0 <= j < i ==> statement_view(#[trigger] statements@[j]) == rewrite_returns(
                    identifier@,
                    statement_view(old(statements)@[j]),
                ),
            forall|j: int|
                i <= j < statements@.len() ==> #[trigger] statements@[j] == old(statements)@[j],
            found == holds_return_in(statement_views(old(statements)@).subrange(0, i as int)),
        decreases statements@.len() - i,
    {
        let here = transform_return_statement(identifier, &mut statements[i]);
        found = found || here;
        i += 1;
        proof {
            let views = statement_views(old(statements)@);
            assert(views.subrange(0, i as int).drop_last() =~= views.subrange(0, i - 1));
        }
    }
    proof {
        let views = statement_views(old(statements)@);
        assert(views.subrange(0, i as int) =~= views);
    }
    found
}

} // verus!
