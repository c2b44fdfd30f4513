//! That no `return` is left as it was.
use vstd::prelude::*;
use crate::return_statements::{
    return_hook_call, rewrite_returns, rewrite_returns_in, rewrite_returns_in_each,
    wrapped_return_value, UNDEFINED,
};
use crate::syntax::{ExpressionView, StatementView};

verus! {

/// The value is a call of the return-value hook for the function known as
/// `identifier`, or the awaited result of such a call.
pub open spec fn is_wrapped_value(identifier: Seq<char>, value: ExpressionView) -> bool {
    ||| exists|inner: ExpressionView| value == return_hook_call(identifier, inner)
    ||| exists|inner: ExpressionView|
        value == ExpressionView::Await(Box::new(return_hook_call(identifier, inner)))
}

/// Every `return` that the walk reaches from the statement returns a wrapped
/// value.
pub open spec fn returns_wrapped(identifier: Seq<char>, statement: StatementView) -> bool
    decreases statement,
{
    match statement {
        StatementView::Return(argument) => match argument {
            Some(value) => is_wrapped_value(identifier, value),
            None => false,
        },
        StatementView::Block(body) => returns_wrapped_in(identifier, body),
        StatementView::If { consequent, alternate } => returns_wrapped(identifier, *consequent)
            && match alternate {
            Some(statement) => returns_wrapped(identifier, *statement),
            None => true,
        },
        StatementView::Loop(body) => returns_wrapped(identifier, *body),
        StatementView::Labeled(body) => returns_wrapped(identifier, *body),
        StatementView::Switch(cases) => returns_wrapped_in_each(identifier, cases),
        StatementView::Try { block, handler, finalizer } => returns_wrapped_in(identifier, block)
            && match handler {
            Some(statements) => returns_wrapped_in(identifier, statements),
            None => true,
        } && match finalizer {
            Some(statements) => returns_wrapped_in(identifier, statements),
            None => true,
        },
        _ => true,
    }
}

/// Every `return` that the walk reaches from the statements of the list
/// returns a wrapped value.
pub open spec fn returns_wrapped_in(identifier: Seq<char>, list: Seq<StatementView>) -> bool
    decreases list,
{
    if list.len() == 0 {
        true
    } else {
        returns_wrapped_in(identifier, list.drop_last()) && returns_wrapped(identifier, list.last())
    }
}

/// Every `return` that the walk reaches from the statements of the lists
/// returns a wrapped value.
pub open spec fn returns_wrapped_in_each(
    identifier: Seq<char>,
    lists: Seq<Seq<StatementView>>,
) -> bool
    decreases lists,
{
    if lists.len() == 0 {
        true
    } else {
        returns_wrapped_in_each(identifier, lists.drop_last()) && returns_wrapped_in(
            identifier,
            lists.last(),
        )
    }
}

/// What a rewritten `return` returns is a wrapped value.
pub proof fn lemma_wrapped_return_value_is_wrapped(
    identifier: Seq<char>,
    argument: Option<ExpressionView>,
)
    ensures
        is_wrapped_value(identifier, wrapped_return_value(identifier, argument)),
{
    match argument {
        Some(ExpressionView::Await(inner)) => {
            assert(wrapped_return_value(identifier, argument) == ExpressionView::Await(
                Box::new(return_hook_call(identifier, *inner)),
            ));
        },
        Some(value) => {
            assert(wrapped_return_value(identifier, argument) == return_hook_call(
                identifier,
                value,
            ));
        },
        None => {
            assert(wrapped_return_value(identifier, argument) == return_hook_call(
                identifier,
                ExpressionView::Identifier(UNDEFINED@),
            ));
        },
    }
}

/// After the rewrite, every `return` that the walk reaches from a statement
/// returns a wrapped value: none is left bare, however deep it stands in
/// blocks, branches, loops, labels, cases and the parts of a `try`.
pub proof fn lemma_every_return_is_wrapped(identifier: Seq<char>, statement: StatementView)
    ensures
        returns_wrapped(identifier, rewrite_returns(identifier, statement)),
    decreases statement,
{
    match statement {
        StatementView::Return(argument) => {
            lemma_wrapped_return_value_is_wrapped(identifier, argument);
        },
        StatementView::Block(body) => {
            lemma_every_return_is_wrapped_in(identifier, body);
        },
        StatementView::If { consequent, alternate } => {
            lemma_every_return_is_wrapped(identifier, *consequent);
            match alternate {
                Some(statement) => {
                    lemma_every_return_is_wrapped(identifier, *statement);
                },
                None => {},
            }
        },
        StatementView::Loop(body) => {
            lemma_every_return_is_wrapped(identifier, *body);
        },
        StatementView::Labeled(body) => {
            lemma_every_return_is_wrapped(identifier, *body);
        },
        StatementView::Switch(cases) => {
            lemma_every_return_is_wrapped_in_each(identifier, cases);
        },
        StatementView::Try { block, handler, finalizer } => {
            lemma_every_return_is_wrapped_in(identifier, block);
            match handler {
                Some(statements) => {
                    lemma_every_return_is_wrapped_in(identifier, statements);
                },
                None => {},
            }
            match finalizer {
                Some(statements) => {
                    lemma_every_return_is_wrapped_in(identifier, statements);
                },
                None => {},
            }
        },
        _ => {},
    }
}

/// After the rewrite, every `return` that the walk reaches from the
/// statements of a function body returns a wrapped value.
pub proof fn lemma_every_return_is_wrapped_in(identifier: Seq<char>, list: Seq<StatementView>)
    ensures
        returns_wrapped_in(identifier, rewrite_returns_in(identifier, list)),
    decreases list,
{
    if list.len() > 0 {
        let front = list.drop_last();
        lemma_every_return_is_wrapped_in(identifier, front);
        lemma_every_return_is_wrapped(identifier, list.last());
        let result = rewrite_returns_in(identifier, list);
        assert(result.drop_last() =~= rewrite_returns_in(identifier, front));
        assert(result.last() == rewrite_returns(identifier, list.last()));
    }
}

/// After the rewrite, every `return` that the walk reaches from the cases of
/// a `switch` returns a wrapped value.
pub proof fn lemma_every_return_is_wrapped_in_each(
    identifier: Seq<char>,
    lists: Seq<Seq<StatementView>>,
)
    ensures
        returns_wrapped_in_each(identifier, rewrite_returns_in_each(identifier, lists)),
    decreases lists,
{
    if lists.len() > 0 {
        let front = lists.drop_last();
        lemma_every_return_is_wrapped_in_each(identifier, front);
        lemma_every_return_is_wrapped_in(identifier, lists.last());
        let result = rewrite_returns_in_each(identifier, lists);
        assert(result.drop_last() =~= rewrite_returns_in_each(identifier, front));
        assert(result.last() == rewrite_returns_in(identifier, lists.last()));
    }
}

/// `return await p;` becomes `return await hook(.., p, this);`: the call of
/// the hook is awaited, and `p` is handed to it as it stands.
pub proof fn lemma_await_is_kept(identifier: Seq<char>, awaited: ExpressionView)
    ensures
        rewrite_returns(
            identifier,
            StatementView::Return(Some(ExpressionView::Await(Box::new(awaited)))),
        ) == StatementView::Return(
            Some(ExpressionView::Await(Box::new(return_hook_call(identifier, awaited)))),
        ),
{
}

/// `return;` becomes a `return` of what the hook makes of `undefined`.
pub proof fn lemma_bare_return_hands_over_undefined(identifier: Seq<char>)
    ensures
        rewrite_returns(identifier, StatementView::Return(None)) == StatementView::Return(
            Some(return_hook_call(identifier, ExpressionView::Identifier(UNDEFINED@))),
        ),
{
}

} // verus!
