//! The handles of the nodes that a piece of a tree holds without looking into
//! them, in the order in which they stand.
use vstd::prelude::*;
use crate::syntax::{ExpressionView, StatementView};

verus! {

/// The handles in an expression, from left to right.
pub open spec fn expression_handles(expression: ExpressionView) -> Seq<u64>
    decreases expression,
{
    match expression {
        ExpressionView::Opaque(handle) => seq![handle],
        ExpressionView::Array(elements) => all_expression_handles(elements),
        ExpressionView::StaticMember { object, .. } => expression_handles(*object),
        ExpressionView::ComputedMember { object, property } => expression_handles(*object)
            + expression_handles(*property),
        ExpressionView::Call { callee, arguments, .. } => expression_handles(*callee)
            + all_expression_handles(arguments),
        ExpressionView::Binary { left, right, .. } => expression_handles(*left)
            + expression_handles(*right),
        ExpressionView::Assignment { left, right, .. } => expression_handles(*left)
            + expression_handles(*right),
        ExpressionView::Await(argument) => expression_handles(*argument),
        ExpressionView::Function(function) => match function.body {
            Some(statements) => all_statement_handles(statements),
            None => Seq::empty(),
        },
        _ => Seq::empty(),
    }
}

/// The handles in a list of expressions, from left to right.
pub open spec fn all_expression_handles(list: Seq<ExpressionView>) -> Seq<u64>
    decreases list,
{
    if list.len() == 0 {
        Seq::empty()
    } else {
        all_expression_handles(list.drop_last()) + expression_handles(list.last())
    }
}

/// The handles in a statement, from first to last.
pub open spec fn statement_handles(statement: StatementView) -> Seq<u64>
    decreases statement,
{
    match statement {
        StatementView::Opaque(handle) => seq![handle],
        StatementView::Expression(expression) => expression_handles(expression),
        StatementView::Return(argument) => match argument {
            Some(value) => expression_handles(value),
            None => Seq::empty(),
        },
        StatementView::Block(body) => all_statement_handles(body),
        StatementView::If { consequent, alternate } => statement_handles(*consequent)
            + match alternate {
            Some(statement) => statement_handles(*statement),
            None => Seq::empty(),
        },
        StatementView::Loop(body) => statement_handles(*body),
        StatementView::Labeled(body) => statement_handles(*body),
        StatementView::Switch(cases) => all_list_handles(cases),
        StatementView::Try { block, handler, finalizer } => all_statement_handles(block)
            + match handler {
            Some(statements) => all_statement_handles(statements),
            None => Seq::empty(),
        } + match finalizer {
            Some(statements) => all_statement_handles(statements),
            None => Seq::empty(),
        },
        _ => Seq::empty(),
    }
}

/// The handles in a list of statements, from first to last.
pub open spec fn all_statement_handles(list: Seq<StatementView>) -> Seq<u64>
    decreases list,
{
    if list.len() == 0 {
        Seq::empty()
    } else {
        all_statement_handles(list.drop_last()) + statement_handles(list.last())
    }
}

/// The handles in a list of statement lists, from first to last.
pub open spec fn all_list_handles(lists: Seq<Seq<StatementView>>) -> Seq<u64>
    decreases lists,
{
    if lists.len() == 0 {
        Seq::empty()
    } else {
        all_list_handles(lists.drop_last()) + all_statement_handles(lists.last())
    }
}

/// The handles of one list after another are those of the first, then those
/// of the second.
pub proof fn lemma_expression_handles_concat(a: Seq<ExpressionView>, b: Seq<ExpressionView>)
    ensures
        all_expression_handles(a + b) == all_expression_handles(a) + all_expression_handles(b),
    decreases b.len(),
{
    if b.len() == 0 {
        assert(a + b =~= a);
        assert(all_expression_handles(a) + all_expression_handles(b) =~= all_expression_handles(a));
    } else {
        lemma_expression_handles_concat(a, b.drop_last());
        assert((a + b).drop_last() =~= a + b.drop_last());
        assert((a + b).last() == b.last());
        assert(all_expression_handles(a + b) =~= all_expression_handles(a)
            + all_expression_handles(b));
    }
}

/// The handles of a list of one expression are those of the expression.
pub proof fn lemma_expression_handles_one(expression: ExpressionView)
    ensures
        all_expression_handles(seq![expression]) == expression_handles(expression),
{
    let list = seq![expression];
    assert(list.drop_last() =~= Seq::<ExpressionView>::empty());
    assert(all_expression_handles(list.drop_last()) =~= Seq::<u64>::empty());
    assert(all_expression_handles(list) =~= expression_handles(expression));
}

/// The handles of a list of two expressions.
pub proof fn lemma_expression_handles_two(a: ExpressionView, b: ExpressionView)
    ensures
        all_expression_handles(seq![a, b]) == expression_handles(a) + expression_handles(b),
{
    lemma_expression_handles_one(a);
    lemma_expression_handles_one(b);
    lemma_expression_handles_concat(seq![a], seq![b]);
    assert(seq![a, b] =~= seq![a] + seq![b]);
}

/// The handles of a list of three expressions.
pub proof fn lemma_expression_handles_three(a: ExpressionView, b: ExpressionView, c: ExpressionView)
    ensures
        all_expression_handles(seq![a, b, c]) == expression_handles(a) + expression_handles(b)
            + expression_handles(c),
{
    lemma_expression_handles_two(a, b);
    lemma_expression_handles_one(c);
    lemma_expression_handles_concat(seq![a, b], seq![c]);
    assert(seq![a, b, c] =~= seq![a, b] + seq![c]);
}

/// The handles of a list of four expressions.
pub proof fn lemma_expression_handles_four(
    a: ExpressionView,
    b: ExpressionView,
    c: ExpressionView,
    d: ExpressionView,
)
    ensures
        all_expression_handles(seq![a, b, c, d]) == expression_handles(a) + expression_handles(b)
            + expression_handles(c) + expression_handles(d),
{
    lemma_expression_handles_three(a, b, c);
    lemma_expression_handles_one(d);
    lemma_expression_handles_concat(seq![a, b, c], seq![d]);
    assert(seq![a, b, c, d] =~= seq![a, b, c] + seq![d]);
}

/// The handles of one list after another are those of the first, then those
/// of the second.
pub proof fn lemma_statement_handles_concat(a: Seq<StatementView>, b: Seq<StatementView>)
    ensures
        all_statement_handles(a + b) == all_statement_handles(a) + all_statement_handles(b),
    decreases b.len(),
{
    if b.len() == 0 {
        assert(a + b =~= a);
        assert(all_statement_handles(a) + all_statement_handles(b) =~= all_statement_handles(a));
    } else {
        lemma_statement_handles_concat(a, b.drop_last());
        assert((a + b).drop_last() =~= a + b.drop_last());
        assert((a + b).last() == b.last());
        assert(all_statement_handles(a + b) =~= all_statement_handles(a) + all_statement_handles(
            b,
        ));
    }
}

/// The handles of a list of one statement are those of the statement.
pub proof fn lemma_statement_handles_one(statement: StatementView)
    ensures
        all_statement_handles(seq![statement]) == statement_handles(statement),
{
    let list = seq![statement];
    assert(list.drop_last() =~= Seq::<StatementView>::empty());
    assert(all_statement_handles(list.drop_last()) =~= Seq::<u64>::empty());
    assert(all_statement_handles(list) =~= statement_handles(statement));
}

/// A statement without handles can be put into a list anywhere, and the
/// handles of the list stay what they were.
pub proof fn lemma_handles_after_insert(list: Seq<StatementView>, at: int, statement: StatementView)
    requires
        0 <= at <= list.len(),
        statement_handles(statement).len() == 0,
    ensures
        all_statement_handles(list.insert(at, statement)) == all_statement_handles(list),
{
    let front = list.subrange(0, at);
    let back = list.subrange(at, list.len() as int);
    let one = seq![statement];
    assert(list =~= front + back);
    assert(list.insert(at, statement) =~= front + one + back);
    lemma_statement_handles_concat(front, back);
    lemma_statement_handles_concat(front, one);
    lemma_statement_handles_concat(front + one, back);
    lemma_statement_handles_one(statement);
    assert(all_statement_handles(front) + statement_handles(statement) =~= all_statement_handles(
        front,
    ));
}

/// A statement without handles can be put at the end of a list, and the
/// handles of the list stay what they were.
pub proof fn lemma_handles_after_push(list: Seq<StatementView>, statement: StatementView)
    requires
        statement_handles(statement).len() == 0,
    ensures
        all_statement_handles(list.push(statement)) == all_statement_handles(list),
{
    assert(list.push(statement) =~= list.insert(list.len() as int, statement));
    lemma_handles_after_insert(list, list.len() as int, statement);
}

} // verus!
