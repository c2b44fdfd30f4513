//! What holds of the nodes that the taint pass leaves.
use vstd::prelude::*;
use crate::calls::{
    any_expression_calls, any_statement_calls, expression_calls, lemma_any_expression_calls,
    statement_calls,
};
use crate::handles::{
    all_expression_handles, expression_handles, lemma_expression_handles_concat,
    lemma_expression_handles_one, lemma_expression_handles_two, lemma_statement_handles_one,
};
use crate::hooks::{lemma_names_are_the_hooks_in_use, CONCAT_HOOK_NAME, HookUsage, WRAP_HOOK_NAME};
use crate::laws::hooks_called::lemma_named_call_calls;
use crate::syntax::{ExpressionView, StatementView};
use crate::user_code::{
    capture_function, concat_call, rewritten, transform_kind, usage_after, usage_after_all,
    wrapped_call, CAPTURE_PARAMETER, TransformKind,
};

verus! {

/// A node that is no site of the taint pass is left as it is.
pub proof fn lemma_no_site_no_rewrite(node: ExpressionView)
    requires
        transform_kind(node) is None,
    ensures
        rewritten(node) == node,
{
}

/// What the taint pass makes of a site is no site: a node that was rewritten
/// is not rewritten again, however often the pass is handed it.
pub proof fn lemma_rewritten_is_no_site(node: ExpressionView)
    requires
        transform_kind(node) is Some,
    ensures
        transform_kind(rewritten(node)) is None,
        rewritten(rewritten(node)) == rewritten(node),
{
}

/// A walk of the taint pass calls a hook exactly where one of the nodes that
/// it leaves is a site: where none is, the hooks in use are those that were in
/// use before the walk.
pub proof fn lemma_walk_uses_hooks_only_at_sites(usage: HookUsage, nodes: Seq<ExpressionView>)
    ensures
        (forall|i: int| 0 <= i < nodes.len() ==> transform_kind(#[trigger] nodes[i]) is None)
            ==> usage_after_all(usage, nodes) == usage,
        (exists|i: int| 0 <= i < nodes.len() && transform_kind(#[trigger] nodes[i]) is Some)
            ==> usage_after_all(usage, nodes).any(),
    decreases nodes.len(),
{
    if nodes.len() > 0 {
        let front = nodes.drop_last();
        lemma_walk_uses_hooks_only_at_sites(usage, front);
        if forall|i: int| 0 <= i < nodes.len() ==> transform_kind(#[trigger] nodes[i]) is None {
            assert forall|i: int| 0 <= i < front.len() implies transform_kind(
                #[trigger] front[i],
            ) is None by {
                assert(front[i] == nodes[i]);
            }
            assert(transform_kind(nodes[nodes.len() - 1]) is None);
        }
        if exists|i: int| 0 <= i < nodes.len() && transform_kind(#[trigger] nodes[i]) is Some {
            let i = choose|i: int|
                0 <= i < nodes.len() && transform_kind(#[trigger] nodes[i]) is Some;
            if i < front.len() {
                assert(front[i] == nodes[i]);
                assert(usage_after_all(usage, front).any());
            }
        }
    }
}

/// The call of the concatenation hook calls that hook, and what its
/// arguments call.
proof fn lemma_concat_call_calls(arguments: Seq<ExpressionView>, hook: Seq<char>)
    ensures
        expression_calls(concat_call(arguments), hook) <==> hook == CONCAT_HOOK_NAME@
            || any_expression_calls(arguments, hook),
{
    lemma_named_call_calls(CONCAT_HOOK_NAME@, arguments, hook);
}

/// The call of the wrapping hook calls that hook, what the subject calls and
/// what the arguments of the wrapped call call.
proof fn lemma_wrapped_call_calls(
    subject: ExpressionView,
    method: Seq<char>,
    arguments: Seq<ExpressionView>,
    optional: bool,
    hook: Seq<char>,
)
    ensures
        expression_calls(wrapped_call(subject, method, arguments, optional), hook) <==> hook
            == WRAP_HOOK_NAME@ || expression_calls(subject, hook) || any_expression_calls(
            arguments,
            hook,
        ),
{
    let parameter = ExpressionView::Identifier(CAPTURE_PARAMETER@);
    let callee = ExpressionView::StaticMember { object: Box::new(parameter), property: method };
    let inner = ExpressionView::Call { callee: Box::new(callee), arguments, optional };
    let body = seq![StatementView::Expression(inner)];
    let capture = capture_function(method, arguments, optional);
    assert(!expression_calls(parameter, hook));
    assert(!expression_calls(callee, hook));
    assert(callee != ExpressionView::Identifier(hook));
    assert(expression_calls(inner, hook) <==> any_expression_calls(arguments, hook));
    assert(statement_calls(body[0], hook) <==> expression_calls(inner, hook));
    crate::calls::lemma_any_statement_calls(body, hook);
    assert(any_statement_calls(body, hook) <==> expression_calls(inner, hook));
    assert(expression_calls(capture, hook) <==> any_statement_calls(body, hook));
    let outer = seq![subject, capture];
    lemma_any_expression_calls(outer, hook);
    if expression_calls(subject, hook) {
        assert(expression_calls(outer[0], hook));
    }
    if expression_calls(capture, hook) {
        assert(expression_calls(outer[1], hook));
    }
    lemma_named_call_calls(WRAP_HOOK_NAME@, outer, hook);
}

/// A node that the taint pass has left calls what it called before and the
/// hook of its rewrite, and nothing else: the hooks in use after a node are
/// those that the rewritten node calls.
pub proof fn lemma_rewritten_node_calls(node: ExpressionView, hook: Seq<char>)
    ensures
        expression_calls(rewritten(node), hook) <==> expression_calls(node, hook) || usage_after(
            HookUsage::none(),
            node,
        ).names().contains(hook),
{
    let used = usage_after(HookUsage::none(), node);
    lemma_names_are_the_hooks_in_use(used, hook);
    match node {
        ExpressionView::Call { callee, arguments, optional } => match *callee {
            ExpressionView::StaticMember { object, property } => {
                assert(*callee != ExpressionView::Identifier(hook));
                assert(expression_calls(*callee, hook) == expression_calls(*object, hook));
                assert(expression_calls(node, hook) <==> expression_calls(*object, hook)
                    || any_expression_calls(arguments, hook));
                if transform_kind(node) == Some(TransformKind::ConcatMethodCall) {
                    let all = seq![*object] + arguments;
                    lemma_concat_call_calls(all, hook);
                    lemma_any_expression_calls(all, hook);
                    lemma_any_expression_calls(arguments, hook);
                    if expression_calls(*object, hook) {
                        assert(expression_calls(all[0], hook));
                    }
                    if any_expression_calls(arguments, hook) {
                        let i = choose|i: int|
                            0 <= i < arguments.len() && #[trigger] expression_calls(
                                arguments[i],
                                hook,
                            );
                        assert(all[i + 1] == arguments[i]);
                        assert(expression_calls(all[i + 1], hook));
                    }
                    if any_expression_calls(all, hook) {
                        let i = choose|i: int|
                            0 <= i < all.len() && #[trigger] expression_calls(all[i], hook);
                        if i > 0 {
                            assert(all[i] == arguments[i - 1]);
                            assert(expression_calls(arguments[i - 1], hook));
                        }
                    }
                } else if transform_kind(node) == Some(TransformKind::MethodCall) {
                    lemma_wrapped_call_calls(*object, property, arguments, optional, hook);
                }
            },
            _ => {},
        },
        ExpressionView::Binary { operator, left, right } => {
            if transform_kind(node) is Some {
                let both = seq![*left, *right];
                lemma_concat_call_calls(both, hook);
                lemma_any_expression_calls(both, hook);
                if expression_calls(*left, hook) {
                    assert(expression_calls(both[0], hook));
                }
                if expression_calls(*right, hook) {
                    assert(expression_calls(both[1], hook));
                }
            }
        },
        ExpressionView::Assignment { operator, left, right } => {
            if transform_kind(node) is Some {
                let target = *left;
                let both = seq![target, *right];
                lemma_concat_call_calls(both, hook);
                lemma_any_expression_calls(both, hook);
                assert(!expression_calls(target, hook));
                if expression_calls(*right, hook) {
                    assert(expression_calls(both[1], hook));
                }
                let call = concat_call(both);
                assert(rewritten(node) == ExpressionView::Assignment {
                    operator: crate::syntax::AssignmentOperator::Assign,
                    left: Box::new(target),
                    right: Box::new(call),
                });
                assert(expression_calls(rewritten(node), hook) <==> expression_calls(target, hook)
                    || expression_calls(call, hook));
            }
        },
        _ => {},
    }
}

/// The taint pass moves no node: the handles in a node that it has left are
/// those that were in it, each once and in their order.
pub proof fn lemma_rewritten_node_keeps_handles(node: ExpressionView)
    ensures
        expression_handles(rewritten(node)) == expression_handles(node),
{
    match node {
        ExpressionView::Call { callee, arguments, optional } => match *callee {
            ExpressionView::StaticMember { object, property } => {
                assert(expression_handles(*callee) == expression_handles(*object));
                if transform_kind(node) == Some(TransformKind::ConcatMethodCall) {
                    lemma_expression_handles_one(*object);
                    lemma_expression_handles_concat(seq![*object], arguments);
                    assert(expression_handles(ExpressionView::Identifier(CONCAT_HOOK_NAME@)).len()
                        == 0);
                    assert(expression_handles(rewritten(node)) =~= expression_handles(node));
                } else if transform_kind(node) == Some(TransformKind::MethodCall) {
                    let parameter = ExpressionView::Identifier(CAPTURE_PARAMETER@);
                    let inner_callee = ExpressionView::StaticMember {
                        object: Box::new(parameter),
                        property,
                    };
                    let inner = ExpressionView::Call {
                        callee: Box::new(inner_callee),
                        arguments,
                        optional,
                    };
                    let capture = capture_function(property, arguments, optional);
                    assert(expression_handles(parameter).len() == 0);
                    assert(expression_handles(inner_callee).len() == 0);
                    assert(expression_handles(inner) =~= all_expression_handles(arguments));
                    lemma_statement_handles_one(StatementView::Expression(inner));
                    assert(expression_handles(capture) == all_expression_handles(arguments));
                    lemma_expression_handles_two(*object, capture);
                    assert(expression_handles(ExpressionView::Identifier(WRAP_HOOK_NAME@)).len()
                        == 0);
                    assert(expression_handles(rewritten(node)) =~= expression_handles(node));
                }
            },
            _ => {},
        },
        ExpressionView::Binary { operator, left, right } => {
            if transform_kind(node) is Some {
                lemma_expression_handles_two(*left, *right);
                assert(expression_handles(ExpressionView::Identifier(CONCAT_HOOK_NAME@)).len()
                    == 0);
                assert(expression_handles(rewritten(node)) =~= expression_handles(node));
            }
        },
        ExpressionView::Assignment { operator, left, right } => {
            if transform_kind(node) is Some {
                let target = *left;
                lemma_expression_handles_two(target, *right);
                assert(expression_handles(target).len() == 0);
                assert(expression_handles(ExpressionView::Identifier(CONCAT_HOOK_NAME@)).len()
                    == 0);
                let call = concat_call(seq![target, *right]);
                assert(expression_handles(call) =~= expression_handles(*right));
                assert(rewritten(node) == ExpressionView::Assignment {
                    operator: crate::syntax::AssignmentOperator::Assign,
                    left: Box::new(target),
                    right: Box::new(call),
                });
                assert(expression_handles(rewritten(node)) =~= expression_handles(node));
            }
        },
        _ => {},
    }
}

} // verus!
