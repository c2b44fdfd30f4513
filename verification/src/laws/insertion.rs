//! Where the inserted statements stand, and that the statements of the body
//! follow them.
use vstd::prelude::*;
use crate::insert_code::{
    insert_position, inspect_args_statement, instrumented_body, is_first_super_call, is_super_call,
    lemma_first_super_call_unique, modifies_args, modify_args_statement, with_inserted,
    with_inspect_args, with_modified_returns, with_modify_args,
};
use crate::instructions::FunctionInstructions;
use crate::syntax::StatementView;

verus! {

/// An inserted statement that is no call of the superclass constructor leaves
/// the place of insertion where it was.
pub proof fn lemma_insert_position_stable(
    body: Seq<StatementView>,
    is_constructor: bool,
    statement: StatementView,
)
    requires
        !is_super_call(statement),
    ensures
        0 <= insert_position(body, is_constructor) <= body.len(),
        insert_position(with_inserted(body, is_constructor, statement), is_constructor)
            == insert_position(body, is_constructor),
{
    let at = insert_position(body, is_constructor);
    let after = with_inserted(body, is_constructor, statement);
    if is_constructor && exists|i: int| is_first_super_call(body, i) {
        let first = choose|i: int| is_first_super_call(body, i);
        assert(at == first + 1);
        assert(after[first] == body[first]);
        assert forall|j: int| 0 <= j < first implies !is_super_call(#[trigger] after[j]) by {
            assert(after[j] == body[j]);
        }
        assert(is_first_super_call(after, first));
        assert forall|i: int| is_first_super_call(after, i) implies i == first by {
            lemma_first_super_call_unique(after, first, i);
        }
    } else if is_constructor {
        assert forall|i: int| !is_first_super_call(after, i) by {
            if is_first_super_call(after, i) {
                if i == 0 {
                    assert(after[0] == statement);
                } else {
                    assert(after[i] == body[i - 1]);
                    // the first call among the old statements would be a first call
                    lemma_some_first_super_call(body, i - 1);
                }
            }
        }
    }
}

/// Where a statement is a call of the superclass constructor, some statement
/// is the first such call.
proof fn lemma_some_first_super_call(body: Seq<StatementView>, at: int)
    requires
        0 <= at < body.len(),
        is_super_call(body[at]),
    ensures
        exists|first: int| is_first_super_call(body, first),
    decreases at,
{
    if forall|j: int| 0 <= j < at ==> !is_super_call(#[trigger] body[j]) {
        assert(is_first_super_call(body, at));
    } else {
        let j = choose|j: int| 0 <= j < at && is_super_call(#[trigger] body[j]);
        lemma_some_first_super_call(body, j);
    }
}

/// Where an instruction asks for both, the statement that inspects the
/// arguments and the statement that replaces them stand side by side, in this
/// order, at the place of insertion; every statement that was there before is
/// still there, those in front of the place in front of the pair and the others
/// behind it.
pub proof fn lemma_both_statements_at_insert_position(
    instruction: FunctionInstructions,
    arg_names: Seq<Seq<char>>,
    pkg_version: Seq<char>,
    body: Seq<StatementView>,
    is_constructor: bool,
)
    requires
        instruction.inspect_args,
        modifies_args(instruction, arg_names),
    ensures
        0 <= insert_position(body, is_constructor) <= body.len(),
        with_inspect_args(
            instruction,
            pkg_version,
            with_modify_args(instruction, arg_names, body, is_constructor),
            is_constructor,
        ) == body.subrange(0, insert_position(body, is_constructor)) + seq![
            inspect_args_statement(instruction.identifier@, pkg_version),
            modify_args_statement(
                instruction.identifier@,
                arg_names,
                instruction.modify_arguments_object,
            ),
        ] + body.subrange(insert_position(body, is_constructor), body.len() as int),
{
    let modify = modify_args_statement(
        instruction.identifier@,
        arg_names,
        instruction.modify_arguments_object,
    );
    lemma_insert_position_stable(body, is_constructor, modify);
    let at = insert_position(body, is_constructor);
    let first = with_modify_args(instruction, arg_names, body, is_constructor);
    let second = with_inspect_args(instruction, pkg_version, first, is_constructor);
    assert(second =~= body.subrange(0, at) + seq![
        inspect_args_statement(instruction.identifier@, pkg_version),
        modify,
    ] + body.subrange(at, body.len() as int));
}

/// In a constructor whose first statement calls the superclass constructor,
/// the place of insertion is right behind that call.
pub proof fn lemma_insert_position_behind_leading_super_call(body: Seq<StatementView>)
    requires
        body.len() > 0,
        is_super_call(body[0]),
    ensures
        insert_position(body, true) == 1,
{
    assert(is_first_super_call(body, 0));
    assert forall|i: int| is_first_super_call(body, i) implies i == 0 by {
        lemma_first_super_call_unique(body, 0, i);
    }
}

/// In a constructor that does not call the superclass constructor in a
/// statement of its body, and in every function that is no constructor, the
/// place of insertion is the front.
pub proof fn lemma_insert_position_at_front(body: Seq<StatementView>, is_constructor: bool)
    requires
        !is_constructor || forall|i: int| 0 <= i < body.len() ==> !is_super_call(#[trigger] body[i]),
    ensures
        insert_position(body, is_constructor) == 0,
{
}

/// In a function that is no constructor, the statements of the body follow
/// the inserted ones, all of them and in their order; where the instruction
/// asks for it, their returns are rewritten.
pub proof fn lemma_body_follows_the_insertions(
    instruction: FunctionInstructions,
    arg_names: Seq<Seq<char>>,
    pkg_version: Seq<char>,
    body: Seq<StatementView>,
)
    ensures
        ({
            let result = instrumented_body(instruction, arg_names, pkg_version, body, false);
            let added = result.len() - body.len();
            &&& added == (if instruction.inspect_args {
                1int
            } else {
                0int
            }) + (if modifies_args(instruction, arg_names) {
                1int
            } else {
                0int
            })
            &&& result.subrange(added, result.len() as int) == with_modified_returns(
                instruction,
                body,
                false,
            )
        }),
{
    let first = with_modify_args(instruction, arg_names, body, false);
    let second = with_inspect_args(instruction, pkg_version, first, false);
    let result = with_modified_returns(instruction, second, false);
    let added = result.len() - body.len();
    assert(result.subrange(added, result.len() as int) =~= with_modified_returns(
        instruction,
        body,
        false,
    ));
}

} // verus!
