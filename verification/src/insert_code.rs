//! The statements that the instrumentation pass puts into a function body, and
//! where it puts them.
use vstd::prelude::*;
use crate::hooks::{
    HookUsage, ACCESS_LOCAL_VARIABLES, INSPECT_ARGS, MODIFY_ARGS, PACKAGE_LOADED, PACKAGE_WRAPPED,
};
use crate::instructions::FunctionInstructions;
use crate::nodes::{
    array, assignment, call, expression_statement, identifier, one, static_member, string_literal,
    two,
};
use crate::return_statements::{
    holds_return_in, rewrite_returns_in, transform_return_statements, ARGUMENTS,
};
use crate::syntax::{
    expression_views, lemma_statement_views_insert, lemma_statement_views_push, statement_views,
    texts, AssignmentOperator, Expression, ExpressionView, Statement, StatementView,
};

verus! {

/// The statement is a call of the superclass constructor.
pub open spec fn is_super_call(statement: StatementView) -> bool {
    match statement {
        StatementView::Expression(ExpressionView::Call { callee, .. }) => *callee is Super,
        _ => false,
    }
}

/// `at` is the place of the first call of the superclass constructor among
/// the statements of `body`.
pub open spec fn is_first_super_call(body: Seq<StatementView>, at: int) -> bool {
    &&& 0 <= at < body.len()
    &&& is_super_call(body[at])
    &&& forall|j: int| 0 <= j < at ==> !is_super_call(#[trigger] body[j])
}

/// Where the pass inserts into a body: in a constructor, right behind the
/// first call of the superclass constructor among its statements; at the
/// front in a constructor without such a call, and in every other function.
pub open spec fn insert_position(body: Seq<StatementView>, is_constructor: bool) -> int {
    if is_constructor && exists|at: int| is_first_super_call(body, at) {
        (choose|at: int| is_first_super_call(body, at)) + 1
    } else {
        0
    }
}

/// No two places are the first call of the superclass constructor.
pub proof fn lemma_first_super_call_unique(body: Seq<StatementView>, a: int, b: int)
    requires
        is_first_super_call(body, a),
        is_first_super_call(body, b),
    ensures
        a == b,
{
    if a < b {
        assert(!is_super_call(body[a]));
    }
    if b < a {
        assert(!is_super_call(body[b]));
    }
}

/// Whether `statement` is a call of the superclass constructor.
fn statement_is_super_call(statement: &Statement) -> (is_call: bool)
    ensures
        is_call == is_super_call(statement@),
{
    match statement {
        Statement::Expression(expression) => {
            match expression {
                Expression::Call { callee, .. } => {
                    assert(expression@ is Call && expression@->Call_callee == callee@);
                    match &**callee {
                        Expression::Super => true,
                        _ => false,
                    }
                },
                _ => false,
            }
        },
        _ => false,
    }
}

/// Where the pass inserts into `body`.
pub fn get_insert_position(body: &Vec<Statement>, is_constructor: bool) -> (position: usize)
    ensures
        position == insert_position(statement_views(body@), is_constructor),
        position <= body@.len(),
{
    if !is_constructor {
        return 0;
    }
    let ghost views = statement_views(body@);
    let mut i: usize = 0;
    while i < body.len()
        invariant
            is_constructor,
            i <= body@.len(),
            views == statement_views(body@),
            forall|j: int| 0 <= j < i ==> !is_super_call(#[trigger] views[j]),
        decreases body@.len() - i,
    {
        if statement_is_super_call(&body[i]) {
            proof {
                assert(is_first_super_call(views, i as int));
                assert forall|at: int| is_first_super_call(views, at) implies at == i by {
                    lemma_first_super_call_unique(views, i as int, at);
                }
            }
            return i + 1;
        }
        i += 1;
    }
    0
}

/// Inserts `statement` into `body` at place `pos`.
pub fn insert_single_statement_into_func(body: &mut Vec<Statement>, pos: usize, statement: Statement)
    requires
        pos <= old(body)@.len(),
    ensures
        final(body)@ == old(body)@.insert(pos as int, statement),
        statement_views(final(body)@) == statement_views(old(body)@).insert(
            pos as int,
            statement@,
        ),
{
    proof {
        lemma_statement_views_insert(body@, pos as int, statement);
    }
    body.insert(pos, statement);
}

/// A plain name for each text of a list.
pub open spec fn identifier_views(names: Seq<Seq<char>>) -> Seq<ExpressionView> {
    Seq::new(names.len(), |i: int| ExpressionView::Identifier(names[i]))
}

/// A plain name for each text of `names`.
fn identifiers(names: &Vec<String>) -> (list: Vec<Expression>)
    ensures
        expression_views(list@) == identifier_views(texts(names@)),
{
    let mut list: Vec<Expression> = Vec::new();
    let mut i: usize = 0;
    while i < names.len()
        invariant
            i <= names@.len(),
            list@.len() == i,
            forall|j: int| 0 <= j < i ==> (#[trigger] list@[j])@ == ExpressionView::Identifier(names@[j]@),
        decreases names@.len() - i,
    {
        list.push(identifier(names[i].as_str()));
        i += 1;
    }
    list
}

/// `__instrumentInspectArgs('identifier', arguments, 'pkg_version', this);`
pub open spec fn inspect_args_statement(identifier: Seq<char>, pkg_version: Seq<char>) -> StatementView {
    StatementView::Expression(
        ExpressionView::Call {
            callee: Box::new(ExpressionView::Identifier(INSPECT_ARGS@)),
            arguments: seq![
                ExpressionView::StringLiteral(identifier),
                ExpressionView::Identifier(ARGUMENTS@),
                ExpressionView::StringLiteral(pkg_version),
                ExpressionView::This,
            ],
            optional: false,
        },
    )
}

/// `__instrumentModifyArgs('identifier', args, this)`
pub open spec fn modify_args_call(identifier: Seq<char>, args: ExpressionView) -> ExpressionView {
    ExpressionView::Call {
        callee: Box::new(ExpressionView::Identifier(MODIFY_ARGS@)),
        arguments: seq![ExpressionView::StringLiteral(identifier), args, ExpressionView::This],
        optional: false,
    }
}

/// `[a, b] = __instrumentModifyArgs('identifier', [a, b], this);`
pub open spec fn modify_named_args_statement(
    identifier: Seq<char>,
    arg_names: Seq<Seq<char>>,
) -> StatementView {
    StatementView::Expression(
        ExpressionView::Assignment {
            operator: AssignmentOperator::Assign,
            left: Box::new(ExpressionView::Array(identifier_views(arg_names))),
            right: Box::new(
                modify_args_call(identifier, ExpressionView::Array(identifier_views(arg_names))),
            ),
        },
    )
}

/// `name.property(argument)` for two plain names.
pub open spec fn static_call(
    name: Seq<char>,
    property: Seq<char>,
    arguments: Seq<ExpressionView>,
) -> ExpressionView {
    ExpressionView::Call {
        callee: Box::new(
            ExpressionView::StaticMember {
                object: Box::new(ExpressionView::Identifier(name)),
                property,
            },
        ),
        arguments,
        optional: false,
    }
}

/// `Object.assign(arguments, __instrumentModifyArgs('identifier', Array.from(arguments), this));`
pub open spec fn modify_arguments_object_statement(identifier: Seq<char>) -> StatementView {
    StatementView::Expression(
        static_call(
            "Object"@,
            "assign"@,
            seq![
                ExpressionView::Identifier(ARGUMENTS@),
                modify_args_call(
                    identifier,
                    static_call("Array"@, "from"@, seq![ExpressionView::Identifier(ARGUMENTS@)]),
                ),
            ],
        ),
    )
}

/// The statement that hands the arguments to the hook that may replace them:
/// over the whole arguments object where `modify_arguments_object` is set,
/// over the named parameters where not.
pub open spec fn modify_args_statement(
    identifier: Seq<char>,
    arg_names: Seq<Seq<char>>,
    modify_arguments_object: bool,
) -> StatementView {
    if modify_arguments_object {
        modify_arguments_object_statement(identifier)
    } else {
        modify_named_args_statement(identifier, arg_names)
    }
}

/// `__instrumentAccessLocalVariables('identifier', [v1, v2]);`
pub open spec fn access_local_variables_statement(
    identifier: Seq<char>,
    names: Seq<Seq<char>>,
) -> StatementView {
    StatementView::Expression(
        ExpressionView::Call {
            callee: Box::new(ExpressionView::Identifier(ACCESS_LOCAL_VARIABLES@)),
            arguments: seq![
                ExpressionView::StringLiteral(identifier),
                ExpressionView::Array(identifier_views(names)),
            ],
            optional: false,
        },
    )
}

/// `hook('pkg_name', 'pkg_version');`
pub open spec fn package_marker_statement(
    hook: Seq<char>,
    pkg_name: Seq<char>,
    pkg_version: Seq<char>,
) -> StatementView {
    StatementView::Expression(
        ExpressionView::Call {
            callee: Box::new(ExpressionView::Identifier(hook)),
            arguments: seq![
                ExpressionView::StringLiteral(pkg_name),
                ExpressionView::StringLiteral(pkg_version),
            ],
            optional: false,
        },
    )
}

/// Builds the call of the hook that may replace the arguments `args`.
fn build_modify_args_call(identifier: &str, args: Expression) -> (node: Expression)
    ensures
        node@ == modify_args_call(identifier@, args@),
{
    let mut arguments: Vec<Expression> = Vec::new();
    arguments.push(string_literal(identifier));
    arguments.push(args);
    arguments.push(Expression::This);
    assert(expression_views(arguments@) =~= seq![
        ExpressionView::StringLiteral(identifier@),
        args@,
        ExpressionView::This,
    ]);
    call(crate::nodes::identifier(MODIFY_ARGS), arguments, false)
}

/// Builds `name.property(arguments)`.
fn build_static_call(name: &str, property: &str, arguments: Vec<Expression>) -> (node: Expression)
    ensures
        node@ == static_call(name@, property@, expression_views(arguments@)),
{
    call(static_member(identifier(name), property), arguments, false)
}

/// Builds the statement of `modify_args_statement`.
fn build_modify_args_statement(
    identifier: &str,
    arg_names: &Vec<String>,
    modify_arguments_object: bool,
) -> (node: Statement)
    ensures
        node@ == modify_args_statement(identifier@, texts(arg_names@), modify_arguments_object),
{
    if modify_arguments_object {
        let from = build_static_call("Array", "from", one(crate::nodes::identifier(ARGUMENTS)));
        let hook = build_modify_args_call(identifier, from);
        let assign = build_static_call(
            "Object",
            "assign",
            two(crate::nodes::identifier(ARGUMENTS), hook),
        );
        expression_statement(assign)
    } else {
        let target = array(identifiers(arg_names));
        let hook = build_modify_args_call(identifier, array(identifiers(arg_names)));
        expression_statement(assignment(AssignmentOperator::Assign, target, hook))
    }
}

/// Builds the statement of `inspect_args_statement`.
fn build_inspect_args_statement(identifier: &str, pkg_version: &str) -> (node: Statement)
    ensures
        node@ == inspect_args_statement(identifier@, pkg_version@),
{
    let mut arguments: Vec<Expression> = Vec::new();
    arguments.push(string_literal(identifier));
    arguments.push(crate::nodes::identifier(ARGUMENTS));
    arguments.push(string_literal(pkg_version));
    arguments.push(Expression::This);
    assert(expression_views(arguments@) =~= seq![
        ExpressionView::StringLiteral(identifier@),
        ExpressionView::Identifier(ARGUMENTS@),
        ExpressionView::StringLiteral(pkg_version@),
        ExpressionView::This,
    ]);
    expression_statement(call(crate::nodes::identifier(INSPECT_ARGS), arguments, false))
}

/// Builds the statement of `package_marker_statement`.
fn build_package_marker_statement(hook: &str, pkg_name: &str, pkg_version: &str) -> (node:
    Statement)
    ensures
        node@ == package_marker_statement(hook@, pkg_name@, pkg_version@),
{
    expression_statement(
        call(identifier(hook), two(string_literal(pkg_name), string_literal(pkg_version)), false),
    )
}

/// A body with `statement` put in at the place where the pass inserts.
pub open spec fn with_inserted(
    body: Seq<StatementView>,
    is_constructor: bool,
    statement: StatementView,
) -> Seq<StatementView> {
    body.insert(insert_position(body, is_constructor), statement)
}

/// Inserts into `body` the statement that lets the hook inspect the
/// arguments of the function known to the hooks as `identifier`.
pub fn insert_inspect_args(
    identifier: &str,
    pkg_version: &str,
    body: &mut Vec<Statement>,
    is_constructor: bool,
)
    ensures
        statement_views(final(body)@) == with_inserted(
            statement_views(old(body)@),
            is_constructor,
            inspect_args_statement(identifier@, pkg_version@),
        ),
{
    let position = get_insert_position(body, is_constructor);
    let statement = build_inspect_args_statement(identifier, pkg_version);
    insert_single_statement_into_func(body, position, statement);
}

/// Inserts into `body` the statement that lets the hook replace the
/// arguments of the function known to the hooks as `identifier`.
pub fn insert_modify_args(
    identifier: &str,
    arg_names: &Vec<String>,
    body: &mut Vec<Statement>,
    modify_arguments_object: bool,
    is_constructor: bool,
)
    ensures
        statement_views(final(body)@) == with_inserted(
            statement_views(old(body)@),
            is_constructor,
            modify_args_statement(identifier@, texts(arg_names@), modify_arguments_object),
        ),
{
    let position = get_insert_position(body, is_constructor);
    let statement = build_modify_args_statement(identifier, arg_names, modify_arguments_object);
    insert_single_statement_into_func(body, position, statement);
}

/// Appends to `body` the call that hands the hook the values of the local
/// variables `names`.
pub fn insert_access_local_variables(identifier: &str, names: &Vec<String>, body: &mut Vec<Statement>)
    ensures
        statement_views(final(body)@) == statement_views(old(body)@).push(
            access_local_variables_statement(identifier@, texts(names@)),
        ),
{
    let mut arguments: Vec<Expression> = Vec::new();
    arguments.push(string_literal(identifier));
    arguments.push(array(identifiers(names)));
    assert(expression_views(arguments@) =~= seq![
        ExpressionView::StringLiteral(identifier@),
        ExpressionView::Array(identifier_views(texts(names@))),
    ]);
    let statement = expression_statement(
        call(crate::nodes::identifier(ACCESS_LOCAL_VARIABLES), arguments, false),
    );
    proof {
        lemma_statement_views_push(body@, statement);
    }
    body.push(statement);
}

/// Appends to `body` the call that tells the runtime that the package was loaded.
pub fn insert_package_loaded(pkg_name: &str, pkg_version: &str, body: &mut Vec<Statement>)
    ensures
        statement_views(final(body)@) == statement_views(old(body)@).push(
            package_marker_statement(PACKAGE_LOADED@, pkg_name@, pkg_version@),
        ),
{
    let statement = build_package_marker_statement(PACKAGE_LOADED, pkg_name, pkg_version);
    proof {
        lemma_statement_views_push(body@, statement);
    }
    body.push(statement);
}

/// Appends to `body` the call that tells the runtime that the package was wrapped.
pub fn insert_package_wrapped(pkg_name: &str, pkg_version: &str, body: &mut Vec<Statement>)
    ensures
        statement_views(final(body)@) == statement_views(old(body)@).push(
            package_marker_statement(PACKAGE_WRAPPED@, pkg_name@, pkg_version@),
        ),
{
    let statement = build_package_marker_statement(PACKAGE_WRAPPED, pkg_name, pkg_version);
    proof {
        lemma_statement_views_push(body@, statement);
    }
    body.push(statement);
}

/// The instruction makes the pass insert the statement that replaces the
/// arguments: it asks for it, and there is a usable list of parameter names.
/// Without one nothing is replaced, whichever way the instruction asks for it.
pub open spec fn modifies_args(instruction: FunctionInstructions, arg_names: Seq<Seq<char>>) -> bool {
    instruction.modify_args && arg_names.len() > 0
}

/// The body after the statement that replaces the arguments was inserted,
/// where the instruction asks for it.
pub open spec fn with_modify_args(
    instruction: FunctionInstructions,
    arg_names: Seq<Seq<char>>,
    body: Seq<StatementView>,
    is_constructor: bool,
) -> Seq<StatementView> {
    if modifies_args(instruction, arg_names) {
        with_inserted(
            body,
            is_constructor,
            modify_args_statement(
                instruction.identifier@,
                arg_names,
                instruction.modify_arguments_object,
            ),
        )
    } else {
        body
    }
}

/// The body after the statement that inspects the arguments was inserted,
/// where the instruction asks for it.
pub open spec fn with_inspect_args(
    instruction: FunctionInstructions,
    pkg_version: Seq<char>,
    body: Seq<StatementView>,
    is_constructor: bool,
) -> Seq<StatementView> {
    if instruction.inspect_args {
        with_inserted(
            body,
            is_constructor,
            inspect_args_statement(instruction.identifier@, pkg_version),
        )
    } else {
        body
    }
}

/// The body after its returns were rewritten, where the instruction asks for
/// it and the function is no constructor.
pub open spec fn with_modified_returns(
    instruction: FunctionInstructions,
    body: Seq<StatementView>,
    is_constructor: bool,
) -> Seq<StatementView> {
    if instruction.modify_return_value && !is_constructor {
        rewrite_returns_in(instruction.identifier@, body)
    } else {
        body
    }
}

/// The body of a function that `instruction` is for, after the pass: first
/// the statement that replaces the arguments is inserted, then, at the same
/// place and so in front of it, the statement that inspects them, and last
/// the returns are rewritten.
pub open spec fn instrumented_body(
    instruction: FunctionInstructions,
    arg_names: Seq<Seq<char>>,
    pkg_version: Seq<char>,
    body: Seq<StatementView>,
    is_constructor: bool,
) -> Seq<StatementView> {
    with_modified_returns(
        instruction,
        with_inspect_args(
            instruction,
            pkg_version,
            with_modify_args(instruction, arg_names, body, is_constructor),
            is_constructor,
        ),
        is_constructor,
    )
}

/// The hooks that the pass makes a function body call.
pub open spec fn hooks_inserted(
    instruction: FunctionInstructions,
    arg_names: Seq<Seq<char>>,
    body: Seq<StatementView>,
    is_constructor: bool,
) -> HookUsage {
    HookUsage {
        inspect_args: instruction.inspect_args,
        modify_args: modifies_args(instruction, arg_names),
        modify_return_value: instruction.modify_return_value && !is_constructor && holds_return_in(
            body,
        ),
        ..HookUsage::none()
    }
}

/// Instruments the body of a function as `instruction` asks, and returns the
/// hooks that the body calls as a result.
pub fn insert_instrument_method_calls(
    instruction: &FunctionInstructions,
    arg_names: &Vec<String>,
    pkg_version: &str,
    body: &mut Vec<Statement>,
    is_constructor: bool,
) -> (inserted: HookUsage)
    ensures
        statement_views(final(body)@) == instrumented_body(
            *instruction,
            texts(arg_names@),
            pkg_version@,
            statement_views(old(body)@),
            is_constructor,
        ),
        inserted == hooks_inserted(
            *instruction,
            texts(arg_names@),
            statement_views(old(body)@),
            is_constructor,
        ),
{
    let mut inserted = HookUsage::new();
    if instruction.modify_args && arg_names.len() > 0 {
        insert_modify_args(
            instruction.identifier.as_str(),
            arg_names,
            body,
            instruction.modify_arguments_object,
            is_constructor,
        );
        inserted.modify_args = true;
    }
    if instruction.inspect_args {
        insert_inspect_args(instruction.identifier.as_str(), pkg_version, body, is_constructor);
        inserted.inspect_args = true;
    }
    if instruction.modify_return_value && !is_constructor {
        proof {
            lemma_insertions_hold_no_return(
                *instruction,
                texts(arg_names@),
                pkg_version@,
                statement_views(old(body)@),
            );
        }
        inserted.modify_return_value =
        transform_return_statements(instruction.identifier.as_str(), body);
    }
    inserted
}

/// The statements that the pass inserts hold no `return`: a body holds one
/// after the insertions exactly where it held one before.
pub proof fn lemma_insertions_hold_no_return(
    instruction: FunctionInstructions,
    arg_names: Seq<Seq<char>>,
    pkg_version: Seq<char>,
    body: Seq<StatementView>,
)
    ensures
        holds_return_in(
            with_inspect_args(
                instruction,
                pkg_version,
                with_modify_args(instruction, arg_names, body, false),
                false,
            ),
        ) == holds_return_in(body),
{
    let first = with_modify_args(instruction, arg_names, body, false);
    let second = with_inspect_args(instruction, pkg_version, first, false);
    crate::return_statements::lemma_holds_return_in(body);
    crate::return_statements::lemma_holds_return_in(first);
    crate::return_statements::lemma_holds_return_in(second);
    if holds_return_in(body) {
        let i = choose|i: int|
            0 <= i < body.len() && #[trigger] crate::return_statements::holds_return(body[i]);
        assert(first[first.len() - body.len() + i] == body[i]);
        let k = first.len() - body.len() + i;
        assert(crate::return_statements::holds_return(first[k]));
        assert(second[second.len() - first.len() + k] == first[k]);
        assert(crate::return_statements::holds_return(second[second.len() - first.len() + k]));
    }
    if holds_return_in(second) {
        let i = choose|i: int|
            0 <= i < second.len() && #[trigger] crate::return_statements::holds_return(second[i]);
        if second.len() > first.len() {
            assert(i > 0);
            assert(second[i] == first[i - 1]);
        }
        let k = if second.len() > first.len() { i - 1 } else { i };
        assert(crate::return_statements::holds_return(first[k]));
        if first.len() > body.len() {
            assert(k > 0);
            assert(first[k] == body[k - 1]);
        }
        let m = if first.len() > body.len() { k - 1 } else { k };
        assert(crate::return_statements::holds_return(body[m]));
    }
}

} // verus!
