//! The instrumentation pass: what it does at each function-like node of a tree.
use vstd::prelude::*;
use crate::hooks::HookUsage;
use crate::insert_code::{hooks_inserted, insert_instrument_method_calls, instrumented_body};
use crate::instructions::{
    first_match, FileInstructions, FunctionInstructions, FUNCTION_ASSIGNMENT,
    FUNCTION_DECLARATION, FUNCTION_EXPRESSION, FUNCTION_VARIABLE_DECLARATION, METHOD_DEFINITION,
};
use crate::names::{
    arg_names, get_function_or_method_arg_names, get_name_str_for_member_expr, member_path,
};
use crate::syntax::{
    AssignmentExpression, AssignmentOperator, BindingPattern, Expression, ExpressionView,
    Function, FunctionKind, FunctionView, MethodDefinition, MethodDefinitionKind, PropertyKey,
    VariableDeclarator,
};

verus! {

/// A construct that the pass looks up instructions for.
pub ghost struct Target {
    /// The shape that an instruction must name.
    pub node_type: Seq<char>,
    /// The name that an instruction must name.
    pub name: Seq<char>,
    /// Whether the construct is the constructor of a class.
    pub is_constructor: bool,
}

/// A function can take statements: it has a body, and the body is a block.
pub open spec fn takes_statements(function: FunctionView) -> bool {
    function.body is Some && !function.expression
}

/// The place of the instruction that the pass follows at a node, if any: the
/// first one for the node's shape and name, where the node is a target and
/// its function can take statements.
pub open spec fn instruction_at(
    functions: Seq<FunctionInstructions>,
    target: Option<Target>,
    function: FunctionView,
) -> Option<int> {
    match target {
        Some(target) => if takes_statements(function) {
            first_match(functions, target.node_type, target.name)
        } else {
            None
        },
        None => None,
    }
}

/// The function of a node after the pass: instrumented as the instruction
/// for the node asks; unchanged where there is none.
pub open spec fn instrumented_function(
    functions: Seq<FunctionInstructions>,
    pkg_version: Seq<char>,
    target: Option<Target>,
    function: FunctionView,
) -> FunctionView {
    match instruction_at(functions, target, function) {
        Some(at) => FunctionView {
            body: Some(
                instrumented_body(
                    functions[at],
                    arg_names(function.params),
                    pkg_version,
                    function.body->Some_0,
                    target->Some_0.is_constructor,
                ),
            ),
            ..function
        },
        None => function,
    }
}

/// The hooks that the pass makes the function of a node call.
pub open spec fn hooks_inserted_at(
    functions: Seq<FunctionInstructions>,
    target: Option<Target>,
    function: FunctionView,
) -> HookUsage {
    match instruction_at(functions, target, function) {
        Some(at) => hooks_inserted(
            functions[at],
            arg_names(function.params),
            function.body->Some_0,
            target->Some_0.is_constructor,
        ),
        None => HookUsage::none(),
    }
}

/// The target that a class member is: a method or a constructor with a plain
/// name.  Getters and setters are no targets.
pub open spec fn method_target(kind: MethodDefinitionKind, key: PropertyKey) -> Option<Target> {
    match key {
        PropertyKey::StaticIdentifier(name) => match kind {
            MethodDefinitionKind::Method => Some(
                Target { node_type: METHOD_DEFINITION@, name: name@, is_constructor: false },
            ),
            MethodDefinitionKind::Constructor => Some(
                Target { node_type: METHOD_DEFINITION@, name: name@, is_constructor: true },
            ),
            _ => None,
        },
        PropertyKey::Other => None,
    }
}

/// The target that a function with a name of its own is.
pub open spec fn function_target(function: FunctionView) -> Option<Target> {
    match function.id {
        Some(name) => match function.kind {
            FunctionKind::Declaration => Some(
                Target { node_type: FUNCTION_DECLARATION@, name, is_constructor: false },
            ),
            FunctionKind::Expression => Some(
                Target { node_type: FUNCTION_EXPRESSION@, name, is_constructor: false },
            ),
            FunctionKind::Arrow => None,
        },
        None => None,
    }
}

/// The target that the right side of an assignment is: a function, assigned
/// with `=` to a member whose path can be named.
pub open spec fn assignment_target(
    operator: AssignmentOperator,
    left: ExpressionView,
    right: ExpressionView,
) -> Option<Target> {
    if operator == AssignmentOperator::Assign && right is Function {
        match member_path(left) {
            Some(path) => Some(
                Target { node_type: FUNCTION_ASSIGNMENT@, name: path, is_constructor: false },
            ),
            None => None,
        }
    } else {
        None
    }
}

/// The target that the initial value of a variable is: a function, bound to
/// a plain name.
pub open spec fn declarator_target(id: BindingPattern, init: Option<ExpressionView>) -> Option<
    Target,
> {
    match (id, init) {
        (BindingPattern::Identifier(name), Some(ExpressionView::Function(_))) => Some(
            Target { node_type: FUNCTION_VARIABLE_DECLARATION@, name: name@, is_constructor: false },
        ),
        _ => None,
    }
}

/// The state of one run of the instrumentation pass over a tree.
pub struct Transformer<'a> {
    pub file_instructions: &'a FileInstructions,
    pub pkg_version: &'a str,
    /// The hooks that the nodes visited so far were made to call.
    pub usage: HookUsage,
}

impl<'a> Transformer<'a> {
    /// A pass that has visited nothing yet.
    pub fn new(file_instructions: &'a FileInstructions, pkg_version: &'a str) -> (pass: Self)
        ensures
            pass.file_instructions == file_instructions,
            pass.pkg_version == pkg_version,
            pass.usage == HookUsage::none(),
    {
        Transformer { file_instructions, pkg_version, usage: HookUsage::new() }
    }

    /// Instruments `function` as the first instruction for `node_type` and
    /// `name` asks.  Returns whether there was one to follow.
    fn instrument(
        &mut self,
        node_type: &str,
        name: &str,
        function: &mut Function,
        is_constructor: bool,
    ) -> (followed: bool)
        ensures
            final(self).file_instructions == old(self).file_instructions,
            final(self).pkg_version == old(self).pkg_version,
            final(function)@ == instrumented_function(
                old(self).file_instructions.functions@,
                old(self).pkg_version@,
                Some(Target { node_type: node_type@, name: name@, is_constructor }),
                old(function)@,
            ),
            final(self).usage == old(self).usage.union(
                hooks_inserted_at(
                    old(self).file_instructions.functions@,
                    Some(Target { node_type: node_type@, name: name@, is_constructor }),
                    old(function)@,
                ),
            ),
            followed == instruction_at(
                old(self).file_instructions.functions@,
                Some(Target { node_type: node_type@, name: name@, is_constructor }),
                old(function)@,
            ).is_some(),
            !followed ==> *final(function) == *old(function),
    {
        if function.expression {
            return false;
        }
        let names = get_function_or_method_arg_names(&function.params);
        match &mut function.body {
            Some(body) => {
                match self.file_instructions.find(node_type, name) {
                    Some(at) => {
                        let instruction = &self.file_instructions.functions[at];
                        let inserted = insert_instrument_method_calls(
                            instruction,
                            &names,
                            self.pkg_version,
                            body,
                            is_constructor,
                        );
                        self.usage.add(&inserted);
                        true
                    },
                    None => false,
                }
            },
            None => false,
        }
    }

    /// Enters a member of a class: instruments a method or constructor with a
    /// plain name as the instruction of shape `MethodDefinition` for that name
    /// asks.  Returns whether there was one to follow.
    pub fn enter_method_definition(&mut self, node: &mut MethodDefinition) -> (followed: bool)
        ensures
            final(self).file_instructions == old(self).file_instructions,
            final(self).pkg_version == old(self).pkg_version,
            final(node).kind == old(node).kind,
            final(node).key == old(node).key,
            final(node).value@ == instrumented_function(
                old(self).file_instructions.functions@,
                old(self).pkg_version@,
                method_target(old(node).kind, old(node).key),
                old(node).value@,
            ),
            final(self).usage == old(self).usage.union(
                hooks_inserted_at(
                    old(self).file_instructions.functions@,
                    method_target(old(node).kind, old(node).key),
                    old(node).value@,
                ),
            ),
            followed == instruction_at(
                old(self).file_instructions.functions@,
                method_target(old(node).kind, old(node).key),
                old(node).value@,
            ).is_some(),
            !followed ==> *final(node) == *old(node),
    {
        let is_constructor = match node.kind {
            MethodDefinitionKind::Method => false,
            MethodDefinitionKind::Constructor => true,
            _ => {
                return false;
            },
        };
        match &node.key {
            PropertyKey::StaticIdentifier(name) => {
                let name = name.clone();
                self.instrument(METHOD_DEFINITION, name.as_str(), &mut node.value, is_constructor)
            },
            PropertyKey::Other => false,
        }
    }

    /// Enters a function: instruments a declaration or expression with a name
    /// of its own as the instruction of shape `FunctionDeclaration` or
    /// `FunctionExpression` for that name asks.  Returns whether there was one
    /// to follow.
    pub fn enter_function(&mut self, node: &mut Function) -> (followed: bool)
        ensures
            final(self).file_instructions == old(self).file_instructions,
            final(self).pkg_version == old(self).pkg_version,
            final(node)@ == instrumented_function(
                old(self).file_instructions.functions@,
                old(self).pkg_version@,
                function_target(old(node)@),
                old(node)@,
            ),
            final(self).usage == old(self).usage.union(
                hooks_inserted_at(
                    old(self).file_instructions.functions@,
                    function_target(old(node)@),
                    old(node)@,
                ),
            ),
            followed == instruction_at(
                old(self).file_instructions.functions@,
                function_target(old(node)@),
                old(node)@,
            ).is_some(),
            !followed ==> *final(node) == *old(node),
    {
        let node_type = match node.kind {
            FunctionKind::Declaration => FUNCTION_DECLARATION,
            FunctionKind::Expression => FUNCTION_EXPRESSION,
            FunctionKind::Arrow => {
                return false;
            },
        };
        let name = match &node.id {
            Some(name) => name.clone(),
            None => {
                return false;
            },
        };
        self.instrument(node_type, name.as_str(), node, false)
    }

    /// Enters an assignment: instruments a function that is assigned with `=`
    /// to a member as the instruction of shape `FunctionAssignment` for the
    /// member's path asks.  Returns whether there was one to follow.
    pub fn enter_assignment_expression(&mut self, node: &mut AssignmentExpression) -> (followed:
        bool)
        ensures
            final(self).file_instructions == old(self).file_instructions,
            final(self).pkg_version == old(self).pkg_version,
            final(node).operator == old(node).operator,
            final(node).left == old(node).left,
            final(node).right@ == match old(node).right@ {
                ExpressionView::Function(function) => ExpressionView::Function(
                    Box::new(
                        instrumented_function(
                            old(self).file_instructions.functions@,
                            old(self).pkg_version@,
                            assignment_target(
                                old(node).operator,
                                old(node).left@,
                                old(node).right@,
                            ),
                            *function,
                        ),
                    ),
                ),
                other => other,
            },
            final(self).usage == old(self).usage.union(
                match old(node).right@ {
                    ExpressionView::Function(function) => hooks_inserted_at(
                        old(self).file_instructions.functions@,
                        assignment_target(old(node).operator, old(node).left@, old(node).right@),
                        *function,
                    ),
                    _ => HookUsage::none(),
                },
            ),
            followed == match old(node).right@ {
                ExpressionView::Function(function) => instruction_at(
                    old(self).file_instructions.functions@,
                    assignment_target(old(node).operator, old(node).left@, old(node).right@),
                    *function,
                ).is_some(),
                _ => false,
            },
            !followed ==> *final(node) == *old(node),
    {
        match node.operator {
            AssignmentOperator::Assign => {},
            _ => {
                return false;
            },
        }
        let name = match get_name_str_for_member_expr(&node.left) {
            Some(name) => name,
            None => {
                return false;
            },
        };
        match &mut node.right {
            Expression::Function(function) => self.instrument(
                FUNCTION_ASSIGNMENT,
                name.as_str(),
                function,
                false,
            ),
            _ => false,
        }
    }

    /// Enters one declarator of a variable declaration: instruments a function
    /// that a plain name is declared with as the instruction of shape
    /// `FunctionVariableDeclaration` for that name asks.  Returns whether there
    /// was one to follow.
    pub fn enter_variable_declarator(&mut self, node: &mut VariableDeclarator) -> (followed: bool)
        ensures
            final(self).file_instructions == old(self).file_instructions,
            final(self).pkg_version == old(self).pkg_version,
            final(node).id == old(node).id,
            final(node).init is Some == old(node).init is Some,
            final(node).init matches Some(init) ==> init@ == match old(node).init->Some_0@ {
                ExpressionView::Function(function) => ExpressionView::Function(
                    Box::new(
                        instrumented_function(
                            old(self).file_instructions.functions@,
                            old(self).pkg_version@,
                            declarator_target(old(node).id, Some(old(node).init->Some_0@)),
                            *function,
                        ),
                    ),
                ),
                other => other,
            },
            final(self).usage == old(self).usage.union(
                match old(node).init {
                    Some(init) => match init@ {
                        ExpressionView::Function(function) => hooks_inserted_at(
                            old(self).file_instructions.functions@,
                            declarator_target(old(node).id, Some(init@)),
                            *function,
                        ),
                        _ => HookUsage::none(),
                    },
                    None => HookUsage::none(),
                },
            ),
            followed == match old(node).init {
                Some(init) => match init@ {
                    ExpressionView::Function(function) => instruction_at(
                        old(self).file_instructions.functions@,
                        declarator_target(old(node).id, Some(init@)),
                        *function,
                    ).is_some(),
                    _ => false,
                },
                None => false,
            },
            !followed ==> *final(node) == *old(node),
    {
        let name = match &node.id {
            BindingPattern::Identifier(name) => name.clone(),
            BindingPattern::Other => {
                return false;
            },
        };
        match &mut node.init {
            Some(Expression::Function(function)) => self.instrument(
                FUNCTION_VARIABLE_DECLARATION,
                name.as_str(),
                function,
                false,
            ),
            _ => false,
        }
    }
}

} // verus!
