//! The passes on real source text: each test parses with oxc, walks the tree
//! with oxc's traversal, lets the passes rewrite what the walk visits, and
//! prints with oxc's code generator.
use js_transformer::dialect::{Language, ModuleKind, SourceType as Dialect};
use js_transformer::hooks::HookUsage;
use js_transformer::instructions::{FileInstructions, FunctionInstructions};
use js_transformer::pipeline::{self, Action, Event, ParseReport, Pass, Run};
use js_transformer::syntax as model;
use js_transformer::syntax::Statement as ModelStatement;
use js_transformer::transformer::Transformer;
use js_transformer::user_code::UserCodeTransformer;
use oxc_allocator::{Allocator, Box as ArenaBox, GetAllocator, TakeIn, Vec as ArenaVec};
use oxc_ast::ast::{
    Argument, ArrayExpressionElement, ArrowFunctionExpression, AssignmentExpression,
    AssignmentOperator, AssignmentTarget, AssignmentTargetMaybeDefault, BinaryOperator,
    BindingIdentifier, BindingPattern, BindingProperty, Expression, FormalParameter,
    FormalParameterKind, FormalParameters, Function, FunctionBody, IdentifierName,
    ImportDeclarationSpecifier, ImportOrExportKind, MethodDefinition, MethodDefinitionKind,
    ModuleExportName, Program, PropertyKey, Statement, StringLiteral, VariableDeclarationKind,
    VariableDeclarator,
};
use oxc_ast::{AstBuilder, NONE};
use oxc_codegen::{Codegen, CodegenOptions, CommentOptions, LegalComment};
use oxc_parser::Parser;
use oxc_semantic::{Scoping, SemanticBuilder};
use oxc_span::{SourceType, SPAN};
use oxc_traverse::{traverse_mut, Traverse, TraverseCtx};

/// A node that waits to be put back.
enum Part<'a> {
    Expression(Expression<'a>),
    Argument(Argument<'a>),
    Statement(Statement<'a>),
}

/// The nodes that wait, by handle.
struct Stash<'a> {
    parts: Vec<Option<Part<'a>>>,
}

impl<'a> Stash<'a> {
    fn new() -> Self {
        Stash { parts: Vec::new() }
    }

    fn put(&mut self, part: Part<'a>) -> u64 {
        self.parts.push(Some(part));
        (self.parts.len() - 1) as u64
    }

    fn put_expression(&mut self, expression: Expression<'a>) -> u64 {
        self.put(Part::Expression(expression))
    }

    fn put_argument(&mut self, argument: Argument<'a>) -> u64 {
        self.put(Part::Argument(argument))
    }

    fn put_statement(&mut self, statement: Statement<'a>) -> u64 {
        self.put(Part::Statement(statement))
    }

    fn take(&mut self, handle: u64) -> Part<'a> {
        self.parts
            .get_mut(handle as usize)
            .and_then(Option::take)
            .expect("a handle stands for one node that waits")
    }
}

fn text<'a>(value: &str, builder: &AstBuilder<'a>) -> &'a str {
    builder.allocator().alloc_str(value)
}

fn binary_operator(operator: BinaryOperator) -> model::BinaryOperator {
    match operator {
        BinaryOperator::Addition => model::BinaryOperator::Addition,
        _ => model::BinaryOperator::Other,
    }
}

fn assignment_operator(operator: AssignmentOperator) -> model::AssignmentOperator {
    match operator {
        AssignmentOperator::Assign => model::AssignmentOperator::Assign,
        AssignmentOperator::Addition => model::AssignmentOperator::Addition,
        _ => model::AssignmentOperator::Other,
    }
}

/// Builds the node that a model expression describes.
fn build_expression<'a>(
    expression: model::Expression,
    stash: &mut Stash<'a>,
    builder: &AstBuilder<'a>,
) -> Expression<'a> {
    match expression {
        model::Expression::Opaque(handle) => match stash.take(handle) {
            Part::Expression(expression) => expression,
            Part::Argument(_) | Part::Statement(_) => {
                unreachable!("the handle of an expression stands where an expression is built")
            }
        },
        model::Expression::Identifier(name) => {
            Expression::new_identifier(SPAN, text(&name, builder), builder)
        }
        model::Expression::This => Expression::new_this_expression(SPAN, builder),
        model::Expression::StringLiteral(value) => {
            Expression::new_string_literal(SPAN, text(&value, builder), None, builder)
        }
        model::Expression::Array(elements) => {
            let elements = ArenaVec::from_iter_in(
                elements.into_iter().map(|element| {
                    ArrayExpressionElement::from(build_expression(element, stash, builder))
                }),
                builder,
            );
            Expression::new_array_expression(SPAN, elements, builder)
        }
        model::Expression::StaticMember { object, property } => {
            let object = build_expression(*object, stash, builder);
            let property = IdentifierName::new(SPAN, text(&property, builder), builder);
            Expression::new_static_member_expression(SPAN, object, property, false, builder)
        }
        model::Expression::Call { callee, arguments, optional } => {
            let callee = build_expression(*callee, stash, builder);
            let arguments = ArenaVec::from_iter_in(
                arguments.into_iter().map(|argument| build_argument(argument, stash, builder)),
                builder,
            );
            Expression::new_call_expression(SPAN, callee, NONE, arguments, optional, builder)
        }
        model::Expression::Assignment(assignment) => {
            let model::AssignmentExpression { operator, left, right } = *assignment;
            let operator = match operator {
                model::AssignmentOperator::Assign => AssignmentOperator::Assign,
                model::AssignmentOperator::Addition => AssignmentOperator::Addition,
                model::AssignmentOperator::Other => {
                    unreachable!("the passes build assignments with `=` only")
                }
            };
            let left = build_target(left, builder);
            let right = build_expression(right, stash, builder);
            Expression::new_assignment_expression(SPAN, operator, left, right, builder)
        }
        model::Expression::Await(argument) => {
            let argument = build_expression(*argument, stash, builder);
            Expression::new_await_expression(SPAN, argument, builder)
        }
        model::Expression::Function(function) => build_arrow(*function, stash, builder),
        model::Expression::Super
        | model::Expression::ComputedMember { .. }
        | model::Expression::Binary { .. } => {
            unreachable!("the passes build no node of this kind")
        }
    }
}

fn build_argument<'a>(
    argument: model::Expression,
    stash: &mut Stash<'a>,
    builder: &AstBuilder<'a>,
) -> Argument<'a> {
    match argument {
        model::Expression::Opaque(handle) => match stash.take(handle) {
            Part::Argument(argument) => argument,
            Part::Expression(expression) => Argument::from(expression),
            Part::Statement(_) => unreachable!("the handle of a statement stands in no call"),
        },
        other => Argument::from(build_expression(other, stash, builder)),
    }
}

fn build_target<'a>(target: model::Expression, builder: &AstBuilder<'a>) -> AssignmentTarget<'a> {
    match target {
        model::Expression::Identifier(name) => {
            AssignmentTarget::new_assignment_target_identifier(SPAN, text(&name, builder), builder)
        }
        model::Expression::Array(elements) => {
            let elements = ArenaVec::from_iter_in(
                elements.into_iter().map(|element| match element {
                    model::Expression::Identifier(name) => {
                        Some(AssignmentTargetMaybeDefault::new_assignment_target_identifier(
                            SPAN,
                            text(&name, builder),
                            builder,
                        ))
                    }
                    _ => unreachable!("the passes assign to lists of plain names only"),
                }),
                builder,
            );
            AssignmentTarget::new_array_assignment_target(SPAN, elements, NONE, builder)
        }
        _ => unreachable!("the passes assign to plain names and lists of them only"),
    }
}

fn build_arrow<'a>(
    function: model::Function,
    stash: &mut Stash<'a>,
    builder: &AstBuilder<'a>,
) -> Expression<'a> {
    let items = ArenaVec::from_iter_in(
        function.params.into_iter().map(|parameter| match parameter {
            model::Parameter::Identifier(name) => FormalParameter::new(
                SPAN,
                ArenaVec::new_in(builder),
                BindingPattern::new_binding_identifier(SPAN, text(&name, builder), builder),
                NONE,
                NONE,
                false,
                None,
                false,
                false,
                builder,
            ),
            model::Parameter::Pattern => unreachable!("the passes build plain parameters only"),
        }),
        builder,
    );
    let params =
        FormalParameters::new(SPAN, FormalParameterKind::ArrowFormalParameters, items, NONE, builder);
    let statements = ArenaVec::from_iter_in(
        function
            .body
            .unwrap_or_default()
            .into_iter()
            .map(|statement| build_statement(statement, stash, builder)),
        builder,
    );
    let no_directives: ArenaVec<'a, oxc_ast::ast::Directive<'a>> = ArenaVec::new_in(builder);
    let body = FunctionBody::new(SPAN, no_directives, statements, builder);
    Expression::new_arrow_function_expression(
        SPAN,
        function.expression,
        false,
        NONE,
        params,
        NONE,
        body,
        builder,
    )
}

/// Builds the node that a model statement describes.
fn build_statement<'a>(
    statement: model::Statement,
    stash: &mut Stash<'a>,
    builder: &AstBuilder<'a>,
) -> Statement<'a> {
    match statement {
        model::Statement::Opaque(handle) => match stash.take(handle) {
            Part::Statement(statement) => statement,
            Part::Expression(_) | Part::Argument(_) => {
                unreachable!("the handle of a statement stands where a statement is built")
            }
        },
        model::Statement::Expression(expression) => {
            let expression = build_expression(expression, stash, builder);
            Statement::new_expression_statement(SPAN, expression, builder)
        }
        model::Statement::Import { names, source } => {
            let specifiers = ArenaVec::from_iter_in(
                names.iter().map(|name| {
                    let name = text(name, builder);
                    ImportDeclarationSpecifier::new_import_specifier(
                        SPAN,
                        ModuleExportName::new_identifier_name(SPAN, name, builder),
                        BindingIdentifier::new(SPAN, name, builder),
                        ImportOrExportKind::Value,
                        builder,
                    )
                }),
                builder,
            );
            Statement::new_import_declaration(
                SPAN,
                Some(specifiers),
                StringLiteral::new(SPAN, text(&source, builder), None, builder),
                None,
                NONE,
                ImportOrExportKind::Value,
                builder,
            )
        }
        model::Statement::Require { names, source } => {
            let properties = ArenaVec::from_iter_in(
                names.iter().map(|name| {
                    let name = text(name, builder);
                    BindingProperty::new(
                        SPAN,
                        PropertyKey::new_static_identifier(SPAN, name, builder),
                        BindingPattern::new_binding_identifier(SPAN, name, builder),
                        true,
                        false,
                        builder,
                    )
                }),
                builder,
            );
            let source = Expression::new_string_literal(SPAN, text(&source, builder), None, builder);
            let require = Expression::new_call_expression(
                SPAN,
                Expression::new_identifier(SPAN, "require", builder),
                NONE,
                ArenaVec::from_value_in(Argument::from(source), builder),
                false,
                builder,
            );
            let declarator = VariableDeclarator::new(
                SPAN,
                VariableDeclarationKind::Const,
                BindingPattern::new_object_pattern(SPAN, properties, NONE, builder),
                NONE,
                Some(require),
                false,
                builder,
            );
            Statement::new_variable_declaration(
                SPAN,
                VariableDeclarationKind::Const,
                ArenaVec::from_value_in(declarator, builder),
                false,
                builder,
            )
        }
        model::Statement::Return(_)
        | model::Statement::Block(_)
        | model::Statement::If { .. }
        | model::Statement::Loop(_)
        | model::Statement::Labeled(_)
        | model::Statement::Switch(_)
        | model::Statement::Try { .. } => {
            unreachable!("the passes build no statement of this kind")
        }
    }
}

/// Whether the model statement stands for a statement that the passes built,
/// and not for one of the tree.
fn is_built(statement: &model::Statement) -> bool {
    match statement {
        model::Statement::Expression(model::Expression::Call { callee, .. }) => {
            !matches!(**callee, model::Expression::Super)
        }
        model::Statement::Expression(_)
        | model::Statement::Import { .. }
        | model::Statement::Require { .. } => true,
        _ => false,
    }
}

/// The model of a statement list.  The arguments of its returns move to the
/// stash; everything else stays where it is.
fn model_statements<'a>(
    statements: &mut ArenaVec<'a, Statement<'a>>,
    stash: &mut Stash<'a>,
) -> Vec<model::Statement> {
    statements.iter_mut().map(|statement| model_statement(statement, stash)).collect()
}

fn model_block<'a>(
    block: &mut ArenaBox<'a, oxc_ast::ast::BlockStatement<'a>>,
    stash: &mut Stash<'a>,
) -> Vec<model::Statement> {
    model_statements(&mut block.body, stash)
}

fn model_statement<'a>(statement: &mut Statement<'a>, stash: &mut Stash<'a>) -> model::Statement {
    match statement {
        Statement::ReturnStatement(node) => model::Statement::Return(match node.argument.take() {
            Some(Expression::AwaitExpression(awaited)) => {
                let handle = stash.put_expression(awaited.unbox().argument);
                Some(model::Expression::Await(Box::new(model::Expression::Opaque(handle))))
            }
            Some(other) => Some(model::Expression::Opaque(stash.put_expression(other))),
            None => None,
        }),
        Statement::ExpressionStatement(node) => match &node.expression {
            Expression::CallExpression(call) if matches!(call.callee, Expression::Super(_)) => {
                model::Statement::Expression(model::Expression::Call {
                    callee: Box::new(model::Expression::Super),
                    arguments: Vec::new(),
                    optional: false,
                })
            }
            _ => model::Statement::Opaque(0),
        },
        Statement::BlockStatement(node) => {
            model::Statement::Block(model_statements(&mut node.body, stash))
        }
        Statement::IfStatement(node) => model::Statement::If {
            consequent: Box::new(model_statement(&mut node.consequent, stash)),
            alternate: node
                .alternate
                .as_mut()
                .map(|alternate| Box::new(model_statement(alternate, stash))),
        },
        Statement::DoWhileStatement(node) => {
            model::Statement::Loop(Box::new(model_statement(&mut node.body, stash)))
        }
        Statement::WhileStatement(node) => {
            model::Statement::Loop(Box::new(model_statement(&mut node.body, stash)))
        }
        Statement::ForStatement(node) => {
            model::Statement::Loop(Box::new(model_statement(&mut node.body, stash)))
        }
        Statement::ForInStatement(node) => {
            model::Statement::Loop(Box::new(model_statement(&mut node.body, stash)))
        }
        Statement::ForOfStatement(node) => {
            model::Statement::Loop(Box::new(model_statement(&mut node.body, stash)))
        }
        Statement::LabeledStatement(node) => {
            model::Statement::Labeled(Box::new(model_statement(&mut node.body, stash)))
        }
        Statement::SwitchStatement(node) => model::Statement::Switch(
            node.cases
                .iter_mut()
                .map(|case| model_statements(&mut case.consequent, stash))
                .collect(),
        ),
        Statement::TryStatement(node) => model::Statement::Try {
            block: model_block(&mut node.block, stash),
            handler: node.handler.as_mut().map(|handler| model_block(&mut handler.body, stash)),
            finalizer: node.finalizer.as_mut().map(|finalizer| model_block(finalizer, stash)),
        },
        _ => model::Statement::Opaque(0),
    }
}

/// Makes a statement list what its model has become: inserts what the passes
/// built, and gives each return the argument that its model holds.
fn restore_statements<'a>(
    statements: &mut ArenaVec<'a, Statement<'a>>,
    list: Vec<model::Statement>,
    stash: &mut Stash<'a>,
    builder: &AstBuilder<'a>,
) {
    for (at, statement) in list.into_iter().enumerate() {
        if is_built(&statement) {
            let built = build_statement(statement, stash, builder);
            statements.insert(at, built);
        } else {
            restore_statement(&mut statements[at], statement, stash, builder);
        }
    }
}

fn restore_block<'a>(
    block: &mut ArenaBox<'a, oxc_ast::ast::BlockStatement<'a>>,
    list: Vec<model::Statement>,
    stash: &mut Stash<'a>,
    builder: &AstBuilder<'a>,
) {
    restore_statements(&mut block.body, list, stash, builder);
}

fn restore_statement<'a>(
    statement: &mut Statement<'a>,
    now: model::Statement,
    stash: &mut Stash<'a>,
    builder: &AstBuilder<'a>,
) {
    match (statement, now) {
        (Statement::ReturnStatement(node), model::Statement::Return(argument)) => {
            node.argument = argument.map(|value| build_expression(value, stash, builder));
        }
        (Statement::BlockStatement(node), model::Statement::Block(list)) => {
            restore_statements(&mut node.body, list, stash, builder);
        }
        (Statement::IfStatement(node), model::Statement::If { consequent, alternate }) => {
            restore_statement(&mut node.consequent, *consequent, stash, builder);
            if let (Some(statement), Some(now)) = (node.alternate.as_mut(), alternate) {
                restore_statement(statement, *now, stash, builder);
            }
        }
        (Statement::DoWhileStatement(node), model::Statement::Loop(body)) => {
            restore_statement(&mut node.body, *body, stash, builder);
        }
        (Statement::WhileStatement(node), model::Statement::Loop(body)) => {
            restore_statement(&mut node.body, *body, stash, builder);
        }
        (Statement::ForStatement(node), model::Statement::Loop(body)) => {
            restore_statement(&mut node.body, *body, stash, builder);
        }
        (Statement::ForInStatement(node), model::Statement::Loop(body)) => {
            restore_statement(&mut node.body, *body, stash, builder);
        }
        (Statement::ForOfStatement(node), model::Statement::Loop(body)) => {
            restore_statement(&mut node.body, *body, stash, builder);
        }
        (Statement::LabeledStatement(node), model::Statement::Labeled(body)) => {
            restore_statement(&mut node.body, *body, stash, builder);
        }
        (Statement::SwitchStatement(node), model::Statement::Switch(cases)) => {
            for (case, list) in node.cases.iter_mut().zip(cases) {
                restore_statements(&mut case.consequent, list, stash, builder);
            }
        }
        (Statement::TryStatement(node), model::Statement::Try { block, handler, finalizer }) => {
            restore_block(&mut node.block, block, stash, builder);
            if let (Some(clause), Some(list)) = (node.handler.as_mut(), handler) {
                restore_block(&mut clause.body, list, stash, builder);
            }
            if let (Some(last), Some(list)) = (node.finalizer.as_mut(), finalizer) {
                restore_block(last, list, stash, builder);
            }
        }
        _ => {}
    }
}

/// The model of the parameters of a function.
fn model_parameters(params: &FormalParameters<'_>) -> Vec<model::Parameter> {
    let mut list: Vec<model::Parameter> = params
        .items
        .iter()
        .map(|parameter| match &parameter.pattern {
            BindingPattern::BindingIdentifier(name) if parameter.initializer.is_none() => {
                model::Parameter::Identifier(name.name.as_str().to_string())
            }
            _ => model::Parameter::Pattern,
        })
        .collect();
    if params.rest.is_some() {
        list.push(model::Parameter::Pattern);
    }
    list
}

/// The model of what a path can be made of: plain names, `this`, and static
/// and computed accesses on them.
fn model_path(expression: &Expression<'_>) -> model::Expression {
    match expression {
        Expression::Identifier(name) => model::Expression::Identifier(name.name.as_str().to_string()),
        Expression::ThisExpression(_) => model::Expression::This,
        Expression::StaticMemberExpression(member) => model::Expression::StaticMember {
            object: Box::new(model_path(&member.object)),
            property: member.property.name.as_str().to_string(),
        },
        Expression::ComputedMemberExpression(member) => model::Expression::ComputedMember {
            object: Box::new(model_path(&member.object)),
            property: Box::new(model_path(&member.expression)),
        },
        _ => model::Expression::Opaque(0),
    }
}

/// The model of the target of an assignment, as far as it can be a path.
fn model_target(target: &AssignmentTarget<'_>) -> model::Expression {
    match target {
        AssignmentTarget::AssignmentTargetIdentifier(name) => {
            model::Expression::Identifier(name.name.as_str().to_string())
        }
        AssignmentTarget::StaticMemberExpression(member) => model::Expression::StaticMember {
            object: Box::new(model_path(&member.object)),
            property: member.property.name.as_str().to_string(),
        },
        AssignmentTarget::ComputedMemberExpression(member) => model::Expression::ComputedMember {
            object: Box::new(model_path(&member.object)),
            property: Box::new(model_path(&member.expression)),
        },
        _ => model::Expression::Opaque(0),
    }
}

/// Walks a tree for the instrumentation pass.
struct InstrumentVisitor<'a, 'r> {
    pass: Transformer<'r>,
    builder: AstBuilder<'a>,
}

impl<'a, 'r> InstrumentVisitor<'a, 'r> {
    fn new(pass: Transformer<'r>, allocator: &'a Allocator) -> Self {
        InstrumentVisitor { pass, builder: AstBuilder::new(allocator) }
    }

    /// The hooks that the visited nodes were made to call.
    fn usage(&self) -> HookUsage {
        self.pass.usage
    }

    fn model_body(
        body: Option<&mut oxc_allocator::Box<'a, FunctionBody<'a>>>,
        stash: &mut Stash<'a>,
    ) -> Option<Vec<model::Statement>> {
        body.map(|body| model_statements(&mut body.statements, stash))
    }

    fn model_function(node: &mut Function<'a>, stash: &mut Stash<'a>) -> Option<model::Function> {
        let kind = if node.is_function_declaration() {
            model::FunctionKind::Declaration
        } else if node.is_expression() {
            model::FunctionKind::Expression
        } else {
            return None;
        };
        Some(model::Function {
            kind,
            id: node.id.as_ref().map(|id| id.name.as_str().to_string()),
            params: model_parameters(&node.params),
            expression: false,
            body: Self::model_body(node.body.as_mut(), stash),
        })
    }

    fn model_arrow(node: &mut ArrowFunctionExpression<'a>, stash: &mut Stash<'a>) -> model::Function {
        model::Function {
            kind: model::FunctionKind::Arrow,
            id: None,
            params: model_parameters(&node.params),
            expression: node.expression,
            body: Self::model_body(Some(&mut node.body), stash),
        }
    }

    fn restore_function(&self, node: &mut Function<'a>, now: model::Function, stash: &mut Stash<'a>) {
        if let (Some(body), Some(list)) = (node.body.as_mut(), now.body) {
            restore_statements(&mut body.statements, list, stash, &self.builder);
        }
    }

    fn restore_arrow(
        &self,
        node: &mut ArrowFunctionExpression<'a>,
        now: model::Function,
        stash: &mut Stash<'a>,
    ) {
        if let Some(list) = now.body {
            restore_statements(&mut node.body.statements, list, stash, &self.builder);
        }
    }

    /// The model of an expression that may be a function.
    fn model_value(value: &mut Expression<'a>, stash: &mut Stash<'a>) -> model::Expression {
        match value {
            Expression::FunctionExpression(function) => match Self::model_function(function, stash) {
                Some(function) => model::Expression::Function(Box::new(function)),
                None => model::Expression::Opaque(0),
            },
            Expression::ArrowFunctionExpression(arrow) => {
                model::Expression::Function(Box::new(Self::model_arrow(arrow, stash)))
            }
            _ => model::Expression::Opaque(0),
        }
    }

    fn restore_value(&self, value: &mut Expression<'a>, now: model::Expression, stash: &mut Stash<'a>) {
        match (value, now) {
            (Expression::FunctionExpression(function), model::Expression::Function(now)) => {
                self.restore_function(function, *now, stash);
            }
            (Expression::ArrowFunctionExpression(arrow), model::Expression::Function(now)) => {
                self.restore_arrow(arrow, *now, stash);
            }
            _ => {}
        }
    }
}

impl<'a, 'r> Traverse<'a, ()> for InstrumentVisitor<'a, 'r> {
    fn enter_method_definition(
        &mut self,
        node: &mut MethodDefinition<'a>,
        _ctx: &mut TraverseCtx<'a, ()>,
    ) {
        let mut stash = Stash::new();
        let Some(value) = Self::model_function(&mut node.value, &mut stash) else {
            return;
        };
        let mut now = model::MethodDefinition {
            kind: match node.kind {
                MethodDefinitionKind::Constructor => model::MethodDefinitionKind::Constructor,
                MethodDefinitionKind::Method => model::MethodDefinitionKind::Method,
                MethodDefinitionKind::Get => model::MethodDefinitionKind::Getter,
                MethodDefinitionKind::Set => model::MethodDefinitionKind::Setter,
            },
            key: match &node.key {
                PropertyKey::StaticIdentifier(name) if !node.computed => {
                    model::PropertyKey::StaticIdentifier(name.name.as_str().to_string())
                }
                _ => model::PropertyKey::Other,
            },
            value,
        };
        self.pass.enter_method_definition(&mut now);
        self.restore_function(&mut node.value, now.value, &mut stash);
    }

    fn enter_function(&mut self, node: &mut Function<'a>, _ctx: &mut TraverseCtx<'a, ()>) {
        let mut stash = Stash::new();
        let Some(mut now) = Self::model_function(node, &mut stash) else {
            return;
        };
        self.pass.enter_function(&mut now);
        self.restore_function(node, now, &mut stash);
    }

    fn enter_assignment_expression(
        &mut self,
        node: &mut AssignmentExpression<'a>,
        _ctx: &mut TraverseCtx<'a, ()>,
    ) {
        let mut stash = Stash::new();
        let mut now = model::AssignmentExpression {
            operator: assignment_operator(node.operator),
            left: model_target(&node.left),
            right: Self::model_value(&mut node.right, &mut stash),
        };
        self.pass.enter_assignment_expression(&mut now);
        self.restore_value(&mut node.right, now.right, &mut stash);
    }

    fn enter_variable_declarator(
        &mut self,
        node: &mut VariableDeclarator<'a>,
        _ctx: &mut TraverseCtx<'a, ()>,
    ) {
        let mut stash = Stash::new();
        let mut now = model::VariableDeclarator {
            id: match &node.id {
                BindingPattern::BindingIdentifier(name) => {
                    model::BindingPattern::Identifier(name.name.as_str().to_string())
                }
                _ => model::BindingPattern::Other,
            },
            init: node.init.as_mut().map(|init| Self::model_value(init, &mut stash)),
        };
        self.pass.enter_variable_declarator(&mut now);
        if let (Some(init), Some(now)) = (node.init.as_mut(), now.init) {
            self.restore_value(init, now, &mut stash);
        }
    }
}

/// Walks a tree for the taint pass.
struct UserCodeVisitor<'a> {
    pass: UserCodeTransformer,
    builder: AstBuilder<'a>,
}

impl<'a> UserCodeVisitor<'a> {
    fn new(pass: UserCodeTransformer, allocator: &'a Allocator) -> Self {
        UserCodeVisitor { pass, builder: AstBuilder::new(allocator) }
    }

    /// The hooks that the rewritten nodes call.
    fn usage(&self) -> HookUsage {
        self.pass.usage()
    }

    /// The model of a node: its own shape, with a handle for each part of it.
    /// The handles count the parts in the order in which `take_parts` stashes
    /// them.
    fn model_node(node: &Expression<'a>) -> model::Expression {
        match node {
            Expression::CallExpression(call) => match &call.callee {
                Expression::StaticMemberExpression(member) => model::Expression::Call {
                    callee: Box::new(model::Expression::StaticMember {
                        object: Box::new(model::Expression::Opaque(0)),
                        property: member.property.name.as_str().to_string(),
                    }),
                    arguments: (0..call.arguments.len())
                        .map(|at| model::Expression::Opaque(at as u64 + 1))
                        .collect(),
                    optional: call.optional,
                },
                _ => model::Expression::Opaque(0),
            },
            Expression::BinaryExpression(binary) => model::Expression::Binary {
                operator: binary_operator(binary.operator),
                left: Box::new(model::Expression::Opaque(0)),
                right: Box::new(model::Expression::Opaque(1)),
            },
            Expression::AssignmentExpression(assignment) => {
                model::Expression::Assignment(Box::new(model::AssignmentExpression {
                    operator: assignment_operator(assignment.operator),
                    left: match &assignment.left {
                        AssignmentTarget::AssignmentTargetIdentifier(name) => {
                            model::Expression::Identifier(name.name.as_str().to_string())
                        }
                        _ => model::Expression::Opaque(1),
                    },
                    right: model::Expression::Opaque(0),
                }))
            }
            _ => model::Expression::Opaque(0),
        }
    }

    /// Takes a node apart and stashes its parts.
    fn take_parts(&self, node: &mut Expression<'a>, stash: &mut Stash<'a>) {
        match node.take_in(&self.builder) {
            Expression::CallExpression(call) => {
                let call = call.unbox();
                if let Expression::StaticMemberExpression(member) = call.callee {
                    stash.put_expression(member.unbox().object);
                }
                for argument in call.arguments {
                    stash.put_argument(argument);
                }
            }
            Expression::BinaryExpression(binary) => {
                let binary = binary.unbox();
                stash.put_expression(binary.left);
                stash.put_expression(binary.right);
            }
            Expression::AssignmentExpression(assignment) => {
                stash.put_expression(assignment.unbox().right);
            }
            _ => {}
        }
    }
}

impl<'a> Traverse<'a, ()> for UserCodeVisitor<'a> {
    fn exit_expression(&mut self, node: &mut Expression<'a>, _ctx: &mut TraverseCtx<'a, ()>) {
        let mut now = Self::model_node(node);
        if self.pass.exit_expression(&mut now).is_none() {
            return;
        }
        let mut stash = Stash::new();
        self.take_parts(node, &mut stash);
        *node = build_expression(now, &mut stash, &self.builder);
    }
}

/// Marks `code` as loaded.
fn transform_code_str_insert_sca(
    pkg_name: &str,
    pkg_version: &str,
    code: &str,
    src_type: &str,
) -> Result<String, String> {
    let (run, first) = pipeline::transform_code_str_insert_sca(pkg_name, pkg_version, code, src_type);
    drive(run, first, code)
}

/// Wraps the string operations of `code`.
fn transform_user_code_str(code: &str, src_type: &str) -> Result<String, String> {
    let (run, first) = pipeline::transform_user_code_str(code, src_type);
    drive(run, first, code)
}

fn source_type(dialect: Dialect) -> SourceType {
    let base = match dialect.module_kind {
        ModuleKind::Script => SourceType::cjs(),
        ModuleKind::Module => SourceType::mjs(),
        ModuleKind::Unambiguous => SourceType::unambiguous(),
    };
    base.with_typescript(dialect.language == Language::TypeScript).with_jsx(dialect.jsx)
}

fn drive(mut run: Run<'_>, first: Action, code: &str) -> Result<String, String> {
    let allocator = Allocator::default();
    let mut program: Option<Program<'_>> = None;
    let mut scoping: Option<Scoping> = None;
    let mut action = first;
    loop {
        let event = match action {
            Action::Parse(dialect) => {
                let parsed = Parser::new(&allocator, code, source_type(dialect)).parse();
                let report = ParseReport {
                    panicked: parsed.panicked,
                    errors: parsed.diagnostics.iter().map(|error| format!("{error:?}")).collect(),
                    has_module_syntax: parsed.module_record.has_module_syntax,
                };
                program = Some(parsed.program);
                Event::Parsed(report)
            }
            Action::Analyze => {
                let tree = program.as_ref().expect("the text is parsed before it is analyzed");
                let analyzed = SemanticBuilder::new().build(tree);
                let errors = analyzed.diagnostics.iter().map(|error| format!("{error:?}")).collect();
                scoping = Some(analyzed.semantic.into_scoping());
                Event::Analyzed(errors)
            }
            Action::Traverse => {
                let tree = program.as_mut().expect("the text is parsed before it is walked");
                let usage = match (run.transformer(), run.pass) {
                    (Some(pass), _) => {
                        let mut visitor = InstrumentVisitor::new(pass, &allocator);
                        traverse_mut(
                            &mut visitor,
                            &allocator,
                            tree,
                            scoping.take().unwrap_or_default(),
                            (),
                        );
                        visitor.usage()
                    }
                    (None, Pass::UserCode) => {
                        let mut visitor = UserCodeVisitor::new(UserCodeTransformer::new(), &allocator);
                        traverse_mut(
                            &mut visitor,
                            &allocator,
                            tree,
                            scoping.take().unwrap_or_default(),
                            (),
                        );
                        visitor.usage()
                    }
                    (None, _) => HookUsage::new(),
                };
                let body = (0..tree.body.len()).map(|at| ModelStatement::Opaque(at as u64)).collect();
                Event::Traversed { usage, body }
            }
            Action::Print(body) => {
                let tree = program.as_mut().expect("the text is parsed before it is printed");
                let builder = AstBuilder::new(&allocator);
                let mut stash = Stash::new();
                let old = std::mem::replace(&mut tree.body, oxc_allocator::Vec::new_in(&builder));
                for statement in old {
                    stash.put_statement(statement);
                }
                for statement in body {
                    let built = build_statement(statement, &mut stash, &builder);
                    tree.body.push(built);
                }
                let printed = Codegen::new()
                    .with_options(CodegenOptions {
                        comments: CommentOptions {
                            normal: true,
                            jsdoc: true,
                            annotation: true,
                            legal: LegalComment::Inline,
                        },
                        minify: false,
                        ..CodegenOptions::default()
                    })
                    .build(tree);
                Event::Printed(printed.code)
            }
            Action::Finish(result) => {
                return result.map_err(|error| error.message());
            }
        };
        action = run.step(event);
    }
}

/// Instruments `code` as `file_instructions` asks.
fn transform_code_str(
    pkg_name: &str,
    pkg_version: &str,
    code: &str,
    file_instructions: &FileInstructions,
    src_type: &str,
    bundling: bool,
) -> Result<String, String> {
    let (run, first) = pipeline::transform_code_str(
        pkg_name,
        pkg_version,
        code,
        file_instructions,
        src_type,
        bundling,
    );
    drive(run, first, code)
}

fn instruction(node_type: &str, name: &str, identifier: &str, flags: [bool; 4]) -> FunctionInstructions {
    FunctionInstructions {
        node_type: node_type.to_string(),
        name: name.to_string(),
        identifier: identifier.to_string(),
        inspect_args: flags[0],
        modify_args: flags[1],
        modify_return_value: flags[2],
        modify_arguments_object: flags[3],
    }
}

fn file(functions: Vec<FunctionInstructions>) -> FileInstructions {
    FileInstructions {
        path: "lib/index.js".to_string(),
        identifier: "pkg.lib/index.js.v1".to_string(),
        version_range: "^1.0.0".to_string(),
        functions,
        access_local_variables: Vec::new(),
    }
}

const INTERNALS: &str = "@aikidosec/firewall/instrument/internals";

#[test]
fn only_the_inspect_hook_is_imported_when_only_it_is_inserted() {
    let instructions =
        file(vec![instruction("MethodDefinition", "query", "pkg.query", [true, false, false, false])]);
    let code = "class Db { query(sql) { this.run(sql); } }";
    let out = transform_code_str("pkg", "1.2.3", code, &instructions, "cjs", false).unwrap();
    assert_eq!(
        out,
        format!(
            "const {{ __instrumentInspectArgs }} = require(\"{INTERNALS}\");\nclass Db {{\n\tquery(sql) {{\n\t\t__instrumentInspectArgs(\"pkg.query\", arguments, \"1.2.3\", this);\n\t\tthis.run(sql);\n\t}}\n}}\n"
        )
    );
}

#[test]
fn matched_instruction_that_inserts_nothing_imports_nothing() {
    let instructions =
        file(vec![instruction("FunctionDeclaration", "f", "pkg.f", [false, true, true, false])]);
    let code = "function f() { g(); }";
    let out = transform_code_str("pkg", "1.0.0", code, &instructions, "cjs", false).unwrap();
    assert_eq!(out, "function f() {\n\tg();\n}\n");
}

#[test]
fn constructor_statements_land_behind_the_call_of_super() {
    let instructions = file(vec![instruction(
        "MethodDefinition",
        "constructor",
        "pkg.ctor",
        [true, true, true, false],
    )]);
    let code = "class A extends B { constructor(a, b) { super(a); this.b = b; return; } }";
    let out = transform_code_str("pkg", "2.0.0", code, &instructions, "mjs", false).unwrap();
    assert_eq!(
        out,
        format!(
            "import {{ __instrumentInspectArgs, __instrumentModifyArgs }} from \"{INTERNALS}\";\nclass A extends B {{\n\tconstructor(a, b) {{\n\t\tsuper(a);\n\t\t__instrumentInspectArgs(\"pkg.ctor\", arguments, \"2.0.0\", this);\n\t\t[a, b] = __instrumentModifyArgs(\"pkg.ctor\", [a, b], this);\n\t\tthis.b = b;\n\t\treturn;\n\t}}\n}}\n"
        )
    );
}

#[test]
fn constructor_without_super_gets_its_statements_first() {
    let instructions = file(vec![instruction(
        "MethodDefinition",
        "constructor",
        "pkg.ctor",
        [true, true, false, false],
    )]);
    let code = "class A { constructor(a) { this.a = a; } }";
    let out = transform_code_str("pkg", "2.0.0", code, &instructions, "mjs", false).unwrap();
    assert_eq!(
        out,
        format!(
            "import {{ __instrumentInspectArgs, __instrumentModifyArgs }} from \"{INTERNALS}\";\nclass A {{\n\tconstructor(a) {{\n\t\t__instrumentInspectArgs(\"pkg.ctor\", arguments, \"2.0.0\", this);\n\t\t[a] = __instrumentModifyArgs(\"pkg.ctor\", [a], this);\n\t\tthis.a = a;\n\t}}\n}}\n"
        )
    );
}

#[test]
fn every_return_of_a_function_is_wrapped() {
    let instructions =
        file(vec![instruction("FunctionDeclaration", "f", "pkg.f", [false, false, true, false])]);
    let code = "async function f(a) { if (a) { return 1; } for (;;) { return a; } try { return await a; } finally { return; } }";
    let out = transform_code_str("pkg", "1.0.0", code, &instructions, "cjs", false).unwrap();
    assert_eq!(
        out,
        format!(
            "const {{ __instrumentModifyReturnValue }} = require(\"{INTERNALS}\");\nasync function f(a) {{\n\tif (a) {{\n\t\treturn __instrumentModifyReturnValue(\"pkg.f\", arguments, 1, this);\n\t}}\n\tfor (;;) {{\n\t\treturn __instrumentModifyReturnValue(\"pkg.f\", arguments, a, this);\n\t}}\n\ttry {{\n\t\treturn await __instrumentModifyReturnValue(\"pkg.f\", arguments, a, this);\n\t}} finally {{\n\t\treturn __instrumentModifyReturnValue(\"pkg.f\", arguments, undefined, this);\n\t}}\n}}\n"
        )
    );
}

#[test]
fn returns_of_inner_functions_are_not_those_of_the_outer() {
    let instructions = file(vec![
        instruction("FunctionDeclaration", "outer", "pkg.outer", [false, false, true, false]),
        instruction("FunctionDeclaration", "inner", "pkg.inner", [true, false, false, false]),
    ]);
    let code = "function outer() { function inner() { return 1; } return inner(); }";
    let out = transform_code_str("pkg", "1.0.0", code, &instructions, "cjs", false).unwrap();
    assert_eq!(
        out,
        format!(
            "const {{ __instrumentInspectArgs, __instrumentModifyReturnValue }} = require(\"{INTERNALS}\");\nfunction outer() {{\n\tfunction inner() {{\n\t\t__instrumentInspectArgs(\"pkg.inner\", arguments, \"1.0.0\", this);\n\t\treturn 1;\n\t}}\n\treturn __instrumentModifyReturnValue(\"pkg.outer\", arguments, inner(), this);\n}}\n"
        )
    );
}

#[test]
fn assignment_targets_are_matched_by_their_paths() {
    let instructions = file(vec![
        instruction("FunctionAssignment", "app.get", "a", [true, false, false, false]),
        instruction("FunctionAssignment", "app[method]", "b", [true, false, false, false]),
        instruction("FunctionAssignment", "app.prototype.get", "c", [true, false, false, false]),
        instruction("FunctionAssignment", "some().thing", "d", [true, false, false, false]),
        instruction("FunctionAssignment", ".thing", "e", [true, false, false, false]),
        instruction("FunctionAssignment", "thing", "f", [true, false, false, false]),
    ]);
    let code = "app.get = function () {};\napp[method] = function () {};\napp.prototype.get = function () {};\n(some().thing) = function () {};\n";
    let out = transform_code_str("pkg", "1.0.0", code, &instructions, "cjs", false).unwrap();
    assert_eq!(
        out,
        format!(
            "const {{ __instrumentInspectArgs }} = require(\"{INTERNALS}\");\napp.get = function() {{\n\t__instrumentInspectArgs(\"a\", arguments, \"1.0.0\", this);\n}};\napp[method] = function() {{\n\t__instrumentInspectArgs(\"b\", arguments, \"1.0.0\", this);\n}};\napp.prototype.get = function() {{\n\t__instrumentInspectArgs(\"c\", arguments, \"1.0.0\", this);\n}};\nsome().thing = function() {{}};\n"
        )
    );
}

#[test]
fn ambiguous_file_without_module_syntax_requires() {
    let instructions =
        file(vec![instruction("FunctionDeclaration", "f", "pkg.f", [true, false, false, false])]);
    let out =
        transform_code_str("pkg", "1.0.0", "function f() {}", &instructions, "unambiguous", false)
            .unwrap();
    assert_eq!(
        out,
        format!(
            "const {{ __instrumentInspectArgs }} = require(\"{INTERNALS}\");\nfunction f() {{\n\t__instrumentInspectArgs(\"pkg.f\", arguments, \"1.0.0\", this);\n}}\n"
        )
    );
}

#[test]
fn ambiguous_file_with_a_static_import_imports() {
    let instructions =
        file(vec![instruction("FunctionDeclaration", "f", "pkg.f", [true, false, false, false])]);
    let code = "import x from \"x\";\nfunction f() {}";
    let out = transform_code_str("pkg", "1.0.0", code, &instructions, "unambiguous", false).unwrap();
    assert_eq!(
        out,
        format!(
            "import {{ __instrumentInspectArgs }} from \"{INTERNALS}\";\nimport x from \"x\";\nfunction f() {{\n\t__instrumentInspectArgs(\"pkg.f\", arguments, \"1.0.0\", this);\n}}\n"
        )
    );
}

#[test]
fn output_of_a_run_is_refused_by_the_next() {
    let instructions =
        file(vec![instruction("FunctionDeclaration", "f", "pkg.f", [true, true, true, false])]);
    let out = transform_code_str("pkg", "1.0.0", "function f(a) { return a; }", &instructions, "cjs", false)
        .unwrap();
    assert!(out.contains("__instrumentInspectArgs"));
    let again = transform_code_str("pkg", "1.0.0", &out, &instructions, "cjs", false);
    assert_eq!(again, Err("Code already contains instrument functions".to_string()));
}

#[test]
fn local_variables_are_handed_over_at_the_end_of_the_file() {
    let mut instructions = file(Vec::new());
    instructions.access_local_variables = vec!["app".to_string(), "router".to_string()];
    let code = "const app = 1;\nconst router = 2;";
    let out = transform_code_str("pkg", "1.0.0", code, &instructions, "cjs", false).unwrap();
    assert_eq!(
        out,
        format!(
            "const {{ __instrumentAccessLocalVariables }} = require(\"{INTERNALS}\");\nconst app = 1;\nconst router = 2;\n__instrumentAccessLocalVariables(\"pkg.lib/index.js.v1\", [app, router]);\n"
        )
    );
}

#[test]
fn type_annotated_source_is_instrumented_too() {
    let instructions =
        file(vec![instruction("FunctionDeclaration", "f", "pkg.f", [true, true, false, false])]);
    let code = "function f(a: string, b: number): string { return a; }";
    let out = transform_code_str("pkg", "1.0.0", code, &instructions, "ts", false).unwrap();
    assert_eq!(
        out,
        format!(
            "const {{ __instrumentInspectArgs, __instrumentModifyArgs }} = require(\"{INTERNALS}\");\nfunction f(a: string, b: number): string {{\n\t__instrumentInspectArgs(\"pkg.f\", arguments, \"1.0.0\", this);\n\t[a, b] = __instrumentModifyArgs(\"pkg.f\", [a, b], this);\n\treturn a;\n}}\n"
        )
    );
}

#[test]
fn text_that_does_not_parse_fails_with_the_errors_of_the_parser() {
    let instructions = file(Vec::new());
    let out = transform_code_str("pkg", "1.0.0", "function (", &instructions, "cjs", false);
    let message = out.unwrap_err();
    assert!(message.starts_with("Error while parsing code: ["), "{}", message);
    assert!(message.ends_with("]"), "{}", message);
    assert!(message.len() > "Error while parsing code: []".len(), "{}", message);
}

#[test]
fn text_whose_scopes_do_not_resolve_fails_with_the_errors_of_the_resolver() {
    let instructions = file(Vec::new());
    let out = transform_code_str("pkg", "1.0.0", "let a; let a;", &instructions, "mjs", false);
    let message = out.unwrap_err();
    assert!(message.starts_with("Error during semantic analysis: ["), "{}", message);
}

#[test]
fn taint_pass_gives_text_without_sites_back_byte_for_byte() {
    let code = "const  a = f( 1 ) ;\n\n\n// comment\nlet b   =   a - 2\n";
    assert_eq!(transform_user_code_str(code, "unambiguous"), Ok(code.to_string()));
}

#[test]
fn taint_pass_rewrites_inner_sites_before_outer_ones() {
    let code = "let a = b.trim().toLowerCase() + c; a += d.concat(e, f); x.y += 1;";
    let out = transform_user_code_str(code, "mjs").unwrap();
    assert_eq!(
        out,
        format!(
            "import {{ __zen_wrapMethodCallResult, __zen_wrapConcat }} from \"{INTERNALS}\";\nlet a = __zen_wrapConcat(__zen_wrapMethodCallResult(__zen_wrapMethodCallResult(b, (__a) => __a.trim()), (__a) => __a.toLowerCase()), c);\na = __zen_wrapConcat(a, __zen_wrapConcat(d, e, f));\nx.y += 1;\n"
        )
    );
}

#[test]
fn taint_pass_imports_only_the_hook_it_used() {
    let out = transform_user_code_str("const s = a + b;", "cjs").unwrap();
    assert_eq!(
        out,
        format!(
            "const {{ __zen_wrapConcat }} = require(\"{INTERNALS}\");\nconst s = __zen_wrapConcat(a, b);\n"
        )
    );
    let out = transform_user_code_str("const s = a.split(\",\");", "cjs").unwrap();
    assert_eq!(
        out,
        format!(
            "const {{ __zen_wrapMethodCallResult }} = require(\"{INTERNALS}\");\nconst s = __zen_wrapMethodCallResult(a, (__a) => __a.split(\",\"));\n"
        )
    );
}

#[test]
fn output_of_the_taint_pass_is_refused_by_the_next() {
    let out = transform_user_code_str("const s = a + b;", "cjs").unwrap();
    assert_eq!(
        transform_user_code_str(&out, "cjs"),
        Err("Code already contains taint tracking hook".to_string())
    );
}

#[test]
fn loaded_package_is_marked_at_the_end() {
    let out =
        transform_code_str_insert_sca("pkg", "1.0.0", "import x from 'x'; x();", "unambiguous")
            .unwrap();
    assert_eq!(
        out,
        format!(
            "import {{ __instrumentPackageLoaded }} from \"{INTERNALS}\";\nimport x from \"x\";\nx();\n__instrumentPackageLoaded(\"pkg\", \"1.0.0\");\n"
        )
    );
    let out = transform_code_str_insert_sca("pkg", "1.0.0", "x();", "unambiguous").unwrap();
    assert_eq!(
        out,
        format!(
            "const {{ __instrumentPackageLoaded }} = require(\"{INTERNALS}\");\nx();\n__instrumentPackageLoaded(\"pkg\", \"1.0.0\");\n"
        )
    );
}

#[test]
fn bundle_marker_is_appended_and_imported() {
    let instructions = file(Vec::new());
    let out = transform_code_str("express", "4.18.2", "x();", &instructions, "cjs", true).unwrap();
    assert_eq!(
        out,
        format!(
            "const {{ __instrumentPackageWrapped }} = require(\"{INTERNALS}\");\nx();\n__instrumentPackageWrapped(\"express\", \"4.18.2\");\n"
        )
    );
}

#[test]
fn getters_setters_and_concise_arrows_are_left_alone() {
    let instructions = file(vec![
        instruction("MethodDefinition", "value", "pkg.value", [true, true, true, false]),
        instruction("FunctionVariableDeclaration", "double", "pkg.double", [true, true, true, false]),
    ]);
    let code = "class A { get value() { return 1; } set value(v) { this.v = v; } }\nconst double = (x) => x * 2;";
    let out = transform_code_str("pkg", "1.0.0", code, &instructions, "cjs", false).unwrap();
    assert_eq!(
        out,
        "class A {\n\tget value() {\n\t\treturn 1;\n\t}\n\tset value(v) {\n\t\tthis.v = v;\n\t}\n}\nconst double = (x) => x * 2;\n"
    );
}

#[test]
fn parameters_that_are_no_plain_names_stop_the_rewrite_of_arguments() {
    let instructions = file(vec![
        instruction("FunctionDeclaration", "f", "pkg.f", [true, true, false, false]),
        instruction("FunctionDeclaration", "g", "pkg.g", [false, true, false, true]),
        instruction("FunctionDeclaration", "h", "pkg.h", [false, true, false, true]),
    ]);
    let code = "function f(a, b = 1) {}\nfunction g(...rest) {}\nfunction h(a, b) {}";
    let out = transform_code_str("pkg", "1.0.0", code, &instructions, "cjs", false).unwrap();
    assert_eq!(
        out,
        format!(
            "const {{ __instrumentInspectArgs, __instrumentModifyArgs }} = require(\"{INTERNALS}\");\nfunction f(a, b = 1) {{\n\t__instrumentInspectArgs(\"pkg.f\", arguments, \"1.0.0\", this);\n}}\nfunction g(...rest) {{}}\nfunction h(a, b) {{\n\tObject.assign(arguments, __instrumentModifyArgs(\"pkg.h\", Array.from(arguments), this));\n}}\n"
        )
    );
}

#[test]
fn exported_and_nested_functions_are_reached() {
    let instructions = file(vec![
        instruction("FunctionDeclaration", "load", "pkg.load", [true, false, false, false]),
        instruction("MethodDefinition", "run", "pkg.run", [true, false, false, false]),
        instruction("FunctionExpression", "named", "pkg.named", [true, false, false, false]),
    ]);
    let code = "export function load() { class Inner { run() {} } return [Inner, function named() {}]; }";
    let out = transform_code_str("pkg", "1.0.0", code, &instructions, "unambiguous", false).unwrap();
    assert_eq!(
        out,
        format!(
            "import {{ __instrumentInspectArgs }} from \"{INTERNALS}\";\nexport function load() {{\n\t__instrumentInspectArgs(\"pkg.load\", arguments, \"1.0.0\", this);\n\tclass Inner {{\n\t\trun() {{\n\t\t\t__instrumentInspectArgs(\"pkg.run\", arguments, \"1.0.0\", this);\n\t\t}}\n\t}}\n\treturn [Inner, function named() {{\n\t\t__instrumentInspectArgs(\"pkg.named\", arguments, \"1.0.0\", this);\n\t}}];\n}}\n"
        )
    );
}

#[test]
fn returns_in_switch_labels_and_loops_are_wrapped() {
    let instructions =
        file(vec![instruction("MethodDefinition", "pick", "pkg.pick", [false, false, true, false])]);
    let code = "class A { pick(k) { switch (k) { case 1: return 1; default: outer: while (k) { do { return k; } while (false); } } } }";
    let out = transform_code_str("pkg", "1.0.0", code, &instructions, "cjs", false).unwrap();
    assert_eq!(
        out,
        format!(
            "const {{ __instrumentModifyReturnValue }} = require(\"{INTERNALS}\");\nclass A {{\n\tpick(k) {{\n\t\tswitch (k) {{\n\t\t\tcase 1: return __instrumentModifyReturnValue(\"pkg.pick\", arguments, 1, this);\n\t\t\tdefault: outer: while (k) {{\n\t\t\t\tdo {{\n\t\t\t\t\treturn __instrumentModifyReturnValue(\"pkg.pick\", arguments, k, this);\n\t\t\t\t}} while (false);\n\t\t\t}}\n\t\t}}\n\t}}\n}}\n"
        )
    );
}

#[test]
fn taint_pass_keeps_spread_arguments_and_leaves_optional_chains_alone() {
    let out = transform_user_code_str("f(a.replace(...args), b.at?.(0));", "cjs").unwrap();
    assert_eq!(
        out,
        format!(
            "const {{ __zen_wrapMethodCallResult }} = require(\"{INTERNALS}\");\nf(__zen_wrapMethodCallResult(a, (__a) => __a.replace(...args)), b.at?.(0));\n"
        )
    );
}

#[test]
fn taint_pass_looks_into_functions_and_classes() {
    let code = "class A { m(s) { return () => s.trim(); } }";
    let out = transform_user_code_str(code, "mjs").unwrap();
    assert_eq!(
        out,
        format!(
            "import {{ __zen_wrapMethodCallResult }} from \"{INTERNALS}\";\nclass A {{\n\tm(s) {{\n\t\treturn () => __zen_wrapMethodCallResult(s, (__a) => __a.trim());\n\t}}\n}}\n"
        )
    );
}

#[test]
fn text_that_names_a_hook_is_refused_whatever_else_it_holds() {
    let instructions = file(Vec::new());
    let code = "// __instrumentModifyReturnValue\nfunction (";
    assert_eq!(
        transform_code_str("pkg", "1.0.0", code, &instructions, "cjs", false),
        Err("Code already contains instrument functions".to_string())
    );
}
