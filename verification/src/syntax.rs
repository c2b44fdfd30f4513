//! The syntax model: the shapes of a source tree that the passes read or build.
//!
//! Everything else in a tree is held as `Opaque`, under a handle chosen by the
//! embedding.  The passes move such handles around and never look behind them.
use vstd::prelude::*;

verus! {

/// The operator of a binary expression, as far as the passes tell operators apart.
#[derive(Debug, Clone, Copy, PartialEq, Eq, Structural)]
pub enum BinaryOperator {
    /// `+`
    Addition,
    /// Any other operator.
    Other,
}

/// The operator of an assignment, as far as the passes tell operators apart.
#[derive(Debug, Clone, Copy, PartialEq, Eq, Structural)]
pub enum AssignmentOperator {
    /// `=`
    Assign,
    /// `+=`
    Addition,
    /// Any other operator.
    Other,
}

/// What kind of function-like construct a `Function` is.
#[derive(Debug, Clone, Copy, PartialEq, Eq, Structural)]
pub enum FunctionKind {
    /// `function f() {}` as a statement.
    Declaration,
    /// `function () {}` as an expression.
    Expression,
    /// `() => {}`
    Arrow,
}

/// What kind of class member a method definition is.
#[derive(Debug, Clone, Copy, PartialEq, Eq, Structural)]
pub enum MethodDefinitionKind {
    Constructor,
    Method,
    Getter,
    Setter,
}

/// One formal parameter.
#[derive(Debug, Clone, PartialEq, Eq)]
pub enum Parameter {
    /// A plain binding name.
    Identifier(String),
    /// A default value, a destructuring pattern or a rest parameter.
    Pattern,
}

/// An expression.
#[allow(inconsistent_fields)]
#[derive(Debug, PartialEq, Eq)]
pub enum Expression {
    /// An expression the passes do not look into.
    Opaque(u64),
    /// `name`
    Identifier(String),
    /// `this`
    This,
    /// `super`
    Super,
    /// `'text'`
    StringLiteral(String),
    /// `[a, b]`, as a value or as the target of a destructuring assignment.
    Array(Vec<Expression>),
    /// `object.property`
    StaticMember { object: Box<Expression>, property: String },
    /// `object[property]`
    ComputedMember { object: Box<Expression>, property: Box<Expression> },
    /// `callee(arguments)`, or `callee?.(arguments)` where `optional` is set.
    Call { callee: Box<Expression>, arguments: Vec<Expression>, optional: bool },
    /// `left operator right`
    Binary { operator: BinaryOperator, left: Box<Expression>, right: Box<Expression> },
    /// `left operator right`, where the operator assigns.
    Assignment(Box<AssignmentExpression>),
    /// `await argument`
    Await(Box<Expression>),
    /// A function expression or an arrow function.
    Function(Box<Function>),
}

/// An assignment.
#[derive(Debug, PartialEq, Eq)]
pub struct AssignmentExpression {
    pub operator: AssignmentOperator,
    pub left: Expression,
    pub right: Expression,
}

/// A function declaration, function expression or arrow function.
#[derive(Debug, PartialEq, Eq)]
pub struct Function {
    pub kind: FunctionKind,
    /// The function's own name, where it has one.
    pub id: Option<String>,
    pub params: Vec<Parameter>,
    /// Set on an arrow function whose body is a single expression; `body`
    /// then holds that expression as its only statement.
    pub expression: bool,
    /// The statements of the body; `None` where the function has none.
    pub body: Option<Vec<Statement>>,
}

/// A statement.
#[derive(Debug, PartialEq, Eq)]
pub enum Statement {
    /// A statement the passes do not look into.
    Opaque(u64),
    /// `expression;`
    Expression(Expression),
    /// `return;` or `return argument;`
    Return(Option<Expression>),
    /// `{ ... }`
    Block(Vec<Statement>),
    /// `if (..) consequent else alternate`
    If { consequent: Box<Statement>, alternate: Option<Box<Statement>> },
    /// The body of a `do`-`while`, `while`, `for`, `for`-`in` or `for`-`of` loop.
    Loop(Box<Statement>),
    /// `label: body`
    Labeled(Box<Statement>),
    /// `switch (..) { .. }`, one statement list for each case.
    Switch(Vec<Vec<Statement>>),
    /// `try { .. } catch { .. } finally { .. }`
    Try { block: Vec<Statement>, handler: Option<Vec<Statement>>, finalizer: Option<Vec<Statement>> },
    /// `import { names } from 'source';`
    Import { names: Vec<String>, source: String },
    /// `const { names } = require('source');`
    Require { names: Vec<String>, source: String },
}

/// The key of a class member.
#[derive(Debug, Clone, PartialEq, Eq)]
pub enum PropertyKey {
    /// A plain name.
    StaticIdentifier(String),
    /// A computed, private or literal key.
    Other,
}

/// A method, constructor, getter or setter of a class.
#[derive(Debug, PartialEq, Eq)]
pub struct MethodDefinition {
    pub kind: MethodDefinitionKind,
    pub key: PropertyKey,
    pub value: Function,
}

/// What a variable declarator binds.
#[derive(Debug, Clone, PartialEq, Eq)]
pub enum BindingPattern {
    /// A plain binding name.
    Identifier(String),
    /// A destructuring pattern.
    Other,
}

/// One `name = init` of a variable declaration.
#[derive(Debug, PartialEq, Eq)]
pub struct VariableDeclarator {
    pub id: BindingPattern,
    pub init: Option<Expression>,
}

/// The mathematical value of a `Parameter`.
pub ghost enum ParameterView {
    Identifier(Seq<char>),
    Pattern,
}

/// The mathematical value of an `Expression`.
#[allow(inconsistent_fields)]
pub ghost enum ExpressionView {
    Opaque(u64),
    Identifier(Seq<char>),
    This,
    Super,
    StringLiteral(Seq<char>),
    Array(Seq<ExpressionView>),
    StaticMember { object: Box<ExpressionView>, property: Seq<char> },
    ComputedMember { object: Box<ExpressionView>, property: Box<ExpressionView> },
    Call { callee: Box<ExpressionView>, arguments: Seq<ExpressionView>, optional: bool },
    Binary { operator: BinaryOperator, left: Box<ExpressionView>, right: Box<ExpressionView> },
    Assignment { operator: AssignmentOperator, left: Box<ExpressionView>, right: Box<ExpressionView> },
    Await(Box<ExpressionView>),
    Function(Box<FunctionView>),
}

/// The mathematical value of a `Function`.
pub ghost struct FunctionView {
    pub kind: FunctionKind,
    pub id: Option<Seq<char>>,
    pub params: Seq<ParameterView>,
    pub expression: bool,
    pub body: Option<Seq<StatementView>>,
}

/// The mathematical value of a `Statement`.
pub ghost enum StatementView {
    Opaque(u64),
    Expression(ExpressionView),
    Return(Option<ExpressionView>),
    Block(Seq<StatementView>),
    If { consequent: Box<StatementView>, alternate: Option<Box<StatementView>> },
    Loop(Box<StatementView>),
    Labeled(Box<StatementView>),
    Switch(Seq<Seq<StatementView>>),
    Try {
        block: Seq<StatementView>,
        handler: Option<Seq<StatementView>>,
        finalizer: Option<Seq<StatementView>>,
    },
    Import { names: Seq<Seq<char>>, source: Seq<char> },
    Require { names: Seq<Seq<char>>, source: Seq<char> },
}

/// The characters of a text that may be absent.
pub open spec fn optional_text(text: Option<String>) -> Option<Seq<char>> {
    match text {
        Some(text) => Some(text@),
        None => None,
    }
}

/// The characters of each text of a list.
pub open spec fn texts(names: Seq<String>) -> Seq<Seq<char>> {
    Seq::new(names.len(), |i: int| names[i]@)
}

/// The value of each parameter of a list.
pub open spec fn parameter_views(params: Seq<Parameter>) -> Seq<ParameterView> {
    Seq::new(params.len(), |i: int| params[i]@)
}

/// The value of each expression of a list.
pub open spec fn expression_views(list: Seq<Expression>) -> Seq<ExpressionView>
    decreases list,
{
    Seq::new(
        list.len(),
        |i: int|
            if 0 <= i < list.len() {
                expression_view(list[i])
            } else {
                ExpressionView::This
            },
    )
}

/// The value of each statement of a list.
pub open spec fn statement_views(list: Seq<Statement>) -> Seq<StatementView>
    decreases list,
{
    Seq::new(
        list.len(),
        |i: int|
            if 0 <= i < list.len() {
                statement_view(list[i])
            } else {
                StatementView::Opaque(0)
            },
    )
}

/// The value of each statement list of a list.
pub open spec fn statement_list_views(lists: Seq<Vec<Statement>>) -> Seq<Seq<StatementView>>
    decreases lists,
{
    Seq::new(
        lists.len(),
        |i: int|
            if 0 <= i < lists.len() {
                statement_views(lists[i]@)
            } else {
                Seq::empty()
            },
    )
}

/// The value of a statement list that may be absent.
pub open spec fn optional_statement_views(list: Option<Vec<Statement>>) -> Option<
    Seq<StatementView>,
> {
    match list {
        Some(statements) => Some(statement_views(statements@)),
        None => None,
    }
}

/// The value of an expression.
pub open spec fn expression_view(expression: Expression) -> ExpressionView
    decreases expression,
{
    match expression {
        Expression::Opaque(handle) => ExpressionView::Opaque(handle),
        Expression::Identifier(name) => ExpressionView::Identifier(name@),
        Expression::This => ExpressionView::This,
        Expression::Super => ExpressionView::Super,
        Expression::StringLiteral(value) => ExpressionView::StringLiteral(value@),
        Expression::Array(elements) => ExpressionView::Array(expression_views(elements@)),
        Expression::StaticMember { object, property } => ExpressionView::StaticMember {
            object: Box::new(expression_view(*object)),
            property: property@,
        },
        Expression::ComputedMember { object, property } => ExpressionView::ComputedMember {
            object: Box::new(expression_view(*object)),
            property: Box::new(expression_view(*property)),
        },
        Expression::Call { callee, arguments, optional } => ExpressionView::Call {
            callee: Box::new(expression_view(*callee)),
            arguments: expression_views(arguments@),
            optional,
        },
        Expression::Binary { operator, left, right } => ExpressionView::Binary {
            operator,
            left: Box::new(expression_view(*left)),
            right: Box::new(expression_view(*right)),
        },
        Expression::Assignment(assignment) => ExpressionView::Assignment {
            operator: assignment.operator,
            left: Box::new(expression_view(assignment.left)),
            right: Box::new(expression_view(assignment.right)),
        },
        Expression::Await(argument) => ExpressionView::Await(Box::new(expression_view(*argument))),
        Expression::Function(function) => ExpressionView::Function(
            Box::new(function_view(*function)),
        ),
    }
}

/// The value of a function.
pub open spec fn function_view(function: Function) -> FunctionView
    decreases function,
{
    FunctionView {
        kind: function.kind,
        id: optional_text(function.id),
        params: parameter_views(function.params@),
        expression: function.expression,
        body: match function.body {
            Some(statements) => Some(statement_views(statements@)),
            None => None,
        },
    }
}

/// The value of a statement.
pub open spec fn statement_view(statement: Statement) -> StatementView
    decreases statement,
{
    match statement {
        Statement::Opaque(handle) => StatementView::Opaque(handle),
        Statement::Expression(expression) => StatementView::Expression(
            expression_view(expression),
        ),
        Statement::Return(argument) => StatementView::Return(
            match argument {
                Some(expression) => Some(expression_view(expression)),
                None => None,
            },
        ),
        Statement::Block(body) => StatementView::Block(statement_views(body@)),
        Statement::If { consequent, alternate } => StatementView::If {
            consequent: Box::new(statement_view(*consequent)),
            alternate: match alternate {
                Some(statement) => Some(Box::new(statement_view(*statement))),
                None => None,
            },
        },
        Statement::Loop(body) => StatementView::Loop(Box::new(statement_view(*body))),
        Statement::Labeled(body) => StatementView::Labeled(Box::new(statement_view(*body))),
        Statement::Switch(cases) => StatementView::Switch(statement_list_views(cases@)),
        Statement::Try { block, handler, finalizer } => StatementView::Try {
            block: statement_views(block@),
            handler: match handler {
                Some(statements) => Some(statement_views(statements@)),
                None => None,
            },
            finalizer: match finalizer {
                Some(statements) => Some(statement_views(statements@)),
                None => None,
            },
        },
        Statement::Import { names, source } => StatementView::Import {
            names: texts(names@),
            source: source@,
        },
        Statement::Require { names, source } => StatementView::Require {
            names: texts(names@),
            source: source@,
        },
    }
}

/// Inserting into a statement list inserts into its value.
pub proof fn lemma_statement_views_insert(list: Seq<Statement>, at: int, statement: Statement)
    requires
        0 <= at <= list.len(),
    ensures
        statement_views(list.insert(at, statement)) == statement_views(list).insert(
            at,
            statement_view(statement),
        ),
{
    assert(statement_views(list.insert(at, statement)) =~= statement_views(list).insert(
        at,
        statement_view(statement),
    ));
}

/// Appending to a statement list appends to its value.
pub proof fn lemma_statement_views_push(list: Seq<Statement>, statement: Statement)
    ensures
        statement_views(list.push(statement)) == statement_views(list).push(
            statement_view(statement),
        ),
{
    assert(statement_views(list.push(statement)) =~= statement_views(list).push(
        statement_view(statement),
    ));
}

impl View for Parameter {
    type V = ParameterView;

    open spec fn view(&self) -> ParameterView {
        match self {
            Parameter::Identifier(name) => ParameterView::Identifier(name@),
            Parameter::Pattern => ParameterView::Pattern,
        }
    }
}

impl View for Expression {
    type V = ExpressionView;

    open spec fn view(&self) -> ExpressionView {
        expression_view(*self)
    }
}

impl View for Function {
    type V = FunctionView;

    open spec fn view(&self) -> FunctionView {
        function_view(*self)
    }
}

impl View for Statement {
    type V = StatementView;

    open spec fn view(&self) -> StatementView {
        statement_view(*self)
    }
}

} // verus!
