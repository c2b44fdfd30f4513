//! Building the nodes that the passes insert.
use vstd::prelude::*;
use crate::syntax::{
    expression_views, AssignmentExpression, AssignmentOperator, Expression, ExpressionView,
    Statement, StatementView,
};

verus! {

/// `name`
pub fn identifier(name: &str) -> (node: Expression)
    ensures
        node@ == ExpressionView::Identifier(name@),
{
    Expression::Identifier(name.to_owned())
}

/// `'value'`
pub fn string_literal(value: &str) -> (node: Expression)
    ensures
        node@ == ExpressionView::StringLiteral(value@),
{
    Expression::StringLiteral(value.to_owned())
}

/// `[elements]`
pub fn array(elements: Vec<Expression>) -> (node: Expression)
    ensures
        node@ == ExpressionView::Array(expression_views(elements@)),
{
    Expression::Array(elements)
}

/// `object.property`
pub fn static_member(object: Expression, property: &str) -> (node: Expression)
    ensures
        node@ == (ExpressionView::StaticMember { object: Box::new(object@), property: property@ }),
{
    Expression::StaticMember { object: Box::new(object), property: property.to_owned() }
}

/// `callee(arguments)`
pub fn call(callee: Expression, arguments: Vec<Expression>, optional: bool) -> (node: Expression)
    ensures
        node@ == (ExpressionView::Call {
            callee: Box::new(callee@),
            arguments: expression_views(arguments@),
            optional,
        }),
{
    Expression::Call { callee: Box::new(callee), arguments, optional }
}

/// `left operator right`
pub fn assignment(operator: AssignmentOperator, left: Expression, right: Expression) -> (node:
    Expression)
    ensures
        node@ == (ExpressionView::Assignment {
            operator,
            left: Box::new(left@),
            right: Box::new(right@),
        }),
{
    Expression::Assignment(Box::new(AssignmentExpression { operator, left, right }))
}

/// `await argument`
pub fn await_expression(argument: Expression) -> (node: Expression)
    ensures
        node@ == ExpressionView::Await(Box::new(argument@)),
{
    Expression::Await(Box::new(argument))
}

/// `expression;`
pub fn expression_statement(expression: Expression) -> (node: Statement)
    ensures
        node@ == StatementView::Expression(expression@),
{
    Statement::Expression(expression)
}

/// The list of one expression.
pub fn one(first: Expression) -> (list: Vec<Expression>)
    ensures
        expression_views(list@) == seq![first@],
{
    let mut list: Vec<Expression> = Vec::new();
    list.push(first);
    list
}

/// The list of two expressions.
pub fn two(first: Expression, second: Expression) -> (list: Vec<Expression>)
    ensures
        expression_views(list@) == seq![first@, second@],
{
    let mut list: Vec<Expression> = Vec::new();
    list.push(first);
    list.push(second);
    list
}

} // verus!
