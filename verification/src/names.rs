//! The names under which function-like constructs are looked up, and the
//! names of their parameters.
use vstd::prelude::*;
use vstd::string::*;
use crate::syntax::{
    expression_view, optional_text, parameter_views, texts, Expression, ExpressionView,
    MethodDefinition, Parameter, ParameterView,
};

verus! {

/// Every parameter is a plain binding name.
pub open spec fn all_identifiers(params: Seq<ParameterView>) -> bool {
    forall|i: int| 0 <= i < params.len() ==> params[i] is Identifier
}

/// The names of the parameters, in order, where every parameter is a plain
/// binding name.  Where one is not, there is no usable list of names, and the
/// result is empty.
pub open spec fn arg_names(params: Seq<ParameterView>) -> Seq<Seq<char>> {
    if all_identifiers(params) {
        Seq::new(params.len(), |i: int| params[i]->Identifier_0)
    } else {
        seq![]
    }
}

/// The names of the parameters `params`, in order; empty where a parameter has
/// a default value, is a destructuring pattern or is a rest parameter.
pub fn get_function_or_method_arg_names(params: &Vec<Parameter>) -> (names: Vec<String>)
    ensures
        texts(names@) == arg_names(parameter_views(params@)),
{
    let mut names: Vec<String> = Vec::new();
    let mut i: usize = 0;
    while i < params.len()
        invariant
            i <= params@.len(),
            names@.len() == i,
            forall|j: int| 0 <= j < i ==> params@[j]@ == ParameterView::Identifier(names@[j]@),
        decreases params@.len() - i,
    {
        match &params[i] {
            Parameter::Identifier(name) => {
                names.push(name.clone());
            },
            Parameter::Pattern => {
                assert(!(parameter_views(params@)[i as int] is Identifier));
                return Vec::new();
            },
        }
        i += 1;
    }
    names
}

/// The names of the parameters of a method, as `get_function_or_method_arg_names`
/// gives them.
pub fn get_method_arg_names(method_definition: &MethodDefinition) -> (names: Vec<String>)
    ensures
        texts(names@) == arg_names(parameter_views(method_definition.value.params@)),
{
    get_function_or_method_arg_names(&method_definition.value.params)
}

/// `object.property`, or `object[property]` where `computed` is set; nothing
/// where either part is empty.
pub open spec fn joined(object: Seq<char>, property: Seq<char>, computed: bool) -> Option<
    Seq<char>,
> {
    if object.len() == 0 || property.len() == 0 {
        None
    } else if computed {
        Some(object + "["@ + property + "]"@)
    } else {
        Some(object + "."@ + property)
    }
}

/// The name of what a member is taken from: a plain name, `this`, or the path
/// of a chain of static accesses.
pub open spec fn object_name(object: ExpressionView) -> Option<Seq<char>>
    decreases object, 1int,
{
    match object {
        ExpressionView::Identifier(name) => Some(name),
        ExpressionView::StaticMember { .. } => member_path(object),
        ExpressionView::This => Some("this"@),
        _ => None,
    }
}

/// The path that names a member access: `a.b` for a static access, `a[b]` for
/// a computed access whose key is a plain name.  Any other shape has no path.
pub open spec fn member_path(member: ExpressionView) -> Option<Seq<char>>
    decreases member, 0int,
{
    match member {
        ExpressionView::StaticMember { object, property } => match object_name(*object) {
            Some(name) => joined(name, property, false),
            None => None,
        },
        ExpressionView::ComputedMember { object, property } => match *property {
            ExpressionView::Identifier(key) => match object_name(*object) {
                Some(name) => joined(name, key, true),
                None => None,
            },
            _ => None,
        },
        _ => None,
    }
}

/// Joins the two parts of a path.
fn join_path(object: &str, property: &str, computed: bool) -> (path: Option<String>)
    ensures
        optional_text(path) == joined(object@, property@, computed),
{
    if object.unicode_len() == 0 || property.unicode_len() == 0 {
        return None;
    }
    let mut path = object.to_owned();
    if computed {
        path.append("[");
        path.append(property);
        path.append("]");
    } else {
        path.append(".");
        path.append(property);
    }
    Some(path)
}

/// The name of the object of a member access.
fn get_object_name(object: &Expression) -> (name: Option<String>)
    ensures
        optional_text(name) == object_name(object@),
    decreases *object, 1int,
{
    match object {
        Expression::Identifier(name) => Some(name.clone()),
        Expression::StaticMember { .. } => get_name_str_for_member_expr(object),
        Expression::This => Some("this".to_owned()),
        _ => None,
    }
}

/// The path that names the member access `member_expr`: `app.get`,
/// `app.prototype.get`, `this.handle`, `app[method]`.  `None` where the access
/// has another shape, or a part of the path is empty.
pub fn get_name_str_for_member_expr(member_expr: &Expression) -> (path: Option<String>)
    ensures
        optional_text(path) == member_path(member_expr@),
    decreases *member_expr, 0int,
{
    proof {
        reveal_with_fuel(expression_view, 2);
    }
    match member_expr {
        Expression::StaticMember { object, property } => {
            match get_object_name(object) {
                Some(name) => join_path(name.as_str(), property.as_str(), false),
                None => None,
            }
        },
        Expression::ComputedMember { object, property } => {
            match &**property {
                Expression::Identifier(key) => match get_object_name(object) {
                    Some(name) => join_path(name.as_str(), key.as_str(), true),
                    None => None,
                },
                _ => None,
            }
        },
        _ => None,
    }
}

} // verus!
