//! The taint pass: wrapping string operations of arbitrary code.
use vstd::prelude::*;
use vstd::hash_set::StringHashSet;
use crate::hooks::{HookUsage, CONCAT_HOOK_NAME, WRAP_HOOK_NAME};
use crate::nodes::{assignment, call, identifier, static_member, two};
use crate::syntax::{
    expression_view, expression_views, function_view, parameter_views, AssignmentExpression,
    AssignmentOperator, BinaryOperator, Expression, ExpressionView, Function, FunctionKind,
    FunctionView, Parameter, ParameterView, Statement, StatementView,
};
use crate::text::same_text;

verus! {

/// The name of the one parameter of the capture function.
pub const CAPTURE_PARAMETER: &'static str = "__a";

/// The name of the method whose calls become calls of the concatenation hook.
pub const CONCAT_METHOD: &'static str = "concat";

/// The methods whose calls are wrapped.
pub open spec fn methods_to_wrap() -> Set<Seq<char>> {
    set![
        "replace"@,
        "replaceAll"@,
        "slice"@,
        "substring"@,
        "substr"@,
        "trim"@,
        "trimStart"@,
        "trimEnd"@,
        "trimLeft"@,
        "trimRight"@,
        "toLowerCase"@,
        "toUpperCase"@,
        "toLocaleLowerCase"@,
        "toLocaleUpperCase"@,
        "normalize"@,
        "repeat"@,
        "padStart"@,
        "padEnd"@,
        "split"@,
        "charAt"@,
        "at"@,
        "join"@,
        "reverse"@,
    ]
}

/// The rewrites of the taint pass.
#[derive(Debug, Clone, Copy, PartialEq, Eq, Structural)]
pub enum TransformKind {
    /// `subject.method(args)` with a wrapped method.
    MethodCall,
    /// `subject.concat(args)`
    ConcatMethodCall,
    /// `a + b`
    BinaryAddition,
    /// `x += b` with a plain name `x`.
    AssignmentAddition,
}

/// `(__a) => __a.method(arguments)`
pub open spec fn capture_function(
    method: Seq<char>,
    arguments: Seq<ExpressionView>,
    optional: bool,
) -> ExpressionView {
    ExpressionView::Function(
        Box::new(
            FunctionView {
                kind: FunctionKind::Arrow,
                id: None,
                params: seq![ParameterView::Identifier(CAPTURE_PARAMETER@)],
                expression: true,
                body: Some(
                    seq![
                        StatementView::Expression(
                            ExpressionView::Call {
                                callee: Box::new(
                                    ExpressionView::StaticMember {
                                        object: Box::new(
                                            ExpressionView::Identifier(CAPTURE_PARAMETER@),
                                        ),
                                        property: method,
                                    },
                                ),
                                arguments,
                                optional,
                            },
                        ),
                    ],
                ),
            },
        ),
    )
}

/// `__zen_wrapMethodCallResult(subject, (__a) => __a.method(arguments))`
pub open spec fn wrapped_call(
    subject: ExpressionView,
    method: Seq<char>,
    arguments: Seq<ExpressionView>,
    optional: bool,
) -> ExpressionView {
    ExpressionView::Call {
        callee: Box::new(ExpressionView::Identifier(WRAP_HOOK_NAME@)),
        arguments: seq![subject, capture_function(method, arguments, optional)],
        optional: false,
    }
}

/// `__zen_wrapConcat(arguments)`
pub open spec fn concat_call(arguments: Seq<ExpressionView>) -> ExpressionView {
    ExpressionView::Call {
        callee: Box::new(ExpressionView::Identifier(CONCAT_HOOK_NAME@)),
        arguments,
        optional: false,
    }
}

/// Which rewrite applies to a node, if any.
pub open spec fn transform_kind(node: ExpressionView) -> Option<TransformKind> {
    match node {
        ExpressionView::Call { callee, .. } => match *callee {
            ExpressionView::StaticMember { property, .. } => if property == CONCAT_METHOD@ {
                Some(TransformKind::ConcatMethodCall)
            } else if methods_to_wrap().contains(property) {
                Some(TransformKind::MethodCall)
            } else {
                None
            },
            _ => None,
        },
        ExpressionView::Binary { operator: BinaryOperator::Addition, .. } => Some(
            TransformKind::BinaryAddition,
        ),
        ExpressionView::Assignment { operator: AssignmentOperator::Addition, left, .. } => match *left {
            ExpressionView::Identifier(_) => Some(TransformKind::AssignmentAddition),
            _ => None,
        },
        _ => None,
    }
}

/// What a node becomes when the pass leaves it.
pub open spec fn rewritten(node: ExpressionView) -> ExpressionView {
    match node {
        ExpressionView::Call { callee, arguments, optional } => match *callee {
            ExpressionView::StaticMember { object, property } => if property == CONCAT_METHOD@ {
                concat_call(seq![*object] + arguments)
            } else if methods_to_wrap().contains(property) {
                wrapped_call(*object, property, arguments, optional)
            } else {
                node
            },
            _ => node,
        },
        ExpressionView::Binary { operator: BinaryOperator::Addition, left, right } => concat_call(
            seq![*left, *right],
        ),
        ExpressionView::Assignment { operator: AssignmentOperator::Addition, left, right } => match *left {
            ExpressionView::Identifier(name) => ExpressionView::Assignment {
                operator: AssignmentOperator::Assign,
                left: Box::new(ExpressionView::Identifier(name)),
                right: Box::new(concat_call(seq![ExpressionView::Identifier(name), *right])),
            },
            _ => node,
        },
        _ => node,
    }
}

/// The hooks in use once the pass has left `node`.
pub open spec fn usage_after(usage: HookUsage, node: ExpressionView) -> HookUsage {
    match transform_kind(node) {
        Some(TransformKind::MethodCall) => HookUsage { wrap_method_call: true, ..usage },
        Some(_) => HookUsage { wrap_concat: true, ..usage },
        None => usage,
    }
}

/// The hooks in use once the pass has left each of `nodes`, in their order.
pub open spec fn usage_after_all(usage: HookUsage, nodes: Seq<ExpressionView>) -> HookUsage
    decreases nodes.len(),
{
    if nodes.len() == 0 {
        usage
    } else {
        usage_after(usage_after_all(usage, nodes.drop_last()), nodes.last())
    }
}

/// The state of one run of the taint pass over a tree.
pub struct UserCodeTransformer {
    methods: StringHashSet,
    has_method_transforms: bool,
    has_concat_transforms: bool,
}

impl UserCodeTransformer {
    #[verifier::type_invariant]
    spec fn well_formed(self) -> bool {
        self.methods@ == methods_to_wrap()
    }

    /// Whether a method call was wrapped so far.
    pub closed spec fn method_transforms(self) -> bool {
        self.has_method_transforms
    }

    /// Whether a concatenation was rewritten so far.
    pub closed spec fn concat_transforms(self) -> bool {
        self.has_concat_transforms
    }

    /// The hooks that the rewrites so far call.
    pub open spec fn usage_view(self) -> HookUsage {
        HookUsage {
            wrap_method_call: self.method_transforms(),
            wrap_concat: self.concat_transforms(),
            ..HookUsage::none()
        }
    }

    /// A pass that has rewritten nothing yet.
    pub fn new() -> (pass: Self)
        ensures
            !pass.method_transforms(),
            !pass.concat_transforms(),
            pass.usage_view() == HookUsage::none(),
    {
        let mut methods = StringHashSet::new();
        methods.insert("replace".to_owned());
        methods.insert("replaceAll".to_owned());
        methods.insert("slice".to_owned());
        methods.insert("substring".to_owned());
        methods.insert("substr".to_owned());
        methods.insert("trim".to_owned());
        methods.insert("trimStart".to_owned());
        methods.insert("trimEnd".to_owned());
        methods.insert("trimLeft".to_owned());
        methods.insert("trimRight".to_owned());
        methods.insert("toLowerCase".to_owned());
        methods.insert("toUpperCase".to_owned());
        methods.insert("toLocaleLowerCase".to_owned());
        methods.insert("toLocaleUpperCase".to_owned());
        methods.insert("normalize".to_owned());
        methods.insert("repeat".to_owned());
        methods.insert("padStart".to_owned());
        methods.insert("padEnd".to_owned());
        methods.insert("split".to_owned());
        methods.insert("charAt".to_owned());
        methods.insert("at".to_owned());
        methods.insert("join".to_owned());
        methods.insert("reverse".to_owned());
        UserCodeTransformer { methods, has_method_transforms: false, has_concat_transforms: false }
    }

    /// Whether a method call was wrapped so far.
    pub fn has_method_transforms(&self) -> (set: bool)
        ensures
            set == self.method_transforms(),
    {
        self.has_method_transforms
    }

    /// Whether a concatenation was rewritten so far.
    pub fn has_concat_transforms(&self) -> (set: bool)
        ensures
            set == self.concat_transforms(),
    {
        self.has_concat_transforms
    }

    /// The hooks that the rewrites so far call.
    pub fn usage(&self) -> (usage: HookUsage)
        ensures
            usage == self.usage_view(),
    {
        let mut usage = HookUsage::new();
        usage.wrap_method_call = self.has_method_transforms;
        usage.wrap_concat = self.has_concat_transforms;
        usage
    }

    /// Whether calls of the method `name` are wrapped.
    pub fn is_target_method(&self, name: &str) -> (wrapped: bool)
        ensures
            wrapped == methods_to_wrap().contains(name@),
    {
        proof {
            use_type_invariant(self);
        }
        self.methods.contains(name)
    }

    /// Builds `__zen_wrapMethodCallResult(subject, (__a) => __a.method_name(arguments))`.
    pub fn build_wrapped_call(
        &self,
        subject: Expression,
        method_name: &str,
        arguments: Vec<Expression>,
        optional: bool,
    ) -> (node: Expression)
        ensures
            node@ == wrapped_call(subject@, method_name@, expression_views(arguments@), optional),
    {
        let inner_callee = static_member(identifier(CAPTURE_PARAMETER), method_name);
        let inner_call = call(inner_callee, arguments, optional);
        let mut body: Vec<Statement> = Vec::new();
        body.push(Statement::Expression(inner_call));
        let mut params: Vec<Parameter> = Vec::new();
        params.push(Parameter::Identifier(CAPTURE_PARAMETER.to_owned()));
        let arrow = Function {
            kind: FunctionKind::Arrow,
            id: None,
            params,
            expression: true,
            body: Some(body),
        };
        proof {
            assert(parameter_views(params@) =~= seq![
                ParameterView::Identifier(CAPTURE_PARAMETER@),
            ]);
            assert(function_view(arrow).body == Some(
                seq![StatementView::Expression(inner_call@)],
            ));
        }
        let capture = Expression::Function(Box::new(arrow));
        call(identifier(WRAP_HOOK_NAME), two(subject, capture), false)
    }

    /// Builds `__zen_wrapConcat(arguments)`.
    pub fn build_concat_call(&self, arguments: Vec<Expression>) -> (node: Expression)
        ensures
            node@ == concat_call(expression_views(arguments@)),
    {
        call(identifier(CONCAT_HOOK_NAME), arguments, false)
    }

    /// Which rewrite applies to `node`, if any.
    pub fn classify(&self, node: &Expression) -> (kind: Option<TransformKind>)
        ensures
            kind == transform_kind(node@),
    {
        proof {
            reveal_with_fuel(expression_view, 2);
        }
        match node {
            Expression::Call { callee, .. } => match &**callee {
                Expression::StaticMember { property, .. } => {
                    if same_text(property.as_str(), CONCAT_METHOD) {
                        Some(TransformKind::ConcatMethodCall)
                    } else if self.is_target_method(property.as_str()) {
                        Some(TransformKind::MethodCall)
                    } else {
                        None
                    }
                },
                _ => None,
            },
            Expression::Binary { operator, .. } => match operator {
                BinaryOperator::Addition => Some(TransformKind::BinaryAddition),
                BinaryOperator::Other => None,
            },
            Expression::Assignment(assignment) => match assignment.operator {
                AssignmentOperator::Addition => match &assignment.left {
                    Expression::Identifier(_) => Some(TransformKind::AssignmentAddition),
                    _ => None,
                },
                _ => None,
            },
            _ => None,
        }
    }

    /// Leaves `node` after its children: rewrites it where a rewrite applies,
    /// and records which hook the rewrite calls.
    pub fn exit_expression(&mut self, node: &mut Expression) -> (kind: Option<TransformKind>)
        ensures
            kind == transform_kind(old(node)@),
            final(node)@ == rewritten(old(node)@),
            kind is None ==> *final(node) == *old(node),
            final(self).method_transforms() == (old(self).method_transforms() || kind == Some(
                TransformKind::MethodCall,
            )),
            final(self).concat_transforms() == (old(self).concat_transforms() || (kind is Some
                && kind != Some(TransformKind::MethodCall))),
            final(self).usage_view() == usage_after(old(self).usage_view(), old(node)@),
    {
        proof {
            use_type_invariant(&*self);
            reveal_with_fuel(expression_view, 2);
        }
        let kind = self.classify(node);
        let transform = match kind {
            Some(transform) => transform,
            None => {
                return None;
            },
        };
        let mut old_expr = Expression::This;
        std::mem::swap(node, &mut old_expr);
        match old_expr {
            Expression::Call { callee, arguments, optional } => match *callee {
                Expression::StaticMember { object, property } => match transform {
                    TransformKind::MethodCall => {
                        *node =
                        self.build_wrapped_call(*object, property.as_str(), arguments, optional);
                        self.has_method_transforms = true;
                    },
                    _ => {
                        let mut new_args = arguments;
                        new_args.insert(0, *object);
                        assert(expression_views(new_args@) =~= seq![object@] + expression_views(
                            arguments@,
                        ));
                        *node = self.build_concat_call(new_args);
                        self.has_concat_transforms = true;
                    },
                },
                _ => {},
            },
            Expression::Binary { operator, left, right } => {
                *node = self.build_concat_call(two(*left, *right));
                self.has_concat_transforms = true;
            },
            Expression::Assignment(parts) => {
                let AssignmentExpression { operator, left, right } = *parts;
                match left {
                    Expression::Identifier(name) => {
                        let target = identifier(name.as_str());
                        let concat = self.build_concat_call(two(Expression::Identifier(name), right));
                        *node = assignment(AssignmentOperator::Assign, target, concat);
                        self.has_concat_transforms = true;
                    },
                    _ => {},
                }
            },
            _ => {},
        }
        kind
    }
}

} // verus!
