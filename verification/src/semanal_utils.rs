//! What the binding rule reads off an expression: the name an assignment
//! target binds, and the coarse type of an assigned value.
use vstd::prelude::*;
use crate::ast::{ConstantValue, Expression};
use crate::ast_kind::expression_node;
use crate::ast_view::{ConstantValueView, ExpressionView};
use crate::ast_visitor::{Construct, Unsupported};
use crate::symbol_table::NodeType;

verus! {

/// The name that `target` binds: the identifier itself. Any other form of
/// target is refused, with the span of the target.
pub open spec fn target_name(target: ExpressionView) -> Result<Seq<char>, Unsupported> {
    match target {
        ExpressionView::Name(n) => Ok(n.id),
        _ => Err(Unsupported { construct: Construct::TargetNotName, node: expression_node(target) }),
    }
}

/// A result with its name taken as a sequence of characters.
pub open spec fn name_chars(r: Result<String, Unsupported>) -> Result<Seq<char>, Unsupported> {
    match r {
        Ok(name) => Ok(name@),
        Err(e) => Err(e),
    }
}

/// The coarse type of a value, by the form of the expression alone.
pub open spec fn expr_type(e: ExpressionView) -> NodeType {
    match e {
        ExpressionView::Constant(c) => match c.value {
            ConstantValueView::NoneValue => NodeType::NoneValue,
            ConstantValueView::Bool(_) => NodeType::Bool,
            ConstantValueView::Str(_) => NodeType::Str,
            ConstantValueView::Bytes(_) => NodeType::Bytes,
            ConstantValueView::Tuple(_) => NodeType::Tuple,
            ConstantValueView::Int(_) => NodeType::Int,
            ConstantValueView::Float(_) => NodeType::Float,
            ConstantValueView::Complex { .. } => NodeType::Complex,
        },
        ExpressionView::JoinedStr(_) => NodeType::Str,
        ExpressionView::Tuple(_) => NodeType::Tuple,
        ExpressionView::List(_) => NodeType::List,
        ExpressionView::ListComp(_) => NodeType::List,
        ExpressionView::Dict(_) => NodeType::Dict,
        ExpressionView::DictComp(_) => NodeType::Dict,
        ExpressionView::SetExpr(_) => NodeType::SetValue,
        ExpressionView::SetComp(_) => NodeType::SetValue,
        ExpressionView::Generator(_) => NodeType::Generator,
        ExpressionView::Lambda(_) => NodeType::Lambda,
        ExpressionView::Name(_) => NodeType::Name,
        ExpressionView::Call(_) => NodeType::Call,
        _ => NodeType::Unknown,
    }
}

/// The name that an assignment to `assignment_target` binds.
pub fn get_target_name(assignment_target: &Expression) -> (r: Result<String, Unsupported>)
    ensures
        name_chars(r) == target_name(assignment_target@),
{
    match assignment_target {
        Expression::Name(n) => Ok(n.id.clone()),
        _ => Err(Unsupported { construct: Construct::TargetNotName, node: assignment_target.node() }),
    }
}

/// The coarse type of the value of `expr`.
pub fn get_expr_type(expr: &Expression) -> (t: NodeType)
    ensures
        t == expr_type(expr@),
{
    match expr {
        Expression::Constant(c) => match &c.value {
            ConstantValue::NoneValue => NodeType::NoneValue,
            ConstantValue::Bool(_) => NodeType::Bool,
            ConstantValue::Str(_) => NodeType::Str,
            ConstantValue::Bytes(_) => NodeType::Bytes,
            ConstantValue::Tuple(_) => NodeType::Tuple,
            ConstantValue::Int(_) => NodeType::Int,
            ConstantValue::Float(_) => NodeType::Float,
            ConstantValue::Complex { .. } => NodeType::Complex,
        },
        Expression::JoinedStr(_) => NodeType::Str,
        Expression::Tuple(_) => NodeType::Tuple,
        Expression::List(_) => NodeType::List,
        Expression::ListComp(_) => NodeType::List,
        Expression::Dict(_) => NodeType::Dict,
        Expression::DictComp(_) => NodeType::Dict,
        Expression::SetExpr(_) => NodeType::SetValue,
        Expression::SetComp(_) => NodeType::SetValue,
        Expression::Generator(_) => NodeType::Generator,
        Expression::Lambda(_) => NodeType::Lambda,
        Expression::Name(_) => NodeType::Name,
        Expression::Call(_) => NodeType::Call,
        _ => NodeType::Unknown,
    }
}

} // verus!
