//! The traversal contract: one hook per statement form and one per
//! expression form. A pass implements the hooks for the forms it cares about;
//! the compound statements come with a structural default that walks every
//! nested statement list, and for `with` the item expressions, once and in
//! order.
//!
//! A hook returns `Err` to stop the pass: the walk then ends at once and hands
//! the error to its caller.
use vstd::prelude::*;
use crate::ast::{
    Alias, AnnAssign, Assert, Assign, Attribute, AugAssign, Await, BinOp, BoolOperation, Break,
    Call, ClassDef, Compare, Constant, Continue, Delete, Dict, DictComp, ExceptHandler, Expression,
    For, FormattedValue, FunctionDef, Generator, Global, If, IfExp, Import, ImportFrom, JoinedStr,
    Lambda, List, ListComp, Match, MatchCase, Name, NamedExpression, Node, Nonlocal, Pass, Raise,
    Return, SetComp, SetExpr, Slice, Starred, Statement, Subscript, Try, TryStar, Tuple,
    UnaryOperation, While, With, WithItem, Yield, YieldFrom,
};
use crate::ast_kind::{ExpressionKind, StatementKind};
use crate::ast_view::{
    except_handlers_view, match_cases_view, statements_view, with_items_view, ExceptHandlerView,
    ExpressionView, MatchCaseView, StatementView, WithItemView,
};

verus! {

/// What a pass could not handle.
#[derive(Debug, Clone, Copy, PartialEq, Eq, Structural)]
pub enum Construct {
    /// A statement form that the pass has no rule for.
    Statement(StatementKind),
    /// An expression form that the pass has no rule for.
    Expression(ExpressionKind),
    /// An imported name.
    Alias,
    /// An assignment with more than one target, as in `a = b = 1`.
    MultipleTargets,
    /// An assignment without a target.
    MissingTarget,
    /// An assignment whose target is not a plain name, as in `a, b = 1, 2`.
    TargetNotName,
}

/// The reason a pass stopped, with the span of the offending node.
#[derive(Debug, Clone, Copy, PartialEq, Eq, Structural)]
pub struct Unsupported {
    pub construct: Construct,
    pub node: Node,
}

/// A visitor's model after a step, and the error if the step stopped the pass.
pub type Step<M> = (M, Option<Unsupported>);

/// The error of a hook's result, if any.
pub open spec fn stopped(r: Result<(), Unsupported>) -> Option<Unsupported> {
    match r {
        Ok(_) => None,
        Err(e) => Some(e),
    }
}

/// Applies `step` to the items in order, each to the model the one before
/// left, and ends at the first step that stops. Every item before the stop is
/// handled exactly once; none after it is.
pub open spec fn walk<M, T>(step: spec_fn(M, T) -> Step<M>, m: M, items: Seq<T>) -> Step<M>
    decreases items.len(),
{
    if items.len() == 0 {
        (m, None)
    } else {
        let first = step(m, items[0]);
        if first.1 is Some {
            first
        } else {
            walk(step, first.0, items.drop_first())
        }
    }
}

/// Walking `a + b` is walking `a` and then, unless that stopped, `b`.
pub proof fn lemma_walk_concat<M, T>(step: spec_fn(M, T) -> Step<M>, m: M, a: Seq<T>, b: Seq<T>)
    ensures
        walk(step, m, a + b) == (if walk(step, m, a).1 is Some {
            walk(step, m, a)
        } else {
            walk(step, walk(step, m, a).0, b)
        }),
    decreases a.len(),
{
    if a.len() == 0 {
        assert(a + b =~= b);
    } else {
        let first = step(m, a[0]);
        assert((a + b)[0] == a[0]);
        assert((a + b).drop_first() =~= a.drop_first() + b);
        if first.1 is None {
            lemma_walk_concat(step, first.0, a.drop_first(), b);
        }
    }
}

/// The bodies of the handlers, one after the other.
pub open spec fn handler_bodies(handlers: Seq<ExceptHandlerView>) -> Seq<StatementView>
    decreases handlers.len(),
{
    if handlers.len() == 0 {
        Seq::empty()
    } else {
        handlers[0].body + handler_bodies(handlers.drop_first())
    }
}

/// The bodies of the cases, one after the other.
pub open spec fn case_bodies(cases: Seq<MatchCaseView>) -> Seq<StatementView>
    decreases cases.len(),
{
    if cases.len() == 0 {
        Seq::empty()
    } else {
        cases[0].body + case_bodies(cases.drop_first())
    }
}

/// The expressions of one `with` item: the context expression, then the bound
/// target if there is one.
pub open spec fn item_expressions(item: WithItemView) -> Seq<ExpressionView> {
    match item.optional_vars {
        Some(vars) => seq![*item.context_expr, *vars],
        None => seq![*item.context_expr],
    }
}

/// The expressions of the `with` items, one item after the other.
pub open spec fn items_expressions(items: Seq<WithItemView>) -> Seq<ExpressionView>
    decreases items.len(),
{
    if items.len() == 0 {
        Seq::empty()
    } else {
        item_expressions(items[0]) + items_expressions(items.drop_first())
    }
}

/// The statements directly nested in `s`, in the order in which the
/// structural default visits them. Each nested statement list is taken whole.
pub open spec fn nested_statements(s: StatementView) -> Seq<StatementView> {
    match s {
        StatementView::IfStatement(i) => i.body + i.orelse,
        StatementView::WhileStatement(w) => w.body + w.orelse,
        StatementView::ForStatement(f) => f.body + f.orelse,
        StatementView::WithStatement(w) => w.body,
        StatementView::TryStatement(t) => t.body + t.orelse + t.finalbody + handler_bodies(
            t.handlers,
        ),
        StatementView::TryStarStatement(t) => t.body + t.orelse + t.finalbody + handler_bodies(
            t.handlers,
        ),
        StatementView::FunctionDef(f) => f.body,
        StatementView::ClassDef(c) => c.body,
        StatementView::Match(m) => case_bodies(m.cases),
        _ => Seq::empty(),
    }
}

/// The expressions that the structural default visits after the nested
/// statements of `s`: those of the items of a `with`, and no others.
pub open spec fn nested_expressions(s: StatementView) -> Seq<ExpressionView> {
    match s {
        StatementView::WithStatement(w) => items_expressions(w.items),
        _ => Seq::empty(),
    }
}

/// What the structural default does on a compound statement: it walks the
/// nested statements and then the nested expressions.
pub open spec fn structural_step<M>(
    stmt_step: spec_fn(M, StatementView) -> Step<M>,
    expr_step: spec_fn(M, ExpressionView) -> Step<M>,
    m: M,
    s: StatementView,
) -> Step<M> {
    let after = walk(stmt_step, m, nested_statements(s));
    if after.1 is Some {
        after
    } else {
        walk(expr_step, after.0, nested_expressions(s))
    }
}

/// Goes on from `from` with a walk over `items`, unless `from` has stopped.
pub open spec fn walk_on<M, T>(step: spec_fn(M, T) -> Step<M>, from: Step<M>, items: Seq<T>) -> Step<
    M,
> {
    if from.1 is Some {
        from
    } else {
        walk(step, from.0, items)
    }
}

/// A full-depth pass over the statement `s`. The pass first handles `s`
/// itself with `enter`. Unless that stops it, it goes through every statement
/// list nested in `s`, in the order of [`nested_statements`], and passes over
/// each statement there in the same way; last it hands the nested expressions
/// of `s` to `expr`. Every statement of the tree is so entered once, before
/// the statements nested in it, unless the pass has stopped before.
#[verifier::opaque]
pub open spec fn full_walk<M>(
    enter: spec_fn(M, StatementView) -> Step<M>,
    expr: spec_fn(M, ExpressionView) -> Step<M>,
    m: M,
    s: StatementView,
) -> Step<M>
    decreases s, 0nat,
{
    let entered = enter(m, s);
    match s {
        StatementView::IfStatement(i) => full_walk_block(
            enter,
            expr,
            full_walk_block(enter, expr, entered, i.body),
            i.orelse,
        ),
        StatementView::WhileStatement(w) => full_walk_block(
            enter,
            expr,
            full_walk_block(enter, expr, entered, w.body),
            w.orelse,
        ),
        StatementView::ForStatement(f) => full_walk_block(
            enter,
            expr,
            full_walk_block(enter, expr, entered, f.body),
            f.orelse,
        ),
        StatementView::WithStatement(w) => walk_on(
            expr,
            full_walk_block(enter, expr, entered, w.body),
            items_expressions(w.items),
        ),
        StatementView::TryStatement(t) => full_walk_handlers(
            enter,
            expr,
            full_walk_block(
                enter,
                expr,
                full_walk_block(enter, expr, full_walk_block(enter, expr, entered, t.body), t.orelse),
                t.finalbody,
            ),
            t.handlers,
        ),
        StatementView::TryStarStatement(t) => full_walk_handlers(
            enter,
            expr,
            full_walk_block(
                enter,
                expr,
                full_walk_block(enter, expr, full_walk_block(enter, expr, entered, t.body), t.orelse),
                t.finalbody,
            ),
            t.handlers,
        ),
        StatementView::FunctionDef(f) => full_walk_block(enter, expr, entered, f.body),
        StatementView::ClassDef(c) => full_walk_block(enter, expr, entered, c.body),
        StatementView::Match(m) => full_walk_cases(enter, expr, entered, m.cases),
        _ => entered,
    }
}

/// Goes on from `from` with a full-depth pass over each statement of `block`
/// in order, unless the pass has stopped.
#[verifier::opaque]
pub open spec fn full_walk_block<M>(
    enter: spec_fn(M, StatementView) -> Step<M>,
    expr: spec_fn(M, ExpressionView) -> Step<M>,
    from: Step<M>,
    block: Seq<StatementView>,
) -> Step<M>
    decreases block, block.len(),
{
    if from.1 is Some || block.len() == 0 {
        from
    } else {
        full_walk_block(enter, expr, full_walk(enter, expr, from.0, block[0]), block.drop_first())
    }
}

/// Goes on from `from` with a full-depth pass over the body of each handler
/// in order, unless the pass has stopped.
#[verifier::opaque]
pub open spec fn full_walk_handlers<M>(
    enter: spec_fn(M, StatementView) -> Step<M>,
    expr: spec_fn(M, ExpressionView) -> Step<M>,
    from: Step<M>,
    handlers: Seq<ExceptHandlerView>,
) -> Step<M>
    decreases handlers, handlers.len(),
{
    if from.1 is Some || handlers.len() == 0 {
        from
    } else {
        full_walk_handlers(
            enter,
            expr,
            full_walk_block(enter, expr, from, handlers[0].body),
            handlers.drop_first(),
        )
    }
}

/// Goes on from `from` with a full-depth pass over the body of each case in
/// order, unless the pass has stopped.
#[verifier::opaque]
pub open spec fn full_walk_cases<M>(
    enter: spec_fn(M, StatementView) -> Step<M>,
    expr: spec_fn(M, ExpressionView) -> Step<M>,
    from: Step<M>,
    cases: Seq<MatchCaseView>,
) -> Step<M>
    decreases cases, cases.len(),
{
    if from.1 is Some || cases.len() == 0 {
        from
    } else {
        full_walk_cases(
            enter,
            expr,
            full_walk_block(enter, expr, from, cases[0].body),
            cases.drop_first(),
        )
    }
}

/// How a pass over a block goes on: it stays where it is if it has stopped or
/// the block is empty, and else passes over the first statement and goes on
/// with the rest.
pub proof fn lemma_full_walk_block_step<M>(
    enter: spec_fn(M, StatementView) -> Step<M>,
    expr: spec_fn(M, ExpressionView) -> Step<M>,
    from: Step<M>,
    block: Seq<StatementView>,
)
    ensures
        full_walk_block(enter, expr, from, block) == (if from.1 is Some || block.len() == 0 {
            from
        } else {
            full_walk_block(
                enter,
                expr,
                full_walk(enter, expr, from.0, block[0]),
                block.drop_first(),
            )
        }),
{
    reveal(full_walk);
    reveal(full_walk_block);
    reveal(full_walk_handlers);
    reveal(full_walk_cases);
}

/// How a pass over handlers goes on: it stays where it is if it has stopped or
/// there is no handler, and else passes over the body of the first handler
/// and goes on with the rest.
pub proof fn lemma_full_walk_handlers_step<M>(
    enter: spec_fn(M, StatementView) -> Step<M>,
    expr: spec_fn(M, ExpressionView) -> Step<M>,
    from: Step<M>,
    handlers: Seq<ExceptHandlerView>,
)
    ensures
        full_walk_handlers(enter, expr, from, handlers) == (if from.1 is Some || handlers.len()
            == 0 {
            from
        } else {
            full_walk_handlers(
                enter,
                expr,
                full_walk_block(enter, expr, from, handlers[0].body),
                handlers.drop_first(),
            )
        }),
{
    reveal(full_walk);
    reveal(full_walk_block);
    reveal(full_walk_handlers);
    reveal(full_walk_cases);
}

/// How a pass over cases goes on: it stays where it is if it has stopped or
/// there is no case, and else passes over the body of the first case and goes
/// on with the rest.
pub proof fn lemma_full_walk_cases_step<M>(
    enter: spec_fn(M, StatementView) -> Step<M>,
    expr: spec_fn(M, ExpressionView) -> Step<M>,
    from: Step<M>,
    cases: Seq<MatchCaseView>,
)
    ensures
        full_walk_cases(enter, expr, from, cases) == (if from.1 is Some || cases.len() == 0 {
            from
        } else {
            full_walk_cases(
                enter,
                expr,
                full_walk_block(enter, expr, from, cases[0].body),
                cases.drop_first(),
            )
        }),
{
    reveal(full_walk);
    reveal(full_walk_block);
    reveal(full_walk_handlers);
    reveal(full_walk_cases);
}

/// A pass that has stopped stays where it stopped, whatever it is handed.
pub proof fn lemma_stop_is_final<M>(
    enter: spec_fn(M, StatementView) -> Step<M>,
    expr: spec_fn(M, ExpressionView) -> Step<M>,
)
    ensures
        forall|from: Step<M>, block: Seq<StatementView>|
            from.1 is Some ==> #[trigger] full_walk_block(enter, expr, from, block) == from,
        forall|from: Step<M>, handlers: Seq<ExceptHandlerView>|
            from.1 is Some ==> #[trigger] full_walk_handlers(enter, expr, from, handlers) == from,
        forall|from: Step<M>, cases: Seq<MatchCaseView>|
            from.1 is Some ==> #[trigger] full_walk_cases(enter, expr, from, cases) == from,
{
    reveal(full_walk);
    reveal(full_walk_block);
    reveal(full_walk_handlers);
    reveal(full_walk_cases);
}

/// The full-depth pass as a step on statements.
pub open spec fn deep<M>(
    enter: spec_fn(M, StatementView) -> Step<M>,
    expr: spec_fn(M, ExpressionView) -> Step<M>,
) -> spec_fn(M, StatementView) -> Step<M> {
    |m: M, s: StatementView| full_walk(enter, expr, m, s)
}

/// A full-depth pass over a block is a walk over the block whose step is the
/// full-depth pass over one statement.
pub proof fn lemma_full_walk_block_is_walk<M>(
    enter: spec_fn(M, StatementView) -> Step<M>,
    expr: spec_fn(M, ExpressionView) -> Step<M>,
    from: Step<M>,
    block: Seq<StatementView>,
)
    ensures
        full_walk_block(enter, expr, from, block) == walk_on(deep(enter, expr), from, block),
    decreases block.len(),
{
    lemma_full_walk_block_step(enter, expr, from, block);
    if from.1 is None && block.len() > 0 {
        lemma_full_walk_block_is_walk(
            enter,
            expr,
            full_walk(enter, expr, from.0, block[0]),
            block.drop_first(),
        );
    }
}

/// A full-depth pass over handlers is a walk over their bodies, one after the
/// other.
pub proof fn lemma_full_walk_handlers_is_walk<M>(
    enter: spec_fn(M, StatementView) -> Step<M>,
    expr: spec_fn(M, ExpressionView) -> Step<M>,
    from: Step<M>,
    handlers: Seq<ExceptHandlerView>,
)
    ensures
        full_walk_handlers(enter, expr, from, handlers) == walk_on(
            deep(enter, expr),
            from,
            handler_bodies(handlers),
        ),
    decreases handlers.len(),
{
    lemma_full_walk_handlers_step(enter, expr, from, handlers);
    if from.1 is None && handlers.len() > 0 {
        let first = full_walk_block(enter, expr, from, handlers[0].body);
        lemma_full_walk_block_is_walk(enter, expr, from, handlers[0].body);
        lemma_full_walk_handlers_is_walk(enter, expr, first, handlers.drop_first());
        lemma_walk_concat(
            deep(enter, expr),
            from.0,
            handlers[0].body,
            handler_bodies(handlers.drop_first()),
        );
    }
}

/// A full-depth pass over cases is a walk over their bodies, one after the
/// other.
pub proof fn lemma_full_walk_cases_is_walk<M>(
    enter: spec_fn(M, StatementView) -> Step<M>,
    expr: spec_fn(M, ExpressionView) -> Step<M>,
    from: Step<M>,
    cases: Seq<MatchCaseView>,
)
    ensures
        full_walk_cases(enter, expr, from, cases) == walk_on(
            deep(enter, expr),
            from,
            case_bodies(cases),
        ),
    decreases cases.len(),
{
    lemma_full_walk_cases_step(enter, expr, from, cases);
    if from.1 is None && cases.len() > 0 {
        let first = full_walk_block(enter, expr, from, cases[0].body);
        lemma_full_walk_block_is_walk(enter, expr, from, cases[0].body);
        lemma_full_walk_cases_is_walk(enter, expr, first, cases.drop_first());
        lemma_walk_concat(deep(enter, expr), from.0, cases[0].body, case_bodies(cases.drop_first()));
    }
}

/// The full-depth pass is the pass of a visitor that enters each statement
/// with `enter` and leaves what is nested to the structural default: unless
/// `enter` stops it, the pass over `s` is the structural step on `s` whose
/// own step on each nested statement is again the full-depth pass. So no
/// nested statement is left out, and none is passed over twice.
pub proof fn lemma_full_walk_is_structural<M>(
    enter: spec_fn(M, StatementView) -> Step<M>,
    expr: spec_fn(M, ExpressionView) -> Step<M>,
    m: M,
    s: StatementView,
)
    ensures
        full_walk(enter, expr, m, s) == (if enter(m, s).1 is Some {
            enter(m, s)
        } else {
            structural_step(deep(enter, expr), expr, enter(m, s).0, s)
        }),
{
    reveal(full_walk);
    reveal(full_walk_block);
    reveal(full_walk_handlers);
    reveal(full_walk_cases);
    let entered = enter(m, s);
    let step = deep(enter, expr);
    lemma_stop_is_final(enter, expr);
    match s {
        StatementView::IfStatement(i) => {
            let first = full_walk_block(enter, expr, entered, i.body);
            lemma_full_walk_block_is_walk(enter, expr, entered, i.body);
            lemma_full_walk_block_is_walk(enter, expr, first, i.orelse);
            lemma_walk_concat(step, entered.0, i.body, i.orelse);
        },
        StatementView::WhileStatement(w) => {
            let first = full_walk_block(enter, expr, entered, w.body);
            lemma_full_walk_block_is_walk(enter, expr, entered, w.body);
            lemma_full_walk_block_is_walk(enter, expr, first, w.orelse);
            lemma_walk_concat(step, entered.0, w.body, w.orelse);
        },
        StatementView::ForStatement(f) => {
            let first = full_walk_block(enter, expr, entered, f.body);
            lemma_full_walk_block_is_walk(enter, expr, entered, f.body);
            lemma_full_walk_block_is_walk(enter, expr, first, f.orelse);
            lemma_walk_concat(step, entered.0, f.body, f.orelse);
        },
        StatementView::WithStatement(w) => {
            lemma_full_walk_block_is_walk(enter, expr, entered, w.body);
        },
        StatementView::TryStatement(t) => {
            let first = full_walk_block(enter, expr, entered, t.body);
            let second = full_walk_block(enter, expr, first, t.orelse);
            let third = full_walk_block(enter, expr, second, t.finalbody);
            lemma_full_walk_block_is_walk(enter, expr, entered, t.body);
            lemma_full_walk_block_is_walk(enter, expr, first, t.orelse);
            lemma_full_walk_block_is_walk(enter, expr, second, t.finalbody);
            lemma_full_walk_handlers_is_walk(enter, expr, third, t.handlers);
            lemma_walk_concat(step, entered.0, t.body, t.orelse);
            lemma_walk_concat(step, entered.0, t.body + t.orelse, t.finalbody);
            lemma_walk_concat(
                step,
                entered.0,
                t.body + t.orelse + t.finalbody,
                handler_bodies(t.handlers),
            );
        },
        StatementView::TryStarStatement(t) => {
            let first = full_walk_block(enter, expr, entered, t.body);
            let second = full_walk_block(enter, expr, first, t.orelse);
            let third = full_walk_block(enter, expr, second, t.finalbody);
            lemma_full_walk_block_is_walk(enter, expr, entered, t.body);
            lemma_full_walk_block_is_walk(enter, expr, first, t.orelse);
            lemma_full_walk_block_is_walk(enter, expr, second, t.finalbody);
            lemma_full_walk_handlers_is_walk(enter, expr, third, t.handlers);
            lemma_walk_concat(step, entered.0, t.body, t.orelse);
            lemma_walk_concat(step, entered.0, t.body + t.orelse, t.finalbody);
            lemma_walk_concat(
                step,
                entered.0,
                t.body + t.orelse + t.finalbody,
                handler_bodies(t.handlers),
            );
        },
        StatementView::FunctionDef(f) => {
            lemma_full_walk_block_is_walk(enter, expr, entered, f.body);
        },
        StatementView::ClassDef(c) => {
            lemma_full_walk_block_is_walk(enter, expr, entered, c.body);
        },
        StatementView::Match(matched) => {
            lemma_full_walk_cases_is_walk(enter, expr, entered, matched.cases);
        },
        _ => {},
    }
}

/// One visit of a full-depth pass: of a statement or of an expression.
pub enum Visit {
    Statement(StatementView),
    Expression(ExpressionView),
}

/// The visits of a full-depth pass over `s` that nothing stops, in order: `s`
/// itself, then what is nested in it, list by list and statement by
/// statement, each statement with what is nested in it in turn, and at the
/// end the nested expressions of `s`. Every statement of the tree stands in
/// this sequence once, before the statements nested in it.
pub open spec fn visits(s: StatementView) -> Seq<Visit>
    decreases s, 0nat,
{
    seq![Visit::Statement(s)] + match s {
        StatementView::IfStatement(i) => block_visits(i.body) + block_visits(i.orelse),
        StatementView::WhileStatement(w) => block_visits(w.body) + block_visits(w.orelse),
        StatementView::ForStatement(f) => block_visits(f.body) + block_visits(f.orelse),
        StatementView::WithStatement(w) => block_visits(w.body) + expression_visits(
            items_expressions(w.items),
        ),
        StatementView::TryStatement(t) => block_visits(t.body) + block_visits(t.orelse)
            + block_visits(t.finalbody) + handlers_visits(t.handlers),
        StatementView::TryStarStatement(t) => block_visits(t.body) + block_visits(t.orelse)
            + block_visits(t.finalbody) + handlers_visits(t.handlers),
        StatementView::FunctionDef(f) => block_visits(f.body),
        StatementView::ClassDef(c) => block_visits(c.body),
        StatementView::Match(m) => cases_visits(m.cases),
        _ => Seq::empty(),
    }
}

/// The visits of a full-depth pass over the statements of `block`.
pub open spec fn block_visits(block: Seq<StatementView>) -> Seq<Visit>
    decreases block, block.len(),
{
    if block.len() == 0 {
        Seq::empty()
    } else {
        visits(block[0]) + block_visits(block.drop_first())
    }
}

/// The visits of a full-depth pass over the bodies of the handlers.
pub open spec fn handlers_visits(handlers: Seq<ExceptHandlerView>) -> Seq<Visit>
    decreases handlers, handlers.len(),
{
    if handlers.len() == 0 {
        Seq::empty()
    } else {
        block_visits(handlers[0].body) + handlers_visits(handlers.drop_first())
    }
}

/// The visits of a full-depth pass over the bodies of the cases.
pub open spec fn cases_visits(cases: Seq<MatchCaseView>) -> Seq<Visit>
    decreases cases, cases.len(),
{
    if cases.len() == 0 {
        Seq::empty()
    } else {
        block_visits(cases[0].body) + cases_visits(cases.drop_first())
    }
}

/// The expressions as visits, in order.
pub open spec fn expression_visits(expressions: Seq<ExpressionView>) -> Seq<Visit> {
    expressions.map_values(|e: ExpressionView| Visit::Expression(e))
}

/// The step of a pass on one visit: `enter` on a statement, `expr` on an
/// expression.
pub open spec fn visiting<M>(
    enter: spec_fn(M, StatementView) -> Step<M>,
    expr: spec_fn(M, ExpressionView) -> Step<M>,
) -> spec_fn(M, Visit) -> Step<M> {
    |m: M, v: Visit|
        match v {
            Visit::Statement(s) => enter(m, s),
            Visit::Expression(e) => expr(m, e),
        }
}

/// A full-depth pass makes the visits of [`visits`] and no others: it is the
/// walk over that sequence, so it handles each statement of the tree once,
/// leaves none out before it stops, and handles them in that order.
pub proof fn lemma_full_walk_makes_each_visit_once<M>(
    enter: spec_fn(M, StatementView) -> Step<M>,
    expr: spec_fn(M, ExpressionView) -> Step<M>,
    m: M,
    s: StatementView,
)
    ensures
        full_walk(enter, expr, m, s) == walk(visiting(enter, expr), m, visits(s)),
    decreases s, 0nat,
{
    reveal(full_walk);
    reveal(full_walk_block);
    reveal(full_walk_handlers);
    reveal(full_walk_cases);
    let step = visiting(enter, expr);
    let entered = enter(m, s);
    let first = seq![Visit::Statement(s)];
    let from = entered.0;
    lemma_stop_is_final(enter, expr);
    assert(walk(step, m, first) == entered) by {
        assert(first.drop_first() =~= Seq::<Visit>::empty());
        reveal_with_fuel(walk, 2);
    }
    match s {
        StatementView::IfStatement(i) => {
            let one = full_walk_block(enter, expr, entered, i.body);
            lemma_block_makes_each_visit_once(enter, expr, entered, i.body);
            lemma_block_makes_each_visit_once(enter, expr, one, i.orelse);
            lemma_walk_concat(step, from, block_visits(i.body), block_visits(i.orelse));
            lemma_walk_concat(step, m, first, block_visits(i.body) + block_visits(i.orelse));
        },
        StatementView::WhileStatement(w) => {
            let one = full_walk_block(enter, expr, entered, w.body);
            lemma_block_makes_each_visit_once(enter, expr, entered, w.body);
            lemma_block_makes_each_visit_once(enter, expr, one, w.orelse);
            lemma_walk_concat(step, from, block_visits(w.body), block_visits(w.orelse));
            lemma_walk_concat(step, m, first, block_visits(w.body) + block_visits(w.orelse));
        },
        StatementView::ForStatement(f) => {
            let one = full_walk_block(enter, expr, entered, f.body);
            lemma_block_makes_each_visit_once(enter, expr, entered, f.body);
            lemma_block_makes_each_visit_once(enter, expr, one, f.orelse);
            lemma_walk_concat(step, from, block_visits(f.body), block_visits(f.orelse));
            lemma_walk_concat(step, m, first, block_visits(f.body) + block_visits(f.orelse));
        },
        StatementView::WithStatement(w) => {
            let one = full_walk_block(enter, expr, entered, w.body);
            let items = items_expressions(w.items);
            lemma_block_makes_each_visit_once(enter, expr, entered, w.body);
            lemma_expressions_make_each_visit_once(enter, expr, one.0, items);
            lemma_walk_concat(step, from, block_visits(w.body), expression_visits(items));
            lemma_walk_concat(step, m, first, block_visits(w.body) + expression_visits(items));
        },
        StatementView::TryStatement(t) => {
            let one = full_walk_block(enter, expr, entered, t.body);
            let two = full_walk_block(enter, expr, one, t.orelse);
            let three = full_walk_block(enter, expr, two, t.finalbody);
            let a = block_visits(t.body);
            let b = block_visits(t.orelse);
            let c = block_visits(t.finalbody);
            let d = handlers_visits(t.handlers);
            lemma_block_makes_each_visit_once(enter, expr, entered, t.body);
            lemma_block_makes_each_visit_once(enter, expr, one, t.orelse);
            lemma_block_makes_each_visit_once(enter, expr, two, t.finalbody);
            lemma_handlers_make_each_visit_once(enter, expr, three, t.handlers);
            lemma_walk_concat(step, from, a, b);
            lemma_walk_concat(step, from, a + b, c);
            lemma_walk_concat(step, from, a + b + c, d);
            lemma_walk_concat(step, m, first, a + b + c + d);
        },
        StatementView::TryStarStatement(t) => {
            let one = full_walk_block(enter, expr, entered, t.body);
            let two = full_walk_block(enter, expr, one, t.orelse);
            let three = full_walk_block(enter, expr, two, t.finalbody);
            let a = block_visits(t.body);
            let b = block_visits(t.orelse);
            let c = block_visits(t.finalbody);
            let d = handlers_visits(t.handlers);
            lemma_block_makes_each_visit_once(enter, expr, entered, t.body);
            lemma_block_makes_each_visit_once(enter, expr, one, t.orelse);
            lemma_block_makes_each_visit_once(enter, expr, two, t.finalbody);
            lemma_handlers_make_each_visit_once(enter, expr, three, t.handlers);
            lemma_walk_concat(step, from, a, b);
            lemma_walk_concat(step, from, a + b, c);
            lemma_walk_concat(step, from, a + b + c, d);
            lemma_walk_concat(step, m, first, a + b + c + d);
        },
        StatementView::FunctionDef(f) => {
            lemma_block_makes_each_visit_once(enter, expr, entered, f.body);
            lemma_walk_concat(step, m, first, block_visits(f.body));
        },
        StatementView::ClassDef(c) => {
            lemma_block_makes_each_visit_once(enter, expr, entered, c.body);
            lemma_walk_concat(step, m, first, block_visits(c.body));
        },
        StatementView::Match(matched) => {
            lemma_cases_make_each_visit_once(enter, expr, entered, matched.cases);
            lemma_walk_concat(step, m, first, cases_visits(matched.cases));
        },
        _ => {
            assert(visits(s) =~= first);
        },
    }
}

/// A full-depth pass over a block makes the visits of the block.
pub proof fn lemma_block_makes_each_visit_once<M>(
    enter: spec_fn(M, StatementView) -> Step<M>,
    expr: spec_fn(M, ExpressionView) -> Step<M>,
    from: Step<M>,
    block: Seq<StatementView>,
)
    ensures
        full_walk_block(enter, expr, from, block) == walk_on(
            visiting(enter, expr),
            from,
            block_visits(block),
        ),
    decreases block, block.len(),
{
    lemma_full_walk_block_step(enter, expr, from, block);
    if from.1 is None && block.len() > 0 {
        let first = full_walk(enter, expr, from.0, block[0]);
        lemma_full_walk_makes_each_visit_once(enter, expr, from.0, block[0]);
        lemma_block_makes_each_visit_once(enter, expr, first, block.drop_first());
        lemma_walk_concat(
            visiting(enter, expr),
            from.0,
            visits(block[0]),
            block_visits(block.drop_first()),
        );
    }
}

/// A full-depth pass over handlers makes the visits of their bodies.
pub proof fn lemma_handlers_make_each_visit_once<M>(
    enter: spec_fn(M, StatementView) -> Step<M>,
    expr: spec_fn(M, ExpressionView) -> Step<M>,
    from: Step<M>,
    handlers: Seq<ExceptHandlerView>,
)
    ensures
        full_walk_handlers(enter, expr, from, handlers) == walk_on(
            visiting(enter, expr),
            from,
            handlers_visits(handlers),
        ),
    decreases handlers, handlers.len(),
{
    lemma_full_walk_handlers_step(enter, expr, from, handlers);
    if from.1 is None && handlers.len() > 0 {
        let first = full_walk_block(enter, expr, from, handlers[0].body);
        lemma_block_makes_each_visit_once(enter, expr, from, handlers[0].body);
        lemma_handlers_make_each_visit_once(enter, expr, first, handlers.drop_first());
        lemma_walk_concat(
            visiting(enter, expr),
            from.0,
            block_visits(handlers[0].body),
            handlers_visits(handlers.drop_first()),
        );
    }
}

/// A full-depth pass over cases makes the visits of their bodies.
pub proof fn lemma_cases_make_each_visit_once<M>(
    enter: spec_fn(M, StatementView) -> Step<M>,
    expr: spec_fn(M, ExpressionView) -> Step<M>,
    from: Step<M>,
    cases: Seq<MatchCaseView>,
)
    ensures
        full_walk_cases(enter, expr, from, cases) == walk_on(
            visiting(enter, expr),
            from,
            cases_visits(cases),
        ),
    decreases cases, cases.len(),
{
    lemma_full_walk_cases_step(enter, expr, from, cases);
    if from.1 is None && cases.len() > 0 {
        let first = full_walk_block(enter, expr, from, cases[0].body);
        lemma_block_makes_each_visit_once(enter, expr, from, cases[0].body);
        lemma_cases_make_each_visit_once(enter, expr, first, cases.drop_first());
        lemma_walk_concat(
            visiting(enter, expr),
            from.0,
            block_visits(cases[0].body),
            cases_visits(cases.drop_first()),
        );
    }
}

/// A walk over expressions is the walk over them as visits.
pub proof fn lemma_expressions_make_each_visit_once<M>(
    enter: spec_fn(M, StatementView) -> Step<M>,
    expr: spec_fn(M, ExpressionView) -> Step<M>,
    m: M,
    expressions: Seq<ExpressionView>,
)
    ensures
        walk(expr, m, expressions) == walk(
            visiting(enter, expr),
            m,
            expression_visits(expressions),
        ),
    decreases expressions.len(),
{
    if expressions.len() > 0 {
        let first = expr(m, expressions[0]);
        assert(expression_visits(expressions).drop_first() =~= expression_visits(
            expressions.drop_first(),
        ));
        if first.1 is None {
            lemma_expressions_make_each_visit_once(enter, expr, first.0, expressions.drop_first());
        }
    }
}

/// The number of statements in the tree of `s`: `s` itself and every
/// statement nested in it at any depth.
pub open spec fn statement_count(s: StatementView) -> nat
    decreases s, 0nat,
{
    1 + match s {
        StatementView::IfStatement(i) => block_count(i.body) + block_count(i.orelse),
        StatementView::WhileStatement(w) => block_count(w.body) + block_count(w.orelse),
        StatementView::ForStatement(f) => block_count(f.body) + block_count(f.orelse),
        StatementView::WithStatement(w) => block_count(w.body),
        StatementView::TryStatement(t) => block_count(t.body) + block_count(t.orelse) + block_count(
            t.finalbody,
        ) + handlers_count(t.handlers),
        StatementView::TryStarStatement(t) => block_count(t.body) + block_count(t.orelse)
            + block_count(t.finalbody) + handlers_count(t.handlers),
        StatementView::FunctionDef(f) => block_count(f.body),
        StatementView::ClassDef(c) => block_count(c.body),
        StatementView::Match(m) => cases_count(m.cases),
        _ => 0,
    }
}

/// The number of statements in the trees of the statements of `block`.
pub open spec fn block_count(block: Seq<StatementView>) -> nat
    decreases block, block.len(),
{
    if block.len() == 0 {
        0
    } else {
        statement_count(block[0]) + block_count(block.drop_first())
    }
}

/// The number of statements in the bodies of the handlers.
pub open spec fn handlers_count(handlers: Seq<ExceptHandlerView>) -> nat
    decreases handlers, handlers.len(),
{
    if handlers.len() == 0 {
        0
    } else {
        block_count(handlers[0].body) + handlers_count(handlers.drop_first())
    }
}

/// The number of statements in the bodies of the cases.
pub open spec fn cases_count(cases: Seq<MatchCaseView>) -> nat
    decreases cases, cases.len(),
{
    if cases.len() == 0 {
        0
    } else {
        block_count(cases[0].body) + cases_count(cases.drop_first())
    }
}

/// The step of a pass that counts the statements it enters.
pub open spec fn counting() -> spec_fn(nat, StatementView) -> Step<nat> {
    |n: nat, s: StatementView| ((n + 1) as nat, None)
}

/// The step of a pass that lets every expression pass.
pub open spec fn passing() -> spec_fn(nat, ExpressionView) -> Step<nat> {
    |n: nat, e: ExpressionView| (n, None)
}

/// A full-depth pass enters every statement of the tree exactly once: a pass
/// that counts the statements it enters, and never stops, ends with the
/// number of statements in the tree added to its count.
pub proof fn lemma_full_walk_enters_each_statement_once(n: nat, s: StatementView)
    ensures
        full_walk(counting(), passing(), n, s) == (
            (n + statement_count(s)) as nat,
            None::<Unsupported>,
        ),
    decreases s, 0nat,
{
    reveal(full_walk);
    reveal(full_walk_block);
    reveal(full_walk_handlers);
    reveal(full_walk_cases);
    match s {
        StatementView::IfStatement(i) => {
            let after_body = n + 1 + block_count(i.body);
            lemma_block_enters_each_statement_once(n + 1, i.body);
            lemma_block_enters_each_statement_once(after_body, i.orelse);
        },
        StatementView::WhileStatement(w) => {
            let after_body = n + 1 + block_count(w.body);
            lemma_block_enters_each_statement_once(n + 1, w.body);
            lemma_block_enters_each_statement_once(after_body, w.orelse);
        },
        StatementView::ForStatement(f) => {
            let after_body = n + 1 + block_count(f.body);
            lemma_block_enters_each_statement_once(n + 1, f.body);
            lemma_block_enters_each_statement_once(after_body, f.orelse);
        },
        StatementView::WithStatement(w) => {
            lemma_block_enters_each_statement_once(n + 1, w.body);
            lemma_passing_walk(n + 1 + block_count(w.body), items_expressions(w.items));
        },
        StatementView::TryStatement(t) => {
            let after_body = n + 1 + block_count(t.body);
            let after_else = after_body + block_count(t.orelse);
            let after_finally = after_else + block_count(t.finalbody);
            lemma_block_enters_each_statement_once(n + 1, t.body);
            lemma_block_enters_each_statement_once(after_body, t.orelse);
            lemma_block_enters_each_statement_once(after_else, t.finalbody);
            lemma_handlers_enter_each_statement_once(after_finally, t.handlers);
        },
        StatementView::TryStarStatement(t) => {
            let after_body = n + 1 + block_count(t.body);
            let after_else = after_body + block_count(t.orelse);
            let after_finally = after_else + block_count(t.finalbody);
            lemma_block_enters_each_statement_once(n + 1, t.body);
            lemma_block_enters_each_statement_once(after_body, t.orelse);
            lemma_block_enters_each_statement_once(after_else, t.finalbody);
            lemma_handlers_enter_each_statement_once(after_finally, t.handlers);
        },
        StatementView::FunctionDef(f) => {
            lemma_block_enters_each_statement_once(n + 1, f.body);
        },
        StatementView::ClassDef(c) => {
            lemma_block_enters_each_statement_once(n + 1, c.body);
        },
        StatementView::Match(m) => {
            lemma_cases_enter_each_statement_once(n + 1, m.cases);
        },
        _ => {},
    }
}

/// The counting pass over a block adds the number of statements in the block.
pub proof fn lemma_block_enters_each_statement_once(n: nat, block: Seq<StatementView>)
    ensures
        full_walk_block(counting(), passing(), (n, None), block) == (
            (n + block_count(block)) as nat,
            None::<Unsupported>,
        ),
    decreases block, block.len(),
{
    lemma_full_walk_block_step(counting(), passing(), (n, None), block);
    if block.len() > 0 {
        lemma_full_walk_enters_each_statement_once(n, block[0]);
        lemma_block_enters_each_statement_once(n + statement_count(block[0]), block.drop_first());
    }
}

/// The counting pass over handlers adds the number of statements in their
/// bodies.
pub proof fn lemma_handlers_enter_each_statement_once(n: nat, handlers: Seq<ExceptHandlerView>)
    ensures
        full_walk_handlers(counting(), passing(), (n, None), handlers) == (
            (n + handlers_count(handlers)) as nat,
            None::<Unsupported>,
        ),
    decreases handlers, handlers.len(),
{
    lemma_full_walk_handlers_step(counting(), passing(), (n, None), handlers);
    if handlers.len() > 0 {
        lemma_block_enters_each_statement_once(n, handlers[0].body);
        lemma_handlers_enter_each_statement_once(
            n + block_count(handlers[0].body),
            handlers.drop_first(),
        );
    }
}

/// The counting pass over cases adds the number of statements in their
/// bodies.
pub proof fn lemma_cases_enter_each_statement_once(n: nat, cases: Seq<MatchCaseView>)
    ensures
        full_walk_cases(counting(), passing(), (n, None), cases) == (
            (n + cases_count(cases)) as nat,
            None::<Unsupported>,
        ),
    decreases cases, cases.len(),
{
    lemma_full_walk_cases_step(counting(), passing(), (n, None), cases);
    if cases.len() > 0 {
        lemma_block_enters_each_statement_once(n, cases[0].body);
        lemma_cases_enter_each_statement_once(n + block_count(cases[0].body), cases.drop_first());
    }
}

/// A walk whose step lets everything pass changes nothing.
proof fn lemma_passing_walk(n: nat, items: Seq<ExpressionView>)
    ensures
        walk(passing(), n, items) == (n, None::<Unsupported>),
    decreases items.len(),
{
    if items.len() > 0 {
        lemma_passing_walk(n, items.drop_first());
    }
}

/// What every pass over the tree implements. `visit_stmt` and `visit_expr`
/// dispatch on the form of a node to the hook for that form. The hooks for
/// leaf statements and for expressions have no default: a pass that may meet
/// such a form says what it does there, be it to return `Err`. The hooks for
/// compound statements default to the structural walk.
///
/// The contract is stated over a model of the pass. `stmt_step` and
/// `expr_step` say what a visit does to the model, and whether it stops the
/// pass.
pub trait TraversalVisitor: Sized {
    /// What the pass has gathered so far, as a mathematical value.
    type Model;

    /// The model of this pass as it stands.
    spec fn model(&self) -> Self::Model;

    /// What visiting one statement does to the model.
    spec fn stmt_step(m: Self::Model, s: StatementView) -> Step<Self::Model>;

    /// What visiting one expression does to the model.
    spec fn expr_step(m: Self::Model, e: ExpressionView) -> Step<Self::Model>;

    /// Dispatches on the form of `s` to the hook for that form.
    fn visit_stmt(&mut self, s: &Statement) -> (r: Result<(), Unsupported>)
        ensures
            (final(self).model(), stopped(r)) == Self::stmt_step(old(self).model(), s@),
    ;

    /// Dispatches on the form of `e` to the hook for that form.
    fn visit_expr(&mut self, e: &Expression) -> (r: Result<(), Unsupported>)
        ensures
            (final(self).model(), stopped(r)) == Self::expr_step(old(self).model(), e@),
    ;

    /// Visits the statements of one nested list in order.
    fn visit_body(&mut self, body: &Vec<Statement>) -> (r: Result<(), Unsupported>)
        ensures
            (final(self).model(), stopped(r)) == walk(
                |m: Self::Model, s: StatementView| Self::stmt_step(m, s),
                old(self).model(),
                statements_view(body@),
            ),
    {
        let ghost step = |m: Self::Model, s: StatementView| Self::stmt_step(m, s);
        let ghost all = statements_view(body@);
        let mut k: usize = 0;
        assert(all.skip(0) =~= all);
        while k < body.len()
            invariant
                k <= body.len(),
                all == statements_view(body@),
                step == |m: Self::Model, s: StatementView| Self::stmt_step(m, s),
                walk(step, old(self).model(), all) == walk(step, self.model(), all.skip(k as int)),
            decreases body.len() - k,
        {
            proof {
                assert(all.skip(k as int)[0] == body@[k as int]@);
                assert(all.skip(k as int).drop_first() =~= all.skip(k as int + 1));
            }
            self.visit_stmt(&body[k])?;
            k = k + 1;
        }
        Ok(())
    }

    /// Visits the body of each handler in order.
    fn visit_handlers(&mut self, handlers: &Vec<ExceptHandler>) -> (r: Result<(), Unsupported>)
        ensures
            (final(self).model(), stopped(r)) == walk(
                |m: Self::Model, s: StatementView| Self::stmt_step(m, s),
                old(self).model(),
                handler_bodies(except_handlers_view(handlers@)),
            ),
    {
        let ghost step = |m: Self::Model, s: StatementView| Self::stmt_step(m, s);
        let ghost all = except_handlers_view(handlers@);
        let mut k: usize = 0;
        assert(all.skip(0) =~= all);
        while k < handlers.len()
            invariant
                k <= handlers.len(),
                all == except_handlers_view(handlers@),
                step == |m: Self::Model, s: StatementView| Self::stmt_step(m, s),
                walk(step, old(self).model(), handler_bodies(all)) == walk(
                    step,
                    self.model(),
                    handler_bodies(all.skip(k as int)),
                ),
            decreases handlers.len() - k,
        {
            proof {
                assert(all.skip(k as int)[0].body == statements_view(handlers@[k as int].body@));
                assert(all.skip(k as int).drop_first() =~= all.skip(k as int + 1));
                lemma_walk_concat(
                    step,
                    self.model(),
                    all.skip(k as int)[0].body,
                    handler_bodies(all.skip(k as int + 1)),
                );
            }
            self.visit_body(&handlers[k].body)?;
            k = k + 1;
        }
        Ok(())
    }

    /// Visits the body of each case in order.
    fn visit_cases(&mut self, cases: &Vec<MatchCase>) -> (r: Result<(), Unsupported>)
        ensures
            (final(self).model(), stopped(r)) == walk(
                |m: Self::Model, s: StatementView| Self::stmt_step(m, s),
                old(self).model(),
                case_bodies(match_cases_view(cases@)),
            ),
    {
        let ghost step = |m: Self::Model, s: StatementView| Self::stmt_step(m, s);
        let ghost all = match_cases_view(cases@);
        let mut k: usize = 0;
        assert(all.skip(0) =~= all);
        while k < cases.len()
            invariant
                k <= cases.len(),
                all == match_cases_view(cases@),
                step == |m: Self::Model, s: StatementView| Self::stmt_step(m, s),
                walk(step, old(self).model(), case_bodies(all)) == walk(
                    step,
                    self.model(),
                    case_bodies(all.skip(k as int)),
                ),
            decreases cases.len() - k,
        {
            proof {
                assert(all.skip(k as int)[0].body == statements_view(cases@[k as int].body@));
                assert(all.skip(k as int).drop_first() =~= all.skip(k as int + 1));
                lemma_walk_concat(
                    step,
                    self.model(),
                    all.skip(k as int)[0].body,
                    case_bodies(all.skip(k as int + 1)),
                );
            }
            self.visit_body(&cases[k].body)?;
            k = k + 1;
        }
        Ok(())
    }

    /// Visits the expressions of each `with` item in order: the context
    /// expression, then the bound target if there is one.
    fn visit_with_items(&mut self, items: &Vec<WithItem>) -> (r: Result<(), Unsupported>)
        ensures
            (final(self).model(), stopped(r)) == walk(
                |m: Self::Model, e: ExpressionView| Self::expr_step(m, e),
                old(self).model(),
                items_expressions(with_items_view(items@)),
            ),
    {
        let ghost step = |m: Self::Model, e: ExpressionView| Self::expr_step(m, e);
        let ghost all = with_items_view(items@);
        let mut k: usize = 0;
        assert(all.skip(0) =~= all);
        while k < items.len()
            invariant
                k <= items.len(),
                all == with_items_view(items@),
                step == |m: Self::Model, e: ExpressionView| Self::expr_step(m, e),
                walk(step, old(self).model(), items_expressions(all)) == walk(
                    step,
                    self.model(),
                    items_expressions(all.skip(k as int)),
                ),
            decreases items.len() - k,
        {
            let item = &items[k];
            let ghost before = self.model();
            let ghost here = all.skip(k as int)[0];
            let ghost rest = items_expressions(all.skip(k as int + 1));
            proof {
                assert(here == item@);
                assert(all.skip(k as int).drop_first() =~= all.skip(k as int + 1));
                lemma_walk_concat(step, before, item_expressions(here), rest);
                reveal_with_fuel(walk, 3);
            }
            self.visit_expr(&item.context_expr)?;
            match &item.optional_vars {
                Some(vars) => {
                    self.visit_expr(vars)?;
                    proof {
                        assert(item_expressions(here).drop_first().drop_first() =~= Seq::empty());
                    }
                },
                None => {
                    proof {
                        assert(item_expressions(here).drop_first() =~= Seq::empty());
                    }
                },
            }
            k = k + 1;
        }
        Ok(())
    }

    fn visit_import(&mut self, i: &Import) -> Result<(), Unsupported>;

    fn visit_import_from(&mut self, i: &ImportFrom) -> Result<(), Unsupported>;

    fn visit_assign(&mut self, a: &Assign) -> Result<(), Unsupported>;

    fn visit_ann_assign(&mut self, a: &AnnAssign) -> Result<(), Unsupported>;

    fn visit_aug_assign(&mut self, a: &AugAssign) -> Result<(), Unsupported>;

    fn visit_assert(&mut self, a: &Assert) -> Result<(), Unsupported>;

    fn visit_pass(&mut self, p: &Pass) -> Result<(), Unsupported>;

    fn visit_delete(&mut self, d: &Delete) -> Result<(), Unsupported>;

    fn visit_return(&mut self, r: &Return) -> Result<(), Unsupported>;

    fn visit_raise(&mut self, r: &Raise) -> Result<(), Unsupported>;

    fn visit_break(&mut self, b: &Break) -> Result<(), Unsupported>;

    fn visit_continue(&mut self, c: &Continue) -> Result<(), Unsupported>;

    fn visit_global(&mut self, g: &Global) -> Result<(), Unsupported>;

    fn visit_nonlocal(&mut self, n: &Nonlocal) -> Result<(), Unsupported>;

    /// Visits the body, then the `else` branch.
    fn visit_if(&mut self, i: &If) -> (r: Result<(), Unsupported>)
        default_ensures
            (final(self).model(), stopped(r)) == structural_step(
                |m: Self::Model, s: StatementView| Self::stmt_step(m, s),
                |m: Self::Model, e: ExpressionView| Self::expr_step(m, e),
                old(self).model(),
                StatementView::IfStatement(i@),
            ),
    {
        let ghost step = |m: Self::Model, s: StatementView| Self::stmt_step(m, s);
        let ghost start = self.model();
        let ghost body = i@.body;
        let ghost orelse = i@.orelse;
        proof {
            assert(nested_statements(StatementView::IfStatement(i@)) == body + orelse);
            lemma_walk_concat(step, start, body, orelse);
            assert(nested_expressions(StatementView::IfStatement(i@)) == Seq::<ExpressionView>::empty());
        }
        self.visit_body(&i.body)?;
        self.visit_body(&i.orelse)
    }

    /// Visits the body, then the `else` branch.
    fn visit_while(&mut self, w: &While) -> (r: Result<(), Unsupported>)
        default_ensures
            (final(self).model(), stopped(r)) == structural_step(
                |m: Self::Model, s: StatementView| Self::stmt_step(m, s),
                |m: Self::Model, e: ExpressionView| Self::expr_step(m, e),
                old(self).model(),
                StatementView::WhileStatement(w@),
            ),
    {
        let ghost step = |m: Self::Model, s: StatementView| Self::stmt_step(m, s);
        let ghost start = self.model();
        let ghost body = w@.body;
        let ghost orelse = w@.orelse;
        proof {
            assert(nested_statements(StatementView::WhileStatement(w@)) == body + orelse);
            lemma_walk_concat(step, start, body, orelse);
            assert(nested_expressions(StatementView::WhileStatement(w@)) == Seq::<ExpressionView>::empty());
        }
        self.visit_body(&w.body)?;
        self.visit_body(&w.orelse)
    }

    /// Visits the body, then the `else` branch.
    fn visit_for(&mut self, f: &For) -> (r: Result<(), Unsupported>)
        default_ensures
            (final(self).model(), stopped(r)) == structural_step(
                |m: Self::Model, s: StatementView| Self::stmt_step(m, s),
                |m: Self::Model, e: ExpressionView| Self::expr_step(m, e),
                old(self).model(),
                StatementView::ForStatement(f@),
            ),
    {
        let ghost step = |m: Self::Model, s: StatementView| Self::stmt_step(m, s);
        let ghost start = self.model();
        let ghost body = f@.body;
        let ghost orelse = f@.orelse;
        proof {
            assert(nested_statements(StatementView::ForStatement(f@)) == body + orelse);
            lemma_walk_concat(step, start, body, orelse);
            assert(nested_expressions(StatementView::ForStatement(f@)) == Seq::<ExpressionView>::empty());
        }
        self.visit_body(&f.body)?;
        self.visit_body(&f.orelse)
    }

    /// Visits the body, then the expressions of the items.
    fn visit_with(&mut self, w: &With) -> (r: Result<(), Unsupported>)
        default_ensures
            (final(self).model(), stopped(r)) == structural_step(
                |m: Self::Model, s: StatementView| Self::stmt_step(m, s),
                |m: Self::Model, e: ExpressionView| Self::expr_step(m, e),
                old(self).model(),
                StatementView::WithStatement(w@),
            ),
    {
        let ghost step = |m: Self::Model, s: StatementView| Self::stmt_step(m, s);
        let ghost start = self.model();
        let ghost body = w@.body;
        proof {
            assert(nested_statements(StatementView::WithStatement(w@)) == body);
        }
        self.visit_body(&w.body)?;
        self.visit_with_items(&w.items)
    }

    /// Visits the body, the `else` branch, the `finally` branch, then the handlers.
    fn visit_try(&mut self, t: &Try) -> (r: Result<(), Unsupported>)
        default_ensures
            (final(self).model(), stopped(r)) == structural_step(
                |m: Self::Model, s: StatementView| Self::stmt_step(m, s),
                |m: Self::Model, e: ExpressionView| Self::expr_step(m, e),
                old(self).model(),
                StatementView::TryStatement(t@),
            ),
    {
        let ghost step = |m: Self::Model, s: StatementView| Self::stmt_step(m, s);
        let ghost start = self.model();
        let ghost body = t@.body;
        let ghost orelse = t@.orelse;
        let ghost finalbody = t@.finalbody;
        let ghost handlers = handler_bodies(t@.handlers);
        proof {
            assert(nested_statements(StatementView::TryStatement(t@)) == body + orelse + finalbody + handlers);
            lemma_walk_concat(step, start, body, orelse);
            lemma_walk_concat(step, start, body + orelse, finalbody);
            lemma_walk_concat(step, start, body + orelse + finalbody, handlers);
            assert(nested_expressions(StatementView::TryStatement(t@)) == Seq::<ExpressionView>::empty());
        }
        self.visit_body(&t.body)?;
        self.visit_body(&t.orelse)?;
        self.visit_body(&t.finalbody)?;
        self.visit_handlers(&t.handlers)
    }

    /// Visits the body, the `else` branch, the `finally` branch, then the handlers.
    fn visit_try_star(&mut self, t: &TryStar) -> (r: Result<(), Unsupported>)
        default_ensures
            (final(self).model(), stopped(r)) == structural_step(
                |m: Self::Model, s: StatementView| Self::stmt_step(m, s),
                |m: Self::Model, e: ExpressionView| Self::expr_step(m, e),
                old(self).model(),
                StatementView::TryStarStatement(t@),
            ),
    {
        let ghost step = |m: Self::Model, s: StatementView| Self::stmt_step(m, s);
        let ghost start = self.model();
        let ghost body = t@.body;
        let ghost orelse = t@.orelse;
        let ghost finalbody = t@.finalbody;
        let ghost handlers = handler_bodies(t@.handlers);
        proof {
            assert(nested_statements(StatementView::TryStarStatement(t@)) == body + orelse + finalbody + handlers);
            lemma_walk_concat(step, start, body, orelse);
            lemma_walk_concat(step, start, body + orelse, finalbody);
            lemma_walk_concat(step, start, body + orelse + finalbody, handlers);
            assert(nested_expressions(StatementView::TryStarStatement(t@)) == Seq::<ExpressionView>::empty());
        }
        self.visit_body(&t.body)?;
        self.visit_body(&t.orelse)?;
        self.visit_body(&t.finalbody)?;
        self.visit_handlers(&t.handlers)
    }

    /// Visits the body.
    fn visit_function_def(&mut self, f: &FunctionDef) -> (r: Result<(), Unsupported>)
        default_ensures
            (final(self).model(), stopped(r)) == structural_step(
                |m: Self::Model, s: StatementView| Self::stmt_step(m, s),
                |m: Self::Model, e: ExpressionView| Self::expr_step(m, e),
                old(self).model(),
                StatementView::FunctionDef(f@),
            ),
    {
        let ghost step = |m: Self::Model, s: StatementView| Self::stmt_step(m, s);
        let ghost start = self.model();
        let ghost body = f@.body;
        proof {
            assert(nested_statements(StatementView::FunctionDef(f@)) == body);
            assert(nested_expressions(StatementView::FunctionDef(f@)) == Seq::<ExpressionView>::empty());
        }
        self.visit_body(&f.body)
    }

    /// Visits the body.
    fn visit_class_def(&mut self, c: &ClassDef) -> (r: Result<(), Unsupported>)
        default_ensures
            (final(self).model(), stopped(r)) == structural_step(
                |m: Self::Model, s: StatementView| Self::stmt_step(m, s),
                |m: Self::Model, e: ExpressionView| Self::expr_step(m, e),
                old(self).model(),
                StatementView::ClassDef(c@),
            ),
    {
        let ghost step = |m: Self::Model, s: StatementView| Self::stmt_step(m, s);
        let ghost start = self.model();
        let ghost body = c@.body;
        proof {
            assert(nested_statements(StatementView::ClassDef(c@)) == body);
            assert(nested_expressions(StatementView::ClassDef(c@)) == Seq::<ExpressionView>::empty());
        }
        self.visit_body(&c.body)
    }

    /// Visits the body of each case.
    fn visit_match(&mut self, m: &Match) -> (r: Result<(), Unsupported>)
        default_ensures
            (final(self).model(), stopped(r)) == structural_step(
                |m: Self::Model, s: StatementView| Self::stmt_step(m, s),
                |m: Self::Model, e: ExpressionView| Self::expr_step(m, e),
                old(self).model(),
                StatementView::Match(m@),
            ),
    {
        let ghost step = |m: Self::Model, s: StatementView| Self::stmt_step(m, s);
        let ghost start = self.model();
        let ghost cases = case_bodies(m@.cases);
        proof {
            assert(nested_statements(StatementView::Match(m@)) == cases);
            assert(nested_expressions(StatementView::Match(m@)) == Seq::<ExpressionView>::empty());
        }
        self.visit_cases(&m.cases)
    }

    fn visit_constant(&mut self, c: &Constant) -> Result<(), Unsupported>;

    fn visit_list(&mut self, l: &List) -> Result<(), Unsupported>;

    fn visit_tuple(&mut self, t: &Tuple) -> Result<(), Unsupported>;

    fn visit_dict(&mut self, d: &Dict) -> Result<(), Unsupported>;

    fn visit_set(&mut self, s: &SetExpr) -> Result<(), Unsupported>;

    fn visit_name(&mut self, n: &Name) -> Result<(), Unsupported>;

    fn visit_bool_op(&mut self, b: &BoolOperation) -> Result<(), Unsupported>;

    fn visit_unary_op(&mut self, u: &UnaryOperation) -> Result<(), Unsupported>;

    fn visit_bin_op(&mut self, b: &BinOp) -> Result<(), Unsupported>;

    fn visit_named_expr(&mut self, n: &NamedExpression) -> Result<(), Unsupported>;

    fn visit_yield(&mut self, y: &Yield) -> Result<(), Unsupported>;

    fn visit_yield_from(&mut self, y: &YieldFrom) -> Result<(), Unsupported>;

    fn visit_starred(&mut self, s: &Starred) -> Result<(), Unsupported>;

    fn visit_generator(&mut self, g: &Generator) -> Result<(), Unsupported>;

    fn visit_list_comp(&mut self, l: &ListComp) -> Result<(), Unsupported>;

    fn visit_set_comp(&mut self, s: &SetComp) -> Result<(), Unsupported>;

    fn visit_dict_comp(&mut self, d: &DictComp) -> Result<(), Unsupported>;

    fn visit_attribute(&mut self, a: &Attribute) -> Result<(), Unsupported>;

    fn visit_subscript(&mut self, s: &Subscript) -> Result<(), Unsupported>;

    fn visit_slice(&mut self, s: &Slice) -> Result<(), Unsupported>;

    fn visit_call(&mut self, c: &Call) -> Result<(), Unsupported>;

    fn visit_await(&mut self, a: &Await) -> Result<(), Unsupported>;

    fn visit_compare(&mut self, c: &Compare) -> Result<(), Unsupported>;

    fn visit_lambda(&mut self, l: &Lambda) -> Result<(), Unsupported>;

    fn visit_if_exp(&mut self, i: &IfExp) -> Result<(), Unsupported>;

    fn visit_joined_str(&mut self, j: &JoinedStr) -> Result<(), Unsupported>;

    fn visit_formatted_value(&mut self, f: &FormattedValue) -> Result<(), Unsupported>;

    fn visit_alias(&mut self, a: &Alias) -> Result<(), Unsupported>;
}

} // verus!
