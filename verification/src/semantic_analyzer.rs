//! The pass that binds names. It goes through the definitions of a file at
//! full depth and records, for each assignment to a plain name, the name with
//! the statement that bound it and the coarse type of the value.
//!
//! The pass has a rule for one binding form only. On any other leaf
//! statement, on any expression it is handed, and on an assignment that is not
//! to exactly one plain name, it stops with an [`Unsupported`] error; what it
//! had bound before stays in the table.
use vstd::prelude::*;
use crate::ast::{
    Alias, AnnAssign, Assert, Assign, Attribute, AugAssign, Await, BinOp, BoolOperation, Break,
    Call, ClassDef, Compare, Constant, Continue, Delete, Dict, DictComp, ExceptHandler, Expression,
    For, FormattedValue, FunctionDef, Generator, Global, If, IfExp, Import, ImportFrom, JoinedStr,
    Lambda, List, ListComp, Match, MatchCase, Name, NamedExpression, Nonlocal, Pass, Raise, Return,
    SetComp, SetExpr, Slice, Starred, Statement, Subscript, Try, TryStar, Tuple, UnaryOperation,
    While, With, WithItem, Yield, YieldFrom,
};
use crate::ast_kind::{
    expression_kind, expression_node, statement_kind, statement_node, ExpressionKind, StatementKind,
};
use crate::ast_view::{
    except_handlers_view, expressions_view, match_cases_view, statements_view, strings_view,
    with_items_view, AssignView, ExpressionView, StatementView,
};
use crate::ast_visitor::{
    deep, full_walk, full_walk_block, full_walk_cases, full_walk_handlers, item_expressions,
    items_expressions, lemma_full_walk_block_step, lemma_full_walk_cases_step,
    lemma_full_walk_handlers_step, lemma_full_walk_is_structural, lemma_stop_is_final,
    lemma_walk_concat, stopped, structural_step, walk, Construct, Step, TraversalVisitor,
    Unsupported,
};
use crate::semanal_utils::{expr_type, get_expr_type, get_target_name, name_chars, target_name};
use crate::state::State;
use crate::symbol_table::{
    NodeType, SymbolScope, SymbolTableNode, SymbolTableNodeView, SymbolTableView,
};

verus! {

/// What the pass has gathered: the symbol table of the file, and the scope
/// that new bindings are recorded in.
pub struct Analysis {
    pub names: SymbolTableView,
    pub scope: SymbolScope,
}

/// The record of a name bound by an assignment: not public, not hidden, not
/// implicit, in the scope `scope`, with the coarse type of the assigned value.
pub open spec fn assigned_symbol(
    name: Seq<char>,
    a: AssignView,
    scope: SymbolScope,
) -> SymbolTableNodeView {
    SymbolTableNodeView {
        name,
        node: StatementView::AssignStatement(a),
        typ: expr_type(a.value),
        module_public: false,
        module_hidden: false,
        implicit: false,
        scope,
    }
}

/// `m` with `name` bound to `symbol`. Whatever `name` was bound to before is
/// replaced; every other name keeps its record.
pub open spec fn with_symbol(m: Analysis, name: Seq<char>, symbol: SymbolTableNodeView) -> Analysis {
    Analysis {
        names: SymbolTableView { symbols: m.names.symbols.insert(name, symbol), ..m.names },
        scope: m.scope,
    }
}

/// The binding rule. An assignment with exactly one target that is a plain
/// name binds that name. An assignment with several targets, with none, or
/// with a target of another form is refused and binds nothing.
pub open spec fn assign_step(m: Analysis, a: AssignView) -> Step<Analysis> {
    if a.targets.len() > 1 {
        (m, Some(Unsupported { construct: Construct::MultipleTargets, node: a.node }))
    } else if a.targets.len() == 0 {
        (m, Some(Unsupported { construct: Construct::MissingTarget, node: a.node }))
    } else {
        match target_name(a.targets[0]) {
            Ok(name) => (with_symbol(m, name, assigned_symbol(name, a, m.scope)), None),
            Err(e) => (m, Some(e)),
        }
    }
}

/// The error for a statement that the pass has no rule for.
pub open spec fn unsupported_statement(s: StatementView) -> Unsupported {
    Unsupported { construct: Construct::Statement(statement_kind(s)), node: statement_node(s) }
}

/// The error for an expression: the pass has no rule for any.
pub open spec fn unsupported_expression(e: ExpressionView) -> Unsupported {
    Unsupported { construct: Construct::Expression(expression_kind(e)), node: expression_node(e) }
}

/// What the pass does on an expression: it stops.
pub open spec fn expr_stop(m: Analysis, e: ExpressionView) -> Step<Analysis> {
    (m, Some(unsupported_expression(e)))
}

/// What the pass does on entering a statement, before it looks at what is
/// nested in it: an assignment goes to the binding rule, a compound statement
/// is passed through, a bare expression goes to the expression rule, and any
/// other statement stops the pass.
pub open spec fn enter_step(m: Analysis, s: StatementView) -> Step<Analysis> {
    match s {
        StatementView::AssignStatement(a) => assign_step(m, a),
        StatementView::ExpressionStatement(e) => expr_stop(m, e),
        StatementView::IfStatement(_) => (m, None),
        StatementView::WhileStatement(_) => (m, None),
        StatementView::ForStatement(_) => (m, None),
        StatementView::WithStatement(_) => (m, None),
        StatementView::TryStatement(_) => (m, None),
        StatementView::TryStarStatement(_) => (m, None),
        StatementView::FunctionDef(_) => (m, None),
        StatementView::ClassDef(_) => (m, None),
        StatementView::Match(_) => (m, None),
        _ => (m, Some(unsupported_statement(s))),
    }
}

/// [`enter_step`] as a function value.
pub open spec fn entering() -> spec_fn(Analysis, StatementView) -> Step<Analysis> {
    |m: Analysis, s: StatementView| enter_step(m, s)
}

/// [`expr_stop`] as a function value.
pub open spec fn refusing() -> spec_fn(Analysis, ExpressionView) -> Step<Analysis> {
    |m: Analysis, e: ExpressionView| expr_stop(m, e)
}

/// The analysis of one statement at full depth.
pub open spec fn analyzed_stmt(m: Analysis, s: StatementView) -> Step<Analysis> {
    full_walk(entering(), refusing(), m, s)
}

/// The analysis of a statement list at full depth, going on from `from`.
pub open spec fn analyzed_block(from: Step<Analysis>, block: Seq<StatementView>) -> Step<Analysis> {
    full_walk_block(entering(), refusing(), from, block)
}

/// An assignment to one plain name binds that name and nothing else. After
/// the analysis of `x = value` the table holds one record for `x`: it has the
/// name `x`, the assignment as the statement that bound it, and is not
/// public. Every other name has the record it had before.
pub proof fn lemma_assignment_binds_its_target(m: Analysis, a: AssignView, x: Seq<char>)
    requires
        a.targets.len() == 1,
        a.targets[0] matches ExpressionView::Name(n) && n.id == x,
    ensures
        analyzed_stmt(m, StatementView::AssignStatement(a)).1 is None,
        ({
            let after = analyzed_stmt(m, StatementView::AssignStatement(a)).0;
            &&& after.names.symbols.dom().contains(x)
            &&& after.names.symbols[x].name == x
            &&& after.names.symbols[x].node == StatementView::AssignStatement(a)
            &&& after.names.symbols[x].typ == expr_type(a.value)
            &&& !after.names.symbols[x].module_public
            &&& after.names.symbols == m.names.symbols.insert(x, assigned_symbol(x, a, m.scope))
            &&& after.scope == m.scope
        }),
{
    reveal(full_walk);
}

/// An assignment that is not to exactly one plain name is refused, and the
/// table stays as it was: no record is added for any of its targets.
pub proof fn lemma_unsupported_assignment_binds_nothing(m: Analysis, a: AssignView)
    requires
        a.targets.len() != 1 || !(a.targets[0] is Name),
    ensures
        analyzed_stmt(m, StatementView::AssignStatement(a)).1 is Some,
        analyzed_stmt(m, StatementView::AssignStatement(a)).0 == m,
{
    reveal(full_walk);
}

/// Whether the pass passes through `s` to what is nested in it.
pub open spec fn is_compound(s: StatementView) -> bool {
    ||| s is IfStatement
    ||| s is WhileStatement
    ||| s is ForStatement
    ||| s is WithStatement
    ||| s is TryStatement
    ||| s is TryStarStatement
    ||| s is FunctionDef
    ||| s is ClassDef
    ||| s is Match
}

/// On a compound statement the pass does what the structural default of the
/// traversal contract does with the steps of this pass: it visits every
/// nested statement list, and for `with` the item expressions, once and in
/// order.
pub proof fn lemma_analysis_follows_the_structural_default(m: Analysis, s: StatementView)
    requires
        is_compound(s),
    ensures
        analyzed_stmt(m, s) == structural_step(
            |m: Analysis, s: StatementView| SemanticAnalyzer::stmt_step(m, s),
            |m: Analysis, e: ExpressionView| SemanticAnalyzer::expr_step(m, e),
            m,
            s,
        ),
{
    let stmt_step = |m: Analysis, s: StatementView| SemanticAnalyzer::stmt_step(m, s);
    let expr_step = |m: Analysis, e: ExpressionView| SemanticAnalyzer::expr_step(m, e);
    assert(stmt_step =~= deep(entering(), refusing()));
    assert(expr_step =~= refusing());
    lemma_full_walk_is_structural(entering(), refusing(), m, s);
}

/// The names that the targets bind, in order, or the error for the first
/// target that is not a plain name.
pub open spec fn bind_names(targets: Seq<ExpressionView>) -> Result<Seq<Seq<char>>, Unsupported>
    decreases targets.len(),
{
    if targets.len() == 0 {
        Ok(Seq::empty())
    } else {
        match bind_names(targets.drop_last()) {
            Err(e) => Err(e),
            Ok(names) => match target_name(targets.last()) {
                Err(e) => Err(e),
                Ok(name) => Ok(names.push(name)),
            },
        }
    }
}

/// The names that a statement defines. An assignment defines the names of its
/// targets; no other statement has a rule.
pub open spec fn defined_names(s: StatementView) -> Result<Seq<Seq<char>>, Unsupported> {
    match s {
        StatementView::AssignStatement(a) => bind_names(a.targets),
        _ => Err(unsupported_statement(s)),
    }
}

/// A result with its names taken as sequences of characters.
pub open spec fn names_chars(r: Result<Vec<String>, Unsupported>) -> Result<
    Seq<Seq<char>>,
    Unsupported,
> {
    match r {
        Ok(names) => Ok(strings_view(names@)),
        Err(e) => Err(e),
    }
}

/// The names that the targets bind, in order.
fn bind_target_names(targets: &Vec<Expression>) -> (res: Result<Vec<String>, Unsupported>)
    ensures
        names_chars(res) == bind_names(expressions_view(targets@)),
{
    let ghost all = expressions_view(targets@);
    let mut names: Vec<String> = Vec::new();
    let mut k: usize = 0;
    proof {
        assert(all.take(0) =~= Seq::empty());
        assert(strings_view(names@) =~= Seq::empty());
    }
    while k < targets.len()
        invariant
            k <= targets.len(),
            all == expressions_view(targets@),
            bind_names(all.take(k as int)) == Ok::<Seq<Seq<char>>, Unsupported>(strings_view(names@)),
        decreases targets.len() - k,
    {
        proof {
            assert(all.take(k as int + 1).drop_last() =~= all.take(k as int));
            assert(all.take(k as int + 1).last() == all[k as int]);
        }
        match get_expr_bind_name(&targets[k]) {
            Ok(name) => {
                proof {
                    assert(strings_view(names@.push(name)) =~= strings_view(names@).push(name@));
                }
                names.push(name);
            },
            Err(e) => {
                proof {
                    lemma_bind_names_stays_refused(all, k as int + 1);
                }
                return Err(e);
            },
        }
        k = k + 1;
    }
    proof {
        assert(all.take(k as int) =~= all);
    }
    Ok(names)
}

/// Get defined names in the statement. A single statement can define more
/// than one symbol, e.g. `a = b = 1`.
pub fn get_names(statement: &Statement) -> (res: Result<Vec<String>, Unsupported>)
    ensures
        names_chars(res) == defined_names(statement@),
{
    match statement {
        Statement::AssignStatement(a) => bind_target_names(&a.targets),
        _ => Err(
            Unsupported { construct: Construct::Statement(statement.kind()), node: statement.node() },
        ),
    }
}

/// Once a prefix of the targets is refused, so is the whole, with the same
/// error.
proof fn lemma_bind_names_stays_refused(targets: Seq<ExpressionView>, k: int)
    requires
        0 <= k <= targets.len(),
        bind_names(targets.take(k)) is Err,
    ensures
        bind_names(targets) == bind_names(targets.take(k)),
    decreases targets.len() - k,
{
    if k == targets.len() {
        assert(targets.take(k) =~= targets);
    } else {
        assert(targets.take(k + 1).drop_last() =~= targets.take(k));
        lemma_bind_names_stays_refused(targets, k + 1);
    }
}

/// The name that an expression binds when it stands as an assignment target.
pub fn get_expr_bind_name(expr: &Expression) -> (res: Result<String, Unsupported>)
    ensures
        name_chars(res) == target_name(expr@),
{
    get_target_name(expr)
}

/// The pass over one file. It owns the file for the time of the pass; the
/// result is the symbol table of `state.file`.
#[derive(Debug)]
pub struct SemanticAnalyzer {
    pub state: State,
    pub scope: SymbolScope,
}

impl SemanticAnalyzer {
    /// An analyzer for the file of `state`, recording in the global scope.
    pub fn new(state: State) -> (analyzer: Self)
        ensures
            analyzer.state == state,
            analyzer.scope == SymbolScope::Global,
    {
        SemanticAnalyzer { state, scope: SymbolScope::Global }
    }

    /// Whether `self` and `other` differ in nothing but the contents of the
    /// symbol table: the pass changes nothing else.
    pub open spec fn same_unit(self, other: Self) -> bool {
        &&& self.state.file.ast == other.state.file.ast
        &&& self.state.file.imports == other.state.file.imports
        &&& self.state.file.defs == other.state.file.defs
        &&& self.scope == other.scope
    }

    /// Analyzes the definitions of the file in order, each at full depth, and
    /// stops at the first construct that the pass has no rule for.
    pub fn analyze(&mut self) -> (res: Result<(), Unsupported>)
        ensures
            (final(self).model(), stopped(res)) == analyzed_block(
                (old(self).model(), None),
                old(self).state.file@.defs,
            ),
            final(self).same_unit(*old(self)),
    {
        // The definitions are taken out of the file for the walk, which needs
        // the analyzer as a whole, and are put back after it.
        let mut defs: Vec<Statement> = Vec::new();
        core::mem::swap(&mut defs, &mut self.state.file.defs);
        let ghost emptied = *self;
        let res = self.walk_block(&defs);
        assert(self.same_unit(emptied));
        core::mem::swap(&mut defs, &mut self.state.file.defs);
        res
    }

    /// Records that `name` is bound by the statement `node` to a value of the
    /// coarse type `node_type`, in the current scope.
    pub fn add_expression_to_symbol_table(
        &mut self,
        name: String,
        node_type: NodeType,
        node: Statement,
        public: bool,
    )
        ensures
            final(self).model() == with_symbol(
                old(self).model(),
                name@,
                SymbolTableNodeView {
                    name: name@,
                    node: node@,
                    typ: node_type,
                    module_public: public,
                    module_hidden: false,
                    implicit: false,
                    scope: old(self).scope,
                },
            ),
            final(self).same_unit(*old(self)),
    {
        let symbol_node = SymbolTableNode {
            name: name.clone(),
            node,
            typ: node_type,
            module_public: public,
            module_hidden: false,
            implicit: false,
            scope: self.scope,
        };
        self.state.file.names.add_symbol(name, symbol_node);
    }

    fn walk_block(&mut self, body: &Vec<Statement>) -> (res: Result<(), Unsupported>)
        ensures
            (final(self).model(), stopped(res)) == analyzed_block(
                (old(self).model(), None),
                statements_view(body@),
            ),
            final(self).same_unit(*old(self)),
        decreases body,
    {
        let ghost all = statements_view(body@);
        let mut k: usize = 0;
        assert(all.skip(0) =~= all);
        while k < body.len()
            invariant
                k <= body.len(),
                all == statements_view(body@),
                self.same_unit(*old(self)),
                analyzed_block((old(self).model(), None), all) == analyzed_block(
                    (self.model(), None),
                    all.skip(k as int),
                ),
            decreases body.len() - k,
        {
            let ghost before = self.model();
            proof {
                assert(all.skip(k as int)[0] == body@[k as int]@);
                assert(all.skip(k as int).drop_first() =~= all.skip(k as int + 1));
                lemma_full_walk_block_step(
                    entering(),
                    refusing(),
                    (before, None),
                    all.skip(k as int),
                );
                lemma_full_walk_block_step(
                    entering(),
                    refusing(),
                    analyzed_stmt(before, all.skip(k as int)[0]),
                    all.skip(k as int + 1),
                );
            }
            self.visit_stmt(&body[k])?;
            k = k + 1;
        }
        proof {
            lemma_full_walk_block_step(
                entering(),
                refusing(),
                (self.model(), None),
                all.skip(k as int),
            );
        }
        Ok(())
    }

    fn walk_handlers(&mut self, handlers: &Vec<ExceptHandler>) -> (res: Result<(), Unsupported>)
        ensures
            (final(self).model(), stopped(res)) == full_walk_handlers(
                entering(),
                refusing(),
                (old(self).model(), None),
                except_handlers_view(handlers@),
            ),
            final(self).same_unit(*old(self)),
        decreases handlers,
    {
        let ghost all = except_handlers_view(handlers@);
        let mut k: usize = 0;
        assert(all.skip(0) =~= all);
        while k < handlers.len()
            invariant
                k <= handlers.len(),
                all == except_handlers_view(handlers@),
                self.same_unit(*old(self)),
                full_walk_handlers(entering(), refusing(), (old(self).model(), None), all)
                    == full_walk_handlers(
                    entering(),
                    refusing(),
                    (self.model(), None),
                    all.skip(k as int),
                ),
            decreases handlers.len() - k,
        {
            let ghost before = self.model();
            proof {
                assert(all.skip(k as int)[0].body == statements_view(handlers@[k as int].body@));
                assert(all.skip(k as int).drop_first() =~= all.skip(k as int + 1));
                lemma_full_walk_handlers_step(
                    entering(),
                    refusing(),
                    (before, None),
                    all.skip(k as int),
                );
                lemma_full_walk_handlers_step(
                    entering(),
                    refusing(),
                    analyzed_block((before, None), all.skip(k as int)[0].body),
                    all.skip(k as int + 1),
                );
            }
            self.walk_block(&handlers[k].body)?;
            k = k + 1;
        }
        proof {
            lemma_full_walk_handlers_step(
                entering(),
                refusing(),
                (self.model(), None),
                all.skip(k as int),
            );
        }
        Ok(())
    }

    fn walk_cases(&mut self, cases: &Vec<MatchCase>) -> (res: Result<(), Unsupported>)
        ensures
            (final(self).model(), stopped(res)) == full_walk_cases(
                entering(),
                refusing(),
                (old(self).model(), None),
                match_cases_view(cases@),
            ),
            final(self).same_unit(*old(self)),
        decreases cases,
    {
        let ghost all = match_cases_view(cases@);
        let mut k: usize = 0;
        assert(all.skip(0) =~= all);
        while k < cases.len()
            invariant
                k <= cases.len(),
                all == match_cases_view(cases@),
                self.same_unit(*old(self)),
                full_walk_cases(entering(), refusing(), (old(self).model(), None), all)
                    == full_walk_cases(
                    entering(),
                    refusing(),
                    (self.model(), None),
                    all.skip(k as int),
                ),
            decreases cases.len() - k,
        {
            let ghost before = self.model();
            proof {
                assert(all.skip(k as int)[0].body == statements_view(cases@[k as int].body@));
                assert(all.skip(k as int).drop_first() =~= all.skip(k as int + 1));
                lemma_full_walk_cases_step(
                    entering(),
                    refusing(),
                    (before, None),
                    all.skip(k as int),
                );
                lemma_full_walk_cases_step(
                    entering(),
                    refusing(),
                    analyzed_block((before, None), all.skip(k as int)[0].body),
                    all.skip(k as int + 1),
                );
            }
            self.walk_block(&cases[k].body)?;
            k = k + 1;
        }
        proof {
            lemma_full_walk_cases_step(
                entering(),
                refusing(),
                (self.model(), None),
                all.skip(k as int),
            );
        }
        Ok(())
    }

    fn walk_with_items(&mut self, items: &Vec<WithItem>) -> (res: Result<(), Unsupported>)
        ensures
            (final(self).model(), stopped(res)) == walk(
                refusing(),
                old(self).model(),
                items_expressions(with_items_view(items@)),
            ),
            final(self).same_unit(*old(self)),
    {
        let ghost all = with_items_view(items@);
        let mut k: usize = 0;
        assert(all.skip(0) =~= all);
        while k < items.len()
            invariant
                k <= items.len(),
                all == with_items_view(items@),
                self.same_unit(*old(self)),
                walk(refusing(), old(self).model(), items_expressions(all)) == walk(
                    refusing(),
                    self.model(),
                    items_expressions(all.skip(k as int)),
                ),
            decreases items.len() - k,
        {
            let item = &items[k];
            let ghost here = all.skip(k as int)[0];
            proof {
                assert(here == item@);
                assert(all.skip(k as int).drop_first() =~= all.skip(k as int + 1));
                lemma_walk_concat(
                    refusing(),
                    self.model(),
                    item_expressions(here),
                    items_expressions(all.skip(k as int + 1)),
                );
                reveal_with_fuel(walk, 3);
            }
            self.visit_expr(&item.context_expr)?;
            match &item.optional_vars {
                Some(vars) => {
                    self.visit_expr(vars)?;
                    proof {
                        assert(item_expressions(here).drop_first().drop_first() =~= Seq::empty());
                    }
                },
                None => {
                    proof {
                        assert(item_expressions(here).drop_first() =~= Seq::empty());
                    }
                },
            }
            k = k + 1;
        }
        Ok(())
    }
}

impl TraversalVisitor for SemanticAnalyzer {
    type Model = Analysis;

    open spec fn model(&self) -> Analysis {
        Analysis { names: self.state.file.names@, scope: self.scope }
    }

    open spec fn stmt_step(m: Analysis, s: StatementView) -> Step<Analysis> {
        analyzed_stmt(m, s)
    }

    open spec fn expr_step(m: Analysis, e: ExpressionView) -> Step<Analysis> {
        expr_stop(m, e)
    }

    fn visit_stmt(&mut self, s: &Statement) -> (res: Result<(), Unsupported>)
        ensures
            final(self).same_unit(*old(self)),
        decreases s,
    {
        proof {
            reveal(full_walk);
            assert(Self::stmt_step(self.model(), s@) == analyzed_stmt(self.model(), s@));
        }
        // map all statements and call visit
        match s {
            Statement::ExpressionStatement(e) => self.visit_expr(e),
            Statement::Import(x) => self.visit_import(x),
            Statement::ImportFrom(x) => self.visit_import_from(x),
            Statement::AssignStatement(x) => self.visit_assign(x),
            Statement::AnnAssignStatement(x) => self.visit_ann_assign(x),
            Statement::AugAssignStatement(x) => self.visit_aug_assign(x),
            Statement::Assert(x) => self.visit_assert(x),
            Statement::Pass(x) => self.visit_pass(x),
            Statement::Delete(x) => self.visit_delete(x),
            Statement::Return(x) => self.visit_return(x),
            Statement::Raise(x) => self.visit_raise(x),
            Statement::Break(x) => self.visit_break(x),
            Statement::Continue(x) => self.visit_continue(x),
            Statement::Global(x) => self.visit_global(x),
            Statement::Nonlocal(x) => self.visit_nonlocal(x),
            Statement::IfStatement(x) => self.visit_if(x),
            Statement::WhileStatement(x) => self.visit_while(x),
            Statement::ForStatement(x) => self.visit_for(x),
            Statement::WithStatement(x) => self.visit_with(x),
            Statement::TryStatement(x) => self.visit_try(x),
            Statement::TryStarStatement(x) => self.visit_try_star(x),
            Statement::FunctionDef(x) => self.visit_function_def(x),
            Statement::ClassDef(x) => self.visit_class_def(x),
            Statement::Match(x) => self.visit_match(x),
        }
    }

    fn visit_expr(&mut self, e: &Expression) -> (res: Result<(), Unsupported>)
        ensures
            *final(self) == *old(self),
            res == Err::<(), Unsupported>(unsupported_expression(e@)),
    {
        proof {
            assert(Self::expr_step(self.model(), e@) == expr_stop(self.model(), e@));
        }
        match e {
            Expression::Constant(x) => self.visit_constant(x),
            Expression::List(x) => self.visit_list(x),
            Expression::Tuple(x) => self.visit_tuple(x),
            Expression::Dict(x) => self.visit_dict(x),
            Expression::SetExpr(x) => self.visit_set(x),
            Expression::Name(x) => self.visit_name(x),
            Expression::BoolOp(x) => self.visit_bool_op(x),
            Expression::UnaryOp(x) => self.visit_unary_op(x),
            Expression::BinOp(x) => self.visit_bin_op(x),
            Expression::NamedExpr(x) => self.visit_named_expr(x),
            Expression::Yield(x) => self.visit_yield(x),
            Expression::YieldFrom(x) => self.visit_yield_from(x),
            Expression::Starred(x) => self.visit_starred(x),
            Expression::Generator(x) => self.visit_generator(x),
            Expression::ListComp(x) => self.visit_list_comp(x),
            Expression::SetComp(x) => self.visit_set_comp(x),
            Expression::DictComp(x) => self.visit_dict_comp(x),
            Expression::Attribute(x) => self.visit_attribute(x),
            Expression::Subscript(x) => self.visit_subscript(x),
            Expression::Slice(x) => self.visit_slice(x),
            Expression::Call(x) => self.visit_call(x),
            Expression::Await(x) => self.visit_await(x),
            Expression::Compare(x) => self.visit_compare(x),
            Expression::Lambda(x) => self.visit_lambda(x),
            Expression::IfExp(x) => self.visit_if_exp(x),
            Expression::JoinedStr(x) => self.visit_joined_str(x),
            Expression::FormattedValue(x) => self.visit_formatted_value(x),
        }
    }

    fn visit_import(&mut self, i: &Import) -> (res: Result<(), Unsupported>)
        ensures
            *final(self) == *old(self),
            res == Err::<(), Unsupported>(unsupported_statement(StatementView::Import(i@))),
    {
        Err(Unsupported { construct: Construct::Statement(StatementKind::Import), node: i.node })
    }

    fn visit_import_from(&mut self, i: &ImportFrom) -> (res: Result<(), Unsupported>)
        ensures
            *final(self) == *old(self),
            res == Err::<(), Unsupported>(unsupported_statement(StatementView::ImportFrom(i@))),
    {
        Err(Unsupported { construct: Construct::Statement(StatementKind::ImportFrom), node: i.node })
    }

    fn visit_if(&mut self, i: &If) -> (res: Result<(), Unsupported>)
        ensures
            (final(self).model(), stopped(res)) == analyzed_stmt(
                old(self).model(),
                StatementView::IfStatement(i@),
            ),
            final(self).same_unit(*old(self)),
        decreases i,
    {
        proof {
            reveal(full_walk);
            lemma_stop_is_final(entering(), refusing());
        }
        self.walk_block(&i.body)?;
        self.walk_block(&i.orelse)
    }

    fn visit_while(&mut self, w: &While) -> (res: Result<(), Unsupported>)
        ensures
            (final(self).model(), stopped(res)) == analyzed_stmt(
                old(self).model(),
                StatementView::WhileStatement(w@),
            ),
            final(self).same_unit(*old(self)),
        decreases w,
    {
        proof {
            reveal(full_walk);
            lemma_stop_is_final(entering(), refusing());
        }
        self.walk_block(&w.body)?;
        self.walk_block(&w.orelse)
    }

    fn visit_for(&mut self, f: &For) -> (res: Result<(), Unsupported>)
        ensures
            (final(self).model(), stopped(res)) == analyzed_stmt(
                old(self).model(),
                StatementView::ForStatement(f@),
            ),
            final(self).same_unit(*old(self)),
        decreases f,
    {
        proof {
            reveal(full_walk);
            lemma_stop_is_final(entering(), refusing());
        }
        self.walk_block(&f.body)?;
        self.walk_block(&f.orelse)
    }

    fn visit_with(&mut self, w: &With) -> (res: Result<(), Unsupported>)
        ensures
            (final(self).model(), stopped(res)) == analyzed_stmt(
                old(self).model(),
                StatementView::WithStatement(w@),
            ),
            final(self).same_unit(*old(self)),
        decreases w,
    {
        proof {
            reveal(full_walk);
            lemma_stop_is_final(entering(), refusing());
        }
        self.walk_block(&w.body)?;
        self.walk_with_items(&w.items)
    }

    fn visit_try(&mut self, t: &Try) -> (res: Result<(), Unsupported>)
        ensures
            (final(self).model(), stopped(res)) == analyzed_stmt(
                old(self).model(),
                StatementView::TryStatement(t@),
            ),
            final(self).same_unit(*old(self)),
        decreases t,
    {
        proof {
            reveal(full_walk);
            lemma_stop_is_final(entering(), refusing());
        }
        self.walk_block(&t.body)?;
        self.walk_block(&t.orelse)?;
        self.walk_block(&t.finalbody)?;
        self.walk_handlers(&t.handlers)
    }

    fn visit_try_star(&mut self, t: &TryStar) -> (res: Result<(), Unsupported>)
        ensures
            (final(self).model(), stopped(res)) == analyzed_stmt(
                old(self).model(),
                StatementView::TryStarStatement(t@),
            ),
            final(self).same_unit(*old(self)),
        decreases t,
    {
        proof {
            reveal(full_walk);
            lemma_stop_is_final(entering(), refusing());
        }
        self.walk_block(&t.body)?;
        self.walk_block(&t.orelse)?;
        self.walk_block(&t.finalbody)?;
        self.walk_handlers(&t.handlers)
    }

    fn visit_function_def(&mut self, f: &FunctionDef) -> (res: Result<(), Unsupported>)
        ensures
            (final(self).model(), stopped(res)) == analyzed_stmt(
                old(self).model(),
                StatementView::FunctionDef(f@),
            ),
            final(self).same_unit(*old(self)),
        decreases f,
    {
        proof {
            reveal(full_walk);
            lemma_stop_is_final(entering(), refusing());
        }
        self.walk_block(&f.body)
    }

    fn visit_class_def(&mut self, c: &ClassDef) -> (res: Result<(), Unsupported>)
        ensures
            (final(self).model(), stopped(res)) == analyzed_stmt(
                old(self).model(),
                StatementView::ClassDef(c@),
            ),
            final(self).same_unit(*old(self)),
        decreases c,
    {
        proof {
            reveal(full_walk);
            lemma_stop_is_final(entering(), refusing());
        }
        self.walk_block(&c.body)
    }

    fn visit_match(&mut self, m: &Match) -> (res: Result<(), Unsupported>)
        ensures
            (final(self).model(), stopped(res)) == analyzed_stmt(
                old(self).model(),
                StatementView::Match(m@),
            ),
            final(self).same_unit(*old(self)),
        decreases m,
    {
        proof {
            reveal(full_walk);
            lemma_stop_is_final(entering(), refusing());
        }
        self.walk_cases(&m.cases)
    }

    fn visit_constant(&mut self, c: &Constant) -> (res: Result<(), Unsupported>)
        ensures
            *final(self) == *old(self),
            res == Err::<(), Unsupported>(
                Unsupported { construct: Construct::Expression(ExpressionKind::Constant), node: c.node },
            ),
    {
        Err(Unsupported { construct: Construct::Expression(ExpressionKind::Constant), node: c.node })
    }

    fn visit_list(&mut self, l: &List) -> (res: Result<(), Unsupported>)
        ensures
            *final(self) == *old(self),
            res == Err::<(), Unsupported>(
                Unsupported { construct: Construct::Expression(ExpressionKind::List), node: l.node },
            ),
    {
        Err(Unsupported { construct: Construct::Expression(ExpressionKind::List), node: l.node })
    }

    fn visit_tuple(&mut self, t: &Tuple) -> (res: Result<(), Unsupported>)
        ensures
            *final(self) == *old(self),
            res == Err::<(), Unsupported>(
                Unsupported { construct: Construct::Expression(ExpressionKind::Tuple), node: t.node },
            ),
    {
        Err(Unsupported { construct: Construct::Expression(ExpressionKind::Tuple), node: t.node })
    }

    fn visit_dict(&mut self, d: &Dict) -> (res: Result<(), Unsupported>)
        ensures
            *final(self) == *old(self),
            res == Err::<(), Unsupported>(
                Unsupported { construct: Construct::Expression(ExpressionKind::Dict), node: d.node },
            ),
    {
        Err(Unsupported { construct: Construct::Expression(ExpressionKind::Dict), node: d.node })
    }

    fn visit_set(&mut self, s: &SetExpr) -> (res: Result<(), Unsupported>)
        ensures
            *final(self) == *old(self),
            res == Err::<(), Unsupported>(
                Unsupported { construct: Construct::Expression(ExpressionKind::SetExpr), node: s.node },
            ),
    {
        Err(Unsupported { construct: Construct::Expression(ExpressionKind::SetExpr), node: s.node })
    }

    fn visit_name(&mut self, n: &Name) -> (res: Result<(), Unsupported>)
        ensures
            *final(self) == *old(self),
            res == Err::<(), Unsupported>(
                Unsupported { construct: Construct::Expression(ExpressionKind::Name), node: n.node },
            ),
    {
        Err(Unsupported { construct: Construct::Expression(ExpressionKind::Name), node: n.node })
    }

    fn visit_bool_op(&mut self, b: &BoolOperation) -> (res: Result<(), Unsupported>)
        ensures
            *final(self) == *old(self),
            res == Err::<(), Unsupported>(
                Unsupported { construct: Construct::Expression(ExpressionKind::BoolOp), node: b.node },
            ),
    {
        Err(Unsupported { construct: Construct::Expression(ExpressionKind::BoolOp), node: b.node })
    }

    fn visit_unary_op(&mut self, u: &UnaryOperation) -> (res: Result<(), Unsupported>)
        ensures
            *final(self) == *old(self),
            res == Err::<(), Unsupported>(
                Unsupported { construct: Construct::Expression(ExpressionKind::UnaryOp), node: u.node },
            ),
    {
        Err(Unsupported { construct: Construct::Expression(ExpressionKind::UnaryOp), node: u.node })
    }

    fn visit_bin_op(&mut self, b: &BinOp) -> (res: Result<(), Unsupported>)
        ensures
            *final(self) == *old(self),
            res == Err::<(), Unsupported>(
                Unsupported { construct: Construct::Expression(ExpressionKind::BinOp), node: b.node },
            ),
    {
        Err(Unsupported { construct: Construct::Expression(ExpressionKind::BinOp), node: b.node })
    }

    fn visit_named_expr(&mut self, n: &NamedExpression) -> (res: Result<(), Unsupported>)
        ensures
            *final(self) == *old(self),
            res == Err::<(), Unsupported>(
                Unsupported { construct: Construct::Expression(ExpressionKind::NamedExpr), node: n.node },
            ),
    {
        Err(Unsupported { construct: Construct::Expression(ExpressionKind::NamedExpr), node: n.node })
    }

    fn visit_yield(&mut self, y: &Yield) -> (res: Result<(), Unsupported>)
        ensures
            *final(self) == *old(self),
            res == Err::<(), Unsupported>(
                Unsupported { construct: Construct::Expression(ExpressionKind::Yield), node: y.node },
            ),
    {
        Err(Unsupported { construct: Construct::Expression(ExpressionKind::Yield), node: y.node })
    }

    fn visit_yield_from(&mut self, y: &YieldFrom) -> (res: Result<(), Unsupported>)
        ensures
            *final(self) == *old(self),
            res == Err::<(), Unsupported>(
                Unsupported { construct: Construct::Expression(ExpressionKind::YieldFrom), node: y.node },
            ),
    {
        Err(Unsupported { construct: Construct::Expression(ExpressionKind::YieldFrom), node: y.node })
    }

    fn visit_starred(&mut self, s: &Starred) -> (res: Result<(), Unsupported>)
        ensures
            *final(self) == *old(self),
            res == Err::<(), Unsupported>(
                Unsupported { construct: Construct::Expression(ExpressionKind::Starred), node: s.node },
            ),
    {
        Err(Unsupported { construct: Construct::Expression(ExpressionKind::Starred), node: s.node })
    }

    fn visit_generator(&mut self, g: &Generator) -> (res: Result<(), Unsupported>)
        ensures
            *final(self) == *old(self),
            res == Err::<(), Unsupported>(
                Unsupported { construct: Construct::Expression(ExpressionKind::Generator), node: g.node },
            ),
    {
        Err(Unsupported { construct: Construct::Expression(ExpressionKind::Generator), node: g.node })
    }

    fn visit_list_comp(&mut self, l: &ListComp) -> (res: Result<(), Unsupported>)
        ensures
            *final(self) == *old(self),
            res == Err::<(), Unsupported>(
                Unsupported { construct: Construct::Expression(ExpressionKind::ListComp), node: l.node },
            ),
    {
        Err(Unsupported { construct: Construct::Expression(ExpressionKind::ListComp), node: l.node })
    }

    fn visit_set_comp(&mut self, s: &SetComp) -> (res: Result<(), Unsupported>)
        ensures
            *final(self) == *old(self),
            res == Err::<(), Unsupported>(
                Unsupported { construct: Construct::Expression(ExpressionKind::SetComp), node: s.node },
            ),
    {
        Err(Unsupported { construct: Construct::Expression(ExpressionKind::SetComp), node: s.node })
    }

    fn visit_dict_comp(&mut self, d: &DictComp) -> (res: Result<(), Unsupported>)
        ensures
            *final(self) == *old(self),
            res == Err::<(), Unsupported>(
                Unsupported { construct: Construct::Expression(ExpressionKind::DictComp), node: d.node },
            ),
    {
        Err(Unsupported { construct: Construct::Expression(ExpressionKind::DictComp), node: d.node })
    }

    fn visit_attribute(&mut self, a: &Attribute) -> (res: Result<(), Unsupported>)
        ensures
            *final(self) == *old(self),
            res == Err::<(), Unsupported>(
                Unsupported { construct: Construct::Expression(ExpressionKind::Attribute), node: a.node },
            ),
    {
        Err(Unsupported { construct: Construct::Expression(ExpressionKind::Attribute), node: a.node })
    }

    fn visit_subscript(&mut self, s: &Subscript) -> (res: Result<(), Unsupported>)
        ensures
            *final(self) == *old(self),
            res == Err::<(), Unsupported>(
                Unsupported { construct: Construct::Expression(ExpressionKind::Subscript), node: s.node },
            ),
    {
        Err(Unsupported { construct: Construct::Expression(ExpressionKind::Subscript), node: s.node })
    }

    fn visit_slice(&mut self, s: &Slice) -> (res: Result<(), Unsupported>)
        ensures
            *final(self) == *old(self),
            res == Err::<(), Unsupported>(
                Unsupported { construct: Construct::Expression(ExpressionKind::Slice), node: s.node },
            ),
    {
        Err(Unsupported { construct: Construct::Expression(ExpressionKind::Slice), node: s.node })
    }

    fn visit_call(&mut self, c: &Call) -> (res: Result<(), Unsupported>)
        ensures
            *final(self) == *old(self),
            res == Err::<(), Unsupported>(
                Unsupported { construct: Construct::Expression(ExpressionKind::Call), node: c.node },
            ),
    {
        Err(Unsupported { construct: Construct::Expression(ExpressionKind::Call), node: c.node })
    }

    fn visit_await(&mut self, a: &Await) -> (res: Result<(), Unsupported>)
        ensures
            *final(self) == *old(self),
            res == Err::<(), Unsupported>(
                Unsupported { construct: Construct::Expression(ExpressionKind::Await), node: a.node },
            ),
    {
        Err(Unsupported { construct: Construct::Expression(ExpressionKind::Await), node: a.node })
    }

    fn visit_compare(&mut self, c: &Compare) -> (res: Result<(), Unsupported>)
        ensures
            *final(self) == *old(self),
            res == Err::<(), Unsupported>(
                Unsupported { construct: Construct::Expression(ExpressionKind::Compare), node: c.node },
            ),
    {
        Err(Unsupported { construct: Construct::Expression(ExpressionKind::Compare), node: c.node })
    }

    fn visit_lambda(&mut self, l: &Lambda) -> (res: Result<(), Unsupported>)
        ensures
            *final(self) == *old(self),
            res == Err::<(), Unsupported>(
                Unsupported { construct: Construct::Expression(ExpressionKind::Lambda), node: l.node },
            ),
    {
        Err(Unsupported { construct: Construct::Expression(ExpressionKind::Lambda), node: l.node })
    }

    fn visit_if_exp(&mut self, i: &IfExp) -> (res: Result<(), Unsupported>)
        ensures
            *final(self) == *old(self),
            res == Err::<(), Unsupported>(
                Unsupported { construct: Construct::Expression(ExpressionKind::IfExp), node: i.node },
            ),
    {
        Err(Unsupported { construct: Construct::Expression(ExpressionKind::IfExp), node: i.node })
    }

    fn visit_joined_str(&mut self, j: &JoinedStr) -> (res: Result<(), Unsupported>)
        ensures
            *final(self) == *old(self),
            res == Err::<(), Unsupported>(
                Unsupported { construct: Construct::Expression(ExpressionKind::JoinedStr), node: j.node },
            ),
    {
        Err(Unsupported { construct: Construct::Expression(ExpressionKind::JoinedStr), node: j.node })
    }

    fn visit_formatted_value(&mut self, f: &FormattedValue) -> (res: Result<(), Unsupported>)
        ensures
            *final(self) == *old(self),
            res == Err::<(), Unsupported>(
                Unsupported { construct: Construct::Expression(ExpressionKind::FormattedValue), node: f.node },
            ),
    {
        Err(Unsupported { construct: Construct::Expression(ExpressionKind::FormattedValue), node: f.node })
    }

    fn visit_alias(&mut self, a: &Alias) -> (res: Result<(), Unsupported>)
        ensures
            *final(self) == *old(self),
            res == Err::<(), Unsupported>(Unsupported { construct: Construct::Alias, node: a.node }),
    {
        Err(Unsupported { construct: Construct::Alias, node: a.node })
    }

    /// Binds the name of the sole target to the assignment, with the coarse
    /// type of the value. An assignment with another number of targets, or
    /// with a target that is not a plain name, is refused and binds nothing.
    fn visit_assign(&mut self, a: &Assign) -> (res: Result<(), Unsupported>)
        ensures
            (final(self).model(), stopped(res)) == assign_step(old(self).model(), a@),
            final(self).same_unit(*old(self)),
    {
        if a.targets.len() > 1 {
            return Err(Unsupported { construct: Construct::MultipleTargets, node: a.node });
        }
        if a.targets.len() == 0 {
            return Err(Unsupported { construct: Construct::MissingTarget, node: a.node });
        }
        assert(a@.targets[0] == a.targets@[0]@);
        let name = get_target_name(&a.targets[0])?;
        let nt = get_expr_type(&a.value);
        self.add_expression_to_symbol_table(name, nt, Statement::AssignStatement(a.clone()), false);
        Ok(())
    }

    fn visit_ann_assign(&mut self, a: &AnnAssign) -> (res: Result<(), Unsupported>)
        ensures
            *final(self) == *old(self),
            res == Err::<(), Unsupported>(unsupported_statement(StatementView::AnnAssignStatement(a@))),
    {
        Err(Unsupported { construct: Construct::Statement(StatementKind::AnnAssign), node: a.node })
    }

    fn visit_aug_assign(&mut self, a: &AugAssign) -> (res: Result<(), Unsupported>)
        ensures
            *final(self) == *old(self),
            res == Err::<(), Unsupported>(unsupported_statement(StatementView::AugAssignStatement(a@))),
    {
        Err(Unsupported { construct: Construct::Statement(StatementKind::AugAssign), node: a.node })
    }

    fn visit_assert(&mut self, a: &Assert) -> (res: Result<(), Unsupported>)
        ensures
            *final(self) == *old(self),
            res == Err::<(), Unsupported>(unsupported_statement(StatementView::Assert(a@))),
    {
        Err(Unsupported { construct: Construct::Statement(StatementKind::Assert), node: a.node })
    }

    fn visit_pass(&mut self, p: &Pass) -> (res: Result<(), Unsupported>)
        ensures
            *final(self) == *old(self),
            res == Err::<(), Unsupported>(unsupported_statement(StatementView::Pass(p@))),
    {
        Err(Unsupported { construct: Construct::Statement(StatementKind::Pass), node: p.node })
    }

    fn visit_delete(&mut self, d: &Delete) -> (res: Result<(), Unsupported>)
        ensures
            *final(self) == *old(self),
            res == Err::<(), Unsupported>(unsupported_statement(StatementView::Delete(d@))),
    {
        Err(Unsupported { construct: Construct::Statement(StatementKind::Delete), node: d.node })
    }

    fn visit_return(&mut self, r: &Return) -> (res: Result<(), Unsupported>)
        ensures
            *final(self) == *old(self),
            res == Err::<(), Unsupported>(unsupported_statement(StatementView::Return(r@))),
    {
        Err(Unsupported { construct: Construct::Statement(StatementKind::Return), node: r.node })
    }

    fn visit_raise(&mut self, r: &Raise) -> (res: Result<(), Unsupported>)
        ensures
            *final(self) == *old(self),
            res == Err::<(), Unsupported>(unsupported_statement(StatementView::Raise(r@))),
    {
        Err(Unsupported { construct: Construct::Statement(StatementKind::Raise), node: r.node })
    }

    fn visit_break(&mut self, b: &Break) -> (res: Result<(), Unsupported>)
        ensures
            *final(self) == *old(self),
            res == Err::<(), Unsupported>(unsupported_statement(StatementView::Break(b@))),
    {
        Err(Unsupported { construct: Construct::Statement(StatementKind::Break), node: b.node })
    }

    fn visit_continue(&mut self, c: &Continue) -> (res: Result<(), Unsupported>)
        ensures
            *final(self) == *old(self),
            res == Err::<(), Unsupported>(unsupported_statement(StatementView::Continue(c@))),
    {
        Err(Unsupported { construct: Construct::Statement(StatementKind::Continue), node: c.node })
    }

    fn visit_global(&mut self, g: &Global) -> (res: Result<(), Unsupported>)
        ensures
            *final(self) == *old(self),
            res == Err::<(), Unsupported>(unsupported_statement(StatementView::Global(g@))),
    {
        Err(Unsupported { construct: Construct::Statement(StatementKind::Global), node: g.node })
    }

    fn visit_nonlocal(&mut self, n: &Nonlocal) -> (res: Result<(), Unsupported>)
        ensures
            *final(self) == *old(self),
            res == Err::<(), Unsupported>(unsupported_statement(StatementView::Nonlocal(n@))),
    {
        Err(Unsupported { construct: Construct::Statement(StatementKind::Nonlocal), node: n.node })
    }

}

} // verus!
