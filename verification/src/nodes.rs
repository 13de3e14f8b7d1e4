//! The per-file unit that the later passes work on, and the converter that
//! builds it from a parsed module: the tree itself, an empty symbol table, and
//! the imports and function definitions found at the top level, in source
//! order.
use vstd::prelude::*;
use crate::ast::{
    Alias, AnnAssign, Assert, Assign, Attribute, AugAssign, Await, BinOp, BoolOperation, Break,
    Call, ClassDef, Compare, Constant, Continue, Delete, Dict, DictComp, Expression, For,
    FormattedValue, FunctionDef, Generator, Global, If, IfExp, Import, ImportFrom, JoinedStr,
    Lambda, List, ListComp, Match, Module, Name, NamedExpression, Nonlocal, Pass, Raise, Return,
    SetComp, SetExpr, Slice, Starred, Statement, Subscript, Try, TryStar, Tuple, UnaryOperation,
    While, With, Yield, YieldFrom,
};
use crate::ast_view::{
    statements_view, ExpressionView, ImportFromView, ImportView, ModuleView, StatementView,
};
use crate::ast_visitor::{Step, TraversalVisitor, Unsupported};
use crate::symbol_table::{SymbolTable, SymbolTableType, SymbolTableView};

verus! {

/// An import statement of either form.
#[derive(Debug)]
pub enum ImportKinds {
    Import(Import),
    ImportFrom(ImportFrom),
}

/// What an [`ImportKinds`] holds, as mathematical values.
pub enum ImportKindsView {
    Import(ImportView),
    ImportFrom(ImportFromView),
}

impl View for ImportKinds {
    type V = ImportKindsView;

    open spec fn view(&self) -> ImportKindsView {
        match self {
            ImportKinds::Import(i) => ImportKindsView::Import(i@),
            ImportKinds::ImportFrom(i) => ImportKindsView::ImportFrom(i@),
        }
    }
}

/// The views of the items of `v`, in order.
pub open spec fn import_kinds_view(v: Seq<ImportKinds>) -> Seq<ImportKindsView> {
    Seq::new(v.len(), |k: int| v[k]@)
}

/// One source file as the type checker holds it.
#[derive(Debug)]
pub struct EnderpyFile {
    pub ast: Module,
    pub names: SymbolTable,
    /// all the imports inside the file
    pub imports: Vec<ImportKinds>,
    /// high level definitions inside the file
    pub defs: Vec<Statement>,
}

/// What an [`EnderpyFile`] holds, as mathematical values.
pub struct EnderpyFileView {
    pub ast: ModuleView,
    pub names: SymbolTableView,
    pub imports: Seq<ImportKindsView>,
    pub defs: Seq<StatementView>,
}

impl View for EnderpyFile {
    type V = EnderpyFileView;

    open spec fn view(&self) -> EnderpyFileView {
        EnderpyFileView {
            ast: self.ast@,
            names: self.names@,
            imports: import_kinds_view(self.imports@),
            defs: statements_view(self.defs@),
        }
    }
}

/// Whether `s` is an import statement of either form.
pub open spec fn is_import(s: StatementView) -> bool {
    s is Import || s is ImportFrom
}

/// The import record of an import statement.
pub open spec fn as_import(s: StatementView) -> ImportKindsView
    recommends
        is_import(s),
{
    match s {
        StatementView::ImportFrom(i) => ImportKindsView::ImportFrom(i),
        StatementView::Import(i) => ImportKindsView::Import(i),
        _ => arbitrary(),
    }
}

/// Whether `s` is a function definition.
pub open spec fn is_def(s: StatementView) -> bool {
    s is FunctionDef
}

/// The import statements among `body`, in order, as import records. Only the
/// statements of `body` itself count, not what is nested in them.
pub open spec fn top_level_imports(body: Seq<StatementView>) -> Seq<ImportKindsView> {
    body.filter(|s: StatementView| is_import(s)).map_values(|s: StatementView| as_import(s))
}

/// The function definitions among `body`, in order. Only the statements of
/// `body` itself count, not what is nested in them.
pub open spec fn top_level_defs(body: Seq<StatementView>) -> Seq<StatementView> {
    body.filter(|s: StatementView| is_def(s))
}

/// What a converter has collected.
pub struct Collected {
    pub imports: Seq<ImportKindsView>,
    pub defs: Seq<StatementView>,
}

/// What a converter holds after it has seen the statement `s`: an import is
/// added to the imports, a function definition to the definitions, and any
/// other statement changes nothing.
pub open spec fn collect(c: Collected, s: StatementView) -> Collected {
    if is_import(s) {
        Collected { imports: c.imports.push(as_import(s)), defs: c.defs }
    } else if is_def(s) {
        Collected { imports: c.imports, defs: c.defs.push(s) }
    } else {
        c
    }
}

/// Seeing the statements of `body` one after the other adds the top-level
/// imports and definitions of `body` to what was collected before.
pub open spec fn collect_all(c: Collected, body: Seq<StatementView>) -> Collected {
    Collected {
        imports: c.imports + top_level_imports(body),
        defs: c.defs + top_level_defs(body),
    }
}

/// Taking one more statement of the body is one more `collect`.
proof fn lemma_collect_next(c: Collected, body: Seq<StatementView>, k: int)
    requires
        0 <= k < body.len(),
    ensures
        collect_all(c, body.take(k + 1)) == collect(collect_all(c, body.take(k)), body[k]),
{
    let front = body.take(k);
    let next = body.take(k + 1);
    assert(next.drop_last() =~= front);
    assert(next.last() == body[k]);
    reveal(Seq::filter);
    let imports = |s: StatementView| is_import(s);
    let defs = |s: StatementView| is_def(s);
    assert(next.filter(imports) == if is_import(body[k]) {
        front.filter(imports).push(body[k])
    } else {
        front.filter(imports)
    });
    assert(next.filter(defs) == if is_def(body[k]) {
        front.filter(defs).push(body[k])
    } else {
        front.filter(defs)
    });
    if is_import(body[k]) {
        assert(top_level_imports(next) =~= top_level_imports(front).push(as_import(body[k])));
        assert(collect_all(c, next).imports =~= collect_all(c, front).imports.push(
            as_import(body[k]),
        ));
    } else if is_def(body[k]) {
        assert(collect_all(c, next).defs =~= collect_all(c, front).defs.push(body[k]));
    }
}

/// The unit of a module: the tree itself, an empty table for the module
/// scope, which starts on line 1, and the top-level imports and definitions.
pub open spec fn converted(tree: ModuleView) -> EnderpyFileView {
    EnderpyFileView {
        ast: tree,
        names: SymbolTableView {
            symbol_table_type: SymbolTableType::Module,
            start_line_number: 1,
            symbols: Map::empty(),
        },
        imports: top_level_imports(tree.body),
        defs: top_level_defs(tree.body),
    }
}

/// Whether `positions` are places in a body of `len` statements, each after
/// the one before.
pub open spec fn in_source_order(positions: Seq<int>, len: nat) -> bool {
    &&& forall|j: int| 0 <= j < positions.len() ==> 0 <= #[trigger] positions[j] < len
    &&& forall|i: int, j: int|
        0 <= i < j < positions.len() ==> #[trigger] positions[i] < #[trigger] positions[j]
}

/// The converter collects no more than there is: the imports and the
/// definitions together are at most as many as the top-level statements.
pub proof fn lemma_partition_bound(body: Seq<StatementView>)
    ensures
        top_level_imports(body).len() + top_level_defs(body).len() <= body.len(),
    decreases body.len(),
{
    reveal(Seq::filter);
    if body.len() > 0 {
        lemma_partition_bound(body.drop_last());
    }
}

/// Every collected import and every collected definition is a top-level
/// statement of the body, each another one, and they stand in the lists in
/// the order in which they stand in the body. The lemma returns the places of
/// the imports and the places of the definitions.
pub proof fn lemma_collected_in_source_order(body: Seq<StatementView>) -> (places: (
    Seq<int>,
    Seq<int>,
))
    ensures
        places.0.len() == top_level_imports(body).len(),
        places.1.len() == top_level_defs(body).len(),
        in_source_order(places.0, body.len()),
        in_source_order(places.1, body.len()),
        forall|j: int|
            0 <= j < places.0.len() ==> is_import(body[#[trigger] places.0[j]])
                && top_level_imports(body)[j] == as_import(body[places.0[j]]),
        forall|j: int|
            0 <= j < places.1.len() ==> is_def(body[#[trigger] places.1[j]]) && top_level_defs(
                body,
            )[j] == body[places.1[j]],
        forall|i: int, j: int|
            0 <= i < places.0.len() && 0 <= j < places.1.len() ==> #[trigger] places.0[i]
                != #[trigger] places.1[j],
    decreases body.len(),
{
    reveal(Seq::filter);
    if body.len() == 0 {
        (Seq::empty(), Seq::empty())
    } else {
        let front = body.drop_last();
        let last = body.len() - 1;
        let before = lemma_collected_in_source_order(front);
        assert(forall|j: int| 0 <= j < front.len() ==> front[j] == body[j]);
        if is_import(body.last()) {
            (before.0.push(last), before.1)
        } else if is_def(body.last()) {
            (before.0, before.1.push(last))
        } else {
            before
        }
    }
}

/// Converting the same module twice gives the same imports and the same
/// definitions.
pub proof fn lemma_conversion_is_determined(
    tree: ModuleView,
    first: EnderpyFileView,
    second: EnderpyFileView,
)
    requires
        first == converted(tree),
        second == converted(tree),
    ensures
        first.imports == second.imports,
        first.defs == second.defs,
{
}

impl EnderpyFile {
    /// The unit for the module `ast`: a copy of the tree, an empty table for
    /// the module scope, and the top-level imports and definitions.
    pub fn from(ast: &Module) -> (file: Self)
        ensures
            file@ == converted(ast@),
    {
        let mut converter = ASTConverter::new();
        let file = converter.convert(ast);
        proof {
            assert(file@.imports =~= top_level_imports(ast@.body));
            assert(file@.defs =~= top_level_defs(ast@.body));
        }
        file
    }
}

/// Converts a parsed module to an [`EnderpyFile`]. It looks at the top-level
/// statements only: it collects imports and function definitions and takes no
/// action on any other statement, nor on what is nested in one.
#[derive(Debug)]
pub struct ASTConverter {
    imports: Vec<ImportKinds>,
    defs: Vec<Statement>,
}

impl ASTConverter {
    /// A converter that has collected nothing.
    pub fn new() -> (converter: Self)
        ensures
            converter.model() == (Collected { imports: Seq::empty(), defs: Seq::empty() }),
    {
        let converter = ASTConverter { imports: Vec::new(), defs: Vec::new() };
        proof {
            assert(converter.model().imports =~= Seq::empty());
            assert(converter.model().defs =~= Seq::empty());
        }
        converter
    }

    /// Builds the unit for `tree` from what this converter has collected
    /// before and the top-level statements of `tree`, and leaves the
    /// converter empty.
    pub fn convert(&mut self, tree: &Module) -> (file: EnderpyFile)
        ensures
            file@ == (EnderpyFileView {
                ast: tree@,
                names: SymbolTableView {
                    symbol_table_type: SymbolTableType::Module,
                    start_line_number: 1,
                    symbols: Map::empty(),
                },
                imports: collect_all(old(self).model(), tree@.body).imports,
                defs: collect_all(old(self).model(), tree@.body).defs,
            }),
            final(self).model() == (Collected { imports: Seq::empty(), defs: Seq::empty() }),
    {
        let ghost body = tree@.body;
        let mut k: usize = 0;
        proof {
            assert(body.take(0) =~= Seq::empty());
            reveal(Seq::filter);
            assert(collect_all(self.model(), body.take(0)).imports =~= self.model().imports);
            assert(collect_all(self.model(), body.take(0)).defs =~= self.model().defs);
        }
        while k < tree.body.len()
            invariant
                k <= tree.body.len(),
                body == tree@.body,
                self.model() == collect_all(old(self).model(), body.take(k as int)),
            decreases tree.body.len() - k,
        {
            proof {
                lemma_collect_next(old(self).model(), body, k as int);
            }
            let _ = self.visit_stmt(&tree.body[k]);
            k = k + 1;
        }
        proof {
            assert(body.take(k as int) =~= body);
        }
        let mut imports: Vec<ImportKinds> = Vec::new();
        let mut defs: Vec<Statement> = Vec::new();
        core::mem::swap(&mut imports, &mut self.imports);
        core::mem::swap(&mut defs, &mut self.defs);
        proof {
            assert(self.model().imports =~= Seq::empty());
            assert(self.model().defs =~= Seq::empty());
        }
        EnderpyFile {
            ast: tree.clone(),
            names: SymbolTable::new(SymbolTableType::Module, 1),
            defs,
            imports,
        }
    }
}

impl TraversalVisitor for ASTConverter {
    type Model = Collected;

    closed spec fn model(&self) -> Collected {
        Collected { imports: import_kinds_view(self.imports@), defs: statements_view(self.defs@) }
    }

    open spec fn stmt_step(m: Collected, s: StatementView) -> Step<Collected> {
        (collect(m, s), None)
    }

    open spec fn expr_step(m: Collected, e: ExpressionView) -> Step<Collected> {
        (m, None)
    }

    fn visit_stmt(&mut self, s: &Statement) -> (res: Result<(), Unsupported>)
        ensures
            res is Ok,
            final(self).model() == collect(old(self).model(), s@),
    {
        proof {
            assert(Self::stmt_step(self.model(), s@).0 == collect(self.model(), s@));
        }
        match s {
            Statement::AssignStatement(x) => self.visit_assign(x),
            Statement::AnnAssignStatement(x) => self.visit_ann_assign(x),
            Statement::AugAssignStatement(x) => self.visit_aug_assign(x),
            Statement::ExpressionStatement(e) => self.visit_expr(e),
            Statement::Assert(x) => self.visit_assert(x),
            Statement::Pass(x) => self.visit_pass(x),
            Statement::Delete(x) => self.visit_delete(x),
            Statement::Return(x) => self.visit_return(x),
            Statement::Raise(x) => self.visit_raise(x),
            Statement::Break(x) => self.visit_break(x),
            Statement::Continue(x) => self.visit_continue(x),
            Statement::Import(x) => self.visit_import(x),
            Statement::ImportFrom(x) => self.visit_import_from(x),
            Statement::Global(x) => self.visit_global(x),
            Statement::Nonlocal(x) => self.visit_nonlocal(x),
            Statement::IfStatement(x) => self.visit_if(x),
            Statement::WhileStatement(x) => self.visit_while(x),
            Statement::ForStatement(x) => self.visit_for(x),
            Statement::WithStatement(x) => self.visit_with(x),
            Statement::TryStatement(x) => self.visit_try(x),
            Statement::TryStarStatement(x) => self.visit_try_star(x),
            Statement::FunctionDef(x) => self.visit_function_def(x),
            Statement::ClassDef(x) => self.visit_class_def(x),
            Statement::Match(x) => self.visit_match(x),
        }
    }

    fn visit_expr(&mut self, e: &Expression) -> (res: Result<(), Unsupported>)
        ensures
            res is Ok,
            final(self).model() == old(self).model(),
    {
        proof {
            assert(Self::expr_step(self.model(), e@).0 == self.model());
        }
        match e {
            Expression::Constant(x) => self.visit_constant(x),
            Expression::List(x) => self.visit_list(x),
            Expression::Tuple(x) => self.visit_tuple(x),
            Expression::Dict(x) => self.visit_dict(x),
            Expression::SetExpr(x) => self.visit_set(x),
            Expression::Name(x) => self.visit_name(x),
            Expression::BoolOp(x) => self.visit_bool_op(x),
            Expression::UnaryOp(x) => self.visit_unary_op(x),
            Expression::BinOp(x) => self.visit_bin_op(x),
            Expression::NamedExpr(x) => self.visit_named_expr(x),
            Expression::Yield(x) => self.visit_yield(x),
            Expression::YieldFrom(x) => self.visit_yield_from(x),
            Expression::Starred(x) => self.visit_starred(x),
            Expression::Generator(x) => self.visit_generator(x),
            Expression::ListComp(x) => self.visit_list_comp(x),
            Expression::SetComp(x) => self.visit_set_comp(x),
            Expression::DictComp(x) => self.visit_dict_comp(x),
            Expression::Attribute(x) => self.visit_attribute(x),
            Expression::Subscript(x) => self.visit_subscript(x),
            Expression::Slice(x) => self.visit_slice(x),
            Expression::Call(x) => self.visit_call(x),
            Expression::Await(x) => self.visit_await(x),
            Expression::Compare(x) => self.visit_compare(x),
            Expression::Lambda(x) => self.visit_lambda(x),
            Expression::IfExp(x) => self.visit_if_exp(x),
            Expression::JoinedStr(x) => self.visit_joined_str(x),
            Expression::FormattedValue(x) => self.visit_formatted_value(x),
        }
    }

    fn visit_import(&mut self, i: &Import) -> (res: Result<(), Unsupported>)
        ensures
            res is Ok,
            final(self).model() == collect(old(self).model(), StatementView::Import(i@)),
    {
        let import = i.clone();
        self.imports.push(ImportKinds::Import(import));
        proof {
            assert(self.model().imports =~= old(self).model().imports.push(
                ImportKindsView::Import(i@),
            ));
        }
        Ok(())
    }

    fn visit_import_from(&mut self, i: &ImportFrom) -> (res: Result<(), Unsupported>)
        ensures
            res is Ok,
            final(self).model() == collect(old(self).model(), StatementView::ImportFrom(i@)),
    {
        let import = i.clone();
        self.imports.push(ImportKinds::ImportFrom(import));
        proof {
            assert(self.model().imports =~= old(self).model().imports.push(
                ImportKindsView::ImportFrom(i@),
            ));
        }
        Ok(())
    }

    /// Collects the definition and does not look into its body.
    fn visit_function_def(&mut self, f: &FunctionDef) -> (res: Result<(), Unsupported>)
        ensures
            res is Ok,
            final(self).model() == collect(old(self).model(), StatementView::FunctionDef(f@)),
    {
        let func = f.clone();
        self.defs.push(Statement::FunctionDef(func));
        proof {
            assert(self.model().defs =~= old(self).model().defs.push(StatementView::FunctionDef(f@)));
        }
        Ok(())
    }

    fn visit_assign(&mut self, a: &Assign) -> (res: Result<(), Unsupported>)
        ensures
            res is Ok,
            final(self).model() == old(self).model(),
    {
        Ok(())
    }

    fn visit_ann_assign(&mut self, a: &AnnAssign) -> (res: Result<(), Unsupported>)
        ensures
            res is Ok,
            final(self).model() == old(self).model(),
    {
        Ok(())
    }

    fn visit_aug_assign(&mut self, a: &AugAssign) -> (res: Result<(), Unsupported>)
        ensures
            res is Ok,
            final(self).model() == old(self).model(),
    {
        Ok(())
    }

    fn visit_assert(&mut self, a: &Assert) -> (res: Result<(), Unsupported>)
        ensures
            res is Ok,
            final(self).model() == old(self).model(),
    {
        Ok(())
    }

    fn visit_pass(&mut self, p: &Pass) -> (res: Result<(), Unsupported>)
        ensures
            res is Ok,
            final(self).model() == old(self).model(),
    {
        Ok(())
    }

    fn visit_delete(&mut self, d: &Delete) -> (res: Result<(), Unsupported>)
        ensures
            res is Ok,
            final(self).model() == old(self).model(),
    {
        Ok(())
    }

    fn visit_return(&mut self, r: &Return) -> (res: Result<(), Unsupported>)
        ensures
            res is Ok,
            final(self).model() == old(self).model(),
    {
        Ok(())
    }

    fn visit_raise(&mut self, r: &Raise) -> (res: Result<(), Unsupported>)
        ensures
            res is Ok,
            final(self).model() == old(self).model(),
    {
        Ok(())
    }

    fn visit_break(&mut self, b: &Break) -> (res: Result<(), Unsupported>)
        ensures
            res is Ok,
            final(self).model() == old(self).model(),
    {
        Ok(())
    }

    fn visit_continue(&mut self, c: &Continue) -> (res: Result<(), Unsupported>)
        ensures
            res is Ok,
            final(self).model() == old(self).model(),
    {
        Ok(())
    }

    fn visit_global(&mut self, g: &Global) -> (res: Result<(), Unsupported>)
        ensures
            res is Ok,
            final(self).model() == old(self).model(),
    {
        Ok(())
    }

    fn visit_nonlocal(&mut self, n: &Nonlocal) -> (res: Result<(), Unsupported>)
        ensures
            res is Ok,
            final(self).model() == old(self).model(),
    {
        Ok(())
    }

    fn visit_if(&mut self, i: &If) -> (res: Result<(), Unsupported>)
        ensures
            res is Ok,
            final(self).model() == old(self).model(),
    {
        Ok(())
    }

    fn visit_while(&mut self, w: &While) -> (res: Result<(), Unsupported>)
        ensures
            res is Ok,
            final(self).model() == old(self).model(),
    {
        Ok(())
    }

    fn visit_for(&mut self, f: &For) -> (res: Result<(), Unsupported>)
        ensures
            res is Ok,
            final(self).model() == old(self).model(),
    {
        Ok(())
    }

    fn visit_with(&mut self, w: &With) -> (res: Result<(), Unsupported>)
        ensures
            res is Ok,
            final(self).model() == old(self).model(),
    {
        Ok(())
    }

    fn visit_try(&mut self, t: &Try) -> (res: Result<(), Unsupported>)
        ensures
            res is Ok,
            final(self).model() == old(self).model(),
    {
        Ok(())
    }

    fn visit_try_star(&mut self, t: &TryStar) -> (res: Result<(), Unsupported>)
        ensures
            res is Ok,
            final(self).model() == old(self).model(),
    {
        Ok(())
    }

    fn visit_class_def(&mut self, c: &ClassDef) -> (res: Result<(), Unsupported>)
        ensures
            res is Ok,
            final(self).model() == old(self).model(),
    {
        Ok(())
    }

    fn visit_match(&mut self, m: &Match) -> (res: Result<(), Unsupported>)
        ensures
            res is Ok,
            final(self).model() == old(self).model(),
    {
        Ok(())
    }

    fn visit_constant(&mut self, c: &Constant) -> (res: Result<(), Unsupported>)
        ensures
            res is Ok,
            final(self).model() == old(self).model(),
    {
        Ok(())
    }

    fn visit_list(&mut self, l: &List) -> (res: Result<(), Unsupported>)
        ensures
            res is Ok,
            final(self).model() == old(self).model(),
    {
        Ok(())
    }

    fn visit_tuple(&mut self, t: &Tuple) -> (res: Result<(), Unsupported>)
        ensures
            res is Ok,
            final(self).model() == old(self).model(),
    {
        Ok(())
    }

    fn visit_dict(&mut self, d: &Dict) -> (res: Result<(), Unsupported>)
        ensures
            res is Ok,
            final(self).model() == old(self).model(),
    {
        Ok(())
    }

    fn visit_set(&mut self, s: &SetExpr) -> (res: Result<(), Unsupported>)
        ensures
            res is Ok,
            final(self).model() == old(self).model(),
    {
        Ok(())
    }

    fn visit_name(&mut self, n: &Name) -> (res: Result<(), Unsupported>)
        ensures
            res is Ok,
            final(self).model() == old(self).model(),
    {
        Ok(())
    }

    fn visit_bool_op(&mut self, b: &BoolOperation) -> (res: Result<(), Unsupported>)
        ensures
            res is Ok,
            final(self).model() == old(self).model(),
    {
        Ok(())
    }

    fn visit_unary_op(&mut self, u: &UnaryOperation) -> (res: Result<(), Unsupported>)
        ensures
            res is Ok,
            final(self).model() == old(self).model(),
    {
        Ok(())
    }

    fn visit_bin_op(&mut self, b: &BinOp) -> (res: Result<(), Unsupported>)
        ensures
            res is Ok,
            final(self).model() == old(self).model(),
    {
        Ok(())
    }

    fn visit_named_expr(&mut self, n: &NamedExpression) -> (res: Result<(), Unsupported>)
        ensures
            res is Ok,
            final(self).model() == old(self).model(),
    {
        Ok(())
    }

    fn visit_yield(&mut self, y: &Yield) -> (res: Result<(), Unsupported>)
        ensures
            res is Ok,
            final(self).model() == old(self).model(),
    {
        Ok(())
    }

    fn visit_yield_from(&mut self, y: &YieldFrom) -> (res: Result<(), Unsupported>)
        ensures
            res is Ok,
            final(self).model() == old(self).model(),
    {
        Ok(())
    }

    fn visit_starred(&mut self, s: &Starred) -> (res: Result<(), Unsupported>)
        ensures
            res is Ok,
            final(self).model() == old(self).model(),
    {
        Ok(())
    }

    fn visit_generator(&mut self, g: &Generator) -> (res: Result<(), Unsupported>)
        ensures
            res is Ok,
            final(self).model() == old(self).model(),
    {
        Ok(())
    }

    fn visit_list_comp(&mut self, l: &ListComp) -> (res: Result<(), Unsupported>)
        ensures
            res is Ok,
            final(self).model() == old(self).model(),
    {
        Ok(())
    }

    fn visit_set_comp(&mut self, s: &SetComp) -> (res: Result<(), Unsupported>)
        ensures
            res is Ok,
            final(self).model() == old(self).model(),
    {
        Ok(())
    }

    fn visit_dict_comp(&mut self, d: &DictComp) -> (res: Result<(), Unsupported>)
        ensures
            res is Ok,
            final(self).model() == old(self).model(),
    {
        Ok(())
    }

    fn visit_attribute(&mut self, a: &Attribute) -> (res: Result<(), Unsupported>)
        ensures
            res is Ok,
            final(self).model() == old(self).model(),
    {
        Ok(())
    }

    fn visit_subscript(&mut self, s: &Subscript) -> (res: Result<(), Unsupported>)
        ensures
            res is Ok,
            final(self).model() == old(self).model(),
    {
        Ok(())
    }

    fn visit_slice(&mut self, s: &Slice) -> (res: Result<(), Unsupported>)
        ensures
            res is Ok,
            final(self).model() == old(self).model(),
    {
        Ok(())
    }

    fn visit_call(&mut self, c: &Call) -> (res: Result<(), Unsupported>)
        ensures
            res is Ok,
            final(self).model() == old(self).model(),
    {
        Ok(())
    }

    fn visit_await(&mut self, a: &Await) -> (res: Result<(), Unsupported>)
        ensures
            res is Ok,
            final(self).model() == old(self).model(),
    {
        Ok(())
    }

    fn visit_compare(&mut self, c: &Compare) -> (res: Result<(), Unsupported>)
        ensures
            res is Ok,
            final(self).model() == old(self).model(),
    {
        Ok(())
    }

    fn visit_lambda(&mut self, l: &Lambda) -> (res: Result<(), Unsupported>)
        ensures
            res is Ok,
            final(self).model() == old(self).model(),
    {
        Ok(())
    }

    fn visit_if_exp(&mut self, i: &IfExp) -> (res: Result<(), Unsupported>)
        ensures
            res is Ok,
            final(self).model() == old(self).model(),
    {
        Ok(())
    }

    fn visit_joined_str(&mut self, j: &JoinedStr) -> (res: Result<(), Unsupported>)
        ensures
            res is Ok,
            final(self).model() == old(self).model(),
    {
        Ok(())
    }

    fn visit_formatted_value(&mut self, f: &FormattedValue) -> (res: Result<(), Unsupported>)
        ensures
            res is Ok,
            final(self).model() == old(self).model(),
    {
        Ok(())
    }

    fn visit_alias(&mut self, a: &Alias) -> (res: Result<(), Unsupported>)
        ensures
            res is Ok,
            final(self).model() == old(self).model(),
    {
        Ok(())
    }

}

} // verus!
