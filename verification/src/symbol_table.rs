//! The symbol table of one scope: a map from a name to the record of how the
//! name was bound. Binding a name that is already bound replaces its record.
use vstd::prelude::*;
use crate::ast::Statement;
use crate::ast_view::StatementView;

verus! {

/// What kind of scope a table describes.
#[derive(Debug, Clone, Copy, PartialEq, Eq, Structural)]
pub enum SymbolTableType {
    Module,
    Class,
    Function,
}

/// A provisional classification of a bound value by the form of the
/// expression it was assigned from. It seeds a symbol before any type is
/// inferred.
#[derive(Debug, Clone, Copy, PartialEq, Eq, Structural)]
pub enum NodeType {
    /// The literal `None`.
    NoneValue,
    /// `True` or `False`.
    Bool,
    /// An integer literal.
    Int,
    /// A floating-point literal.
    Float,
    /// A complex literal.
    Complex,
    /// A string literal or an f-string.
    Str,
    /// A bytes literal.
    Bytes,
    /// A tuple, written out or constant.
    Tuple,
    /// A list display or a list comprehension.
    List,
    /// A dict display or a dict comprehension.
    Dict,
    /// A set display or a set comprehension.
    SetValue,
    /// A generator expression.
    Generator,
    /// A lambda.
    Lambda,
    /// Another name: the type is that name's.
    Name,
    /// A call: the type is what the callee returns.
    Call,
    /// Any other expression.
    Unknown,
}

/// The scope in which a name was declared.
#[derive(Debug, Clone, Copy, PartialEq, Eq, Structural)]
pub enum SymbolScope {
    Global,
    Nonlocal,
    Local,
    Unknown,
}

/// How one name was bound.
#[derive(Debug)]
pub struct SymbolTableNode {
    pub name: String,
    /// The statement that bound the name.
    pub node: Statement,
    pub typ: NodeType,
    pub module_public: bool,
    pub module_hidden: bool,
    pub implicit: bool,
    pub scope: SymbolScope,
}

/// What a [`SymbolTableNode`] holds, as mathematical values.
pub struct SymbolTableNodeView {
    pub name: Seq<char>,
    pub node: StatementView,
    pub typ: NodeType,
    pub module_public: bool,
    pub module_hidden: bool,
    pub implicit: bool,
    pub scope: SymbolScope,
}

impl View for SymbolTableNode {
    type V = SymbolTableNodeView;

    open spec fn view(&self) -> SymbolTableNodeView {
        SymbolTableNodeView {
            name: self.name@,
            node: self.node@,
            typ: self.typ,
            module_public: self.module_public,
            module_hidden: self.module_hidden,
            implicit: self.implicit,
            scope: self.scope,
        }
    }
}

impl Clone for SymbolTableNode {
    fn clone(&self) -> (res: Self)
        ensures
            res@ == self@,
    {
        SymbolTableNode {
            name: self.name.clone(),
            node: self.node.clone(),
            typ: self.typ,
            module_public: self.module_public,
            module_hidden: self.module_hidden,
            implicit: self.implicit,
            scope: self.scope,
        }
    }
}

/// One binding as the table stores it: the name it is found by, and its
/// record.
#[derive(Debug)]
struct Entry {
    key: String,
    symbol: SymbolTableNode,
}

/// The symbols of one scope. No name is stored twice.
#[derive(Debug)]
pub struct SymbolTable {
    symbol_table_type: SymbolTableType,
    start_line_number: u8,
    entries: Vec<Entry>,
}

/// What a [`SymbolTable`] holds: the kind of its scope, the line the scope
/// starts on, and the record of each bound name.
pub struct SymbolTableView {
    pub symbol_table_type: SymbolTableType,
    pub start_line_number: u8,
    pub symbols: Map<Seq<char>, SymbolTableNodeView>,
}

/// No two entries have the same key.
spec fn distinct_keys(entries: Seq<Entry>) -> bool {
    forall|i: int, j: int|
        0 <= i < j < entries.len() ==> (#[trigger] entries[i]).key@ != (#[trigger] entries[j]).key@
}

/// The map that the entries stand for: each key with its record, a later
/// entry taking the place of an earlier one with the same key.
spec fn bindings(entries: Seq<Entry>) -> Map<Seq<char>, SymbolTableNodeView>
    decreases entries.len(),
{
    if entries.len() == 0 {
        Map::empty()
    } else {
        bindings(entries.drop_last()).insert(entries.last().key@, entries.last().symbol@)
    }
}

/// A name is bound exactly when some entry has it as its key.
proof fn lemma_bindings_dom(entries: Seq<Entry>, name: Seq<char>)
    ensures
        bindings(entries).dom().contains(name) <==> exists|i: int|
            0 <= i < entries.len() && (#[trigger] entries[i]).key@ == name,
    decreases entries.len(),
{
    if entries.len() > 0 {
        let front = entries.drop_last();
        lemma_bindings_dom(front, name);
        if bindings(entries).dom().contains(name) {
            if entries.last().key@ == name {
                assert(entries[entries.len() - 1].key@ == name);
            } else {
                let i = choose|i: int| 0 <= i < front.len() && (#[trigger] front[i]).key@ == name;
                assert(entries[i].key@ == name);
            }
        }
        if exists|i: int| 0 <= i < entries.len() && (#[trigger] entries[i]).key@ == name {
            let i = choose|i: int| 0 <= i < entries.len() && (#[trigger] entries[i]).key@ == name;
            if i < entries.len() - 1 {
                assert(front[i].key@ == name);
            }
        }
    }
}

/// With distinct keys, each entry's record is what its key is bound to.
proof fn lemma_bindings_get(entries: Seq<Entry>, i: int)
    requires
        distinct_keys(entries),
        0 <= i < entries.len(),
    ensures
        bindings(entries).dom().contains(entries[i].key@),
        bindings(entries)[entries[i].key@] == entries[i].symbol@,
    decreases entries.len(),
{
    let front = entries.drop_last();
    if i < entries.len() - 1 {
        assert(distinct_keys(front)) by {
            assert forall|a: int, b: int| 0 <= a < b < front.len() implies (#[trigger] front[a]).key@
                != (#[trigger] front[b]).key@ by {
                assert(entries[a].key@ != entries[b].key@);
            }
        }
        lemma_bindings_get(front, i);
        assert(entries[i].key@ != entries[entries.len() - 1].key@);
    }
}

/// With distinct keys, there are as many bound names as entries.
proof fn lemma_bindings_len(entries: Seq<Entry>)
    requires
        distinct_keys(entries),
    ensures
        bindings(entries).dom().finite(),
        bindings(entries).dom().len() == entries.len(),
    decreases entries.len(),
{
    if entries.len() > 0 {
        let front = entries.drop_last();
        assert(distinct_keys(front)) by {
            assert forall|a: int, b: int| 0 <= a < b < front.len() implies (#[trigger] front[a]).key@
                != (#[trigger] front[b]).key@ by {
                assert(entries[a].key@ != entries[b].key@);
            }
        }
        lemma_bindings_len(front);
        lemma_bindings_dom(front, entries.last().key@);
        if bindings(front).dom().contains(entries.last().key@) {
            let i = choose|i: int|
                0 <= i < front.len() && (#[trigger] front[i]).key@ == entries.last().key@;
            assert(entries[i].key@ != entries[entries.len() - 1].key@);
        }
    }
}

/// Putting a new record in the place of an entry with the same key binds the
/// key to the new record and leaves the other names as they were.
proof fn lemma_bindings_update(entries: Seq<Entry>, i: int, entry: Entry)
    requires
        distinct_keys(entries),
        0 <= i < entries.len(),
        entries[i].key@ == entry.key@,
    ensures
        distinct_keys(entries.update(i, entry)),
        bindings(entries.update(i, entry)) == bindings(entries).insert(entry.key@, entry.symbol@),
    decreases entries.len(),
{
    let updated = entries.update(i, entry);
    assert(distinct_keys(updated)) by {
        assert forall|a: int, b: int| 0 <= a < b < updated.len() implies (#[trigger] updated[a]).key@
            != (#[trigger] updated[b]).key@ by {
            assert(entries[a].key@ != entries[b].key@);
        }
    }
    let front = entries.drop_last();
    if i == entries.len() - 1 {
        assert(updated.drop_last() =~= front);
        assert(bindings(updated) =~= bindings(entries).insert(entry.key@, entry.symbol@));
    } else {
        assert(distinct_keys(front)) by {
            assert forall|a: int, b: int| 0 <= a < b < front.len() implies (#[trigger] front[a]).key@
                != (#[trigger] front[b]).key@ by {
                assert(entries[a].key@ != entries[b].key@);
            }
        }
        lemma_bindings_update(front, i, entry);
        assert(updated.drop_last() =~= front.update(i, entry));
        assert(updated.last() == entries.last());
        assert(entries[i].key@ != entries[entries.len() - 1].key@);
        assert(bindings(updated) =~= bindings(entries).insert(entry.key@, entry.symbol@));
    }
}

impl View for SymbolTable {
    type V = SymbolTableView;

    closed spec fn view(&self) -> SymbolTableView {
        SymbolTableView {
            symbol_table_type: self.symbol_table_type,
            start_line_number: self.start_line_number,
            symbols: bindings(self.entries@),
        }
    }
}

impl SymbolTable {
    #[verifier::type_invariant]
    spec fn inv(self) -> bool {
        distinct_keys(self.entries@)
    }

    /// An empty table for a scope of the given kind that starts on the given
    /// line.
    pub fn new(symbol_table_type: SymbolTableType, start_line_number: u8) -> (table: Self)
        ensures
            table@ == (SymbolTableView {
                symbol_table_type,
                start_line_number,
                symbols: Map::empty(),
            }),
    {
        SymbolTable { symbol_table_type, start_line_number, entries: Vec::new() }
    }

    /// The kind of scope that this table describes.
    pub fn symbol_table_type(&self) -> (t: SymbolTableType)
        ensures
            t == self@.symbol_table_type,
    {
        self.symbol_table_type
    }

    /// The line on which the scope starts.
    pub fn start_line_number(&self) -> (line: u8)
        ensures
            line == self@.start_line_number,
    {
        self.start_line_number
    }

    /// The number of bound names.
    pub fn len(&self) -> (n: usize)
        ensures
            self@.symbols.dom().finite(),
            n == self@.symbols.dom().len(),
    {
        proof {
            use_type_invariant(self);
            lemma_bindings_len(self.entries@);
        }
        self.entries.len()
    }

    /// Where the entry for `name` stands, if the name is bound.
    fn position(&self, name: &String) -> (found: Option<usize>)
        ensures
            match found {
                Some(i) => i < self.entries@.len() && self.entries@[i as int].key@ == name@,
                None => !bindings(self.entries@).dom().contains(name@),
            },
    {
        let mut k: usize = 0;
        while k < self.entries.len()
            invariant
                k <= self.entries@.len(),
                forall|j: int| 0 <= j < k ==> (#[trigger] self.entries@[j]).key@ != name@,
            decreases self.entries@.len() - k,
        {
            if self.entries[k].key == *name {
                return Some(k);
            }
            k = k + 1;
        }
        proof {
            lemma_bindings_dom(self.entries@, name@);
        }
        None
    }

    /// The record of `name`, if the name is bound in this scope.
    pub fn lookup_in_scope(&self, name: &str) -> (found: Option<&SymbolTableNode>)
        ensures
            match found {
                Some(symbol) => self@.symbols.dom().contains(name@) && symbol@
                    == self@.symbols[name@],
                None => !self@.symbols.dom().contains(name@),
            },
    {
        let owned = name.to_owned();
        match self.position(&owned) {
            Some(i) => {
                proof {
                    use_type_invariant(self);
                    lemma_bindings_get(self.entries@, i as int);
                }
                Some(&self.entries[i].symbol)
            },
            None => None,
        }
    }

    /// Binds `name` to `node`. A record that `name` was bound to before is
    /// replaced; every other name keeps its record.
    pub fn add_symbol(&mut self, name: String, node: SymbolTableNode)
        ensures
            final(self)@ == (SymbolTableView {
                symbols: old(self)@.symbols.insert(name@, node@),
                ..old(self)@
            }),
    {
        let found = self.position(&name);
        let entry = Entry { key: name, symbol: node };
        proof {
            use_type_invariant(&*self);
        }
        let mut entries: Vec<Entry> = Vec::new();
        core::mem::swap(&mut entries, &mut self.entries);
        match found {
            Some(i) => {
                proof {
                    lemma_bindings_update(entries@, i as int, entry);
                }
                entries.set(i, entry);
            },
            None => {
                proof {
                    lemma_bindings_dom(entries@, entry.key@);
                    let before = entries@;
                    let pushed = before.push(entry);
                    assert(pushed.drop_last() =~= before);
                    assert(distinct_keys(pushed)) by {
                        assert forall|a: int, b: int| 0 <= a < b < pushed.len() implies (
                        #[trigger] pushed[a]).key@ != (#[trigger] pushed[b]).key@ by {
                            if b < pushed.len() - 1 {
                                assert(before[a].key@ != before[b].key@);
                            } else {
                                assert(before[a].key@ != entry.key@);
                            }
                        }
                    }
                }
                entries.push(entry);
            },
        }
        self.entries = entries;
    }
}

} // verus!
