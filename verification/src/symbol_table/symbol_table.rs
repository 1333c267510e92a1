use crate::common::Identifier;
use crate::symbol_table::entry::{Entry, EntryModel, optional_entry_model};
use crate::symbol_table::name_map::NameMap;
use crate::types::{
    CircuitType, CircuitTypeModel, FunctionType, FunctionTypeModel, Type, TypeModel,
};
use vstd::prelude::*;

verus! {

/// An abstract data type that tracks the current bindings of identifier names in a program.
///
/// A symbol table has access to all names of its parent's symbol table. It cannot access names
/// in a child's symbol table, and children cannot access names in a sibling's symbol table.
pub struct SymbolTable {
    /// Maps variable name -> (location, type, attributes)
    variables: NameMap<Entry>,
    /// Maps circuit name -> (location, variables, functions)
    circuits: NameMap<CircuitType>,
    /// Maps function name -> (location, inputs, outputs)
    functions: NameMap<FunctionType>,
    /// The parent of this symbol table
    parent: Option<Box<SymbolTable>>,
    /// The children of this symbol table
    children: Vec<SymbolTable>,
}

/// What a [`SymbolTable`] stands for in contracts: the three maps of the scope itself, the
/// enclosing scope, and the nested scopes.
pub ghost struct TableModel {
    pub variables: Map<Seq<char>, EntryModel>,
    pub circuits: Map<Seq<char>, CircuitTypeModel>,
    pub functions: Map<Seq<char>, FunctionTypeModel>,
    pub parent: Option<Box<TableModel>>,
    pub children: Seq<TableModel>,
}

impl TableModel {
    /// A scope that binds nothing, inside `parent`.
    pub open spec fn scope(parent: Option<TableModel>) -> TableModel {
        TableModel {
            variables: Map::empty(),
            circuits: Map::empty(),
            functions: Map::empty(),
            parent: match parent {
                Some(parent) => Some(Box::new(parent)),
                None => None,
            },
            children: Seq::empty(),
        }
    }

    /// A scope that binds nothing, nested in this one.
    pub open spec fn child(self) -> TableModel {
        TableModel::scope(Some(self))
    }

    /// The binding of a variable: that of this scope, else that of the nearest enclosing scope
    /// that has one.
    pub open spec fn get_variable(self, name: Seq<char>) -> Option<EntryModel>
        decreases self,
    {
        if self.variables.contains_key(name) {
            Some(self.variables[name])
        } else {
            match self.parent {
                Some(parent) => parent.get_variable(name),
                None => None,
            }
        }
    }

    /// The definition of a circuit: that of this scope, else that of the nearest enclosing
    /// scope that has one.
    pub open spec fn get_circuit(self, name: Seq<char>) -> Option<CircuitTypeModel>
        decreases self,
    {
        if self.circuits.contains_key(name) {
            Some(self.circuits[name])
        } else {
            match self.parent {
                Some(parent) => parent.get_circuit(name),
                None => None,
            }
        }
    }

    /// The signature of a function: that of this scope, else that of the nearest enclosing
    /// scope that has one.
    pub open spec fn get_function(self, name: Seq<char>) -> Option<FunctionTypeModel>
        decreases self,
    {
        if self.functions.contains_key(name) {
            Some(self.functions[name])
        } else {
            match self.parent {
                Some(parent) => parent.get_function(name),
                None => None,
            }
        }
    }

    /// Whether `name` denotes a circuit: the nearest binding of the name as a variable has the
    /// circuit type of that name, as every circuit has from the moment its name is
    /// registered; or a circuit is defined under the name.
    pub open spec fn denotes_circuit(self, name: Seq<char>) -> bool {
        ||| match self.get_variable(name) {
            Some(entry) => entry.type_ == TypeModel::Circuit(name),
            None => false,
        }
        ||| self.get_circuit(name) is Some
    }

    /// What this scope itself binds `name` to, whatever the enclosing scopes bind.
    pub open spec fn local_variable(self, name: Seq<char>) -> Option<EntryModel> {
        if self.variables.contains_key(name) {
            Some(self.variables[name])
        } else {
            None
        }
    }

    /// This table with `name` bound to `entry` in the scope itself.
    pub open spec fn insert_variable(self, name: Seq<char>, entry: EntryModel) -> TableModel {
        TableModel { variables: self.variables.insert(name, entry), ..self }
    }

    /// This table with the circuit `name` defined as `circuit` in the scope itself.
    pub open spec fn insert_circuit(self, name: Seq<char>, circuit: CircuitTypeModel) -> TableModel {
        TableModel { circuits: self.circuits.insert(name, circuit), ..self }
    }

    /// This table with the function `name` defined as `function` in the scope itself.
    pub open spec fn insert_function(
        self,
        name: Seq<char>,
        function: FunctionTypeModel,
    ) -> TableModel {
        TableModel { functions: self.functions.insert(name, function), ..self }
    }

    /// This table with `child` added after its nested scopes.
    pub open spec fn push_child(self, child: TableModel) -> TableModel {
        TableModel { children: self.children.push(child), ..self }
    }
}

/// The view of an optional circuit definition.
pub open spec fn optional_circuit_view(circuit: Option<CircuitType>) -> Option<CircuitTypeModel> {
    match circuit {
        Some(circuit) => Some(circuit@),
        None => None,
    }
}

/// The view of an optional function signature.
pub open spec fn optional_function_view(function: Option<FunctionType>) -> Option<
    FunctionTypeModel,
> {
    match function {
        Some(function) => Some(function@),
        None => None,
    }
}

/// The model of every table of a list.
pub open spec fn tables_model(tables: &Vec<SymbolTable>) -> Seq<TableModel>
    decreases tables,
{
    Seq::new(
        tables.len() as nat,
        |i: int|
            if 0 <= i < tables.len() {
                tables[i].model()
            } else {
                arbitrary()
            },
    )
}

/// Every table of a list is well formed.
pub open spec fn tables_wf(tables: &Vec<SymbolTable>) -> bool
    decreases tables,
{
    forall|i: int| 0 <= i < tables.len() ==> (#[trigger] tables[i]).wf()
}

/// A copy of a list of tables.
fn clone_tables(tables: &Vec<SymbolTable>) -> (r: Vec<SymbolTable>)
    requires
        tables_wf(tables),
    ensures
        tables_wf(&r),
        tables_model(&r) == tables_model(tables),
    decreases tables,
{
    let mut r: Vec<SymbolTable> = Vec::new();
    let mut i: usize = 0;
    while i < tables.len()
        invariant
            tables_wf(tables),
            i <= tables.len(),
            r.len() == i,
            forall|j: int| 0 <= j < i ==> (#[trigger] r[j]).wf(),
            forall|j: int| 0 <= j < i ==> r[j]@ == tables[j]@,
        decreases tables.len() - i,
    {
        r.push(tables[i].duplicate());
        i += 1;
    }
    assert(tables_model(&r) =~= tables_model(tables));
    r
}

impl SymbolTable {
    /// The model of this table.
    pub closed spec fn model(&self) -> TableModel
        decreases self,
    {
        TableModel {
            variables: self.variables@,
            circuits: self.circuits@,
            functions: self.functions@,
            parent: match &self.parent {
                Some(parent) => Some(Box::new((**parent).model())),
                None => None,
            },
            children: tables_model(&self.children),
        }
    }

    /// No scope of the table binds a name twice in one of its maps.
    pub closed spec fn wf(&self) -> bool
        decreases self,
    {
        &&& self.variables.wf()
        &&& self.circuits.wf()
        &&& self.functions.wf()
        &&& match &self.parent {
            Some(parent) => (**parent).wf(),
            None => true,
        }
        &&& tables_wf(&self.children)
    }
}

impl View for SymbolTable {
    type V = TableModel;

    open spec fn view(&self) -> TableModel {
        self.model()
    }
}

/// The view of an optional boxed table.
pub open spec fn optional_table_view(table: Option<Box<SymbolTable>>) -> Option<TableModel> {
    match table {
        Some(table) => Some(table@),
        None => None,
    }
}

impl SymbolTable {
    ///
    /// Creates a new symbol table with a given parent symbol table
    ///
    pub fn new(parent: Option<Box<SymbolTable>>) -> (r: Self)
        requires
            match parent {
                Some(parent) => parent.wf(),
                None => true,
            },
        ensures
            r.wf(),
            r@ == TableModel::scope(optional_table_view(parent)),
    {
        let children: Vec<SymbolTable> = Vec::new();
        assert(tables_model(&children) =~= Seq::empty());
        assert(tables_wf(&children));
        let r = SymbolTable {
            variables: NameMap::new(),
            circuits: NameMap::new(),
            functions: NameMap::new(),
            parent,
            children,
        };
        r
    }

    /// A new symbol table whose parent is a copy of this one.
    pub fn child(&self) -> (r: Self)
        requires
            self.wf(),
        ensures
            r.wf(),
            r@ == self@.child(),
    {
        SymbolTable::new(Some(Box::new(self.duplicate())))
    }

    /// A deep copy of this table: what is done to the copy leaves this table as it is.
    pub fn duplicate(&self) -> (r: Self)
        requires
            self.wf(),
        ensures
            r.wf(),
            r@ == self@,
        decreases self,
    {
        let variables = self.variables.duplicate();
        let circuits = self.circuits.duplicate();
        let functions = self.functions.duplicate();
        proof {
            self.variables.lemma_same_view(&variables);
            self.circuits.lemma_same_view(&circuits);
            self.functions.lemma_same_view(&functions);
        }
        let parent = match &self.parent {
            Some(parent) => Some(Box::new(parent.duplicate())),
            None => None,
        };
        let children = clone_tables(&self.children);
        SymbolTable { variables, circuits, functions, parent, children }
    }

    ///
    /// Insert a variable into the symbol table from a given variable name and variable type.
    ///
    /// If the symbol table did not have this name present, `None` is returned.
    ///
    pub fn insert_variable(&mut self, key: String, value: Entry) -> (r: Option<Entry>)
        requires
            old(self).wf(),
        ensures
            final(self).wf(),
            final(self)@ == old(self)@.insert_variable(key@, value@),
            optional_entry_model(r) == old(self)@.local_variable(key@),
    {
        self.variables.insert(key, value)
    }

    ///
    /// Insert a circuit definition into the symbol table from a given circuit name and
    /// circuit type.
    ///
    /// If the symbol table did not have this name present, `None` is returned.
    ///
    pub fn insert_circuit(&mut self, key: Identifier, value: CircuitType) -> (r: Option<
        CircuitType,
    >)
        requires
            old(self).wf(),
        ensures
            final(self).wf(),
            final(self)@ == old(self)@.insert_circuit(key@.name, value@),
            optional_circuit_view(r) == (if old(self)@.circuits.contains_key(key@.name) {
                Some(old(self)@.circuits[key@.name])
            } else {
                None
            }),
    {
        self.circuits.insert(key.name, value)
    }

    ///
    /// Insert a function definition into the symbol table from a given function name and
    /// function type.
    ///
    /// If the symbol table did not have this name present, `None` is returned.
    ///
    pub fn insert_function(&mut self, key: Identifier, value: FunctionType) -> (r: Option<
        FunctionType,
    >)
        requires
            old(self).wf(),
        ensures
            final(self).wf(),
            final(self)@ == old(self)@.insert_function(key@.name, value@),
            optional_function_view(r) == (if old(self)@.functions.contains_key(key@.name) {
                Some(old(self)@.functions[key@.name])
            } else {
                None
            }),
    {
        self.functions.insert(key.name, value)
    }

    ///
    /// Get the current binding of a variable.
    ///
    pub fn get_variable(&self, key: &String) -> (r: Option<&Entry>)
        requires
            self.wf(),
        ensures
            match r {
                Some(entry) => self@.get_variable(key@) == Some(entry@),
                None => self@.get_variable(key@) is None,
            },
        decreases self,
    {
        match self.variables.get(key) {
            Some(variable) => Some(variable),
            None => {
                // Look in parent symbol table
                match &self.parent {
                    Some(parent) => parent.get_variable(key),
                    None => None,
                }
            },
        }
    }

    /// Whether `key` denotes a circuit: it is bound to the circuit type of that name, or a
    /// circuit is defined under it.
    pub fn denotes_circuit(&self, key: &String) -> (r: bool)
        requires
            self.wf(),
        ensures
            r == self@.denotes_circuit(key@),
    {
        let registered = match self.get_variable(key) {
            Some(entry) => match &entry.type_ {
                Type::Circuit(identifier) => identifier.name == *key,
                _ => false,
            },
            None => false,
        };
        registered || self.get_circuit(key).is_some()
    }

    /// Whether this scope itself binds `key` as a variable, whatever the enclosing scopes
    /// bind.
    pub fn defines_variable(&self, key: &String) -> (r: bool)
        requires
            self.wf(),
        ensures
            r == (self@.local_variable(key@) is Some),
    {
        self.variables.get(key).is_some()
    }

    ///
    /// Get the current binding of a circuit type.
    ///
    pub fn get_circuit(&self, key: &String) -> (r: Option<&CircuitType>)
        requires
            self.wf(),
        ensures
            match r {
                Some(circuit) => self@.get_circuit(key@) == Some(circuit@),
                None => self@.get_circuit(key@) is None,
            },
        decreases self,
    {
        match self.circuits.get(key) {
            Some(circuit) => Some(circuit),
            None => {
                // Look in parent symbol table
                match &self.parent {
                    Some(parent) => parent.get_circuit(key),
                    None => None,
                }
            },
        }
    }

    ///
    /// Get the current binding of a function type.
    ///
    pub fn get_function(&self, key: &String) -> (r: Option<&FunctionType>)
        requires
            self.wf(),
        ensures
            match r {
                Some(function) => self@.get_function(key@) == Some(function@),
                None => self@.get_function(key@) is None,
            },
        decreases self,
    {
        match self.functions.get(key) {
            Some(function) => Some(function),
            None => {
                // Look in parent symbol table
                match &self.parent {
                    Some(parent) => parent.get_function(key),
                    None => None,
                }
            },
        }
    }

    ///
    /// Adds a child symbol table
    /// Children have access to identifiers in the current symbol table
    ///
    pub fn push_child(&mut self, child: SymbolTable)
        requires
            old(self).wf(),
            child.wf(),
        ensures
            final(self).wf(),
            final(self)@ == old(self)@.push_child(child@),
    {
        assert(tables_wf(&self.children));
        self.children.push(child);
        assert(tables_model(&self.children) =~= tables_model(&old(self).children).push(child@));
        assert forall|i: int| 0 <= i < self.children.len() implies (#[trigger] self.children[i]).wf() by {
            if i < old(self).children.len() {
                assert(self.children[i] == old(self).children[i]);
            }
        }
        assert(tables_wf(&self.children));
    }
}

} // verus!
