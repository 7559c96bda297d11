//! The operation registry: a map from operator names to operations, filled
//! with the built-ins and then with what the two script runtimes declared.

use crate::builtin::{builtin_named, Builtin};
use crate::text::lowercase;
use vstd::hash_map::StringHashMap;
use vstd::prelude::*;

verus! {

/// The script runtime that an operation lives in.
#[derive(Clone, Copy, Debug, PartialEq, Eq, Structural)]
pub enum Runtime {
    /// The array-language runtime.
    Uiua,
    /// The general-purpose scripting runtime.
    Lua,
}

/// A named unit of computation over the value stack.
#[derive(Debug, PartialEq, Eq)]
pub enum Operation {
    /// A built-in operator.
    Native(Builtin),
    /// A function bound in the array-language runtime under `name`, which
    /// takes `arity` operands.
    Uiua { name: String, arity: usize },
    /// A function that a script declared to the general-purpose runtime under
    /// `name`, with `arity` operands.
    Lua { name: String, arity: usize },
}

/// The mathematical value of an [`Operation`].
pub enum OperationView {
    Native(Builtin),
    Uiua { name: Seq<char>, arity: nat },
    Lua { name: Seq<char>, arity: nat },
}

impl OperationView {
    /// The number of operands the operation takes from the stack.
    pub open spec fn arity(self) -> nat {
        match self {
            OperationView::Native(b) => b.spec_arity(),
            OperationView::Uiua { arity, .. } => arity,
            OperationView::Lua { arity, .. } => arity,
        }
    }

    /// The scripted operation of `runtime` that was declared as `name`.
    pub open spec fn scripted(runtime: Runtime, name: Seq<char>, arity: nat) -> OperationView {
        match runtime {
            Runtime::Uiua => OperationView::Uiua { name, arity },
            Runtime::Lua => OperationView::Lua { name, arity },
        }
    }
}

impl View for Operation {
    type V = OperationView;

    open spec fn view(&self) -> OperationView {
        match self {
            Operation::Native(b) => OperationView::Native(*b),
            Operation::Uiua { name, arity } => OperationView::Uiua {
                name: name@,
                arity: *arity as nat,
            },
            Operation::Lua { name, arity } => OperationView::Lua {
                name: name@,
                arity: *arity as nat,
            },
        }
    }
}

impl Operation {
    /// The number of operands the operation takes from the stack.
    pub fn arity(&self) -> (k: usize)
        ensures
            k == self@.arity(),
    {
        match self {
            Operation::Native(b) => b.arity(),
            Operation::Uiua { arity, .. } => *arity,
            Operation::Lua { arity, .. } => *arity,
        }
    }

    /// A copy of the operation.
    pub fn duplicate(&self) -> (copy: Operation)
        ensures
            copy@ == self@,
    {
        match self {
            Operation::Native(b) => Operation::Native(*b),
            Operation::Uiua { name, arity } => Operation::Uiua {
                name: name.clone(),
                arity: *arity,
            },
            Operation::Lua { name, arity } => Operation::Lua { name: name.clone(), arity: *arity },
        }
    }
}

/// The value of an operation that may be absent.
pub open spec fn operation_view(operation: Option<Operation>) -> Option<OperationView> {
    match operation {
        Some(op) => Some(op@),
        None => None,
    }
}

/// The registry that holds exactly the built-in operators under their names.
pub open spec fn builtin_table() -> Map<Seq<char>, OperationView> {
    Map::new(
        |name: Seq<char>| builtin_named(name).is_some(),
        |name: Seq<char>| OperationView::Native(builtin_named(name).unwrap()),
    )
}

/// What a query for `text` finds in `registry`: the entry under the
/// lower-case form of `text`, if there is one.
pub open spec fn resolve(registry: Map<Seq<char>, OperationView>, text: Seq<char>) -> Option<
    OperationView,
> {
    registry.get(lowercase(text))
}

/// `registry` after a script of `runtime` declared `name` with `arity`: the
/// entry stands under the lower-case form of the name and replaces what was
/// there.
pub open spec fn declared(
    registry: Map<Seq<char>, OperationView>,
    runtime: Runtime,
    name: Seq<char>,
    arity: nat,
) -> Map<Seq<char>, OperationView> {
    registry.insert(lowercase(name), OperationView::scripted(runtime, name, arity))
}

/// An operation that a script declared: its name as written, and the number
/// of operands it takes.
#[derive(Debug, PartialEq, Eq)]
pub struct Declaration {
    pub name: String,
    pub arity: usize,
}

/// The mathematical value of a [`Declaration`].
pub struct DeclarationView {
    pub name: Seq<char>,
    pub arity: nat,
}

impl View for Declaration {
    type V = DeclarationView;

    open spec fn view(&self) -> DeclarationView {
        DeclarationView { name: self.name@, arity: self.arity as nat }
    }
}

/// The values of a list of declarations, in order.
pub open spec fn declaration_views(declarations: Seq<Declaration>) -> Seq<DeclarationView> {
    declarations.map_values(|d: Declaration| d@)
}

/// `registry` after the scripts of `runtime` made `declarations`, in order:
/// each stands under the lower-case form of its name, and a later one
/// replaces an earlier one, or a built-in, of the same key.
pub open spec fn absorbed(
    registry: Map<Seq<char>, OperationView>,
    runtime: Runtime,
    declarations: Seq<DeclarationView>,
) -> Map<Seq<char>, OperationView>
    decreases declarations.len(),
{
    if declarations.len() == 0 {
        registry
    } else {
        declared(
            absorbed(registry, runtime, declarations.drop_last()),
            runtime,
            declarations.last().name,
            declarations.last().arity,
        )
    }
}

/// The name-to-operation mapping.
pub struct Registry {
    entries: StringHashMap<Operation>,
}

impl View for Registry {
    type V = Map<Seq<char>, OperationView>;

    closed spec fn view(&self) -> Map<Seq<char>, OperationView> {
        self.entries@.map_values(|op: Operation| op@)
    }
}

impl Registry {
    /// A registry without entries.
    pub fn new() -> (r: Self)
        ensures
            r@ == Map::<Seq<char>, OperationView>::empty(),
    {
        let r = Registry { entries: StringHashMap::new() };
        assert(r@ =~= Map::<Seq<char>, OperationView>::empty());
        r
    }

    /// Inserts a built-in operator under `name`, taken as written.
    pub fn register_native(&mut self, name: &str, op: Builtin)
        ensures
            final(self)@ == old(self)@.insert(name@, OperationView::Native(op)),
    {
        self.insert(name.to_owned(), Operation::Native(op));
    }

    /// Inserts `operation` under `key`, taken as written. An entry under the
    /// same key is replaced.
    pub fn insert(&mut self, key: String, operation: Operation)
        ensures
            final(self)@ == old(self)@.insert(key@, operation@),
    {
        self.entries.insert(key, operation);
        assert(final(self)@ =~= old(self)@.insert(key@, operation@));
    }

    /// Inserts an operation that a script declared as `name`. The key is the
    /// lower-case form of the name; the operation keeps the name as declared,
    /// by which its runtime knows it. An entry under the same key is replaced.
    pub fn register_scripted(&mut self, runtime: Runtime, name: String, arity: usize)
        ensures
            final(self)@ == declared(old(self)@, runtime, name@, arity as nat),
    {
        let key = name.as_str().to_lowercase();
        let operation = match runtime {
            Runtime::Uiua => Operation::Uiua { name, arity },
            Runtime::Lua => Operation::Lua { name, arity },
        };
        self.insert(key, operation);
    }

    /// Inserts what the scripts of `runtime` declared, in order.
    pub fn register_all(&mut self, runtime: Runtime, declarations: &Vec<Declaration>)
        ensures
            final(self)@ == absorbed(old(self)@, runtime, declaration_views(declarations@)),
    {
        let ghost views = declaration_views(declarations@);
        let mut i: usize = 0;
        while i < declarations.len()
            invariant
                i <= declarations@.len(),
                views == declaration_views(declarations@),
                self@ == absorbed(old(self)@, runtime, views.take(i as int)),
            decreases declarations@.len() - i,
        {
            proof {
                assert(views.take(i + 1).drop_last() =~= views.take(i as int));
                assert(views.take(i + 1).last() == declarations@[i as int]@);
            }
            let declaration = &declarations[i];
            self.register_scripted(runtime, declaration.name.clone(), declaration.arity);
            i += 1;
        }
        assert(views.take(declarations@.len() as int) =~= views);
    }

    /// The operation that stands under `key`, taken as written.
    pub fn get(&self, key: &str) -> (found: Option<Operation>)
        ensures
            operation_view(found) == self@.get(key@),
    {
        match self.entries.get(key) {
            Some(op) => Some(op.duplicate()),
            None => None,
        }
    }

    /// Looks `text` up, whatever its case.
    pub fn lookup(&self, text: &str) -> (found: Option<Operation>)
        ensures
            operation_view(found) == resolve(self@, text@),
    {
        let key = text.to_lowercase();
        self.get(key.as_str())
    }

    /// The number of entries.
    pub fn len(&self) -> (n: usize)
        ensures
            n == self@.len(),
    {
        proof {
            assert(self@.dom() =~= self.entries@.dom());
        }
        self.entries.len()
    }

    /// The registry of a fresh calculator: every built-in operator under its
    /// name, and nothing else.
    pub fn with_builtins() -> (r: Self)
        ensures
            r@ == builtin_table(),
    {
        let mut r = Registry::new();
        r.register_native("+", Builtin::Add);
        r.register_native("-", Builtin::Sub);
        r.register_native("*", Builtin::Mul);
        r.register_native("/", Builtin::Div);
        r.register_native("^", Builtin::Pow);
        r.register_native("neg", Builtin::Neg);
        r.register_native("`", Builtin::Neg);
        r.register_native("sin", Builtin::Sin);
        r.register_native("cos", Builtin::Cos);
        r.register_native("tan", Builtin::Tan);
        r.register_native("asin", Builtin::Asin);
        r.register_native("acos", Builtin::Acos);
        r.register_native("atan", Builtin::Atan);
        r.register_native("d2r", Builtin::DegToRad);
        r.register_native("ln", Builtin::Ln);
        r.register_native("swap", Builtin::Swap);
        r.register_native("pred", Builtin::Pred);
        r.register_native("succ", Builtin::Succ);
        r.register_native("sqrt", Builtin::Sqrt);
        r.register_native("cbrt", Builtin::Cbrt);
        r.register_native("pi", Builtin::Pi);
        proof {
            lemma_builtin_names_are_distinct();
            assert(r@ =~= builtin_table());
        }
        r
    }
}

/// Each built-in name stands for its own operator: no two of the names are
/// the same text.
pub proof fn lemma_builtin_names_are_distinct()
    ensures
        builtin_named("+"@) == Some(Builtin::Add),
        builtin_named("-"@) == Some(Builtin::Sub),
        builtin_named("*"@) == Some(Builtin::Mul),
        builtin_named("/"@) == Some(Builtin::Div),
        builtin_named("^"@) == Some(Builtin::Pow),
        builtin_named("neg"@) == Some(Builtin::Neg),
        builtin_named("`"@) == Some(Builtin::Neg),
        builtin_named("sin"@) == Some(Builtin::Sin),
        builtin_named("cos"@) == Some(Builtin::Cos),
        builtin_named("tan"@) == Some(Builtin::Tan),
        builtin_named("asin"@) == Some(Builtin::Asin),
        builtin_named("acos"@) == Some(Builtin::Acos),
        builtin_named("atan"@) == Some(Builtin::Atan),
        builtin_named("d2r"@) == Some(Builtin::DegToRad),
        builtin_named("ln"@) == Some(Builtin::Ln),
        builtin_named("swap"@) == Some(Builtin::Swap),
        builtin_named("pred"@) == Some(Builtin::Pred),
        builtin_named("succ"@) == Some(Builtin::Succ),
        builtin_named("sqrt"@) == Some(Builtin::Sqrt),
        builtin_named("cbrt"@) == Some(Builtin::Cbrt),
        builtin_named("pi"@) == Some(Builtin::Pi),
{
    reveal_strlit("+");
    reveal_strlit("-");
    reveal_strlit("*");
    reveal_strlit("/");
    reveal_strlit("^");
    reveal_strlit("neg");
    reveal_strlit("`");
    reveal_strlit("sin");
    reveal_strlit("cos");
    reveal_strlit("tan");
    reveal_strlit("asin");
    reveal_strlit("acos");
    reveal_strlit("atan");
    reveal_strlit("d2r");
    reveal_strlit("ln");
    reveal_strlit("swap");
    reveal_strlit("pred");
    reveal_strlit("succ");
    reveal_strlit("sqrt");
    reveal_strlit("cbrt");
    reveal_strlit("pi");
    assert("+"@[0] == '+');
    assert("-"@[0] == '-');
    assert("*"@[0] == '*');
    assert("/"@[0] == '/');
    assert("^"@[0] == '^');
    assert("neg"@[0] == 'n');
    assert("`"@[0] == '`');
    assert("sin"@[0] == 's');
    assert("cos"@[0] == 'c');
    assert("tan"@[0] == 't');
    assert("asin"@[0] == 'a');
    assert("asin"@[1] == 's');
    assert("acos"@[0] == 'a');
    assert("acos"@[1] == 'c');
    assert("atan"@[0] == 'a');
    assert("atan"@[1] == 't');
    assert("d2r"@[0] == 'd');
    assert("ln"@[0] == 'l');
    assert("swap"@[0] == 's');
    assert("swap"@[1] == 'w');
    assert("pred"@[0] == 'p');
    assert("pred"@[1] == 'r');
    assert("succ"@[0] == 's');
    assert("succ"@[1] == 'u');
    assert("sqrt"@[0] == 's');
    assert("sqrt"@[1] == 'q');
    assert("cbrt"@[0] == 'c');
    assert("cbrt"@[1] == 'b');
    assert("pi"@[0] == 'p');
}

} // verus!
