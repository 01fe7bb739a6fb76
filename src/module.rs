use vstd::prelude::*;
use crate::engine::{Engine, ObjectRecord};
use crate::value::{check_name, into_js, spec_into_js, valid_name, Ctx, Error, Native, Value};

verus! {

/// The hooks of a native module.
pub trait ModuleDef {
    /// What the before-init hook returns in context `ctx`.
    open spec fn before_init_result(ctx: Ctx) -> Result<(), Error> {
        Ok(())
    }

    /// What the after-init hook returns in context `ctx`, handed the table `table`.
    open spec fn after_init_result(ctx: Ctx, table: ExportTable) -> Result<(), Error> {
        Ok(())
    }

    /// Declares the exports; runs once, when the module is created.
    fn before_init(ctx: Ctx, exports: &mut Exports<BeforeInit>) -> (r: Result<(), Error>)
        ensures
            r == Self::before_init_result(ctx),
    ;

    /// Sets the exports' values; runs once, when the engine instantiates the
    /// module. The export names stay as they were declared.
    fn after_init(ctx: Ctx, exports: &mut Exports<AfterInit>) -> (r: Result<(), Error>)
        ensures
            same_names(final(exports)@, old(exports)@),
            r == Self::after_init_result(ctx, old(exports)@),
    ;
}

/// Marker for a module that is not instantiated yet.
#[derive(Clone, Copy, Debug, PartialEq, Eq, Structural)]
pub struct BeforeInit;

/// Marker for a module that is instantiated.
#[derive(Clone, Copy, Debug, PartialEq, Eq, Structural)]
pub struct AfterInit;

/// One export of a module: its name, and its value once set.
pub struct Export {
    pub name: String,
    pub value: Option<Value>,
}

/// An export table, as names and values.
pub type ExportTable = Seq<(Seq<char>, Option<Value>)>;

pub open spec fn table_of(es: Seq<Export>) -> ExportTable {
    es.map_values(|e: Export| (e.name@, e.value))
}

/// The index of the first export named `name` at or after `i`, or the
/// table's length when there is none.
pub open spec fn find_from(es: ExportTable, name: Seq<char>, i: nat) -> nat
    decreases es.len() - i,
{
    if i >= es.len() {
        es.len()
    } else if es[i as int].0 == name {
        i
    } else {
        find_from(es, name, i + 1)
    }
}

pub open spec fn find_export(es: ExportTable, name: Seq<char>) -> nat {
    find_from(es, name, 0)
}

/// Declaring `name`: a new entry without a value.
pub open spec fn spec_declare(es: ExportTable, name: Seq<char>) -> ExportTable {
    es.push((name, None))
}

/// Assigning `v` to `name`: the first entry of that name takes it; a name
/// never declared changes nothing.
pub open spec fn spec_assign(es: ExportTable, name: Seq<char>, v: Value) -> ExportTable {
    let i = find_export(es, name);
    if i < es.len() {
        es.update(i as int, (name, Some(v)))
    } else {
        es
    }
}

/// Reading `name`: the value of its first entry, undefined while unset.
pub open spec fn spec_read(es: ExportTable, name: Seq<char>) -> Result<Value, Error> {
    let i = find_export(es, name);
    if i < es.len() {
        match es[i as int].1 {
            Some(v) => Ok(v),
            None => Ok(Value::Undefined),
        }
    } else {
        Err(Error::UnknownExport)
    }
}

proof fn lemma_find_from_bounds(es: ExportTable, name: Seq<char>, i: nat)
    ensures
        find_from(es, name, i) <= es.len(),
        find_from(es, name, i) < es.len() ==> es[find_from(es, name, i) as int].0 == name && i
            <= find_from(es, name, i),
        forall|j: int| i <= j < find_from(es, name, i) ==> #[trigger] es[j].0 != name,
    decreases es.len() - i,
{
    if i < es.len() && es[i as int].0 != name {
        lemma_find_from_bounds(es, name, i + 1);
    }
}

/// Two tables with the same names find the same entry.
proof fn lemma_find_same_names(a: ExportTable, b: ExportTable, name: Seq<char>, i: nat)
    requires
        a.len() == b.len(),
        forall|j: int| 0 <= j < a.len() ==> #[trigger] a[j].0 == b[j].0,
    ensures
        find_from(a, name, i) == find_from(b, name, i),
    decreases a.len() - i,
{
    if i < a.len() {
        lemma_find_same_names(a, b, name, i + 1);
    }
}

/// Two tables hold the same names, at the same places.
pub open spec fn same_names(a: ExportTable, b: ExportTable) -> bool {
    a.len() == b.len() && forall|j: int| 0 <= j < a.len() ==> #[trigger] a[j].0 == b[j].0
}

/// A name declared before instantiation, then assigned a value on a table
/// whose names are the declared ones, reads back as that value.
pub proof fn lemma_declared_round_trip(es: ExportTable, after: ExportTable, name: Seq<char>, v: Value)
    requires
        same_names(after, spec_declare(es, name)),
    ensures
        spec_read(spec_assign(after, name, v), name) == Ok::<Value, Error>(v),
{
    let d = spec_declare(es, name);
    lemma_find_from_bounds(d, name, 0);
    lemma_find_same_names(after, d, name, 0);
    if find_export(d, name) >= d.len() {
        assert(d[es.len() as int].0 == name);
    }
    let s = spec_assign(after, name, v);
    assert forall|j: int| 0 <= j < after.len() implies #[trigger] after[j].0 == s[j].0 by {}
    lemma_find_same_names(after, s, name, 0);
}

/// The export table of a module in phase `S`. Hooks reach a module through it.
pub struct Exports<S> {
    entries: Vec<Export>,
    phase: S,
}

impl<S> View for Exports<S> {
    type V = ExportTable;

    closed spec fn view(&self) -> ExportTable {
        table_of(self.entries@)
    }
}

impl<S> Exports<S> {
    /// The index of the first entry named `name`, or the length.
    fn find(&self, name: &String) -> (r: usize)
        ensures
            r == find_export(self@, name@),
    {
        let n = self.entries.len();
        let mut i: usize = 0;
        proof {
            lemma_find_from_bounds(self@, name@, 0);
        }
        while i < n
            invariant
                n == self@.len(),
                i <= n,
                find_from(self@, name@, 0) == find_from(self@, name@, i as nat),
            decreases n - i,
        {
            if self.entries[i].name == *name {
                return i;
            }
            i = i + 1;
        }
        i
    }

    /// Reads the value of export `name`.
    pub fn get(&self, name: &str) -> (r: Result<Value, Error>)
        ensures
            !valid_name(name@) ==> r == Err::<Value, Error>(Error::InvalidName),
            valid_name(name@) ==> r == spec_read(self@, name@),
    {
        match check_name(name) {
            Ok(()) => {},
            Err(e) => return Err(e),
        }
        let key = name.to_owned();
        let i = self.find(&key);
        if i < self.entries.len() {
            match self.entries[i].value {
                Some(v) => Ok(v),
                None => Ok(Value::Undefined),
            }
        } else {
            Err(Error::UnknownExport)
        }
    }

    /// The names of the exports, in declaration order.
    pub fn names(&self) -> (r: ExportNamesIter)
        ensures
            r@ == self@.map_values(|e: (Seq<char>, Option<Value>)| e.0),
    {
        let mut names: Vec<String> = Vec::new();
        let n = self.entries.len();
        let mut i: usize = 0;
        while i < n
            invariant
                n == self@.len(),
                i <= n,
                names@.len() == i,
                forall|j: int| 0 <= j < i ==> #[trigger] names@[j]@ == self@[j].0,
            decreases n - i,
        {
            names.push(self.entries[i].name.clone());
            i = i + 1;
        }
        let r = ExportNamesIter { names, index: 0 };
        assert(r@ =~= self@.map_values(|e: (Seq<char>, Option<Value>)| e.0));
        r
    }

    /// The exports as names and values, in declaration order; an unset value
    /// reads as undefined.
    pub fn entries(&self) -> (r: ExportEntriesIter)
        ensures
            r@ == self@.map_values(|e: (Seq<char>, Option<Value>)| (e.0, value_or_undefined(e.1))),
    {
        let mut items: Vec<(String, Value)> = Vec::new();
        let n = self.entries.len();
        let mut i: usize = 0;
        while i < n
            invariant
                n == self@.len(),
                i <= n,
                items@.len() == i,
                forall|j: int| 0 <= j < i ==> #[trigger] items@[j].0@ == self@[j].0 && items@[j].1
                    == value_or_undefined(self@[j].1),
            decreases n - i,
        {
            let v = match self.entries[i].value {
                Some(v) => v,
                None => Value::Undefined,
            };
            let name = self.entries[i].name.clone();
            assert(self@[i as int] == (self.entries@[i as int].name@, self.entries@[i as int].value));
            items.push((name, v));
            i = i + 1;
        }
        let r = ExportEntriesIter { items, index: 0 };
        assert(r@ =~= self@.map_values(
            |e: (Seq<char>, Option<Value>)| (e.0, value_or_undefined(e.1)),
        ));
        r
    }
}

pub open spec fn value_or_undefined(v: Option<Value>) -> Value {
    match v {
        Some(x) => x,
        None => Value::Undefined,
    }
}

impl Exports<BeforeInit> {
    /// Declares export `name`, without a value yet.
    pub fn add(&mut self, name: &str) -> (r: Result<(), Error>)
        ensures
            valid_name(name@) ==> r is Ok && final(self)@ == spec_declare(old(self)@, name@),
            !valid_name(name@) ==> r == Err::<(), Error>(Error::InvalidName) && final(self)@ == old(
                self,
            )@,
    {
        match check_name(name) {
            Ok(()) => {},
            Err(e) => return Err(e),
        }
        let ghost before = self.entries@;
        self.entries.push(Export { name: name.to_owned(), value: None });
        proof {
            assert(table_of(self.entries@) =~= table_of(before).push((name@, None)));
        }
        Ok(())
    }
}

impl Exports<AfterInit> {
    /// Sets the value of export `name`. A name that was never declared is
    /// left out, as the engine does.
    pub fn set(&mut self, name: &str, value: Native) -> (r: Result<(), Error>)
        ensures
            !valid_name(name@) ==> r == Err::<(), Error>(Error::InvalidName) && final(self)@ == old(
                self,
            )@,
            valid_name(name@) ==> match spec_into_js(value) {
                Err(e) => r == Err::<(), Error>(e) && final(self)@ == old(self)@,
                Ok(v) => r is Ok && final(self)@ == spec_assign(old(self)@, name@, v),
            },
    {
        match check_name(name) {
            Ok(()) => {},
            Err(e) => return Err(e),
        }
        let v = match into_js(value) {
            Ok(v) => v,
            Err(e) => return Err(e),
        };
        let key = name.to_owned();
        let i = self.find(&key);
        if i < self.entries.len() {
            let ghost before = self.entries@;
            self.entries.set(i, Export { name: key, value: Some(v) });
            proof {
                assert(table_of(self.entries@) =~= table_of(before).update(i as int, (name@, Some(v))));
            }
        }
        Ok(())
    }
}

/// A native module instance. Handles compare by identity.
pub struct Module<S> {
    ptr: u64,
    ctx: Ctx,
    name: String,
    meta: usize,
    exports: Exports<S>,
}

impl<S> PartialEq for Module<S> {
    fn eq(&self, other: &Module<S>) -> (r: bool) {
        self.ptr == other.ptr
    }
}

impl<S> vstd::std_specs::cmp::PartialEqSpecImpl for Module<S> {
    open spec fn obeys_eq_spec() -> bool {
        true
    }

    open spec fn eq_spec(&self, other: &Module<S>) -> bool {
        self.handle() == other.handle()
    }
}

impl<S> Module<S> {
    pub closed spec fn handle(&self) -> u64 {
        self.ptr
    }

    pub closed spec fn name_view(&self) -> Seq<char> {
        self.name@
    }

    pub closed spec fn meta_id(&self) -> usize {
        self.meta
    }

    pub closed spec fn exports_view(&self) -> ExportTable {
        self.exports@
    }

    pub closed spec fn ctx_view(&self) -> Ctx {
        self.ctx
    }

    /// The module's handle in the engine.
    pub fn as_module_def(&self) -> (r: u64)
        ensures
            r == self.handle(),
    {
        self.ptr
    }

    /// The module as an engine value.
    pub fn as_js_value(&self) -> (r: Value)
        ensures
            r == Value::Module(self.handle()),
    {
        Value::Module(self.ptr)
    }

    /// The module's name.
    pub fn name(&self) -> (r: String)
        ensures
            r@ == self.name_view(),
    {
        self.name.clone()
    }

    /// The module's `import.meta` object.
    pub fn meta(&self) -> (r: Value)
        ensures
            r == Value::Object(self.meta_id()),
    {
        Value::Object(self.meta)
    }

    /// Reads the value of export `name`.
    pub fn get(&self, name: &str) -> (r: Result<Value, Error>)
        ensures
            !valid_name(name@) ==> r == Err::<Value, Error>(Error::InvalidName),
            valid_name(name@) ==> r == spec_read(self.exports_view(), name@),
    {
        self.exports.get(name)
    }

    /// The names of the exports, in declaration order.
    pub fn names(&self) -> (r: ExportNamesIter)
        ensures
            r@ == self.exports_view().map_values(|e: (Seq<char>, Option<Value>)| e.0),
    {
        self.exports.names()
    }

    /// The exports as names and values, in declaration order.
    pub fn entries(&self) -> (r: ExportEntriesIter)
        ensures
            r@ == self.exports_view().map_values(
                |e: (Seq<char>, Option<Value>)| (e.0, value_or_undefined(e.1)),
            ),
    {
        self.exports.entries()
    }
}

impl Module<BeforeInit> {
    /// Creates a native module named `name` and runs its before-init hook.
    pub fn new<D: ModuleDef>(engine: &mut Engine, ctx: Ctx, name: &str) -> (r: Result<Module<BeforeInit>, Error>)
        ensures
            !valid_name(name@) ==> r == Err::<Module<BeforeInit>, Error>(Error::InvalidName)
                && *final(engine) == *old(engine),
            valid_name(name@) && old(engine).next_module == u64::MAX ==> r == Err::<
                Module<BeforeInit>,
                Error,
            >(Error::Allocation) && *final(engine) == *old(engine),
            valid_name(name@) && old(engine).next_module < u64::MAX ==> final(engine).next_module
                == old(engine).next_module + 1 && final(engine).objects@ == old(engine).objects@.push(
                (ObjectRecord { proto: None, function: false, constructor: false }),
            ) && final(engine).classes == old(engine).classes,
            valid_name(name@) && old(engine).next_module < u64::MAX ==> match D::before_init_result(
                ctx,
            ) {
                Ok(()) => r is Ok,
                Err(e) => r == Err::<Module<BeforeInit>, Error>(e),
            },
            r matches Ok(m) ==> m.handle() == old(engine).next_module && m.name_view() == name@
                && m.meta_id() == old(engine).objects@.len() && m.ctx_view() == ctx,
    {
        match check_name(name) {
            Ok(()) => {},
            Err(e) => return Err(e),
        }
        let ptr = match engine.alloc_module() {
            Ok(p) => p,
            Err(e) => return Err(e),
        };
        let meta = engine.new_object(None, false);
        let mut exports = Exports { entries: Vec::new(), phase: BeforeInit };
        match D::before_init(ctx, &mut exports) {
            Ok(()) => Ok(
                Module {
                    ptr,
                    ctx,
                    name: name.to_owned(),
                    meta,
                    exports,
                },
            ),
            Err(e) => Err(e),
        }
    }

    /// The engine's module-loading entry point: a module, or none when the
    /// name is unusable, no handle is left, or the hook failed.
    pub fn init<D: ModuleDef>(engine: &mut Engine, ctx: Ctx, name: &str) -> (r: Option<Module<BeforeInit>>)
        ensures
            !valid_name(name@) ==> r is None && *final(engine) == *old(engine),
            valid_name(name@) && old(engine).next_module == u64::MAX ==> r is None && *final(engine)
                == *old(engine),
            valid_name(name@) && old(engine).next_module < u64::MAX ==> final(engine).next_module
                == old(engine).next_module + 1 && final(engine).objects@ == old(engine).objects@.push(
                (ObjectRecord { proto: None, function: false, constructor: false }),
            ) && final(engine).classes == old(engine).classes && (r is Some
                <==> D::before_init_result(ctx) is Ok),
            r matches Some(m) ==> m.handle() == old(engine).next_module && m.name_view() == name@
                && m.meta_id() == old(engine).objects@.len() && m.ctx_view() == ctx,
    {
        match Module::<BeforeInit>::new::<D>(engine, ctx, name) {
            Ok(m) => Some(m),
            Err(_) => None,
        }
    }

    /// Declares export `name`, without a value yet.
    pub fn add(&mut self, name: &str) -> (r: Result<(), Error>)
        ensures
            valid_name(name@) ==> r is Ok && final(self).exports_view() == spec_declare(
                old(self).exports_view(),
                name@,
            ),
            !valid_name(name@) ==> r == Err::<(), Error>(Error::InvalidName)
                && final(self).exports_view() == old(self).exports_view(),
            final(self).handle() == old(self).handle(),
            final(self).name_view() == old(self).name_view(),
            final(self).meta_id() == old(self).meta_id(),
            final(self).ctx_view() == old(self).ctx_view(),
    {
        self.exports.add(name)
    }

    /// Instantiates the module: runs the after-init hook on the declared
    /// export table and reports the engine's status, 0 when the hook
    /// succeeds and -1 when it fails. The module is consumed, so the hook runs
    /// at most once per module; a failed module is not handed back.
    pub fn instantiate<D: ModuleDef>(self) -> (r: (i32, Option<Module<AfterInit>>))
        ensures
            r.0 == 0 || r.0 == -1,
            r.0 == 0 <==> r.1 is Some,
            r.0 == 0 <==> D::after_init_result(self.ctx_view(), self.exports_view()) is Ok,
            r.1 matches Some(m) ==> m.handle() == self.handle() && m.name_view() == self.name_view()
                && m.meta_id() == self.meta_id() && m.ctx_view() == self.ctx_view() && same_names(
                m.exports_view(),
                self.exports_view(),
            ),
    {
        let ghost t0 = self.exports@;
        let ctx = self.ctx;
        let mut exports = Exports { entries: self.exports.entries, phase: AfterInit };
        assert(exports@ == t0);
        match D::after_init(ctx, &mut exports) {
            Ok(()) => (
                0,
                Some(
                    Module {
                        ptr: self.ptr,
                        ctx,
                        name: self.name,
                        meta: self.meta,
                        exports,
                    },
                ),
            ),
            Err(_) => (-1, None),
        }
    }
}

impl Module<AfterInit> {
    /// Sets the value of export `name`.
    pub fn set(&mut self, name: &str, value: Native) -> (r: Result<(), Error>)
        ensures
            !valid_name(name@) ==> r == Err::<(), Error>(Error::InvalidName)
                && final(self).exports_view() == old(self).exports_view(),
            valid_name(name@) ==> match spec_into_js(value) {
                Err(e) => r == Err::<(), Error>(e) && final(self).exports_view() == old(
                    self,
                ).exports_view(),
                Ok(v) => r is Ok && final(self).exports_view() == spec_assign(
                    old(self).exports_view(),
                    name@,
                    v,
                ),
            },
            final(self).handle() == old(self).handle(),
            final(self).name_view() == old(self).name_view(),
            final(self).meta_id() == old(self).meta_id(),
            final(self).ctx_view() == old(self).ctx_view(),
    {
        self.exports.set(name, value)
    }
}

/// The names of a module's exports, taken one at a time.
pub struct ExportNamesIter {
    names: Vec<String>,
    index: usize,
}

impl View for ExportNamesIter {
    type V = Seq<Seq<char>>;

    /// The names not yet taken.
    closed spec fn view(&self) -> Seq<Seq<char>> {
        self.names@.subrange(self.index as int, self.names@.len() as int).map_values(|s: String| s@)
    }
}

impl ExportNamesIter {
    #[verifier::type_invariant]
    spec fn inv(self) -> bool {
        self.index <= self.names@.len()
    }

    /// Takes the next name, if any remains.
    pub fn next(&mut self) -> (r: Option<String>)
        ensures
            old(self)@.len() == 0 ==> r is None && final(self)@ == old(self)@,
            old(self)@.len() > 0 ==> r is Some && r->Some_0@ == old(self)@[0] && final(self)@ == old(
                self,
            )@.drop_first(),
    {
        proof {
            use_type_invariant(&*self);
        }
        if self.index == self.names.len() {
            return None;
        }
        let s = self.names[self.index].clone();
        self.index = self.index + 1;
        proof {
            assert(self@ =~= old(self)@.drop_first());
        }
        Some(s)
    }
}

/// The names and values of a module's exports, taken one at a time.
pub struct ExportEntriesIter {
    items: Vec<(String, Value)>,
    index: usize,
}

impl View for ExportEntriesIter {
    type V = Seq<(Seq<char>, Value)>;

    /// The entries not yet taken.
    closed spec fn view(&self) -> Seq<(Seq<char>, Value)> {
        self.items@.subrange(self.index as int, self.items@.len() as int).map_values(
            |e: (String, Value)| (e.0@, e.1),
        )
    }
}

impl ExportEntriesIter {
    #[verifier::type_invariant]
    spec fn inv(self) -> bool {
        self.index <= self.items@.len()
    }

    /// Takes the next entry, if any remains.
    pub fn next(&mut self) -> (r: Option<(String, Value)>)
        ensures
            old(self)@.len() == 0 ==> r is None && final(self)@ == old(self)@,
            old(self)@.len() > 0 ==> r is Some && r->Some_0.0@ == old(self)@[0].0 && r->Some_0.1
                == old(self)@[0].1 && final(self)@ == old(self)@.drop_first(),
    {
        proof {
            use_type_invariant(&*self);
        }
        if self.index == self.items.len() {
            return None;
        }
        let name = self.items[self.index].0.clone();
        let value = self.items[self.index].1;
        self.index = self.index + 1;
        proof {
            assert(self@ =~= old(self)@.drop_first());
        }
        Some((name, value))
    }
}

} // verus!
