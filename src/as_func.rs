use vstd::prelude::*;
use crate::args::ArgsIter;
use crate::engine::{
    spec_class_prototype, spec_get_prototype, with_prototype, Engine, ObjectRecord,
};
use crate::function::{
    assemble, assemble_args, lemma_too_few_args, min_arity, Assembled, CallArgs, Shape, ShapeView,
};
use crate::value::{into_js, spec_into_js, Ctx, Error, Kind, Native, Value};

verus! {

/// A native callable that the engine calls through one uniform entry point.
pub trait AsFunction: Sized {
    /// The parameter layout that calls are assembled by.
    spec fn shape_view(&self) -> ShapeView;

    /// The callable accepts every assembled argument list.
    spec fn ready(&self) -> bool;

    /// Minimum number of arguments.
    fn len(&self) -> (r: u32)
        requires
            min_arity(self.shape_view()) <= u32::MAX,
        ensures
            r == min_arity(self.shape_view()),
    ;

    /// Calls the native callable from the engine's side.
    fn call(&self, engine: &mut Engine, ctx: Ctx, this: Value, args: ArgsIter) -> (r: Result<Value, Error>)
        requires
            self.ready(),
        ensures
            args@.len() < min_arity(self.shape_view()) ==> r is Err,
    ;

    /// Finishes the engine-visible function object `func` once it is bound.
    fn post(&self, engine: &mut Engine, ctx: Ctx, func: usize) -> (r: Result<(), Error>);
}

/// A native callable that needs exclusive access for each call.
pub trait AsFunctionMut: Sized {
    spec fn shape_view(&self) -> ShapeView;

    spec fn ready(&self) -> bool;

    /// Minimum number of arguments.
    fn len(&self) -> (r: u32)
        requires
            min_arity(self.shape_view()) <= u32::MAX,
        ensures
            r == min_arity(self.shape_view()),
    ;

    /// Calls the native callable from the engine's side.
    fn call(&mut self, engine: &mut Engine, ctx: Ctx, this: Value, args: ArgsIter) -> (r: Result<Value, Error>)
        requires
            old(self).ready(),
        ensures
            args@.len() < min_arity(old(self).shape_view()) ==> r is Err,
            final(self).shape_view() == old(self).shape_view(),
            final(self).ready() == old(self).ready(),
    ;

    /// Finishes the engine-visible function object `func` once it is bound.
    fn post(&self, engine: &mut Engine, ctx: Ctx, func: usize) -> (r: Result<(), Error>);
}

/// What a call returns once its arguments assembled into `m`: the callable's
/// result `n` on `a`, converted back.
pub open spec fn call_result<F: Fn(Assembled) -> Native>(f: F, m: CallArgs, r: Result<Value, Error>) -> bool {
    exists|a: Assembled, n: Native|
        a@ == m && #[trigger] call_ensures(f, (a,), n) && r == spec_into_js(n)
}

/// A native callable `f`, called with the arguments of `shape`.
pub struct Func<F> {
    pub shape: Shape,
    pub f: F,
}

impl<F: Fn(Assembled) -> Native> Func<F> {
    /// Calls `f` with the arguments of one call, assembled as `shape` declares.
    pub fn invoke(&self, ctx: Ctx, this: Value, args: ArgsIter) -> (r: Result<Value, Error>)
        requires
            forall|a: Assembled| call_requires(self.f, (a,)),
        ensures
            args@.len() < min_arity(self.shape@) ==> r is Err,
            match assemble(self.shape@, ctx, this, args@) {
                Err(e) => r == Err::<Value, Error>(e),
                Ok(m) => call_result(self.f, m, r),
            },
    {
        let ghost a0 = args@;
        let mut args = args;
        proof {
            if a0.len() < min_arity(self.shape@) {
                lemma_too_few_args(self.shape@, ctx, this, a0);
            }
        }
        let a = match assemble_args(&self.shape, ctx, this, &mut args) {
            Ok(a) => a,
            Err(e) => return Err(e),
        };
        let ghost ga = a;
        let n = (self.f)(a);
        let r = into_js(n);
        assert(call_ensures(self.f, (ga,), n));
        r
    }
}

impl<F: Fn(Assembled) -> Native> AsFunction for Func<F> {
    open spec fn shape_view(&self) -> ShapeView {
        self.shape@
    }

    open spec fn ready(&self) -> bool {
        forall|a: Assembled| call_requires(self.f, (a,))
    }

    fn len(&self) -> (r: u32) {
        self.shape.len()
    }

    fn call(&self, engine: &mut Engine, ctx: Ctx, this: Value, args: ArgsIter) -> (r: Result<Value, Error>)
        ensures
            *final(engine) == *old(engine),
            match assemble(self.shape@, ctx, this, args@) {
                Err(e) => r == Err::<Value, Error>(e),
                Ok(m) => call_result(self.f, m, r),
            },
    {
        self.invoke(ctx, this, args)
    }

    fn post(&self, engine: &mut Engine, ctx: Ctx, func: usize) -> (r: Result<(), Error>)
        ensures
            r is Ok,
            *final(engine) == *old(engine),
    {
        Ok(())
    }
}

/// A native callable with a state of its own: each call reads the state and
/// leaves the next one.
pub struct FuncMut<S, F> {
    pub shape: Shape,
    pub state: S,
    pub f: F,
}

/// What a stateful call returns once its arguments assembled into `m`, and
/// the state `s2` that it leaves.
pub open spec fn call_result_mut<S, F: Fn(&S, Assembled) -> (S, Native)>(
    f: F,
    s: S,
    m: CallArgs,
    s2: S,
    r: Result<Value, Error>,
) -> bool {
    exists|a: Assembled, n: Native|
        a@ == m && #[trigger] call_ensures(f, (&s, a), (s2, n)) && r == spec_into_js(n)
}

impl<S, F: Fn(&S, Assembled) -> (S, Native)> FuncMut<S, F> {
    /// Calls `f` on the state and the arguments of one call, and keeps the
    /// state that it leaves.
    pub fn invoke(&mut self, ctx: Ctx, this: Value, args: ArgsIter) -> (r: Result<Value, Error>)
        requires
            forall|s: &S, a: Assembled| call_requires(old(self).f, (s, a)),
        ensures
            args@.len() < min_arity(old(self).shape@) ==> r is Err,
            final(self).shape == old(self).shape,
            final(self).f == old(self).f,
            match assemble(old(self).shape@, ctx, this, args@) {
                Err(e) => r == Err::<Value, Error>(e) && final(self).state == old(self).state,
                Ok(m) => call_result_mut(old(self).f, old(self).state, m, final(self).state, r),
            },
    {
        let ghost a0 = args@;
        let mut args = args;
        proof {
            if a0.len() < min_arity(self.shape@) {
                lemma_too_few_args(self.shape@, ctx, this, a0);
            }
        }
        let a = match assemble_args(&self.shape, ctx, this, &mut args) {
            Ok(a) => a,
            Err(e) => return Err(e),
        };
        let ghost ga = a;
        let (s2, n) = (self.f)(&self.state, a);
        let ghost s0 = self.state;
        self.state = s2;
        let r = into_js(n);
        assert(call_ensures(self.f, (&s0, ga), (self.state, n)));
        r
    }
}

impl<S, F: Fn(&S, Assembled) -> (S, Native)> AsFunctionMut for FuncMut<S, F> {
    open spec fn shape_view(&self) -> ShapeView {
        self.shape@
    }

    open spec fn ready(&self) -> bool {
        forall|s: &S, a: Assembled| call_requires(self.f, (s, a))
    }

    fn len(&self) -> (r: u32) {
        self.shape.len()
    }

    fn call(&mut self, engine: &mut Engine, ctx: Ctx, this: Value, args: ArgsIter) -> (r: Result<Value, Error>)
        ensures
            *final(engine) == *old(engine),
            final(self).shape == old(self).shape,
            final(self).f == old(self).f,
            match assemble(old(self).shape@, ctx, this, args@) {
                Err(e) => r == Err::<Value, Error>(e) && final(self).state == old(self).state,
                Ok(m) => call_result_mut(old(self).f, old(self).state, m, final(self).state, r),
            },
    {
        self.invoke(ctx, this, args)
    }

    fn post(&self, engine: &mut Engine, ctx: Ctx, func: usize) -> (r: Result<(), Error>)
        ensures
            r is Ok,
            *final(engine) == *old(engine),
    {
        Ok(())
    }
}

/// A native callable that constructs instances of the class `class`. The
/// receiver is never converted: it only tells a `new` call, where it is the
/// new-target function, from a plain one.
pub struct Constructor<F> {
    class: usize,
    shape: Shape,
    f: F,
}

/// The prototype that a construction attaches: the new-target's own one in a
/// `new` call, else the class's registered one.
pub open spec fn construct_prototype(engine: Engine, class: usize, this: Value) -> Result<usize, Error> {
    match this {
        Value::Function(id) => spec_get_prototype(engine.objects@, id),
        _ => spec_class_prototype(engine.classes@, class),
    }
}

/// How a construction ends once the callable returned `n`: a non-object
/// fails, an object gets the prototype `p` attached.
pub open spec fn construct_outcome(
    before: Engine,
    after: Engine,
    class: usize,
    p: usize,
    n: Native,
    r: Result<Value, Error>,
) -> bool {
    match spec_into_js(n) {
        Err(e) => r == Err::<Value, Error>(e) && after == before,
        Ok(Value::Object(o)) => if o < before.objects@.len() {
            r == Ok::<Value, Error>(Value::Object(o)) && after.objects@ == with_prototype(
                before.objects@,
                o,
                p,
            )
        } else {
            r == Err::<Value, Error>(Error::Prototype) && after == before
        },
        Ok(_) => r == Err::<Value, Error>(Error::NotAnObject { class }) && after == before,
    }
}

impl<F> Constructor<F> {
    #[verifier::type_invariant]
    spec fn inv(self) -> bool {
        self.shape.this is None
    }

    /// The class that is constructed.
    pub closed spec fn class_id(&self) -> usize {
        self.class
    }

    /// The parameter layout; it never takes a receiver.
    pub closed spec fn shape_of(&self) -> ShapeView {
        self.shape@
    }

    pub closed spec fn callable(&self) -> F {
        self.f
    }
}

impl<F: Fn(Assembled) -> Native> Constructor<F> {
    pub fn new(class: usize, ctx: bool, params: Vec<Kind>, rest: Option<Kind>, f: F) -> (r: Constructor<F>)
        ensures
            r.class_id() == class,
            r.shape_of() == (ShapeView { ctx, this: None, params: params@, rest }),
            r.callable() == f,
    {
        Constructor { class, shape: Shape { ctx, this: None, params, rest }, f }
    }

    /// Constructs an instance: resolves the prototype, calls `f` with the
    /// assembled arguments, and attaches the prototype to the object it made.
    pub fn construct(&self, engine: &mut Engine, ctx: Ctx, this: Value, args: ArgsIter) -> (r: Result<Value, Error>)
        requires
            forall|a: Assembled| call_requires(self.callable(), (a,)),
        ensures
            final(engine).classes == old(engine).classes,
            final(engine).next_module == old(engine).next_module,
            args@.len() < min_arity(self.shape_of()) ==> r is Err,
            match construct_prototype(*old(engine), self.class_id(), this) {
                Err(e) => r == Err::<Value, Error>(e) && *final(engine) == *old(engine),
                Ok(p) => match assemble(self.shape_of(), ctx, this, args@) {
                    Err(e) => r == Err::<Value, Error>(e) && *final(engine) == *old(engine),
                    Ok(m) => exists|a: Assembled, n: Native|
                        a@ == m && #[trigger] call_ensures(self.callable(), (a,), n) && construct_outcome(
                            *old(engine),
                            *final(engine),
                            self.class_id(),
                            p,
                            n,
                            r,
                        ),
                },
            },
    {
        proof {
            use_type_invariant(self);
            assert(self.callable() == self.f);
            assert(self.class_id() == self.class);
            assert(self.shape_of() == self.shape@);
        }
        let ghost a0 = args@;
        let mut args = args;
        proof {
            if a0.len() < min_arity(self.shape@) {
                lemma_too_few_args(self.shape@, ctx, this, a0);
            }
        }
        let proto = match this {
            Value::Function(id) => engine.get_prototype(id),
            _ => engine.class_prototype(self.class),
        };
        let proto = match proto {
            Ok(p) => p,
            Err(e) => return Err(e),
        };
        let a = match assemble_args(&self.shape, ctx, this, &mut args) {
            Ok(a) => a,
            Err(e) => return Err(e),
        };
        let ghost ga = a;
        let ghost e0 = *engine;
        let n = (self.f)(a);
        assert(call_ensures(self.f, (ga,), n));
        let r = match into_js(n) {
            Ok(res) => match res {
                Value::Object(o) => match engine.set_prototype(o, proto) {
                    Ok(()) => Ok(res),
                    Err(e) => Err(e),
                },
                _ => Err(Error::NotAnObject { class: self.class }),
            },
            Err(e) => Err(e),
        };
        assert(construct_outcome(e0, *engine, self.class, proto, n, r));
        r
    }

    /// Marks `func` as callable with `new` and gives it the class's
    /// registered prototype.
    pub fn finish(&self, engine: &mut Engine, func: usize) -> (r: Result<(), Error>)
        ensures
            final(engine).classes == old(engine).classes,
            final(engine).next_module == old(engine).next_module,
            ({
                let marked = if func < old(engine).objects@.len() {
                    old(engine).objects@.update(
                        func as int,
                        ObjectRecord { constructor: true, ..old(engine).objects@[func as int] },
                    )
                } else {
                    old(engine).objects@
                };
                match spec_class_prototype(old(engine).classes@, self.class_id()) {
                    Err(e) => r == Err::<(), Error>(e) && final(engine).objects@ == marked,
                    Ok(p) => if func < old(engine).objects@.len() {
                        r is Ok && final(engine).objects@ == with_prototype(marked, func, p)
                    } else {
                        r == Err::<(), Error>(Error::Prototype) && final(engine).objects@ == marked
                    },
                }
            }),
    {
        engine.set_constructor(func, true);
        let proto = match engine.class_prototype(self.class) {
            Ok(p) => p,
            Err(e) => return Err(e),
        };
        engine.set_prototype(func, proto)
    }
}

impl<F: Fn(Assembled) -> Native> AsFunction for Constructor<F> {
    open spec fn shape_view(&self) -> ShapeView {
        self.shape_of()
    }

    open spec fn ready(&self) -> bool {
        forall|a: Assembled| call_requires(self.callable(), (a,))
    }

    fn len(&self) -> (r: u32) {
        self.shape.len()
    }

    fn call(&self, engine: &mut Engine, ctx: Ctx, this: Value, args: ArgsIter) -> (r: Result<Value, Error>)
        ensures
            final(engine).classes == old(engine).classes,
            final(engine).next_module == old(engine).next_module,
            match construct_prototype(*old(engine), self.class_id(), this) {
                Err(e) => r == Err::<Value, Error>(e) && *final(engine) == *old(engine),
                Ok(p) => match assemble(self.shape_of(), ctx, this, args@) {
                    Err(e) => r == Err::<Value, Error>(e) && *final(engine) == *old(engine),
                    Ok(m) => exists|a: Assembled, n: Native|
                        a@ == m && #[trigger] call_ensures(self.callable(), (a,), n) && construct_outcome(
                            *old(engine),
                            *final(engine),
                            self.class_id(),
                            p,
                            n,
                            r,
                        ),
                },
            },
    {
        self.construct(engine, ctx, this, args)
    }

    fn post(&self, engine: &mut Engine, ctx: Ctx, func: usize) -> (r: Result<(), Error>)
        ensures
            final(engine).classes == old(engine).classes,
            final(engine).next_module == old(engine).next_module,
            ({
                let marked = if func < old(engine).objects@.len() {
                    old(engine).objects@.update(
                        func as int,
                        ObjectRecord { constructor: true, ..old(engine).objects@[func as int] },
                    )
                } else {
                    old(engine).objects@
                };
                match spec_class_prototype(old(engine).classes@, self.class_id()) {
                    Err(e) => r == Err::<(), Error>(e) && final(engine).objects@ == marked,
                    Ok(p) => if func < old(engine).objects@.len() {
                        r is Ok && final(engine).objects@ == with_prototype(marked, func, p)
                    } else {
                        r == Err::<(), Error>(Error::Prototype) && final(engine).objects@ == marked
                    },
                }
            }),
    {
        self.finish(engine, func)
    }
}

} // verus!
