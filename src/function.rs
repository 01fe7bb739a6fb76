use vstd::prelude::*;
use crate::args::ArgsIter;
use crate::value::{spec_from_js, from_js, Ctx, Error, Kind, Native, Slot, Value};

verus! {

/// The parameter layout of a native callable: an optional leading context,
/// an optional receiver, positional parameters, and an optional trailing
/// variadic capture.
pub struct Shape {
    pub ctx: bool,
    pub this: Option<Kind>,
    pub params: Vec<Kind>,
    pub rest: Option<Kind>,
}

pub struct ShapeView {
    pub ctx: bool,
    pub this: Option<Kind>,
    pub params: Seq<Kind>,
    pub rest: Option<Kind>,
}

impl Shape {
    /// The minimum number of arguments: the positional parameters alone.
    pub fn len(&self) -> (r: u32)
        requires
            self.params@.len() <= u32::MAX,
        ensures
            r == min_arity(self@),
    {
        self.params.len() as u32
    }
}

impl View for Shape {
    type V = ShapeView;

    open spec fn view(&self) -> ShapeView {
        ShapeView { ctx: self.ctx, this: self.this, params: self.params@, rest: self.rest }
    }
}

/// The converted arguments of one call, in the order of the shape.
pub struct Assembled {
    pub ctx: Option<Ctx>,
    pub this: Option<Native>,
    pub params: Vec<Native>,
    pub rest: Option<Vec<Native>>,
}

pub struct CallArgs {
    pub ctx: Option<Ctx>,
    pub this: Option<Native>,
    pub params: Seq<Native>,
    pub rest: Option<Seq<Native>>,
}

impl View for Assembled {
    type V = CallArgs;

    open spec fn view(&self) -> CallArgs {
        CallArgs {
            ctx: self.ctx,
            this: self.this,
            params: self.params@,
            rest: match self.rest {
                Some(v) => Some(v@),
                None => None,
            },
        }
    }
}

/// The minimum number of arguments of a shape: its positional parameters.
pub open spec fn min_arity(s: ShapeView) -> nat {
    s.params.len()
}

/// The first `n` positional parameters, converted from `vals` in order; the
/// first missing or unconvertible argument decides the error.
pub open spec fn conv_params(kinds: Seq<Kind>, vals: Seq<Value>, n: nat) -> Result<Seq<Native>, Error>
    decreases n,
{
    if n == 0 {
        Ok(Seq::empty())
    } else {
        match conv_params(kinds, vals, (n - 1) as nat) {
            Err(e) => Err(e),
            Ok(s) => if n - 1 >= vals.len() {
                Err(Error::NotEnoughArgs)
            } else {
                match spec_from_js(kinds[n - 1], vals[n - 1], Slot::Arg((n - 1) as usize)) {
                    Ok(x) => Ok(s.push(x)),
                    Err(e) => Err(e),
                }
            },
        }
    }
}

/// The first `n` values of `vals`, each converted to `kind`.
pub open spec fn conv_rest(kind: Kind, vals: Seq<Value>, n: nat) -> Result<Seq<Native>, Error>
    decreases n,
{
    if n == 0 {
        Ok(Seq::empty())
    } else {
        match conv_rest(kind, vals, (n - 1) as nat) {
            Err(e) => Err(e),
            Ok(s) => match spec_from_js(kind, vals[n - 1], Slot::Rest((n - 1) as usize)) {
                Ok(x) => Ok(s.push(x)),
                Err(e) => Err(e),
            },
        }
    }
}

/// The receiver, converted when the shape takes one.
pub open spec fn conv_receiver(this_kind: Option<Kind>, this: Value) -> Result<Option<Native>, Error> {
    match this_kind {
        None => Ok(None),
        Some(k) => match spec_from_js(k, this, Slot::Receiver) {
            Ok(x) => Ok(Some(x)),
            Err(e) => Err(e),
        },
    }
}

/// The variadic capture: every argument after the positional ones.
pub open spec fn conv_capture(rest: Option<Kind>, tail: Seq<Value>) -> Result<Option<Seq<Native>>, Error> {
    match rest {
        None => Ok(None),
        Some(k) => match conv_rest(k, tail, tail.len()) {
            Ok(x) => Ok(Some(x)),
            Err(e) => Err(e),
        },
    }
}

/// The arguments that a call with receiver `this` and arguments `args`
/// hands to a callable of shape `s`: context, receiver, positional
/// parameters and capture, converted left to right.
pub open spec fn assemble(s: ShapeView, ctx: Ctx, this: Value, args: Seq<Value>) -> Result<CallArgs, Error> {
    match conv_receiver(s.this, this) {
        Err(e) => Err(e),
        Ok(r) => match conv_params(s.params, args, s.params.len()) {
            Err(e) => Err(e),
            Ok(ps) => match conv_capture(s.rest, args.subrange(s.params.len() as int, args.len() as int)) {
                Err(e) => Err(e),
                Ok(rs) => Ok(
                    CallArgs { ctx: if s.ctx { Some(ctx) } else { None }, this: r, params: ps, rest: rs },
                ),
            },
        },
    }
}

proof fn lemma_params_err_stable(kinds: Seq<Kind>, vals: Seq<Value>, n: nat, m: nat)
    requires
        n <= m,
        conv_params(kinds, vals, n) is Err,
    ensures
        conv_params(kinds, vals, m) == conv_params(kinds, vals, n),
    decreases m,
{
    if m > n {
        lemma_params_err_stable(kinds, vals, n, (m - 1) as nat);
    }
}

proof fn lemma_params_ok_len(kinds: Seq<Kind>, vals: Seq<Value>, n: nat)
    requires
        conv_params(kinds, vals, n) is Ok,
    ensures
        n <= vals.len(),
        conv_params(kinds, vals, n)->Ok_0.len() == n,
    decreases n,
{
    if n > 0 {
        lemma_params_ok_len(kinds, vals, (n - 1) as nat);
    }
}

proof fn lemma_rest_err_stable(kind: Kind, vals: Seq<Value>, n: nat, m: nat)
    requires
        n <= m,
        conv_rest(kind, vals, n) is Err,
    ensures
        conv_rest(kind, vals, m) == conv_rest(kind, vals, n),
    decreases m,
{
    if m > n {
        lemma_rest_err_stable(kind, vals, n, (m - 1) as nat);
    }
}

proof fn lemma_rest_ok_len(kind: Kind, vals: Seq<Value>, n: nat)
    requires
        conv_rest(kind, vals, n) is Ok,
    ensures
        conv_rest(kind, vals, n)->Ok_0.len() == n,
    decreases n,
{
    if n > 0 {
        lemma_rest_ok_len(kind, vals, (n - 1) as nat);
    }
}

/// Builds the fixed argument-arity error.
pub fn not_enough_args() -> (r: Error)
    ensures
        r == Error::NotEnoughArgs,
{
    Error::NotEnoughArgs
}

/// Takes the arguments of one call off the cursor and converts them as the
/// shape declares.
pub fn assemble_args(shape: &Shape, ctx: Ctx, this: Value, args: &mut ArgsIter) -> (r: Result<Assembled, Error>)
    ensures
        match assemble(shape@, ctx, this, old(args)@) {
            Ok(m) => r is Ok && r->Ok_0@ == m,
            Err(e) => r == Err::<Assembled, Error>(e),
        },
{
    let ghost a0 = args@;
    let recv = match shape.this {
        None => None,
        Some(k) => match from_js(k, this, Slot::Receiver) {
            Ok(x) => Some(x),
            Err(e) => return Err(e),
        },
    };
    let mut params: Vec<Native> = Vec::new();
    let n = shape.params.len();
    let mut i: usize = 0;
    while i < n
        invariant
            n == shape.params@.len(),
            a0 == old(args)@,
            i <= n,
            i <= a0.len(),
            conv_params(shape.params@, a0, i as nat) == Ok::<Seq<Native>, Error>(params@),
            args@ == a0.subrange(i as int, a0.len() as int),
            conv_receiver(shape.this, this) == Ok::<Option<Native>, Error>(recv),
        decreases n - i,
    {
        let ghost before = args@;
        match args.next() {
            None => {
                proof {
                    assert(conv_params(shape.params@, a0, (i + 1) as nat) == Err::<Seq<Native>, Error>(
                        Error::NotEnoughArgs,
                    ));
                    lemma_params_err_stable(shape.params@, a0, (i + 1) as nat, n as nat);
                    assert(assemble(shape@, ctx, this, a0) == Err::<CallArgs, Error>(Error::NotEnoughArgs));
                }
                return Err(not_enough_args());
            },
            Some(v) => {
                assert(v == a0[i as int]);
                match from_js(shape.params[i], v, Slot::Arg(i)) {
                    Ok(x) => {
                        params.push(x);
                    },
                    Err(e) => {
                        proof {
                            assert(conv_params(shape.params@, a0, (i + 1) as nat) == Err::<Seq<Native>, Error>(e));
                            lemma_params_err_stable(shape.params@, a0, (i + 1) as nat, n as nat);
                            assert(assemble(shape@, ctx, this, a0) == Err::<CallArgs, Error>(e));
                        }
                        return Err(e);
                    },
                }
            },
        }
        assert(args@ =~= a0.subrange(i + 1, a0.len() as int));
        i = i + 1;
    }
    let ghost tail = args@;
    assert(tail == a0.subrange(n as int, a0.len() as int));
    let rest = match shape.rest {
        None => None,
        Some(k) => {
            let mut out: Vec<Native> = Vec::new();
            let mut j: usize = 0;
            let total = args.len();
            while args.len() > 0
                invariant
                    total == tail.len(),
                    a0 == old(args)@,
                    n == shape.params@.len(),
                    shape.rest == Some(k),
                    tail == a0.subrange(n as int, a0.len() as int),
                    conv_receiver(shape.this, this) == Ok::<Option<Native>, Error>(recv),
                    conv_params(shape.params@, a0, n as nat) == Ok::<Seq<Native>, Error>(params@),
                    j <= tail.len(),
                    args@ == tail.subrange(j as int, tail.len() as int),
                    conv_rest(k, tail, j as nat) == Ok::<Seq<Native>, Error>(out@),
                decreases args@.len(),
            {
                let v = match args.next() {
                    Some(v) => v,
                    None => return Err(not_enough_args()),
                };
                assert(v == tail[j as int]);
                match from_js(k, v, Slot::Rest(j)) {
                    Ok(x) => {
                        out.push(x);
                    },
                    Err(e) => {
                        proof {
                            assert(conv_rest(k, tail, (j + 1) as nat) == Err::<Seq<Native>, Error>(e));
                            lemma_rest_err_stable(k, tail, (j + 1) as nat, tail.len());
                            assert(assemble(shape@, ctx, this, a0) == Err::<CallArgs, Error>(e));
                        }
                        return Err(e);
                    },
                }
                assert(args@ =~= tail.subrange(j + 1, tail.len() as int));
                j = j + 1;
            }
            assert(j == tail.len());
            Some(out)
        },
    };
    let c = if shape.ctx {
        Some(ctx)
    } else {
        None
    };
    Ok(Assembled { ctx: c, this: recv, params, rest })
}

/// Too few arguments always fail. When the receiver and every supplied
/// argument convert, the failure is the argument-arity error; otherwise it is
/// the conversion error of the receiver or of a supplied argument, never of a
/// missing one.
pub proof fn lemma_too_few_args(s: ShapeView, ctx: Ctx, this: Value, args: Seq<Value>)
    requires
        args.len() < min_arity(s),
    ensures
        assemble(s, ctx, this, args) is Err,
        conv_receiver(s.this, this) is Ok && conv_params(s.params, args, args.len()) is Ok
            ==> assemble(s, ctx, this, args) == Err::<CallArgs, Error>(Error::NotEnoughArgs),
        assemble(s, ctx, this, args) != Err::<CallArgs, Error>(Error::NotEnoughArgs) ==> (
        conv_receiver(s.this, this) is Err || conv_params(s.params, args, args.len()) is Err),
{
    let k = args.len();
    if conv_params(s.params, args, s.params.len()) is Ok {
        lemma_params_ok_len(s.params, args, s.params.len());
    }
    if conv_params(s.params, args, k) is Ok {
        assert(conv_params(s.params, args, (k + 1) as nat) == Err::<Seq<Native>, Error>(Error::NotEnoughArgs));
        lemma_params_err_stable(s.params, args, (k + 1) as nat, s.params.len());
    } else {
        lemma_params_err_stable(s.params, args, k, s.params.len());
    }
}

/// With no argument after the positional ones, the variadic capture is empty,
/// and it adds no error.
pub proof fn lemma_empty_capture(s: ShapeView, ctx: Ctx, this: Value, args: Seq<Value>)
    requires
        s.rest is Some,
        args.len() == min_arity(s),
    ensures
        assemble(s, ctx, this, args) is Ok <==> (conv_receiver(s.this, this) is Ok && conv_params(
            s.params,
            args,
            s.params.len(),
        ) is Ok),
        assemble(s, ctx, this, args) is Ok ==> assemble(s, ctx, this, args)->Ok_0.rest == Some(
            Seq::<Native>::empty(),
        ),
{
    let tail = args.subrange(s.params.len() as int, args.len() as int);
    assert(tail.len() == 0);
    assert(conv_rest(s.rest->Some_0, tail, 0) == Ok::<Seq<Native>, Error>(Seq::empty()));
}

/// A capture converts every trailing argument, in order.
pub proof fn lemma_capture_in_order(kind: Kind, tail: Seq<Value>, n: nat)
    requires
        n <= tail.len(),
        conv_rest(kind, tail, n) is Ok,
    ensures
        conv_rest(kind, tail, n)->Ok_0.len() == n,
        forall|i: int| 0 <= i < n ==> spec_from_js(kind, tail[i], Slot::Rest(i as usize)) == Ok::<Native, Error>(
            #[trigger] conv_rest(kind, tail, n)->Ok_0[i],
        ),
    decreases n,
{
    lemma_rest_ok_len(kind, tail, n);
    if n > 0 {
        lemma_capture_in_order(kind, tail, (n - 1) as nat);
        let prev = conv_rest(kind, tail, (n - 1) as nat)->Ok_0;
        assert forall|i: int| 0 <= i < n implies spec_from_js(kind, tail[i], Slot::Rest(i as usize))
            == Ok::<Native, Error>(#[trigger] conv_rest(kind, tail, n)->Ok_0[i]) by {
            if i < n - 1 {
                assert(conv_rest(kind, tail, n)->Ok_0[i] == prev[i]);
            }
        }
    }
}

} // verus!
