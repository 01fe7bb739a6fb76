use rquickjs::args::ArgsIter;
use rquickjs::as_func::{AsFunction, AsFunctionMut, Constructor, Func, FuncMut};
use rquickjs::engine::Engine;
use rquickjs::function::{assemble_args, not_enough_args, Assembled, Shape};
use rquickjs::value::{Ctx, Error, Kind, Native, Slot, Value};

fn ints(v: &[i32]) -> ArgsIter {
    ArgsIter::new(v.iter().map(|i| Value::Int(*i)).collect())
}

fn int_of(n: &Native) -> i64 {
    match n {
        Native::Int(i) => *i,
        _ => panic!("not an int"),
    }
}

fn sum_params(a: Assembled) -> Native {
    Native::Int(a.params.iter().map(int_of).sum())
}

#[test]
fn min_arity_counts_positional_parameters_only() {
    let shapes = vec![
        Shape { ctx: false, this: None, params: vec![], rest: None },
        Shape { ctx: true, this: None, params: vec![Kind::Int], rest: None },
        Shape { ctx: false, this: Some(Kind::Any), params: vec![Kind::Int, Kind::Bool], rest: None },
        Shape { ctx: true, this: Some(Kind::Int), params: vec![Kind::Int, Kind::Int, Kind::Any], rest: Some(Kind::Int) },
    ];
    let expected = [0u32, 1, 2, 3];
    for (shape, want) in shapes.into_iter().zip(expected) {
        let f = Func { shape, f: sum_params };
        assert_eq!(f.len(), want);
    }
}

#[test]
fn receiver_callable_with_two_arguments() {
    let shape = Shape { ctx: false, this: Some(Kind::Int), params: vec![Kind::Int, Kind::Int], rest: None };
    let f = Func {
        shape,
        f: |a: Assembled| {
            let this = int_of(&a.this.unwrap());
            Native::Int(this * 100 + int_of(&a.params[0]) * 10 + int_of(&a.params[1]))
        },
    };
    let mut engine = Engine::new();
    let ctx = Ctx { id: 1 };
    assert_eq!(f.call(&mut engine, ctx, Value::Int(7), ints(&[2, 3])), Ok(Value::Int(723)));
    assert_eq!(f.call(&mut engine, ctx, Value::Int(7), ints(&[2])), Err(Error::NotEnoughArgs));
    assert_eq!(f.call(&mut engine, ctx, Value::Int(7), ints(&[])), Err(Error::NotEnoughArgs));
}

#[test]
fn variadic_collects_all_trailing_arguments_in_order() {
    let shape = Shape { ctx: false, this: None, params: vec![], rest: Some(Kind::Int) };
    let f = Func {
        shape,
        f: |a: Assembled| {
            let rest = a.rest.unwrap();
            assert_eq!(rest.len(), 5);
            Native::Int(rest.iter().fold(0, |acc, n| acc * 10 + int_of(n)))
        },
    };
    let mut engine = Engine::new();
    let r = f.call(&mut engine, Ctx { id: 0 }, Value::Undefined, ints(&[1, 2, 3, 4, 5]));
    assert_eq!(r, Ok(Value::Int(12345)));
}

#[test]
fn variadic_with_no_trailing_arguments_is_empty() {
    let shape = Shape { ctx: false, this: None, params: vec![Kind::Int], rest: Some(Kind::Int) };
    let mut args = ints(&[4]);
    let a = assemble_args(&shape, Ctx { id: 0 }, Value::Undefined, &mut args).unwrap();
    assert_eq!(a.params, vec![Native::Int(4)]);
    assert_eq!(a.rest, Some(vec![]));
    assert_eq!(args.len(), 0);
}

#[test]
fn context_is_passed_through() {
    let shape = Shape { ctx: true, this: None, params: vec![], rest: None };
    let f = Func { shape, f: |a: Assembled| Native::Int(a.ctx.unwrap().id as i64) };
    let mut engine = Engine::new();
    assert_eq!(f.call(&mut engine, Ctx { id: 42 }, Value::Null, ints(&[9, 9])), Ok(Value::Int(42)));
}

#[test]
fn conversion_errors_name_their_slot() {
    let shape = Shape { ctx: false, this: Some(Kind::Bool), params: vec![Kind::Int, Kind::Bool], rest: Some(Kind::Int) };
    let f = Func { shape, f: |_a: Assembled| Native::Unit };
    let mut engine = Engine::new();
    let ctx = Ctx { id: 0 };
    assert_eq!(
        f.call(&mut engine, ctx, Value::Int(1), ints(&[1])),
        Err(Error::FromJs { to: Kind::Bool, slot: Slot::Receiver })
    );
    assert_eq!(
        f.call(&mut engine, ctx, Value::Bool(true), ints(&[1, 2])),
        Err(Error::FromJs { to: Kind::Bool, slot: Slot::Arg(1) })
    );
    let args = ArgsIter::new(vec![Value::Int(1), Value::Bool(false), Value::Int(3), Value::Null]);
    assert_eq!(
        f.call(&mut engine, ctx, Value::Bool(true), args),
        Err(Error::FromJs { to: Kind::Int, slot: Slot::Rest(1) })
    );
    let args = ArgsIter::new(vec![Value::Int(1), Value::Bool(false)]);
    assert_eq!(f.call(&mut engine, ctx, Value::Bool(true), args), Ok(Value::Undefined));
}

#[test]
fn too_few_arguments_after_a_failed_conversion() {
    let shape = Shape { ctx: false, this: None, params: vec![Kind::Int, Kind::Int, Kind::Int], rest: None };
    let f = Func { shape, f: sum_params };
    let mut engine = Engine::new();
    let args = ArgsIter::new(vec![Value::Bool(true)]);
    assert_eq!(
        f.call(&mut engine, Ctx { id: 0 }, Value::Undefined, args),
        Err(Error::FromJs { to: Kind::Int, slot: Slot::Arg(0) })
    );
    assert_eq!(f.call(&mut engine, Ctx { id: 0 }, Value::Undefined, ints(&[1, 2])), Err(Error::NotEnoughArgs));
    assert_eq!(f.call(&mut engine, Ctx { id: 0 }, Value::Undefined, ints(&[1, 2, 3])), Ok(Value::Int(6)));
}

#[test]
fn result_outside_the_engine_range_fails() {
    let shape = Shape { ctx: false, this: None, params: vec![], rest: None };
    let f = Func { shape, f: |_a: Assembled| Native::Int(1i64 << 40) };
    let mut engine = Engine::new();
    assert_eq!(
        f.call(&mut engine, Ctx { id: 0 }, Value::Undefined, ints(&[])),
        Err(Error::IntoJs { from: Native::Int(1i64 << 40) })
    );
}

#[test]
fn not_enough_args_message() {
    assert_eq!(not_enough_args(), Error::NotEnoughArgs);
    assert_eq!(not_enough_args().message(), "Not enough arguments");
}

#[test]
fn mutable_callable_keeps_its_state() {
    let shape = Shape { ctx: false, this: None, params: vec![Kind::Int], rest: None };
    let mut f = FuncMut {
        shape,
        state: 0i64,
        f: |s: &i64, a: Assembled| {
            let next = *s + int_of(&a.params[0]);
            (next, Native::Int(next))
        },
    };
    let mut engine = Engine::new();
    let ctx = Ctx { id: 0 };
    assert_eq!(f.len(), 1);
    assert_eq!(f.call(&mut engine, ctx, Value::Undefined, ints(&[5])), Ok(Value::Int(5)));
    assert_eq!(f.call(&mut engine, ctx, Value::Undefined, ints(&[7])), Ok(Value::Int(12)));
    assert_eq!(f.call(&mut engine, ctx, Value::Undefined, ints(&[])), Err(Error::NotEnoughArgs));
    assert_eq!(f.state, 12);
}

fn setup() -> (Engine, usize, usize, usize) {
    let mut engine = Engine::new();
    let class_proto = engine.new_object(None, false);
    let class = engine.register_class(class_proto);
    let target_proto = engine.new_object(None, false);
    let new_target = engine.new_object(Some(target_proto), true);
    (engine, class, class_proto, new_target)
}

#[test]
fn constructor_attaches_the_class_prototype_in_a_plain_call() {
    let (mut engine, class, class_proto, _) = setup();
    let obj = engine.new_object(None, false);
    let c = Constructor::new(class, false, vec![Kind::Int], None, move |_a: Assembled| {
        Native::Value(Value::Object(obj))
    });
    assert_eq!(c.len(), 1);
    let r = c.call(&mut engine, Ctx { id: 0 }, Value::Undefined, ints(&[1]));
    assert_eq!(r, Ok(Value::Object(obj)));
    assert_eq!(engine.objects[obj].proto, Some(class_proto));
}

#[test]
fn constructor_attaches_the_new_target_prototype_with_new() {
    let (mut engine, class, _, new_target) = setup();
    let target_proto = engine.objects[new_target].proto.unwrap();
    let obj = engine.new_object(None, false);
    let c = Constructor::new(class, false, vec![], None, move |_a: Assembled| Native::Value(Value::Object(obj)));
    let r = c.call(&mut engine, Ctx { id: 0 }, Value::Function(new_target), ints(&[]));
    assert_eq!(r, Ok(Value::Object(obj)));
    assert_eq!(engine.objects[obj].proto, Some(target_proto));
}

#[test]
fn constructor_rejects_a_non_object_result() {
    let (mut engine, class, _, new_target) = setup();
    let c = Constructor::new(class, false, vec![], None, |_a: Assembled| Native::Int(3));
    let r = c.call(&mut engine, Ctx { id: 0 }, Value::Undefined, ints(&[]));
    assert_eq!(r, Err(Error::NotAnObject { class }));
    let r = c.call(&mut engine, Ctx { id: 0 }, Value::Function(new_target), ints(&[]));
    assert_eq!(r, Err(Error::NotAnObject { class }));
}

#[test]
fn constructor_fails_when_no_prototype_resolves() {
    let (mut engine, _, _, _) = setup();
    let plain_fn = engine.new_object(None, true);
    let c = Constructor::new(7, false, vec![Kind::Int], None, |_a: Assembled| Native::Unit);
    assert_eq!(c.call(&mut engine, Ctx { id: 0 }, Value::Undefined, ints(&[1])), Err(Error::Prototype));
    assert_eq!(c.call(&mut engine, Ctx { id: 0 }, Value::Function(plain_fn), ints(&[1])), Err(Error::Prototype));
}

#[test]
fn constructor_post_marks_the_function() {
    let (mut engine, class, class_proto, _) = setup();
    let func = engine.new_object(None, true);
    let c = Constructor::new(class, false, vec![], None, |_a: Assembled| Native::Unit);
    assert_eq!(c.post(&mut engine, Ctx { id: 0 }, func), Ok(()));
    assert!(engine.objects[func].constructor);
    assert_eq!(engine.objects[func].proto, Some(class_proto));
    let plain = Func { shape: Shape { ctx: false, this: None, params: vec![], rest: None }, f: sum_params };
    let other = engine.new_object(None, true);
    assert_eq!(plain.post(&mut engine, Ctx { id: 0 }, other), Ok(()));
    assert!(!engine.objects[other].constructor);
}

#[test]
fn inherent_entry_points_match_the_trait() {
    let shape = Shape { ctx: false, this: None, params: vec![Kind::Int, Kind::Int], rest: None };
    assert_eq!(shape.len(), 2);
    let f = Func { shape, f: sum_params };
    assert_eq!(f.invoke(Ctx { id: 0 }, Value::Undefined, ints(&[3, 4])), Ok(Value::Int(7)));
    assert_eq!(f.invoke(Ctx { id: 0 }, Value::Undefined, ints(&[3])), Err(Error::NotEnoughArgs));

    let mut g = FuncMut {
        shape: Shape { ctx: false, this: None, params: vec![], rest: Some(Kind::Int) },
        state: 1i64,
        f: |s: &i64, a: Assembled| {
            let n = a.rest.unwrap().len() as i64;
            (*s * 2, Native::Int(*s + n))
        },
    };
    assert_eq!(g.invoke(Ctx { id: 0 }, Value::Undefined, ints(&[0, 0, 0])), Ok(Value::Int(4)));
    assert_eq!(g.state, 2);

    let (mut engine, class, class_proto, _) = setup();
    let obj = engine.new_object(None, false);
    let c = Constructor::new(class, false, vec![], None, move |_a: Assembled| Native::Value(Value::Object(obj)));
    assert_eq!(c.construct(&mut engine, Ctx { id: 0 }, Value::Null, ints(&[])), Ok(Value::Object(obj)));
    assert_eq!(engine.objects[obj].proto, Some(class_proto));
    let func = engine.new_object(None, true);
    assert_eq!(c.finish(&mut engine, func), Ok(()));
    assert!(engine.objects[func].constructor);
    assert_eq!(c.finish(&mut engine, 999), Err(Error::Prototype));
}
