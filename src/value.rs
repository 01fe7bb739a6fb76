use vstd::prelude::*;

verus! {

/// An engine context token: opaque, copyable, passed through unchanged.
#[derive(Clone, Copy, Debug, PartialEq, Eq, Structural)]
pub struct Ctx {
    pub id: u64,
}

/// A value of the engine. Objects, functions and modules are referred to by
/// their handle in the engine's tables.
#[derive(Clone, Copy, Debug, PartialEq, Eq, Structural)]
pub enum Value {
    Undefined,
    Null,
    Bool(bool),
    Int(i32),
    Object(usize),
    Function(usize),
    Module(u64),
}

/// The native type that an engine value is converted into.
#[derive(Clone, Copy, Debug, PartialEq, Eq, Structural)]
pub enum Kind {
    /// Any value, taken as it is.
    Any,
    Bool,
    Int,
    /// An object handle.
    Object,
    /// A function handle.
    Function,
}

/// A native value, as a callable receives it and returns it.
#[derive(Clone, Copy, Debug, PartialEq, Eq, Structural)]
pub enum Native {
    Unit,
    Bool(bool),
    Int(i64),
    Value(Value),
}

/// Where in a call a conversion failed.
#[derive(Clone, Copy, Debug, PartialEq, Eq, Structural)]
pub enum Slot {
    Receiver,
    /// A positional parameter, by index.
    Arg(usize),
    /// An element of the variadic capture, by its index in the capture.
    Rest(usize),
}

#[derive(Clone, Copy, Debug, PartialEq, Eq, Structural)]
pub enum Error {
    /// Fewer arguments were supplied than the callable declares.
    NotEnoughArgs,
    /// An engine value could not be converted into the native type `to`.
    FromJs { to: Kind, slot: Slot },
    /// A native value has no engine representation.
    IntoJs { from: Native },
    /// The engine could not allocate a record.
    Allocation,
    /// A name holds a NUL character, which engine strings cannot carry.
    InvalidName,
    /// A constructor produced something other than an object.
    NotAnObject { class: usize },
    /// A prototype could not be resolved or attached.
    Prototype,
    /// No export of that name exists.
    UnknownExport,
    /// An error raised by user code.
    Exception { code: u32 },
}

impl Error {
    /// The error's message, as the engine shows it to scripts.
    pub fn message(&self) -> (r: &'static str)
        ensures
            self is NotEnoughArgs ==> r@ == "Not enough arguments"@,
            self is FromJs ==> r@ == "Error converting from js"@,
            self is IntoJs ==> r@ == "Error converting into js"@,
            self is Allocation ==> r@ == "Allocation failed"@,
            self is InvalidName ==> r@ == "Name contains a NUL character"@,
            self is NotAnObject ==> r@ == "Constructor did not return an object"@,
            self is Prototype ==> r@ == "Prototype unavailable"@,
            self is UnknownExport ==> r@ == "No such export"@,
            self is Exception ==> r@ == "Exception"@,
    {
        match self {
            Error::NotEnoughArgs => "Not enough arguments",
            Error::FromJs { .. } => "Error converting from js",
            Error::IntoJs { .. } => "Error converting into js",
            Error::Allocation => "Allocation failed",
            Error::InvalidName => "Name contains a NUL character",
            Error::NotAnObject { .. } => "Constructor did not return an object",
            Error::Prototype => "Prototype unavailable",
            Error::UnknownExport => "No such export",
            Error::Exception { .. } => "Exception",
        }
    }
}

/// Converts `v` into the native type `kind`; a failure names `slot`.
pub open spec fn spec_from_js(kind: Kind, v: Value, slot: Slot) -> Result<Native, Error> {
    match (kind, v) {
        (Kind::Any, _) => Ok(Native::Value(v)),
        (Kind::Bool, Value::Bool(b)) => Ok(Native::Bool(b)),
        (Kind::Int, Value::Int(i)) => Ok(Native::Int(i as i64)),
        (Kind::Object, Value::Object(_)) => Ok(Native::Value(v)),
        (Kind::Function, Value::Function(_)) => Ok(Native::Value(v)),
        _ => Err(Error::FromJs { to: kind, slot }),
    }
}

/// Converts a native value into an engine value. An integer outside the
/// engine's 32-bit range has no representation.
pub open spec fn spec_into_js(n: Native) -> Result<Value, Error> {
    match n {
        Native::Unit => Ok(Value::Undefined),
        Native::Bool(b) => Ok(Value::Bool(b)),
        Native::Int(i) => if i32::MIN <= i <= i32::MAX {
            Ok(Value::Int(i as i32))
        } else {
            Err(Error::IntoJs { from: n })
        },
        Native::Value(v) => Ok(v),
    }
}

pub fn from_js(kind: Kind, v: Value, slot: Slot) -> (r: Result<Native, Error>)
    ensures
        r == spec_from_js(kind, v, slot),
{
    match (kind, v) {
        (Kind::Any, _) => Ok(Native::Value(v)),
        (Kind::Bool, Value::Bool(b)) => Ok(Native::Bool(b)),
        (Kind::Int, Value::Int(i)) => Ok(Native::Int(i as i64)),
        (Kind::Object, Value::Object(_)) => Ok(Native::Value(v)),
        (Kind::Function, Value::Function(_)) => Ok(Native::Value(v)),
        _ => Err(Error::FromJs { to: kind, slot }),
    }
}

pub fn into_js(n: Native) -> (r: Result<Value, Error>)
    ensures
        r == spec_into_js(n),
{
    match n {
        Native::Unit => Ok(Value::Undefined),
        Native::Bool(b) => Ok(Value::Bool(b)),
        Native::Int(i) => {
            if i32::MIN as i64 <= i && i <= i32::MAX as i64 {
                Ok(Value::Int(i as i32))
            } else {
                Err(Error::IntoJs { from: n })
            }
        },
        Native::Value(v) => Ok(v),
    }
}

/// True when `s` holds no NUL character.
pub open spec fn valid_name(s: Seq<char>) -> bool {
    forall|i: int| 0 <= i < s.len() ==> s[i] != '\0'
}

/// Checks that a name can be carried by an engine string.
pub fn check_name(s: &str) -> (r: Result<(), Error>)
    ensures
        r is Ok <==> valid_name(s@),
        r is Err ==> r == Err::<(), Error>(Error::InvalidName),
{
    let n = s.unicode_len();
    let mut i: usize = 0;
    while i < n
        invariant
            n == s@.len(),
            i <= n,
            forall|j: int| 0 <= j < i ==> s@[j] != '\0',
        decreases n - i,
    {
        if s.get_char(i) == '\0' {
            return Err(Error::InvalidName);
        }
        i = i + 1;
    }
    Ok(())
}

} // verus!
