use vstd::prelude::*;

use crate::error::{ExtractError, Shape};

verus! {

/// Relies on quick_js::JsValue, the evaluator's value tree; opaque here,
/// converted to [`Dynamic`] right after evaluation.
#[verifier::external_type_specification]
#[verifier::external_body]
pub struct ExJsValue(quick_js::JsValue);

/// A script value: a closed tagged union over strings, booleans, 32-bit
/// integers, floating-point numbers (carried as their IEEE 754 bit
/// patterns, since the core holds no floats), ordered sequences, and
/// key-unique mappings. There is no implicit coercion between shapes.
#[derive(Debug, PartialEq)]
pub enum Dynamic {
    Str(String),
    Bool(bool),
    Int(i32),
    Float(u64),
    Arr(Vec<Dynamic>),
    Obj(Vec<(String, Dynamic)>),
}

/// The shape of a value, as type-mismatch reports name it.
pub open spec fn shape_spec(d: Dynamic) -> Shape {
    match d {
        Dynamic::Str(_) => Shape::Str,
        Dynamic::Bool(_) => Shape::Bool,
        Dynamic::Int(_) => Shape::Int,
        Dynamic::Float(_) => Shape::Float,
        Dynamic::Arr(_) => Shape::Arr,
        Dynamic::Obj(_) => Shape::Obj,
    }
}

/// Well-formedness: every mapping in the value has pairwise distinct keys.
pub open spec fn dyn_wf(d: Dynamic) -> bool
    decreases d,
{
    match d {
        Dynamic::Arr(v) => forall|k: int| 0 <= k < v@.len() ==> dyn_wf(#[trigger] v@[k]),
        Dynamic::Obj(m) => {
            &&& forall|k: int| 0 <= k < m@.len() ==> dyn_wf(#[trigger] m@[k].1)
            &&& forall|j: int, k: int| 0 <= j < k < m@.len() ==> m@[j].0@ != m@[k].0@
        },
        _ => true,
    }
}

impl Dynamic {
    /// The shape of this value.
    pub fn shape(&self) -> (s: Shape)
        ensures
            s == shape_spec(*self),
    {
        match self {
            Dynamic::Str(_) => Shape::Str,
            Dynamic::Bool(_) => Shape::Bool,
            Dynamic::Int(_) => Shape::Int,
            Dynamic::Float(_) => Shape::Float,
            Dynamic::Arr(_) => Shape::Arr,
            Dynamic::Obj(_) => Shape::Obj,
        }
    }

    /// The string this value holds, or a type mismatch naming the shapes.
    pub fn as_string(&self) -> (r: Result<&String, ExtractError>)
        ensures
            self matches Dynamic::Str(s) ==> (r matches Ok(v) && v == s),
            !(self matches Dynamic::Str(_)) ==> r == Result::<&String, ExtractError>::Err(
                ExtractError::TypeMismatch(Shape::Str, shape_spec(*self)),
            ),
    {
        match self {
            Dynamic::Str(s) => Ok(s),
            _ => Err(ExtractError::TypeMismatch(Shape::Str, self.shape())),
        }
    }

    /// The boolean this value holds, or a type mismatch naming the shapes.
    pub fn as_bool(&self) -> (r: Result<bool, ExtractError>)
        ensures
            self matches Dynamic::Bool(b) ==> r == Result::<bool, ExtractError>::Ok(*b),
            !(self matches Dynamic::Bool(_)) ==> r == Result::<bool, ExtractError>::Err(
                ExtractError::TypeMismatch(Shape::Bool, shape_spec(*self)),
            ),
    {
        match self {
            Dynamic::Bool(b) => Ok(*b),
            _ => Err(ExtractError::TypeMismatch(Shape::Bool, self.shape())),
        }
    }

    /// The integer this value holds, or a type mismatch naming the shapes.
    pub fn as_int(&self) -> (r: Result<i32, ExtractError>)
        ensures
            self matches Dynamic::Int(n) ==> r == Result::<i32, ExtractError>::Ok(*n),
            !(self matches Dynamic::Int(_)) ==> r == Result::<i32, ExtractError>::Err(
                ExtractError::TypeMismatch(Shape::Int, shape_spec(*self)),
            ),
    {
        match self {
            Dynamic::Int(n) => Ok(*n),
            _ => Err(ExtractError::TypeMismatch(Shape::Int, self.shape())),
        }
    }

    /// The float bit pattern this value holds, or a type mismatch.
    pub fn as_float_bits(&self) -> (r: Result<u64, ExtractError>)
        ensures
            self matches Dynamic::Float(b) ==> r == Result::<u64, ExtractError>::Ok(*b),
            !(self matches Dynamic::Float(_)) ==> r == Result::<u64, ExtractError>::Err(
                ExtractError::TypeMismatch(Shape::Float, shape_spec(*self)),
            ),
    {
        match self {
            Dynamic::Float(b) => Ok(*b),
            _ => Err(ExtractError::TypeMismatch(Shape::Float, self.shape())),
        }
    }

    /// The sequence this value holds, or a type mismatch naming the shapes.
    pub fn as_array(&self) -> (r: Result<&Vec<Dynamic>, ExtractError>)
        ensures
            self matches Dynamic::Arr(v) ==> (r matches Ok(a) && a == v),
            !(self matches Dynamic::Arr(_)) ==> r == Result::<&Vec<Dynamic>, ExtractError>::Err(
                ExtractError::TypeMismatch(Shape::Arr, shape_spec(*self)),
            ),
    {
        match self {
            Dynamic::Arr(v) => Ok(v),
            _ => Err(ExtractError::TypeMismatch(Shape::Arr, self.shape())),
        }
    }

    /// The mapping this value holds, or a type mismatch naming the shapes.
    pub fn as_object(&self) -> (r: Result<&Vec<(String, Dynamic)>, ExtractError>)
        ensures
            self matches Dynamic::Obj(m) ==> (r matches Ok(o) && o == m),
            !(self matches Dynamic::Obj(_)) ==> r == Result::<
                &Vec<(String, Dynamic)>,
                ExtractError,
            >::Err(ExtractError::TypeMismatch(Shape::Obj, shape_spec(*self))),
    {
        match self {
            Dynamic::Obj(m) => Ok(m),
            _ => Err(ExtractError::TypeMismatch(Shape::Obj, self.shape())),
        }
    }
}

/// The first entry of the mapping, from index `k` on, whose key is `key`.
pub open spec fn obj_lookup_from(obj: Seq<(String, Dynamic)>, key: Seq<char>, k: int) -> Option<
    Dynamic,
>
    decreases obj.len() - k,
{
    if k < 0 || k >= obj.len() {
        None
    } else if obj[k].0@ == key {
        Some(obj[k].1)
    } else {
        obj_lookup_from(obj, key, k + 1)
    }
}

/// The value under `key` in the mapping, when present.
pub open spec fn obj_lookup(obj: Seq<(String, Dynamic)>, key: Seq<char>) -> Option<Dynamic> {
    obj_lookup_from(obj, key, 0)
}

/// The value under `key`, or `None` when the mapping has no such property.
pub fn obj_get<'a>(obj: &'a Vec<(String, Dynamic)>, key: &str) -> (r: Option<&'a Dynamic>)
    ensures
        match r {
            Some(d) => obj_lookup(obj@, key@) == Some(*d),
            None => obj_lookup(obj@, key@) is None,
        },
{
    let keyed = key.to_owned();
    let n = obj.len();
    let mut k: usize = 0;
    while k < n
        invariant
            n == obj@.len(),
            0 <= k <= n,
            keyed@ == key@,
            obj_lookup(obj@, key@) == obj_lookup_from(obj@, key@, k as int),
        decreases n - k,
    {
        if obj[k].0 == keyed {
            return Some(&obj[k].1);
        }
        k += 1;
    }
    None
}

/// Convert an evaluated `quick_js` value into a sandbox value. Relies on
/// quick_js::JsValue: one arm per variant, moving fields;
/// floating-point numbers come across as their bit patterns; object keys
/// come from a map and are therefore pairwise distinct; `null`, `undefined`
/// and shapes outside the union are refused.
#[verifier::external_body]
fn convert_js(v: quick_js::JsValue) -> (r: Result<Dynamic, ExtractError>)
    ensures
        r matches Ok(d) ==> dyn_wf(d),
        r matches Err(e) ==> e == ExtractError::Script,
{
    match v {
        quick_js::JsValue::Bool(b) => Ok(Dynamic::Bool(b)),
        quick_js::JsValue::Int(n) => Ok(Dynamic::Int(n)),
        quick_js::JsValue::Float(f) => Ok(Dynamic::Float(f.to_bits())),
        quick_js::JsValue::String(s) => Ok(Dynamic::Str(s)),
        quick_js::JsValue::Array(items) => Ok(Dynamic::Arr(
            items.into_iter().map(convert_js).collect::<Result<_, _>>()?,
        )),
        quick_js::JsValue::Object(map) => Ok(Dynamic::Obj(
            map.into_iter().map(|(k, x)| Ok((k, convert_js(x)?))).collect::<Result<_, _>>()?,
        )),
        _ => Err(ExtractError::Script),
    }
}

/// Relies on quick_js::Context::new and quick_js::Context::eval: each
/// evaluation runs in a fresh, isolated context, so no state persists
/// between calls; a context or evaluation failure is a script error. A
/// snippet may read the clock or draw randomness, so nothing is promised of
/// the value beyond its well-formedness.
#[verifier::external_body]
fn js_eval(code: &str) -> (r: Result<Dynamic, ExtractError>)
    ensures
        r matches Ok(d) ==> dyn_wf(d),
        r matches Err(e) ==> e == ExtractError::Script,
{
    let context = match quick_js::Context::new() {
        Ok(c) => c,
        Err(_) => return Err(ExtractError::Script),
    };
    match context.eval(code) {
        Ok(v) => convert_js(v),
        Err(_) => Err(ExtractError::Script),
    }
}

/// Evaluate a self-contained snippet in a fresh, isolated context and
/// return its value as a typed tree. No state persists between calls.
pub fn eval_value(code: &str) -> (r: Result<Dynamic, ExtractError>)
    ensures
        r matches Ok(d) ==> dyn_wf(d),
        r matches Err(e) ==> e == ExtractError::Script,
{
    js_eval(code)
}

/// A type a sandbox value can be read as, by exact shape, never coerced.
pub trait FromDynamic: Sized {
    /// The shapes this type accepts.
    spec fn accepts(d: Dynamic) -> bool;

    /// The value of an accepted shape.
    spec fn of_dynamic(d: Dynamic) -> Self;

    /// Read the value, failing on any other shape with a mismatch that
    /// names the expected and the actual shape.
    fn from_dynamic(d: Dynamic) -> (r: Result<Self, ExtractError>)
        ensures
            Self::accepts(d) ==> (r matches Ok(v) && v == Self::of_dynamic(d)),
            !Self::accepts(d) ==> (r matches Err(e) && e matches ExtractError::TypeMismatch(
                _expected,
                actual,
            ) && actual == shape_spec(d)),
    ;
}

impl FromDynamic for String {
    open spec fn accepts(d: Dynamic) -> bool {
        d is Str
    }

    open spec fn of_dynamic(d: Dynamic) -> String {
        d->Str_0
    }

    fn from_dynamic(d: Dynamic) -> (r: Result<String, ExtractError>) {
        match d {
            Dynamic::Str(s) => Ok(s),
            _ => Err(ExtractError::TypeMismatch(Shape::Str, d.shape())),
        }
    }
}

impl FromDynamic for bool {
    open spec fn accepts(d: Dynamic) -> bool {
        d is Bool
    }

    open spec fn of_dynamic(d: Dynamic) -> bool {
        d->Bool_0
    }

    fn from_dynamic(d: Dynamic) -> (r: Result<bool, ExtractError>) {
        match d {
            Dynamic::Bool(b) => Ok(b),
            _ => Err(ExtractError::TypeMismatch(Shape::Bool, d.shape())),
        }
    }
}

impl FromDynamic for i32 {
    open spec fn accepts(d: Dynamic) -> bool {
        d is Int
    }

    open spec fn of_dynamic(d: Dynamic) -> i32 {
        d->Int_0
    }

    fn from_dynamic(d: Dynamic) -> (r: Result<i32, ExtractError>) {
        match d {
            Dynamic::Int(n) => Ok(n),
            _ => Err(ExtractError::TypeMismatch(Shape::Int, d.shape())),
        }
    }
}

/// Evaluate a snippet and read its value as `R`, by exact shape.
pub fn eval_as<R: FromDynamic>(code: &str) -> (r: Result<R, ExtractError>)
    ensures
        r matches Ok(v) ==> exists|d: Dynamic|
            #[trigger] R::accepts(d) && dyn_wf(d) && v == R::of_dynamic(d),
        r matches Err(e) ==> (e == ExtractError::Script || e matches ExtractError::TypeMismatch(
            _expected,
            _actual,
        )),
{
    match js_eval(code) {
        Ok(d) => {
            let ghost dg = d;
            match R::from_dynamic(d) {
                Ok(v) => {
                    proof {
                        if !R::accepts(dg) {
                            assert(false);
                        }
                    }
                    Ok(v)
                },
                Err(e) => Err(e),
            }
        },
        Err(e) => Err(e),
    }
}

/// Read a value as the mapping it holds, consuming it; any other shape is a
/// type mismatch naming the expected and the actual shape.
pub fn into_object(d: Dynamic) -> (r: Result<Vec<(String, Dynamic)>, ExtractError>)
    ensures
        d matches Dynamic::Obj(o) ==> (r matches Ok(v) && v == o),
        !(d matches Dynamic::Obj(_)) ==> r == Result::<Vec<(String, Dynamic)>, ExtractError>::Err(
            ExtractError::TypeMismatch(Shape::Obj, shape_spec(d)),
        ),
{
    match d {
        Dynamic::Obj(o) => Ok(o),
        other => Err(ExtractError::TypeMismatch(Shape::Obj, other.shape())),
    }
}

/// Evaluate a snippet whose value must be a mapping, read through
/// [`into_object`]; any other shape is a type mismatch naming it, and an
/// evaluation failure is a script error.
pub fn eval_as_obj(code: &str) -> (r: Result<Vec<(String, Dynamic)>, ExtractError>)
    ensures
        r matches Ok(o) ==> dyn_wf(Dynamic::Obj(o)),
        r matches Err(e) ==> (e == ExtractError::Script || (e matches ExtractError::TypeMismatch(
            expected,
            _actual,
        ) && expected == Shape::Obj)),
{
    match js_eval(code) {
        Ok(d) => into_object(d),
        Err(e) => Err(e),
    }
}

/// A snippet with a caller-supplied epilogue appended on a new line, naming
/// the values to surface: snippets are fully self-contained.
pub fn wrap_code(code: &str, epilogue: &str) -> (r: String)
    ensures
        r@ == code@ + "\n"@ + epilogue@,
{
    let mut r = code.to_owned();
    r.append("\n");
    r.append(epilogue);
    r
}

} // verus!
