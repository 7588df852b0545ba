use vstd::prelude::*;

verus! {

/// How an integer is held: non-negative ones as `u64`, negative ones as `i64`.
#[derive(Debug, Clone, Copy, PartialEq, Eq)]
enum IntRepr {
    PosInt(u64),
    NegInt(i64),
}

/// A MessagePack integer, limited to the range `-(2^63) ..= 2^64 - 1`.
#[derive(Debug, Clone, Copy, PartialEq, Eq)]
pub struct Integer {
    n: IntRepr,
}

impl Integer {
    /// A negative integer is always held as `NegInt`, so each integer has one
    /// representation.
    #[verifier::type_invariant]
    closed spec fn held_once(self) -> bool {
        match self.n {
            IntRepr::PosInt(_) => true,
            IntRepr::NegInt(n) => n < 0,
        }
    }
}

impl View for Integer {
    type V = int;

    closed spec fn view(&self) -> int {
        match self.n {
            IntRepr::PosInt(n) => n as int,
            IntRepr::NegInt(n) => n as int,
        }
    }
}

/// A MessagePack value (floating-point numbers aside).
#[derive(Debug, PartialEq)]
pub enum Value {
    Nil,
    Boolean(bool),
    Integer(Integer),
    String(String),
    Binary(Vec<u8>),
    Array(Vec<Value>),
    Mapping(Vec<(Value, Value)>),
    /// An extension: an application-defined type tag and its bytes.
    Ext(i8, Vec<u8>),
}

/// The mathematical model of a MessagePack value.
pub enum ValueModel {
    Nil,
    Boolean(bool),
    Integer(int),
    String(Seq<char>),
    Binary(Seq<u8>),
    Array(Seq<ValueModel>),
    Mapping(Seq<(ValueModel, ValueModel)>),
    Ext(i8, Seq<u8>),
}

pub open spec fn model_of(v: Value) -> ValueModel
    decreases v,
{
    match v {
        Value::Nil => ValueModel::Nil,
        Value::Boolean(b) => ValueModel::Boolean(b),
        Value::Integer(n) => ValueModel::Integer(n@),
        Value::String(s) => ValueModel::String(s@),
        Value::Binary(b) => ValueModel::Binary(b@),
        Value::Array(items) => ValueModel::Array(models_of(items@)),
        Value::Mapping(pairs) => ValueModel::Mapping(pair_models_of(pairs@)),
        Value::Ext(tag, bytes) => ValueModel::Ext(tag, bytes@),
    }
}

pub open spec fn models_of(s: Seq<Value>) -> Seq<ValueModel>
    decreases s,
{
    if s.len() == 0 {
        Seq::empty()
    } else {
        models_of(s.drop_last()).push(model_of(s.last()))
    }
}

pub open spec fn pair_models_of(s: Seq<(Value, Value)>) -> Seq<(ValueModel, ValueModel)>
    decreases s,
{
    if s.len() == 0 {
        Seq::empty()
    } else {
        pair_models_of(s.drop_last()).push((model_of(s.last().0), model_of(s.last().1)))
    }
}


impl View for Value {
    type V = ValueModel;

    open spec fn view(&self) -> ValueModel {
        model_of(*self)
    }
}

/// `models_of` keeps the length of a sequence and models it element by element.
pub proof fn lemma_models_of(s: Seq<Value>)
    ensures
        models_of(s).len() == s.len(),
        forall|i: int| 0 <= i < s.len() ==> #[trigger] models_of(s)[i] == model_of(s[i]),
    decreases s.len(),
{
    if s.len() > 0 {
        lemma_models_of(s.drop_last());
    }
}

/// `pair_models_of` keeps the length of a sequence and models it pair by pair.
pub proof fn lemma_pair_models_of(s: Seq<(Value, Value)>)
    ensures
        pair_models_of(s).len() == s.len(),
        forall|i: int|
            0 <= i < s.len() ==> #[trigger] pair_models_of(s)[i] == (
                model_of(s[i].0),
                model_of(s[i].1),
            ),
    decreases s.len(),
{
    if s.len() > 0 {
        lemma_pair_models_of(s.drop_last());
    }
}

impl Integer {
    /// The integer `n` (rmpv's `Integer::from(u64)`).
    pub fn from_u64(n: u64) -> (r: Integer)
        ensures
            r@ == n as int,
    {
        Integer { n: IntRepr::PosInt(n) }
    }

    /// The integer `n` (rmpv's `Integer::from(u32)`).
    pub fn from_u32(n: u32) -> (r: Integer)
        ensures
            r@ == n as int,
    {
        Integer { n: IntRepr::PosInt(n as u64) }
    }

    /// The integer `n` (rmpv's `Integer::from(i64)`).
    pub fn from_i64(n: i64) -> (r: Integer)
        ensures
            r@ == n as int,
    {
        if n < 0 {
            Integer { n: IntRepr::NegInt(n) }
        } else {
            Integer { n: IntRepr::PosInt(n as u64) }
        }
    }

    /// The integer `n` (rmpv's `Integer::from(i32)`).
    pub fn from_i32(n: i32) -> (r: Integer)
        ensures
            r@ == n as int,
    {
        Integer::from_i64(n as i64)
    }

    /// The integer as a `u64`, if it is non-negative.
    pub fn as_u64(&self) -> (r: Option<u64>)
        ensures
            r == (if self@ >= 0 {
                Some(self@ as u64)
            } else {
                None::<u64>
            }),
    {
        proof {
            use_type_invariant(self);
        }
        match self.n {
            IntRepr::PosInt(n) => Some(n),
            IntRepr::NegInt(_) => None,
        }
    }

    /// The integer as an `i64`, if it fits.
    pub fn as_i64(&self) -> (r: Option<i64>)
        ensures
            r == (if self@ <= i64::MAX {
                Some(self@ as i64)
            } else {
                None::<i64>
            }),
    {
        match self.n {
            IntRepr::PosInt(n) => if n <= i64::MAX as u64 {
                Some(n as i64)
            } else {
                None
            },
            IntRepr::NegInt(n) => Some(n),
        }
    }
}

/// A string value holding a copy of `s`.
pub fn str_value(s: &str) -> (v: Value)
    ensures
        v@ == ValueModel::String(s@),
{
    Value::String(s.to_owned())
}

/// Conversion of a plain value into a MessagePack value.
pub trait IntoValue: Sized {
    /// The model of the value that `into_value` gives.
    spec fn value_model(&self) -> ValueModel;

    fn into_value(self) -> (v: Value)
        ensures
            v@ == self.value_model(),
    ;
}

impl IntoValue for bool {
    open spec fn value_model(&self) -> ValueModel {
        ValueModel::Boolean(*self)
    }

    fn into_value(self) -> (v: Value)
        ensures
            v@ == ValueModel::Boolean(self),
    {
        Value::Boolean(self)
    }
}

impl IntoValue for i32 {
    open spec fn value_model(&self) -> ValueModel {
        ValueModel::Integer(*self as int)
    }

    fn into_value(self) -> (v: Value)
        ensures
            v@ == ValueModel::Integer(self as int),
    {
        Value::Integer(Integer::from_i32(self))
    }
}

impl IntoValue for i64 {
    open spec fn value_model(&self) -> ValueModel {
        ValueModel::Integer(*self as int)
    }

    fn into_value(self) -> (v: Value)
        ensures
            v@ == ValueModel::Integer(self as int),
    {
        Value::Integer(Integer::from_i64(self))
    }
}

impl IntoValue for i8 {
    open spec fn value_model(&self) -> ValueModel {
        ValueModel::Integer(*self as int)
    }

    fn into_value(self) -> (v: Value)
        ensures
            v@ == ValueModel::Integer(self as int),
    {
        Value::Integer(Integer::from_i64(self as i64))
    }
}

impl IntoValue for i16 {
    open spec fn value_model(&self) -> ValueModel {
        ValueModel::Integer(*self as int)
    }

    fn into_value(self) -> (v: Value)
        ensures
            v@ == ValueModel::Integer(self as int),
    {
        Value::Integer(Integer::from_i64(self as i64))
    }
}

impl IntoValue for isize {
    open spec fn value_model(&self) -> ValueModel {
        ValueModel::Integer(*self as int)
    }

    fn into_value(self) -> (v: Value)
        ensures
            v@ == ValueModel::Integer(self as int),
    {
        Value::Integer(Integer::from_i64(self as i64))
    }
}

impl IntoValue for u8 {
    open spec fn value_model(&self) -> ValueModel {
        ValueModel::Integer(*self as int)
    }

    fn into_value(self) -> (v: Value)
        ensures
            v@ == ValueModel::Integer(self as int),
    {
        Value::Integer(Integer::from_u64(self as u64))
    }
}

impl IntoValue for u16 {
    open spec fn value_model(&self) -> ValueModel {
        ValueModel::Integer(*self as int)
    }

    fn into_value(self) -> (v: Value)
        ensures
            v@ == ValueModel::Integer(self as int),
    {
        Value::Integer(Integer::from_u64(self as u64))
    }
}

impl IntoValue for u32 {
    open spec fn value_model(&self) -> ValueModel {
        ValueModel::Integer(*self as int)
    }

    fn into_value(self) -> (v: Value)
        ensures
            v@ == ValueModel::Integer(self as int),
    {
        Value::Integer(Integer::from_u32(self))
    }
}

impl IntoValue for u64 {
    open spec fn value_model(&self) -> ValueModel {
        ValueModel::Integer(*self as int)
    }

    fn into_value(self) -> (v: Value)
        ensures
            v@ == ValueModel::Integer(self as int),
    {
        Value::Integer(Integer::from_u64(self))
    }
}

impl IntoValue for usize {
    open spec fn value_model(&self) -> ValueModel {
        ValueModel::Integer(*self as int)
    }

    fn into_value(self) -> (v: Value)
        ensures
            v@ == ValueModel::Integer(self as int),
    {
        Value::Integer(Integer::from_u64(self as u64))
    }
}

impl IntoValue for String {
    open spec fn value_model(&self) -> ValueModel {
        ValueModel::String(self@)
    }

    fn into_value(self) -> (v: Value)
        ensures
            v@ == ValueModel::String(self@),
    {
        Value::String(self)
    }
}

impl<'a> IntoValue for &'a str {
    open spec fn value_model(&self) -> ValueModel {
        ValueModel::String((*self)@)
    }

    fn into_value(self) -> (v: Value)
        ensures
            v@ == ValueModel::String(self@),
    {
        str_value(self)
    }
}

impl IntoValue for Vec<u8> {
    open spec fn value_model(&self) -> ValueModel {
        ValueModel::Binary(self@)
    }

    fn into_value(self) -> (v: Value)
        ensures
            v@ == ValueModel::Binary(self@),
    {
        Value::Binary(self)
    }
}

impl<'a> IntoValue for &'a [u8] {
    open spec fn value_model(&self) -> ValueModel {
        ValueModel::Binary((*self)@)
    }

    fn into_value(self) -> (v: Value)
        ensures
            v@ == ValueModel::Binary(self@),
    {
        Value::Binary(vstd::slice::slice_to_vec(self))
    }
}

impl IntoValue for Vec<Value> {
    open spec fn value_model(&self) -> ValueModel {
        ValueModel::Array(models_of(self@))
    }

    fn into_value(self) -> (v: Value) {
        Value::Array(self)
    }
}

impl IntoValue for Vec<(Value, Value)> {
    open spec fn value_model(&self) -> ValueModel {
        ValueModel::Mapping(pair_models_of(self@))
    }

    fn into_value(self) -> (v: Value) {
        Value::Mapping(self)
    }
}

impl IntoValue for Vec<String> {
    open spec fn value_model(&self) -> ValueModel {
        ValueModel::Array(self@.map_values(|s: String| ValueModel::String(s@)))
    }

    fn into_value(self) -> (v: Value) {
        let mut items: Vec<Value> = Vec::new();
        let n = self.len();
        let mut i: usize = 0;
        while i < n
            invariant
                n == self.len(),
                i <= n,
                items@.len() == i,
                forall|j: int| 0 <= j < i ==> #[trigger] model_of(items@[j]) == ValueModel::String(self@[j]@),
            decreases n - i,
        {
            items.push(Value::String(self[i].clone()));
            i += 1;
        }
        proof {
            lemma_models_of(items@);
            assert(models_of(items@) =~= self@.map_values(|s: String| ValueModel::String(s@)));
        }
        Value::Array(items)
    }
}

impl<T: IntoValue> IntoValue for Option<T> {
    open spec fn value_model(&self) -> ValueModel {
        match self {
            Some(v) => v.value_model(),
            None => ValueModel::Nil,
        }
    }

    fn into_value(self) -> (v: Value)
        ensures
            self is None ==> v@ == ValueModel::Nil,
    {
        match self {
            Some(v) => v.into_value(),
            None => Value::Nil,
        }
    }
}

impl IntoValue for Value {
    open spec fn value_model(&self) -> ValueModel {
        self@
    }

    fn into_value(self) -> (v: Value)
        ensures
            v@ == self@,
    {
        self
    }
}

/// Converting a plain value keeps it: a bool gives that Boolean, an integer
/// that Integer, a string that String, bytes that Binary, and an absent
/// option Nil.
pub proof fn law_plain_value_models(
    b: bool,
    i8v: i8,
    i16v: i16,
    i32v: i32,
    i64v: i64,
    isizev: isize,
    u8v: u8,
    u16v: u16,
    u32v: u32,
    u64v: u64,
    usizev: usize,
    text: String,
    bytes: Vec<u8>,
)
    ensures
        b.value_model() == ValueModel::Boolean(b),
        i8v.value_model() == ValueModel::Integer(i8v as int),
        i16v.value_model() == ValueModel::Integer(i16v as int),
        i32v.value_model() == ValueModel::Integer(i32v as int),
        i64v.value_model() == ValueModel::Integer(i64v as int),
        isizev.value_model() == ValueModel::Integer(isizev as int),
        u8v.value_model() == ValueModel::Integer(u8v as int),
        u16v.value_model() == ValueModel::Integer(u16v as int),
        u32v.value_model() == ValueModel::Integer(u32v as int),
        u64v.value_model() == ValueModel::Integer(u64v as int),
        usizev.value_model() == ValueModel::Integer(usizev as int),
        text.value_model() == ValueModel::String(text@),
        bytes.value_model() == ValueModel::Binary(bytes@),
        None::<bool>.value_model() == ValueModel::Nil,
        Some(b).value_model() == ValueModel::Boolean(b),
{
}

/// Converting a list of strings gives an array of the same length whose
/// elements are those strings, in order.
pub proof fn law_string_list_value_model(list: Vec<String>)
    ensures
        list.value_model() matches ValueModel::Array(items) && items.len() == list@.len() && forall|
            i: int,
        |
            0 <= i < list@.len() ==> #[trigger] items[i] == ValueModel::String(list@[i]@),
{
}

} // verus!
