//! Identifiers and the dynamically typed `Value` that flows between devices,
//! variables and workflow actions.
use vstd::prelude::*;

use crate::mechaflow_core::error::owned;
use crate::str_map::{entries_map, has_key, key_index, StrMap};
use vstd::arithmetic::div_mod::lemma_small_mod;
use vstd::arithmetic::div_mod::{lemma_fundamental_div_mod, lemma_mod_bound};
use vstd::arithmetic::power2::{
    lemma2_to64, lemma2_to64_rest, lemma_pow2_adds, lemma_pow2_pos, lemma_pow2_strictly_increases,
    lemma_pow2_unfold, pow2,
};

verus! {

/// A fresh random identifier in the hyphenated form of a version-4 UUID.
///
/// Calls `uuid::Uuid::new_v4` and formats it with `to_string`; the text is
/// random, so nothing is stated of it beyond its length.
#[verifier::external_body]
pub(crate) fn random_uuid_string() -> (r: String)
    ensures
        r@.len() == 36,
{
    uuid::Uuid::new_v4().to_string()
}

/// A unique identifier for resources.
#[derive(Debug, Hash)]
pub struct Id(String);

impl View for Id {
    type V = Seq<char>;

    closed spec fn view(&self) -> Seq<char> {
        self.0@
    }
}

impl Id {
    /// Create a new ID with a random UUID
    pub fn new() -> (id: Self)
        ensures
            id@.len() == 36,
    {
        Id(random_uuid_string())
    }

    /// Create an ID from a string
    pub fn from_string(s: &str) -> (id: Self)
        ensures
            id@ == s@,
    {
        Id(owned(s))
    }

    /// Create an ID that takes ownership of a string
    pub fn from_owned(s: String) -> (id: Self)
        ensures
            id@ == s@,
    {
        Id(s)
    }

    /// Get the string representation of the ID
    pub fn as_str(&self) -> (r: &str)
        ensures
            r@ == self@,
    {
        self.0.as_str()
    }

    /// Compare two identifiers by their text.
    pub fn same(&self, other: &Id) -> (r: bool)
        ensures
            r == (self@ == other@),
    {
        self.0 == other.0
    }

    /// The identifier as an owned string, as it is displayed.
    pub fn to_string(&self) -> (r: String)
        ensures
            r@ == self@,
    {
        self.0.clone()
    }

    /// Copy this identifier.
    pub fn duplicate(&self) -> (r: Id)
        ensures
            r@ == self@,
    {
        Id(self.0.clone())
    }
}

impl Clone for Id {
    fn clone(&self) -> (r: Self)
        ensures
            r@ == self@,
    {
        self.duplicate()
    }
}

impl PartialEq for Id {
    fn eq(&self, other: &Self) -> (r: bool) {
        self.same(other)
    }
}

impl vstd::std_specs::cmp::PartialEqSpecImpl for Id {
    open spec fn obeys_eq_spec() -> bool {
        true
    }

    open spec fn eq_spec(&self, other: &Id) -> bool {
        self@ == other@
    }
}

impl Eq for Id {
}

impl From<&str> for Id {
    fn from(s: &str) -> (id: Self)
        ensures
            id@ == s@,
    {
        Id::from_string(s)
    }
}

impl vstd::std_specs::convert::FromSpecImpl<&str> for Id {
    /// A string slice cannot become an owned string inside a specification;
    /// the `ensures` of `from` states the conversion.
    open spec fn obeys_from_spec() -> bool {
        false
    }

    open spec fn from_spec(v: &str) -> Id {
        arbitrary()
    }
}

impl From<String> for Id {
    fn from(s: String) -> (id: Self)
        ensures
            id@ == s@,
    {
        Id::from_owned(s)
    }
}

impl vstd::std_specs::convert::FromSpecImpl<String> for Id {
    open spec fn obeys_from_spec() -> bool {
        false
    }

    open spec fn from_spec(v: String) -> Id {
        arbitrary()
    }
}

/// A point in time: whole seconds since the Unix epoch and the nanoseconds
/// within that second.
#[derive(Debug, Clone, Copy, PartialEq, Eq, Structural)]
pub struct Timestamp {
    /// Seconds since 1970-01-01T00:00:00Z
    pub secs: i64,
    /// Nanoseconds within the second
    pub nanos: u32,
}

/// The current time, read from the system clock.
///
/// Calls `chrono::Utc::now` and reads its `timestamp` and
/// `timestamp_subsec_nanos`. The result depends on the clock, so only the
/// range of the nanosecond part is stated: chrono keeps it below
/// 2,000,000,000, the values from 1,000,000,000 on marking a leap second.
#[verifier::external_body]
pub fn now() -> (t: Timestamp)
    ensures
        t.nanos < 2_000_000_000,
{
    let n = chrono::Utc::now();
    Timestamp { secs: n.timestamp(), nanos: n.timestamp_subsec_nanos() }
}

/// A strongly-typed value.
///
/// Floating-point numbers are carried as their IEEE-754 binary64 bit pattern.
#[derive(Debug)]
pub enum Value {
    /// Null value
    Null,
    /// Boolean value
    Bool(bool),
    /// Integer value
    Integer(i64),
    /// Floating-point value (IEEE-754 binary64 bits)
    Float(u64),
    /// String value
    String(String),
    /// Array of values
    Array(Vec<Value>),
    /// Map of string keys to values
    Object(StrMap<Value>),
    /// Binary data
    Binary(Vec<u8>),
    /// Timestamp
    Timestamp(Timestamp),
}

/// The mathematical content of a `Value`.
#[verifier::ext_equal]
pub enum ValueModel {
    Null,
    Bool(bool),
    Integer(i64),
    Float(u64),
    String(Seq<char>),
    Array(Seq<ValueModel>),
    Object(Map<Seq<char>, ValueModel>),
    Binary(Seq<u8>),
    Timestamp(Timestamp),
}

/// The model of a value: strings, arrays and maps by their contents.
pub closed spec fn model(v: Value) -> ValueModel
    decreases v,
{
    match v {
        Value::Null => ValueModel::Null,
        Value::Bool(b) => ValueModel::Bool(b),
        Value::Integer(i) => ValueModel::Integer(i),
        Value::Float(f) => ValueModel::Float(f),
        Value::String(s) => ValueModel::String(s@),
        Value::Array(a) => ValueModel::Array(
            Seq::new(
                a@.len(),
                |i: int|
                    if 0 <= i < a@.len() {
                        model(a@[i])
                    } else {
                        ValueModel::Null
                    },
            ),
        ),
        Value::Object(m) => ValueModel::Object(
            Map::new(
                |k: Seq<char>| has_key(m.entries@, k),
                |k: Seq<char>|
                    if has_key(m.entries@, k) {
                        model(m.entries@[key_index(m.entries@, k)].1)
                    } else {
                        ValueModel::Null
                    },
            ),
        ),
        Value::Binary(b) => ValueModel::Binary(b@),
        Value::Timestamp(t) => ValueModel::Timestamp(t),
    }
}

impl View for Value {
    type V = ValueModel;

    open spec fn view(&self) -> ValueModel {
        model(*self)
    }
}

/// The bit pattern is a NaN.
pub open spec fn float_is_nan(b: u64) -> bool {
    (b & 0x7ff0_0000_0000_0000u64) == 0x7ff0_0000_0000_0000u64 && (b & 0x000f_ffff_ffff_ffffu64)
        != 0
}

/// The bit pattern is positive or negative zero.
pub open spec fn float_is_zero(b: u64) -> bool {
    (b & 0x7fff_ffff_ffff_ffffu64) == 0
}

/// IEEE-754 equality of two binary64 numbers given by their bits: NaN equals
/// nothing, the two zeros are equal, otherwise equal bits.
pub open spec fn float_eq(a: u64, b: u64) -> bool {
    !float_is_nan(a) && !float_is_nan(b) && (a == b || (float_is_zero(a) && float_is_zero(b)))
}

/// 2^52: the weight of the lowest exponent bit of a binary64 pattern.
pub open spec fn fraction_scale() -> int {
    0x10_0000_0000_0000
}

/// The biased exponent field of a binary64 bit pattern.
pub open spec fn float_exponent(b: u64) -> int {
    (b as int / fraction_scale()) % 2048
}

/// The fraction field of a binary64 bit pattern.
pub open spec fn float_fraction(b: u64) -> int {
    b as int % fraction_scale()
}

/// The sign bit of a binary64 bit pattern is set.
pub open spec fn float_negative(b: u64) -> bool {
    b >= 0x8000_0000_0000_0000u64
}

/// The magnitude of the number a finite, nonzero-exponent binary64 bit
/// pattern stands for, where that number is an integer.
pub open spec fn normal_integer_magnitude(b: u64) -> Option<int> {
    let e = float_exponent(b);
    let sig = float_fraction(b) + fraction_scale();
    if e >= 1075 {
        Some(sig * pow2((e - 1075) as nat))
    } else if sig % (pow2((1075 - e) as nat) as int) == 0 {
        Some(sig / (pow2((1075 - e) as nat) as int))
    } else {
        None
    }
}

/// The integer that a binary64 bit pattern stands for, where it stands for
/// one: zeros give 0, infinities, NaNs and numbers with a fractional part
/// give nothing.
pub open spec fn float_integer(b: u64) -> Option<int> {
    let e = float_exponent(b);
    if e == 2047 {
        None
    } else if e == 0 {
        if float_fraction(b) == 0 {
            Some(0)
        } else {
            None
        }
    } else {
        match normal_integer_magnitude(b) {
            Some(m) => Some(
                if float_negative(b) {
                    -m
                } else {
                    m
                },
            ),
            None => None,
        }
    }
}

/// The integer a float is read as: its value where that is an integer that
/// fits in an `i64`. The float 2^63 is read as `i64::MAX`, the number that the
/// saturating conversion to `i64` gives and that converts back to 2^63.
pub open spec fn float_as_integer(b: u64) -> Option<i64> {
    match float_integer(b) {
        Some(v) => if i64::MIN <= v <= i64::MAX {
            Some(v as i64)
        } else if v == 0x8000_0000_0000_0000 {
            Some(i64::MAX)
        } else {
            None
        },
        None => None,
    }
}

/// Equality of values as the derived `==` of the value type computes it:
/// same kind and equal contents, floats compared as IEEE numbers, maps compared
/// key by key.
pub open spec fn model_eq(a: ValueModel, b: ValueModel) -> bool
    decreases a,
{
    match (a, b) {
        (ValueModel::Null, ValueModel::Null) => true,
        (ValueModel::Bool(x), ValueModel::Bool(y)) => x == y,
        (ValueModel::Integer(x), ValueModel::Integer(y)) => x == y,
        (ValueModel::Float(x), ValueModel::Float(y)) => float_eq(x, y),
        (ValueModel::String(x), ValueModel::String(y)) => x == y,
        (ValueModel::Array(x), ValueModel::Array(y)) => x.len() == y.len() && forall|i: int|
            0 <= i < x.len() ==> model_eq(#[trigger] x[i], y[i]),
        (ValueModel::Object(x), ValueModel::Object(y)) => x.dom() == y.dom() && forall|
            k: Seq<char>,
        |
            #![trigger x[k]]
            x.dom().contains(k) ==> model_eq(x[k], y[k]),
        (ValueModel::Binary(x), ValueModel::Binary(y)) => x == y,
        (ValueModel::Timestamp(x), ValueModel::Timestamp(y)) => x == y,
        _ => false,
    }
}

/// Exec check for IEEE equality of two bit patterns.
pub fn float_bits_eq(a: u64, b: u64) -> (r: bool)
    ensures
        r == float_eq(a, b),
{
    let a_nan = (a & 0x7ff0_0000_0000_0000u64) == 0x7ff0_0000_0000_0000u64 && (a
        & 0x000f_ffff_ffff_ffffu64) != 0;
    let b_nan = (b & 0x7ff0_0000_0000_0000u64) == 0x7ff0_0000_0000_0000u64 && (b
        & 0x000f_ffff_ffff_ffffu64) != 0;
    let both_zero = (a & 0x7fff_ffff_ffff_ffffu64) == 0 && (b & 0x7fff_ffff_ffff_ffffu64) == 0;
    !a_nan && !b_nan && (a == b || both_zero)
}

/// 2^k, for k up to 52.
fn pow2_small(k: u64) -> (p: u64)
    requires
        k <= 52,
    ensures
        p as nat == pow2(k as nat),
        1 <= p <= 0x10_0000_0000_0000u64,
{
    let mut p: u64 = 1;
    let mut i: u64 = 0;
    proof {
        lemma2_to64();
        lemma2_to64_rest();
        lemma_pow2_strictly_increases(0, 52);
    }
    while i < k
        invariant
            i <= k <= 52,
            p as nat == pow2(i as nat),
            1 <= p <= pow2(52),
            pow2(52) == 0x10_0000_0000_0000,
        decreases k - i,
    {
        proof {
            lemma_pow2_unfold((i + 1) as nat);
            lemma_pow2_strictly_increases((i + 1) as nat, 53);
            lemma_pow2_unfold(53);
        }
        p = p * 2;
        i = i + 1;
        proof {
            if i < 52 {
                lemma_pow2_strictly_increases(i as nat, 52);
            }
        }
    }
    p
}

/// The integer a float bit pattern is read as (see `float_as_integer`).
pub fn float_bits_as_integer(b: u64) -> (r: Option<i64>)
    ensures
        r == float_as_integer(b),
{
    let e: u64 = (b / 0x10_0000_0000_0000u64) % 2048;
    let f: u64 = b % 0x10_0000_0000_0000u64;
    let neg = b >= 0x8000_0000_0000_0000u64;
    proof {
        lemma2_to64();
        assert(b as int / fraction_scale() < 4096);
        assert(e == float_exponent(b));
        assert(f == float_fraction(b));
    }
    if e == 2047 {
        return None;
    }
    if e == 0 {
        if f == 0 {
            return Some(0);
        } else {
            return None;
        }
    }
    let sig: u64 = f + 0x10_0000_0000_0000u64;
    if e >= 1075 {
        let k = e - 1075;
        if k <= 10 {
            let p = pow2_small(k);
            proof {
                if k < 10 {
                    lemma_pow2_strictly_increases(k as nat, 10);
                }
                lemma2_to64();
                assert(sig * p < 0x8000_0000_0000_0000) by (nonlinear_arith)
                    requires
                        sig < 0x20_0000_0000_0000u64,
                        p <= 1024,
                ;
            }
            let mag: u64 = sig * p;
            let m: i64 = mag as i64;
            if neg {
                Some(-m)
            } else {
                Some(m)
            }
        } else if k == 11 && f == 0 {
            proof {
                lemma2_to64();
                assert(sig * pow2(11) == 0x8000_0000_0000_0000);
            }
            if neg {
                Some(i64::MIN)
            } else {
                Some(i64::MAX)
            }
        } else {
            proof {
                lemma2_to64();
                let pk = pow2(k as nat);
                if k >= 12 {
                    if k > 12 {
                        lemma_pow2_strictly_increases(12, k as nat);
                    }
                    assert(sig * pk >= 0x1_0000_0000_0000_0000) by (nonlinear_arith)
                        requires
                            sig >= 0x10_0000_0000_0000u64,
                            pk >= 4096,
                    ;
                } else {
                    assert(sig * pk > 0x8000_0000_0000_0000) by (nonlinear_arith)
                        requires
                            sig > 0x10_0000_0000_0000u64,
                            pk == 2048,
                    ;
                }
            }
            None
        }
    } else {
        let k = 1075 - e;
        if k >= 53 {
            proof {
                lemma2_to64();
                lemma2_to64_rest();
                if k > 53 {
                    lemma_pow2_strictly_increases(53, k as nat);
                }
                lemma_small_mod(sig as nat, pow2(k as nat));
            }
            None
        } else {
            let p = pow2_small(k);
            if sig % p == 0 {
                let q: u64 = sig / p;
                proof {
                    lemma_pow2_pos(k as nat);
                    assert(q <= sig) by (nonlinear_arith)
                        requires
                            p >= 1,
                            q == sig / p,
                    ;
                }
                let m: i64 = q as i64;
                if neg {
                    Some(-m)
                } else {
                    Some(m)
                }
            } else {
                None
            }
        }
    }
}

/// The model of a value has the value's kind, and carries the scalars, texts
/// and bytes unchanged.
pub proof fn lemma_model_kinds(v: Value)
    ensures
        (v is Null) == (model(v) is Null),
        (v is Bool) == (model(v) is Bool),
        (v is Integer) == (model(v) is Integer),
        (v is Float) == (model(v) is Float),
        (v is String) == (model(v) is String),
        (v is Array) == (model(v) is Array),
        (v is Object) == (model(v) is Object),
        (v is Binary) == (model(v) is Binary),
        (v is Timestamp) == (model(v) is Timestamp),
        v matches Value::Bool(b) ==> model(v) == ValueModel::Bool(b),
        v matches Value::Integer(i) ==> model(v) == ValueModel::Integer(i),
        v matches Value::Float(f) ==> model(v) == ValueModel::Float(f),
        v matches Value::String(s) ==> model(v) == ValueModel::String(s@),
        v matches Value::Binary(b) ==> model(v) == ValueModel::Binary(b@),
        v matches Value::Timestamp(t) ==> model(v) == ValueModel::Timestamp(t),
{
}

/// Facts about the model of arrays and objects.
pub proof fn lemma_model_array(a: Vec<Value>)
    ensures
        model(Value::Array(a)) matches ValueModel::Array(s) && s.len() == a@.len() && forall|
            i: int,
        |
            0 <= i < a@.len() ==> #[trigger] s[i] == model(a@[i]),
{
}

/// The model of an object maps each key to the model of its value.
pub proof fn lemma_model_object(m: StrMap<Value>)
    ensures
        model(Value::Object(m)) matches ValueModel::Object(x) && x.dom() == m@.dom() && forall|
            k: Seq<char>,
        |
            #![trigger x[k]]
            x.dom().contains(k) ==> x[k] == model(m@[k]),
{
    m.lemma_entry_seq();
    let x = model(Value::Object(m))->Object_0;
    assert(x.dom() =~= m@.dom());
}

impl Value {
    /// Check if the value is null
    pub fn is_null(&self) -> (r: bool)
        ensures
            r == (*self is Null),
    {
        matches!(self, Value::Null)
    }

    /// Check if the value is a boolean
    pub fn is_bool(&self) -> (r: bool)
        ensures
            r == (*self is Bool),
    {
        matches!(self, Value::Bool(_))
    }

    /// Check if the value is an integer
    pub fn is_integer(&self) -> (r: bool)
        ensures
            r == (*self is Integer),
    {
        matches!(self, Value::Integer(_))
    }

    /// Check if the value is a float
    pub fn is_float(&self) -> (r: bool)
        ensures
            r == (*self is Float),
    {
        matches!(self, Value::Float(_))
    }

    /// Check if the value is numeric (integer or float)
    pub fn is_numeric(&self) -> (r: bool)
        ensures
            r == (*self is Integer || *self is Float),
    {
        self.is_integer() || self.is_float()
    }

    /// Check if the value is a string
    pub fn is_string(&self) -> (r: bool)
        ensures
            r == (*self is String),
    {
        matches!(self, Value::String(_))
    }

    /// Check if the value is an array
    pub fn is_array(&self) -> (r: bool)
        ensures
            r == (*self is Array),
    {
        matches!(self, Value::Array(_))
    }

    /// Check if the value is an object
    pub fn is_object(&self) -> (r: bool)
        ensures
            r == (*self is Object),
    {
        matches!(self, Value::Object(_))
    }

    /// Check if the value is binary data
    pub fn is_binary(&self) -> (r: bool)
        ensures
            r == (*self is Binary),
    {
        matches!(self, Value::Binary(_))
    }

    /// Check if the value is a timestamp
    pub fn is_timestamp(&self) -> (r: bool)
        ensures
            r == (*self is Timestamp),
    {
        matches!(self, Value::Timestamp(_))
    }

    /// Try to get a boolean value
    pub fn as_bool(&self) -> (r: Option<bool>)
        ensures
            r == (match *self {
                Value::Bool(b) => Some(b),
                _ => None::<bool>,
            }),
    {
        match self {
            Value::Bool(b) => Some(*b),
            _ => None,
        }
    }

    /// Try to get an integer value: an integer as it is, a float where it
    /// is an integer that fits (see `float_as_integer`).
    pub fn as_integer(&self) -> (r: Option<i64>)
        ensures
            r == (match *self {
                Value::Integer(i) => Some(i),
                Value::Float(b) => float_as_integer(b),
                _ => None::<i64>,
            }),
    {
        match self {
            Value::Integer(i) => Some(*i),
            Value::Float(b) => float_bits_as_integer(*b),
            _ => None,
        }
    }

    /// Try to get a string value
    pub fn as_str(&self) -> (r: Option<&str>)
        ensures
            match *self {
                Value::String(s) => r matches Some(t) && t@ == s@,
                _ => r is None,
            },
    {
        match self {
            Value::String(s) => Some(s.as_str()),
            _ => None,
        }
    }

    /// Try to get an array value
    pub fn as_array(&self) -> (r: Option<&[Value]>)
        ensures
            match *self {
                Value::Array(a) => r matches Some(t) && t@ == a@,
                _ => r is None,
            },
    {
        match self {
            Value::Array(a) => Some(a.as_slice()),
            _ => None,
        }
    }

    /// Try to get an object value
    pub fn as_object(&self) -> (r: Option<&StrMap<Value>>)
        ensures
            match *self {
                Value::Object(m) => r matches Some(t) && *t == m,
                _ => r is None,
            },
    {
        match self {
            Value::Object(o) => Some(o),
            _ => None,
        }
    }

    /// Try to get binary data
    pub fn as_binary(&self) -> (r: Option<&[u8]>)
        ensures
            match *self {
                Value::Binary(b) => r matches Some(t) && t@ == b@,
                _ => r is None,
            },
    {
        match self {
            Value::Binary(b) => Some(b.as_slice()),
            _ => None,
        }
    }

    /// Try to get a timestamp value
    pub fn as_timestamp(&self) -> (r: Option<&Timestamp>)
        ensures
            match *self {
                Value::Timestamp(t) => r matches Some(u) && *u == t,
                _ => r is None,
            },
    {
        match self {
            Value::Timestamp(t) => Some(t),
            _ => None,
        }
    }

    /// Deep copy of the value.
    #[verifier::loop_isolation(false)]
    pub fn duplicate(&self) -> (r: Value)
        ensures
            r@ == self@,
        decreases self,
    {
        match self {
            Value::Null => Value::Null,
            Value::Bool(b) => Value::Bool(*b),
            Value::Integer(i) => Value::Integer(*i),
            Value::Float(f) => Value::Float(*f),
            Value::String(s) => Value::String(s.clone()),
            Value::Array(a) => {
                let mut out: Vec<Value> = Vec::new();
                let n = a.len();
                let mut i: usize = 0;
                while i < n
                    invariant
                        n == a@.len(),
                        i <= n,
                        out@.len() == i,
                        *self == Value::Array(*a),
                        forall|j: int| 0 <= j < i ==> model(#[trigger] out@[j]) == model(a@[j]),
                    decreases n - i,
                {
                    proof {
                    }
                    let c = a[i].duplicate();
                    out.push(c);
                    i = i + 1;
                }
                proof {
                    lemma_model_array(*a);
                    lemma_model_array(out);
                    assert(model(Value::Array(out))->Array_0 =~= model(Value::Array(*a))->Array_0);
                }
                Value::Array(out)
            },
            Value::Object(m) => {
                let mut out: StrMap<Value> = StrMap::new();
                let n = m.len();
                let mut i: usize = 0;
                while i < n
                    invariant
                        n == m@.len(),
                        n == m.entry_seq().len(),
                        m@ == entries_map(m.entry_seq()),
                        i <= n,
                        out@.dom() =~= Set::new(
                            |k: Seq<char>| exists|j: int| 0 <= j < i && m.entry_seq()[j].0@ == k,
                        ),
                        forall|k: Seq<char>| #[trigger]
                            out@.contains_key(k) ==> model(out@[k]) == model(m@[k]),
                        crate::str_map::keys_unique(m.entry_seq()),
                        *self == Value::Object(*m),
                    decreases n - i,
                {
                    let (k, v) = m.entry_at(i);
                    proof {
                        m.lemma_entry_seq();
                    }
                    let c = v.duplicate();
                    let ghost before = out@;
                    out.insert(k.clone(), c);
                    proof {
                        assert forall|x: Seq<char>| #[trigger]
                            out@.contains_key(x) implies model(out@[x]) == model(m@[x]) by {
                            if x != k@ {
                                assert(before.contains_key(x));
                            }
                        }
                        assert(out@.dom() =~= Set::new(
                            |x: Seq<char>|
                                exists|j: int| 0 <= j < i + 1 && m.entry_seq()[j].0@ == x,
                        )) by {
                            assert forall|x: Seq<char>| out@.dom().contains(x) implies exists|
                                j: int,
                            |
                                0 <= j < i + 1 && m.entry_seq()[j].0@ == x by {
                                if x != k@ {
                                    assert(before.dom().contains(x));
                                }
                            }
                        }
                    }
                    i = i + 1;
                }
                proof {
                    assert(out@.dom() =~= m@.dom()) by {
                        assert forall|x: Seq<char>| m@.dom().contains(x) implies out@.dom().contains(
                            x,
                        ) by {
                            let j = key_index(m.entry_seq(), x);
                            assert(m.entry_seq()[j].0@ == x);
                        }
                    }
                    lemma_model_object(*m);
                    lemma_model_object(out);
                    assert(model(Value::Object(out))->Object_0 =~= model(Value::Object(*m))->Object_0);
                }
                Value::Object(out)
            },
            Value::Binary(b) => Value::Binary(b.clone()),
            Value::Timestamp(t) => Value::Timestamp(*t),
        }
    }

    /// Equality of values (floats compared as IEEE numbers, objects key by key).
    #[verifier::loop_isolation(false)]
    pub fn equals(&self, other: &Value) -> (r: bool)
        ensures
            r == model_eq(self@, other@),
        decreases self,
    {
        match (self, other) {
            (Value::Null, Value::Null) => true,
            (Value::Bool(x), Value::Bool(y)) => *x == *y,
            (Value::Integer(x), Value::Integer(y)) => *x == *y,
            (Value::Float(x), Value::Float(y)) => float_bits_eq(*x, *y),
            (Value::String(x), Value::String(y)) => *x == *y,
            (Value::Array(x), Value::Array(y)) => {
                proof {
                    lemma_model_array(*x);
                    lemma_model_array(*y);
                }
                if x.len() != y.len() {
                    return false;
                }
                let n = x.len();
                let mut i: usize = 0;
                while i < n
                    invariant
                        n == x@.len(),
                        n == y@.len(),
                        i <= n,
                        *self == Value::Array(*x),
                        forall|j: int| 0 <= j < i ==> model_eq(model(x@[j]), model(y@[j])),
                    decreases n - i,
                {
                    proof {
                    }
                    if !x[i].equals(&y[i]) {
                        proof {
                            lemma_model_array(*x);
                            lemma_model_array(*y);
                            let sx = model(Value::Array(*x))->Array_0;
                            let sy = model(Value::Array(*y))->Array_0;
                            assert(sx[i as int] == model(x@[i as int]));
                            assert(sy[i as int] == model(y@[i as int]));
                            assert(!model_eq(sx[i as int], sy[i as int]));
                        }
                        return false;
                    }
                    i = i + 1;
                }
                true
            },
            (Value::Object(x), Value::Object(y)) => {
                proof {
                    lemma_model_object(*x);
                    lemma_model_object(*y);
                }
                let n = x.len();
                if n != y.len() {
                    proof {
                        if x@.dom() == y@.dom() {
                            assert(x@.len() == y@.len());
                        }
                    }
                    return false;
                }
                let mut i: usize = 0;
                while i < n
                    invariant
                        n == x@.len(),
                        n == x.entry_seq().len(),
                        n == y@.len(),
                        x@ == entries_map(x.entry_seq()),
                        crate::str_map::keys_unique(x.entry_seq()),
                        x@.dom().finite(),
                        y@.dom().finite(),
                        i <= n,
                        forall|j: int|
                            #![trigger x.entry_seq()[j]]
                            0 <= j < i ==> y@.contains_key(x.entry_seq()[j].0@) && model_eq(
                                model(x@[x.entry_seq()[j].0@]),
                                model(y@[x.entry_seq()[j].0@]),
                            ),
                        *self == Value::Object(*x),
                    decreases n - i,
                {
                    let (k, v) = x.entry_at(i);
                    proof {
                        x.lemma_entry_seq();
                    }
                    match y.get(k.as_str()) {
                        Some(w) => {
                            if !v.equals(w) {
                                proof {
                                    lemma_model_object(*x);
                                    lemma_model_object(*y);
                                    let mx = model(Value::Object(*x))->Object_0;
                                    let my = model(Value::Object(*y))->Object_0;
                                    assert(mx[k@] == model(x@[k@]));
                                    assert(my.dom().contains(k@));
                                    assert(my[k@] == model(y@[k@]));
                                }
                                return false;
                            }
                        },
                        None => {
                            proof {
                                lemma_model_object(*x);
                                lemma_model_object(*y);
                                let mx = model(Value::Object(*x))->Object_0;
                                let my = model(Value::Object(*y))->Object_0;
                                assert(mx.dom().contains(k@));
                                assert(!my.dom().contains(k@));
                            }
                            return false;
                        },
                    }
                    i = i + 1;
                }
                proof {
                    assert(x@.dom().subset_of(y@.dom())) by {
                        assert forall|key: Seq<char>| x@.dom().contains(key) implies y@.dom().contains(
                            key,
                        ) by {
                            let j = key_index(x.entry_seq(), key);
                            assert(x.entry_seq()[j].0@ == key);
                        }
                    }
                    vstd::set_lib::lemma_subset_equality(x@.dom(), y@.dom());
                    assert forall|key: Seq<char>| x@.dom().contains(key) implies model_eq(
                        model(x@[key]),
                        model(y@[key]),
                    ) by {
                        let j = key_index(x.entry_seq(), key);
                        assert(x.entry_seq()[j].0@ == key);
                    }
                }
                true
            },
            (Value::Binary(x), Value::Binary(y)) => {
                let n = x.len();
                if n != y.len() {
                    return false;
                }
                let mut i: usize = 0;
                while i < n
                    invariant
                        n == x@.len(),
                        n == y@.len(),
                        i <= n,
                        forall|j: int| 0 <= j < i ==> x@[j] == y@[j],
                    decreases n - i,
                {
                    if x[i] != y[i] {
                        assert(x@[i as int] != y@[i as int]);
                        return false;
                    }
                    i = i + 1;
                }
                assert(x@ =~= y@);
                true
            },
            (Value::Timestamp(x), Value::Timestamp(y)) => *x == *y,
            _ => false,
        }
    }
}

impl Clone for Value {
    fn clone(&self) -> (r: Self)
        ensures
            r@ == self@,
    {
        self.duplicate()
    }
}

impl PartialEq for Value {
    fn eq(&self, other: &Self) -> (r: bool) {
        self.equals(other)
    }
}

impl vstd::std_specs::cmp::PartialEqSpecImpl for Value {
    open spec fn obeys_eq_spec() -> bool {
        true
    }

    open spec fn eq_spec(&self, other: &Value) -> bool {
        model_eq(self@, other@)
    }
}

impl From<bool> for Value {
    fn from(b: bool) -> (r: Self) {
        Value::Bool(b)
    }
}

impl vstd::std_specs::convert::FromSpecImpl<bool> for Value {
    open spec fn obeys_from_spec() -> bool {
        true
    }

    open spec fn from_spec(v: bool) -> Value {
        Value::Bool(v)
    }
}

impl From<i32> for Value {
    fn from(i: i32) -> (r: Self) {
        Value::Integer(i as i64)
    }
}

impl vstd::std_specs::convert::FromSpecImpl<i32> for Value {
    open spec fn obeys_from_spec() -> bool {
        true
    }

    open spec fn from_spec(v: i32) -> Value {
        Value::Integer(v as i64)
    }
}

impl From<i64> for Value {
    fn from(i: i64) -> (r: Self) {
        Value::Integer(i)
    }
}

impl vstd::std_specs::convert::FromSpecImpl<i64> for Value {
    open spec fn obeys_from_spec() -> bool {
        true
    }

    open spec fn from_spec(v: i64) -> Value {
        Value::Integer(v)
    }
}

impl From<&str> for Value {
    fn from(s: &str) -> (r: Self)
        ensures
            r matches Value::String(t) && t@ == s@,
    {
        Value::String(owned(s))
    }
}

impl vstd::std_specs::convert::FromSpecImpl<&str> for Value {
    /// A string slice cannot become an owned string inside a specification;
    /// the `ensures` of `from` states the conversion.
    open spec fn obeys_from_spec() -> bool {
        false
    }

    open spec fn from_spec(v: &str) -> Value {
        arbitrary()
    }
}

impl From<String> for Value {
    fn from(s: String) -> (r: Self) {
        Value::String(s)
    }
}

impl vstd::std_specs::convert::FromSpecImpl<String> for Value {
    open spec fn obeys_from_spec() -> bool {
        true
    }

    open spec fn from_spec(v: String) -> Value {
        Value::String(v)
    }
}

impl From<Vec<u8>> for Value {
    fn from(b: Vec<u8>) -> (r: Self) {
        Value::Binary(b)
    }
}

impl vstd::std_specs::convert::FromSpecImpl<Vec<u8>> for Value {
    open spec fn obeys_from_spec() -> bool {
        true
    }

    open spec fn from_spec(v: Vec<u8>) -> Value {
        Value::Binary(v)
    }
}

impl From<Timestamp> for Value {
    fn from(t: Timestamp) -> (r: Self) {
        Value::Timestamp(t)
    }
}

impl vstd::std_specs::convert::FromSpecImpl<Timestamp> for Value {
    open spec fn obeys_from_spec() -> bool {
        true
    }

    open spec fn from_spec(v: Timestamp) -> Value {
        Value::Timestamp(v)
    }
}

impl From<Vec<Value>> for Value {
    fn from(a: Vec<Value>) -> (r: Self) {
        Value::Array(a)
    }
}

impl vstd::std_specs::convert::FromSpecImpl<Vec<Value>> for Value {
    open spec fn obeys_from_spec() -> bool {
        true
    }

    open spec fn from_spec(v: Vec<Value>) -> Value {
        Value::Array(v)
    }
}

impl From<StrMap<Value>> for Value {
    fn from(m: StrMap<Value>) -> (r: Self) {
        Value::Object(m)
    }
}

impl vstd::std_specs::convert::FromSpecImpl<StrMap<Value>> for Value {
    open spec fn obeys_from_spec() -> bool {
        true
    }

    open spec fn from_spec(v: StrMap<Value>) -> Value {
        Value::Object(v)
    }
}

impl Default for Value {
    fn default() -> (r: Self)
        ensures
            r is Null,
    {
        Value::Null
    }
}

/// The position of the highest set bit of a positive number.
pub open spec fn top_bit(m: nat) -> nat
    decreases m,
{
    if m <= 1 {
        0
    } else {
        1 + top_bit(m / 2)
    }
}

/// A positive magnitude rounded to 53 significant bits, to nearest with
/// ties to even: the exponent `e` and the significand `q`, with
/// 2^52 <= q < 2^53, of the number q * 2^(e - 52).
pub open spec fn rounded_parts(m: nat) -> (nat, nat) {
    let e = top_bit(m);
    if e <= 52 {
        (e, m * pow2((52 - e) as nat))
    } else {
        let p = pow2((e - 52) as nat);
        let q = m / p;
        let rem = m % p;
        let up = rem > p / 2 || (rem == p / 2 && q % 2 == 1);
        let q2: nat = if up {
            q + 1
        } else {
            q
        };
        if q2 == pow2(53) {
            (e + 1, pow2(52))
        } else {
            (e, q2)
        }
    }
}

/// The binary64 bit pattern of the number nearest to `i`, ties going to
/// the even significand: the float that converting the integer gives.
pub open spec fn integer_float_bits(i: i64) -> u64 {
    if i == 0 {
        0
    } else {
        let m: nat = if i < 0 {
            (-i) as nat
        } else {
            i as nat
        };
        let parts = rounded_parts(m);
        let sign: int = if i < 0 {
            0x8000_0000_0000_0000
        } else {
            0
        };
        (sign + (parts.0 + 1023) * pow2(52) + (parts.1 - pow2(52))) as u64
    }
}

/// A positive number lies between the power of two of its highest bit and
/// the next one.
proof fn lemma_top_bit(m: nat)
    requires
        m >= 1,
    ensures
        pow2(top_bit(m)) <= m < pow2(top_bit(m) + 1),
    decreases m,
{
    if m <= 1 {
        lemma2_to64();
    } else {
        lemma_top_bit(m / 2);
        let t = top_bit(m / 2);
        lemma_pow2_unfold(t + 1);
        lemma_pow2_unfold(t + 2);
    }
}

/// Bounds on a quotient from bounds on the dividend.
proof fn lemma_quotient_between(m: int, p: int, lo: int, hi: int)
    requires
        p > 0,
        lo * p <= m < hi * p,
    ensures
        lo <= m / p < hi,
{
    lemma_fundamental_div_mod(m, p);
    lemma_mod_bound(m, p);
    let q = m / p;
    let r = m % p;
    assert(lo <= q < hi) by (nonlinear_arith)
        requires
            p > 0,
            lo * p <= m < hi * p,
            m == p * q + r,
            0 <= r < p,
    ;
}

/// The bit pattern of the float nearest to `i` (see `integer_float_bits`).
pub fn integer_to_float_bits(i: i64) -> (r: u64)
    ensures
        r == integer_float_bits(i),
{
    if i == 0 {
        return 0;
    }
    let m: u64 = if i < 0 {
        (0i128 - i as i128) as u64
    } else {
        i as u64
    };
    let ghost mn: nat = m as nat;
    proof {
        lemma_top_bit(mn);
        lemma2_to64();
        lemma2_to64_rest();
        if top_bit(mn) >= 64 {
            if top_bit(mn) > 64 {
                lemma_pow2_strictly_increases(64, top_bit(mn));
            }
            assert(pow2(64) == 0x1_0000_0000_0000_0000) by {
                lemma_pow2_unfold(64);
            }
        }
    }
    let mut e: u64 = 0;
    let mut t: u64 = m;
    while t > 1
        invariant
            1 <= t <= m,
            top_bit(mn) == e + top_bit(t as nat),
            top_bit(mn) < 64,
            mn == m,
        decreases t,
    {
        t = t / 2;
        e = e + 1;
    }
    let ghost ep: nat = e as nat;
    proof {
        assert(e == top_bit(mn));
        lemma_pow2_unfold(53);
    }
    let (ee, q): (u64, u64) = if e <= 52 {
        let p = pow2_small(52 - e);
        proof {
            lemma_pow2_adds(ep, (52 - ep) as nat);
            lemma_pow2_adds((ep + 1) as nat, (52 - ep) as nat);
            assert(mn * p < pow2(53) && pow2(52) <= mn * p) by (nonlinear_arith)
                requires
                    pow2(ep) <= mn < pow2((ep + 1) as nat),
                    p > 0,
                    pow2(ep) * p == pow2(52),
                    pow2((ep + 1) as nat) * p == pow2(53),
            ;
        }
        (e, m * p)
    } else {
        let s: u64 = e - 52;
        let p = pow2_small(s);
        proof {
            lemma_pow2_adds(52, s as nat);
            lemma_pow2_adds(53, s as nat);
            lemma_quotient_between(mn as int, p as int, pow2(52) as int, pow2(53) as int);
        }
        let q0 = m / p;
        let rem = m % p;
        let half = p / 2;
        let up = rem > half || (rem == half && q0 % 2 == 1);
        let q2: u64 = if up {
            q0 + 1
        } else {
            q0
        };
        if q2 == 0x20_0000_0000_0000u64 {
            (e + 1, 0x10_0000_0000_0000u64)
        } else {
            (e, q2)
        }
    };
    proof {
        assert(q >= pow2(52) && q < pow2(53));
        assert(ee <= 64);
    }
    let sign: u64 = if i < 0 {
        0x8000_0000_0000_0000u64
    } else {
        0
    };
    sign + (ee + 1023) * 0x10_0000_0000_0000u64 + (q - 0x10_0000_0000_0000u64)
}

} // verus!
