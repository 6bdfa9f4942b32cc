//! Conditions that decide whether a workflow runs: comparisons of device
//! properties and variables with expected values, time windows, and the
//! combinators that join conditions.
use vstd::prelude::*;

use crate::mechaflow_core::error::owned;
use crate::mechaflow_core::types::{
    float_eq, integer_float_bits, integer_to_float_bits, model_eq, now, Id, Timestamp, Value,
    ValueModel,
};
use crate::mechaflow_devices::device::float_lt;
use crate::text::{
    chars_of, contains, contains_text, digit, digit_char, ends_with, occurs_at, starts_with,
};

verus! {

/// Comparison operators for conditions
#[derive(Debug, Clone, Copy, PartialEq, Eq, Structural)]
pub enum ComparisonOperator {
    /// Equal to
    Eq,
    /// Not equal to
    Ne,
    /// Greater than
    Gt,
    /// Greater than or equal to
    Ge,
    /// Less than
    Lt,
    /// Less than or equal to
    Le,
    /// Contains (for strings, arrays)
    Contains,
    /// Starts with (for strings)
    StartsWith,
    /// Ends with (for strings)
    EndsWith,
    /// Matches regex (for strings)
    Matches,
}

#[verifier::external_type_specification]
#[verifier::external_body]
pub struct ExRegex(regex::Regex);

/// Whether `regex::Regex::new` accepts a pattern.
pub uninterp spec fn regex_valid(pattern: Seq<char>) -> bool;

/// Whether the regex compiled from `pattern` matches somewhere in `text`.
pub uninterp spec fn regex_matches(pattern: Seq<char>, text: Seq<char>) -> bool;

/// A compiled regular expression together with its pattern.
pub struct CompiledPattern {
    pattern: String,
    re: regex::Regex,
}

impl CompiledPattern {
    /// The pattern the expression was compiled from.
    pub closed spec fn pattern_spec(self) -> Seq<char> {
        self.pattern@
    }
}

/// Compiles a pattern with `regex::Regex::new`; `None` where the crate
/// rejects it. Which patterns it accepts is named, not stated.
#[verifier::external_body]
fn compile_pattern(pattern: &str) -> (r: Option<CompiledPattern>)
    ensures
        r is Some <==> regex_valid(pattern@),
        r matches Some(c) ==> c.pattern_spec() == pattern@,
{
    match regex::Regex::new(pattern) {
        Ok(re) => Some(CompiledPattern { pattern: pattern.to_string(), re }),
        Err(_) => None,
    }
}

/// Runs `regex::Regex::is_match` of a compiled pattern on a text; what it
/// matches is named, not stated.
#[verifier::external_body]
fn pattern_is_match(c: &CompiledPattern, text: &str) -> (r: bool)
    ensures
        r == regex_matches(c.pattern_spec(), text@),
{
    c.re.is_match(text)
}

/// Whether `text` matches the regular expression `pattern`; an invalid
/// pattern matches nothing.
pub fn regex_match(pattern: &str, text: &str) -> (r: bool)
    ensures
        r == (regex_valid(pattern@) && regex_matches(pattern@, text@)),
{
    match compile_pattern(pattern) {
        Some(c) => pattern_is_match(&c, text),
        None => false,
    }
}

/// IEEE-754 order of two binary64 numbers given by their bits.
pub open spec fn float_ordered(x: u64, y: u64, op: ComparisonOperator) -> bool {
    match op {
        ComparisonOperator::Gt => float_lt(y, x),
        ComparisonOperator::Ge => float_lt(y, x) || float_eq(x, y),
        ComparisonOperator::Lt => float_lt(x, y),
        ComparisonOperator::Le => float_lt(x, y) || float_eq(x, y),
        _ => false,
    }
}

/// Numeric order of two numbers. Two integers compare exactly; where a
/// float is involved both are taken as floats, an integer becoming the
/// float nearest to it, and compared as IEEE-754 does. Other values are
/// not ordered.
pub open spec fn ordered(a: ValueModel, b: ValueModel, op: ComparisonOperator) -> bool {
    match (a, b) {
        (ValueModel::Integer(x), ValueModel::Integer(y)) => match op {
            ComparisonOperator::Gt => x > y,
            ComparisonOperator::Ge => x >= y,
            ComparisonOperator::Lt => x < y,
            ComparisonOperator::Le => x <= y,
            _ => false,
        },
        (ValueModel::Float(x), ValueModel::Float(y)) => float_ordered(x, y, op),
        (ValueModel::Integer(x), ValueModel::Float(y)) => float_ordered(integer_float_bits(x), y, op),
        (ValueModel::Float(x), ValueModel::Integer(y)) => float_ordered(x, integer_float_bits(y), op),
        _ => false,
    }
}

/// Exec IEEE-754 order of two binary64 numbers given by their bits.
fn float_compare(x: u64, y: u64, op: ComparisonOperator) -> (r: bool)
    ensures
        r == float_ordered(x, y, op),
{
    match op {
        ComparisonOperator::Gt => crate::mechaflow_devices::device::float_bits_lt(y, x),
        ComparisonOperator::Ge => crate::mechaflow_devices::device::float_bits_lt(y, x)
            || crate::mechaflow_core::types::float_bits_eq(x, y),
        ComparisonOperator::Lt => crate::mechaflow_devices::device::float_bits_lt(x, y),
        ComparisonOperator::Le => crate::mechaflow_devices::device::float_bits_lt(x, y)
            || crate::mechaflow_core::types::float_bits_eq(x, y),
        _ => false,
    }
}

/// Whether `current` stands in relation `op` to `expected`.
pub open spec fn comparison_holds(current: ValueModel, op: ComparisonOperator, expected: ValueModel) -> bool {
    match op {
        ComparisonOperator::Eq => model_eq(current, expected),
        ComparisonOperator::Ne => !model_eq(current, expected),
        ComparisonOperator::Gt | ComparisonOperator::Ge | ComparisonOperator::Lt
        | ComparisonOperator::Le => ordered(current, expected, op),
        ComparisonOperator::Contains => match current {
            ValueModel::String(s) => match expected {
                ValueModel::String(v) => contains_text(s, v),
                _ => false,
            },
            ValueModel::Array(arr) => exists|i: int|
                0 <= i < arr.len() && model_eq(#[trigger] arr[i], expected),
            _ => false,
        },
        ComparisonOperator::StartsWith => match (current, expected) {
            (ValueModel::String(s), ValueModel::String(v)) => v.is_prefix_of(s),
            _ => false,
        },
        ComparisonOperator::EndsWith => match (current, expected) {
            (ValueModel::String(s), ValueModel::String(v)) => v.is_suffix_of(s),
            _ => false,
        },
        ComparisonOperator::Matches => match (current, expected) {
            (ValueModel::String(s), ValueModel::String(p)) => regex_valid(p) && regex_matches(p, s),
            _ => false,
        },
    }
}

/// `EndsWith` on texts holds exactly when the current text is some text
/// followed by the expected one.
pub proof fn lemma_ends_with_meaning(s: Seq<char>, v: Seq<char>)
    ensures
        comparison_holds(ValueModel::String(s), ComparisonOperator::EndsWith, ValueModel::String(v))
            <==> exists|t: Seq<char>| #[trigger] (t + v) == s,
{
    assert(comparison_holds(
        ValueModel::String(s),
        ComparisonOperator::EndsWith,
        ValueModel::String(v),
    ) == v.is_suffix_of(s));
    if v.is_suffix_of(s) {
        let t = s.subrange(0, s.len() - v.len());
        assert(t + v =~= s);
    }
    if exists|t: Seq<char>| #[trigger] (t + v) == s {
        let t = choose|t: Seq<char>| #[trigger] (t + v) == s;
        assert(s.subrange(s.len() - v.len(), s.len() as int) =~= v);
    }
}

/// `StartsWith` on texts holds exactly when the current text is the
/// expected one followed by some text.
pub proof fn lemma_starts_with_meaning(s: Seq<char>, v: Seq<char>)
    ensures
        comparison_holds(ValueModel::String(s), ComparisonOperator::StartsWith, ValueModel::String(v))
            <==> exists|t: Seq<char>| #[trigger] (v + t) == s,
{
    assert(comparison_holds(
        ValueModel::String(s),
        ComparisonOperator::StartsWith,
        ValueModel::String(v),
    ) == v.is_prefix_of(s));
    if v.is_prefix_of(s) {
        let t = s.subrange(v.len() as int, s.len() as int);
        assert(v + t =~= s);
    }
    if exists|t: Seq<char>| #[trigger] (v + t) == s {
        let t = choose|t: Seq<char>| #[trigger] (v + t) == s;
        assert(s.subrange(0, v.len() as int) =~= v);
    }
}

/// `Contains` on texts holds exactly when the expected text stands
/// somewhere inside the current one.
pub proof fn lemma_contains_meaning(s: Seq<char>, v: Seq<char>)
    ensures
        comparison_holds(ValueModel::String(s), ComparisonOperator::Contains, ValueModel::String(v))
            <==> exists|p: Seq<char>, q: Seq<char>| #[trigger] (p + v + q) == s,
{
    assert(comparison_holds(
        ValueModel::String(s),
        ComparisonOperator::Contains,
        ValueModel::String(v),
    ) == contains_text(s, v));
    if contains_text(s, v) {
        let i = choose|i: int| occurs_at(s, v, i);
        let p = s.subrange(0, i);
        let q = s.subrange(i + v.len(), s.len() as int);
        assert(p + v + q =~= s);
    }
    if exists|p: Seq<char>, q: Seq<char>| #[trigger] (p + v + q) == s {
        let (p, q) = choose|p: Seq<char>, q: Seq<char>| #[trigger] (p + v + q) == s;
        assert(s.subrange(p.len() as int, (p.len() + v.len()) as int) =~= v);
        assert(occurs_at(s, v, p.len() as int));
    }
}

/// How the comparisons relate: `Ne` is the negation of `Eq`, `Gt` and `Ge`
/// are `Lt` and `Le` with the operands swapped, and on two integers the
/// orders are the integers' own.
pub proof fn lemma_order_comparisons(a: ValueModel, b: ValueModel, x: i64, y: i64)
    ensures
        comparison_holds(a, ComparisonOperator::Ne, b) == !comparison_holds(a, ComparisonOperator::Eq, b),
        comparison_holds(a, ComparisonOperator::Gt, b) == comparison_holds(b, ComparisonOperator::Lt, a),
        comparison_holds(a, ComparisonOperator::Ge, b) == comparison_holds(b, ComparisonOperator::Le, a),
        comparison_holds(ValueModel::Integer(x), ComparisonOperator::Gt, ValueModel::Integer(y)) == (x > y),
        comparison_holds(ValueModel::Integer(x), ComparisonOperator::Ge, ValueModel::Integer(y)) == (x >= y),
        comparison_holds(ValueModel::Integer(x), ComparisonOperator::Lt, ValueModel::Integer(y)) == (x < y),
        comparison_holds(ValueModel::Integer(x), ComparisonOperator::Le, ValueModel::Integer(y)) == (x <= y),
{
}

/// On floats the orders are IEEE-754's: `Lt` holds exactly when the current
/// number is below the expected one, `Le` when it is below or equal (so
/// nothing is ordered with a NaN); an integer compared with a float is
/// first made the float nearest to it.
pub proof fn lemma_float_comparisons(x: u64, y: u64, i: i64)
    ensures
        comparison_holds(ValueModel::Float(x), ComparisonOperator::Lt, ValueModel::Float(y)) == float_lt(x, y),
        comparison_holds(ValueModel::Float(x), ComparisonOperator::Le, ValueModel::Float(y)) == (
        float_lt(x, y) || float_eq(x, y)),
        comparison_holds(ValueModel::Integer(i), ComparisonOperator::Lt, ValueModel::Float(y))
            == float_lt(integer_float_bits(i), y),
        comparison_holds(ValueModel::Float(x), ComparisonOperator::Lt, ValueModel::Integer(i))
            == float_lt(x, integer_float_bits(i)),
        comparison_holds(ValueModel::Integer(i), ComparisonOperator::Le, ValueModel::Float(y)) == (
        float_lt(integer_float_bits(i), y) || float_eq(integer_float_bits(i), y)),
        comparison_holds(ValueModel::Float(x), ComparisonOperator::Le, ValueModel::Integer(i)) == (
        float_lt(x, integer_float_bits(i)) || float_eq(x, integer_float_bits(i))),
{
}

/// Whether some element of `arr` equals `v`.
fn array_contains(arr: &[Value], v: &Value) -> (r: bool)
    ensures
        r == exists|i: int| 0 <= i < arr@.len() && model_eq(#[trigger] arr@[i]@, v@),
{
    let mut i: usize = 0;
    while i < arr.len()
        invariant
            i <= arr@.len(),
            forall|j: int| 0 <= j < i ==> !model_eq(#[trigger] arr@[j]@, v@),
        decreases arr@.len() - i,
    {
        if arr[i].equals(v) {
            return true;
        }
        i = i + 1;
    }
    false
}

/// Evaluate `current op expected`.
pub fn compare_values(current: &Value, op: ComparisonOperator, expected: &Value) -> (r: bool)
    ensures
        r == comparison_holds(current@, op, expected@),
{
    proof {
        crate::mechaflow_core::types::lemma_model_kinds(*current);
        crate::mechaflow_core::types::lemma_model_kinds(*expected);
    }
    match op {
        ComparisonOperator::Eq => current.equals(expected),
        ComparisonOperator::Ne => !current.equals(expected),
        ComparisonOperator::Gt | ComparisonOperator::Ge | ComparisonOperator::Lt
        | ComparisonOperator::Le => match (current, expected) {
            (Value::Integer(x), Value::Integer(y)) => match op {
                ComparisonOperator::Gt => *x > *y,
                ComparisonOperator::Ge => *x >= *y,
                ComparisonOperator::Lt => *x < *y,
                _ => *x <= *y,
            },
            (Value::Float(x), Value::Float(y)) => float_compare(*x, *y, op),
            (Value::Integer(x), Value::Float(y)) => float_compare(integer_to_float_bits(*x), *y, op),
            (Value::Float(x), Value::Integer(y)) => float_compare(*x, integer_to_float_bits(*y), op),
            _ => false,
        },
        ComparisonOperator::Contains => match current {
            Value::String(s) => match expected {
                Value::String(v) => contains(s.as_str(), v.as_str()),
                _ => false,
            },
            Value::Array(arr) => {
                proof {
                    crate::mechaflow_core::types::lemma_model_array(*arr);
                }
                let r = array_contains(arr.as_slice(), expected);
                proof {
                    let m = current@->Array_0;
                    if r {
                        let i = choose|i: int| 0 <= i < arr@.len() && model_eq(#[trigger] arr@[i]@, expected@);
                        assert(m[i] == arr@[i]@);
                    }
                    if exists|i: int| 0 <= i < m.len() && model_eq(#[trigger] m[i], expected@) {
                        let i = choose|i: int| 0 <= i < m.len() && model_eq(#[trigger] m[i], expected@);
                        assert(m[i] == arr@[i]@);
                    }
                }
                r
            },
            _ => false,
        },
        ComparisonOperator::StartsWith => match (current, expected) {
            (Value::String(s), Value::String(v)) => starts_with(s.as_str(), v.as_str()),
            _ => false,
        },
        ComparisonOperator::EndsWith => match (current, expected) {
            (Value::String(s), Value::String(v)) => ends_with(s.as_str(), v.as_str()),
            _ => false,
        },
        ComparisonOperator::Matches => match (current, expected) {
            (Value::String(s), Value::String(p)) => regex_match(p.as_str(), s.as_str()),
            _ => false,
        },
    }
}


/// The text of an optional string.
pub open spec fn opt_text(s: Option<String>) -> Option<Seq<char>> {
    match s {
        Some(t) => Some(t@),
        None => None,
    }
}

/// A device condition that checks device properties
#[derive(Debug)]
pub struct DeviceCondition {
    id: String,
    description: Option<String>,
    device_id: Id,
    property: String,
    operator: ComparisonOperator,
    value: Value,
}

impl DeviceCondition {
    /// The condition's identifier.
    pub closed spec fn id_spec(self) -> Seq<char> {
        self.id@
    }

    /// The condition's description.
    pub closed spec fn description_spec(self) -> Option<Seq<char>> {
        opt_text(self.description)
    }

    /// The device read.
    pub closed spec fn device_spec(self) -> Seq<char> {
        self.device_id@
    }

    /// The property read.
    pub closed spec fn property_spec(self) -> Seq<char> {
        self.property@
    }

    /// The comparison applied.
    pub closed spec fn operator_spec(self) -> ComparisonOperator {
        self.operator
    }

    /// The value compared against.
    pub closed spec fn value_spec(self) -> ValueModel {
        self.value@
    }

    /// Create a new device condition
    pub fn new(
        id: &str,
        device_id: Id,
        property: &str,
        operator: ComparisonOperator,
        value: Value,
    ) -> (c: Self)
        ensures
            c.id_spec() == id@,
            c.description_spec() is None,
            c.device_spec() == device_id@,
            c.property_spec() == property@,
            c.operator_spec() == operator,
            c.value_spec() == value@,
    {
        DeviceCondition {
            id: owned(id),
            description: None,
            device_id,
            property: owned(property),
            operator,
            value,
        }
    }

    /// Set the condition description
    pub fn with_description(self, description: &str) -> (c: Self)
        ensures
            c.description_spec() == Some(description@),
            c.description_spec() == Some(description@),
            c.id_spec() == self.id_spec(),
            c.device_spec() == self.device_spec(),
            c.property_spec() == self.property_spec(),
            c.operator_spec() == self.operator_spec(),
            c.value_spec() == self.value_spec(),
    {
        let mut c = self;
        c.description = Some(owned(description));
        c
    }

    /// The condition type
    pub fn condition_type(&self) -> (r: &'static str)
        ensures
            r@ == "device"@,
    {
        "device"
    }

    /// The device whose property is read
    pub fn device_id(&self) -> (r: &Id)
        ensures
            r@ == self.device_spec(),
    {
        &self.device_id
    }

    /// The property that is read
    pub fn property(&self) -> (r: &str)
        ensures
            r@ == self.property_spec(),
    {
        self.property.as_str()
    }

    /// Whether the property's current value satisfies the condition
    pub fn evaluate_value(&self, current: &Value) -> (r: bool)
        ensures
            r == comparison_holds(current@, self.operator_spec(), self.value_spec()),
    {
        compare_values(current, self.operator, &self.value)
    }

    /// Get the condition ID
    pub fn id(&self) -> (r: &str)
        ensures
            r@ == self.id_spec(),
    {
        self.id.as_str()
    }

    /// Get the condition description
    pub fn description(&self) -> (r: Option<&str>)
        ensures
            match r {
                Some(d) => self.description_spec() == Some(d@),
                None => self.description_spec() is None,
            },
    {
        match &self.description {
            Some(d) => Some(d.as_str()),
            None => None,
        }
    }
}

/// A variable condition that checks workflow variables
#[derive(Debug)]
pub struct VariableCondition {
    id: String,
    description: Option<String>,
    variable: String,
    operator: ComparisonOperator,
    value: Value,
}

impl VariableCondition {
    /// The condition's identifier.
    pub closed spec fn id_spec(self) -> Seq<char> {
        self.id@
    }

    /// The condition's description.
    pub closed spec fn description_spec(self) -> Option<Seq<char>> {
        opt_text(self.description)
    }

    /// The variable read.
    pub closed spec fn variable_spec(self) -> Seq<char> {
        self.variable@
    }

    /// The comparison applied.
    pub closed spec fn operator_spec(self) -> ComparisonOperator {
        self.operator
    }

    /// The value compared against.
    pub closed spec fn value_spec(self) -> ValueModel {
        self.value@
    }

    /// Create a new variable condition
    pub fn new(id: &str, variable: &str, operator: ComparisonOperator, value: Value) -> (c: Self)
        ensures
            c.id_spec() == id@,
            c.description_spec() is None,
            c.variable_spec() == variable@,
            c.operator_spec() == operator,
            c.value_spec() == value@,
    {
        VariableCondition {
            id: owned(id),
            description: None,
            variable: owned(variable),
            operator,
            value,
        }
    }

    /// Set the condition description
    pub fn with_description(self, description: &str) -> (c: Self)
        ensures
            c.description_spec() == Some(description@),
            c.description_spec() == Some(description@),
            c.id_spec() == self.id_spec(),
            c.variable_spec() == self.variable_spec(),
            c.operator_spec() == self.operator_spec(),
            c.value_spec() == self.value_spec(),
    {
        let mut c = self;
        c.description = Some(owned(description));
        c
    }

    /// The condition type
    pub fn condition_type(&self) -> (r: &'static str)
        ensures
            r@ == "variable"@,
    {
        "variable"
    }

    /// The variable that is read
    pub fn variable(&self) -> (r: &str)
        ensures
            r@ == self.variable_spec(),
    {
        self.variable.as_str()
    }

    /// Whether the variable's current value satisfies the condition
    pub fn evaluate_value(&self, current: &Value) -> (r: bool)
        ensures
            r == comparison_holds(current@, self.operator_spec(), self.value_spec()),
    {
        compare_values(current, self.operator, &self.value)
    }

    /// Get the condition ID
    pub fn id(&self) -> (r: &str)
        ensures
            r@ == self.id_spec(),
    {
        self.id.as_str()
    }

    /// Get the condition description
    pub fn description(&self) -> (r: Option<&str>)
        ensures
            match r {
                Some(d) => self.description_spec() == Some(d@),
                None => self.description_spec() is None,
            },
    {
        match &self.description {
            Some(d) => Some(d.as_str()),
            None => None,
        }
    }
}


/// Day of the week
#[derive(Debug, Clone, Copy, PartialEq, Eq, Structural)]
pub enum Weekday {
    /// Monday
    Mon,
    /// Tuesday
    Tue,
    /// Wednesday
    Wed,
    /// Thursday
    Thu,
    /// Friday
    Fri,
    /// Saturday
    Sat,
    /// Sunday
    Sun,
}

/// The weekday `n` days after a Monday (`n` below 7).
pub open spec fn weekday_from_monday(n: int) -> Weekday {
    if n == 0 {
        Weekday::Mon
    } else if n == 1 {
        Weekday::Tue
    } else if n == 2 {
        Weekday::Wed
    } else if n == 3 {
        Weekday::Thu
    } else if n == 4 {
        Weekday::Fri
    } else if n == 5 {
        Weekday::Sat
    } else {
        Weekday::Sun
    }
}

/// The UTC hour of a Unix time in seconds.
pub open spec fn utc_hour(secs: int) -> int {
    (secs % 86400) / 3600
}

/// The UTC minute of a Unix time in seconds.
pub open spec fn utc_minute(secs: int) -> int {
    (secs % 3600) / 60
}

/// The UTC weekday of a Unix time in seconds (1970-01-01 was a Thursday).
pub open spec fn utc_weekday(secs: int) -> Weekday {
    weekday_from_monday((secs / 86400 + 3) % 7)
}

/// The clock text "HH:MM" of an hour and a minute.
pub open spec fn clock_text(hour: int, minute: int) -> Seq<char> {
    seq![digit_char(hour / 10), digit_char(hour % 10), ':', digit_char(minute / 10), digit_char(minute % 10)]
}

/// Lexicographic `<` on texts, character by character.
pub open spec fn text_lt(a: Seq<char>, b: Seq<char>) -> bool {
    exists|k: int|
        0 <= k <= a.len() && k <= b.len() && a.take(k) == b.take(k) && ((k == a.len() && k
            < b.len()) || (k < a.len() && k < b.len() && (a[k] as u32) < (b[k] as u32)))
}

/// Lexicographic `<` on character vectors.
fn chars_lt(a: &Vec<char>, b: &Vec<char>) -> (r: bool)
    ensures
        r == text_lt(a@, b@),
{
    let mut i: usize = 0;
    while i < a.len() && i < b.len()
        invariant
            i <= a@.len(),
            i <= b@.len(),
            a@.take(i as int) == b@.take(i as int),
        decreases a@.len() - i,
    {
        if a[i] != b[i] {
            let r = (a[i] as u32) < (b[i] as u32);
            proof {
                if !r {
                    assert forall|k: int|
                        0 <= k <= a@.len() && k <= b@.len() && a@.take(k) == b@.take(k) implies !((
                        k == a@.len() && k < b@.len()) || (k < a@.len() && k < b@.len() && (
                    a@[k] as u32) < (b@[k] as u32))) by {
                        if k > i {
                            assert(a@.take(k)[i as int] == b@.take(k)[i as int]);
                        } else if k < i {
                            assert(a@.take(i as int)[k] == b@.take(i as int)[k]);
                        }
                    }
                }
            }
            return r;
        }
        proof {
            assert(a@.take(i + 1) =~= a@.take(i as int).push(a@[i as int]));
            assert(b@.take(i + 1) =~= b@.take(i as int).push(b@[i as int]));
        }
        i = i + 1;
    }
    let r = i == a.len() && i < b.len();
    proof {
        if !r {
            assert forall|k: int|
                0 <= k <= a@.len() && k <= b@.len() && a@.take(k) == b@.take(k) implies !((k
                == a@.len() && k < b@.len()) || (k < a@.len() && k < b@.len() && (a@[k] as u32)
                < (b@[k] as u32))) by {
                if k < i {
                    assert(a@.take(i as int)[k] == b@.take(i as int)[k]);
                }
            }
        }
    }
    r
}

/// A multiple of a week that is larger than any `i64`.
const WEEKS_OFFSET: i128 = 9_223_372_036_855_065_600;

/// The UTC clock text "HH:MM" and the weekday of a time.
pub fn clock_of(t: Timestamp) -> (r: (Vec<char>, Weekday))
    ensures
        r.0@ == clock_text(utc_hour(t.secs as int), utc_minute(t.secs as int)),
        r.1 == utc_weekday(t.secs as int),
{
    let shifted: i128 = t.secs as i128 + WEEKS_OFFSET;
    assert(shifted >= 0);
    let u: u128 = shifted as u128;
    let day_secs: u128 = u % 86400;
    let hour: u128 = day_secs / 3600;
    let minute: u128 = (u % 3600) / 60;
    let days: u128 = u / 86400;
    let wd: u128 = (days + 3) % 7;
    proof {
        let s = t.secs as int;
        assert(WEEKS_OFFSET as int == 604800 * 15250284452472);
        assert(u as int == s + 604800 * 15250284452472);
        assert((s + 604800 * 15250284452472) % 86400 == s % 86400) by (nonlinear_arith);
        assert((s + 604800 * 15250284452472) % 3600 == s % 3600) by (nonlinear_arith);
        assert((s + 604800 * 15250284452472) / 86400 == s / 86400 + 7 * 15250284452472)
            by (nonlinear_arith);
        assert((s / 86400 + 7 * 15250284452472 + 3) % 7 == (s / 86400 + 3) % 7)
            by (nonlinear_arith);
    }
    let h = hour as u64;
    let m = minute as u64;
    let mut text: Vec<char> = Vec::new();
    text.push(digit(h / 10));
    text.push(digit(h % 10));
    text.push(':');
    text.push(digit(m / 10));
    text.push(digit(m % 10));
    let day = if wd == 0 {
        Weekday::Mon
    } else if wd == 1 {
        Weekday::Tue
    } else if wd == 2 {
        Weekday::Wed
    } else if wd == 3 {
        Weekday::Thu
    } else if wd == 4 {
        Weekday::Fri
    } else if wd == 5 {
        Weekday::Sat
    } else {
        Weekday::Sun
    };
    assert(text@ =~= clock_text(utc_hour(t.secs as int), utc_minute(t.secs as int)));
    (text, day)
}

/// Whether a time window with these settings admits the clock text `now`
/// on day `day`.
pub open spec fn time_window_holds(
    after: Option<Seq<char>>,
    before: Option<Seq<char>>,
    days: Option<Seq<Weekday>>,
    now: Seq<char>,
    day: Weekday,
) -> bool {
    &&& (after matches Some(a) ==> !text_lt(now, a))
    &&& (before matches Some(b) ==> !text_lt(b, now))
    &&& (days matches Some(ds) ==> ds.contains(day))
}

/// A time condition that checks if the current time meets certain criteria
#[derive(Debug)]
pub struct TimeCondition {
    id: String,
    description: Option<String>,
    after: Option<String>,
    before: Option<String>,
    days_of_week: Option<Vec<Weekday>>,
}

impl TimeCondition {
    /// The condition's identifier.
    pub closed spec fn id_spec(self) -> Seq<char> {
        self.id@
    }

    /// The condition's description.
    pub closed spec fn description_spec(self) -> Option<Seq<char>> {
        opt_text(self.description)
    }

    /// The earliest clock time admitted ("HH:MM"), if any.
    pub closed spec fn after_spec(self) -> Option<Seq<char>> {
        opt_text(self.after)
    }

    /// The latest clock time admitted ("HH:MM"), if any.
    pub closed spec fn before_spec(self) -> Option<Seq<char>> {
        opt_text(self.before)
    }

    /// The days admitted, if restricted.
    pub closed spec fn days_spec(self) -> Option<Seq<Weekday>> {
        match self.days_of_week {
            Some(d) => Some(d@),
            None => None,
        }
    }

    /// Create a new time condition
    pub fn new(id: &str) -> (c: Self)
        ensures
            c.id_spec() == id@,
            c.description_spec() is None,
            c.after_spec() is None,
            c.before_spec() is None,
            c.days_spec() is None,
    {
        TimeCondition {
            id: owned(id),
            description: None,
            after: None,
            before: None,
            days_of_week: None,
        }
    }

    /// Set the condition description
    pub fn with_description(self, description: &str) -> (c: Self)
        ensures
            c.description_spec() == Some(description@),
            c.description_spec() == Some(description@),
            c.id_spec() == self.id_spec(),
            c.after_spec() == self.after_spec(),
            c.before_spec() == self.before_spec(),
            c.days_spec() == self.days_spec(),
    {
        let mut c = self;
        c.description = Some(owned(description));
        c
    }

    /// Set the after time (format: "HH:MM")
    pub fn after(self, time: &str) -> (c: Self)
        ensures
            c.after_spec() == Some(time@),
            c.id_spec() == self.id_spec(),
            c.description_spec() == self.description_spec(),
            c.before_spec() == self.before_spec(),
            c.days_spec() == self.days_spec(),
    {
        let mut c = self;
        c.after = Some(owned(time));
        c
    }

    /// Set the before time (format: "HH:MM")
    pub fn before(self, time: &str) -> (c: Self)
        ensures
            c.before_spec() == Some(time@),
            c.id_spec() == self.id_spec(),
            c.description_spec() == self.description_spec(),
            c.after_spec() == self.after_spec(),
            c.days_spec() == self.days_spec(),
    {
        let mut c = self;
        c.before = Some(owned(time));
        c
    }

    /// Set the days of week
    pub fn on_days(self, days: Vec<Weekday>) -> (c: Self)
        ensures
            c.days_spec() == Some(days@),
            c.id_spec() == self.id_spec(),
            c.description_spec() == self.description_spec(),
            c.after_spec() == self.after_spec(),
            c.before_spec() == self.before_spec(),
    {
        let mut c = self;
        c.days_of_week = Some(days);
        c
    }

    /// The condition type
    pub fn condition_type(&self) -> (r: &'static str)
        ensures
            r@ == "time"@,
    {
        "time"
    }

    /// Whether the condition holds at time `t`.
    pub open spec fn holds_at(self, t: Timestamp) -> bool {
        time_window_holds(
            self.after_spec(),
            self.before_spec(),
            self.days_spec(),
            clock_text(utc_hour(t.secs as int), utc_minute(t.secs as int)),
            utc_weekday(t.secs as int),
        )
    }

    /// Whether the condition holds at time `t` (UTC).
    #[verifier::loop_isolation(false)]
    pub fn evaluate_at(&self, t: Timestamp) -> (r: bool)
        ensures
            r == self.holds_at(t),
    {
        let (now_text, day) = clock_of(t);
        match &self.after {
            Some(a) => {
                if chars_lt(&now_text, &chars_of(a.as_str())) {
                    return false;
                }
            },
            None => {},
        }
        match &self.before {
            Some(b) => {
                if chars_lt(&chars_of(b.as_str()), &now_text) {
                    return false;
                }
            },
            None => {},
        }
        match &self.days_of_week {
            Some(days) => {
                let mut i: usize = 0;
                while i < days.len()
                    invariant
                        i <= days@.len(),
                        forall|j: int| 0 <= j < i ==> days@[j] != day,
                    decreases days@.len() - i,
                {
                    if days[i] == day {
                        proof {
                            assert(days@[i as int] == day);
                            assert(days@.contains(day));
                        }
                        return true;
                    }
                    i = i + 1;
                }
                false
            },
            None => true,
        }
    }

    /// Whether the condition holds now; the answer depends on the clock.
    pub fn evaluate(&self) -> (r: Result<bool, crate::mechaflow_engine::error::Error>)
        ensures
            r matches Ok(b) && exists|t: Timestamp| b == self.holds_at(t),
    {
        let t = now();
        let b = self.evaluate_at(t);
        assert(b == self.holds_at(t));
        Ok(b)
    }

    /// Get the condition ID
    pub fn id(&self) -> (r: &str)
        ensures
            r@ == self.id_spec(),
    {
        self.id.as_str()
    }

    /// Get the condition description
    pub fn description(&self) -> (r: Option<&str>)
        ensures
            match r {
                Some(d) => self.description_spec() == Some(d@),
                None => self.description_spec() is None,
            },
    {
        match &self.description {
            Some(d) => Some(d.as_str()),
            None => None,
        }
    }
}


/// What to do next while evaluating a combined condition.
#[derive(Debug, PartialEq, Eq, Structural)]
pub enum JunctionStep {
    /// Evaluate the member at this position and report its outcome
    Evaluate(usize),
    /// The combined condition has this outcome
    Done(bool),
}

/// The next step of an AND over `n` members given the outcomes so far: the
/// first false outcome decides; all true (or no members) is true.
pub open spec fn and_step(n: nat, outcomes: Seq<bool>) -> JunctionStep {
    if outcomes.len() > 0 && !outcomes.last() {
        JunctionStep::Done(false)
    } else if outcomes.len() >= n {
        JunctionStep::Done(true)
    } else {
        JunctionStep::Evaluate(outcomes.len() as usize)
    }
}

/// The next step of an OR over `n` members given the outcomes so far: no
/// members is true; the first true outcome decides; all false is false.
pub open spec fn or_step(n: nat, outcomes: Seq<bool>) -> JunctionStep {
    if n == 0 {
        JunctionStep::Done(true)
    } else if outcomes.len() > 0 && outcomes.last() {
        JunctionStep::Done(true)
    } else if outcomes.len() >= n {
        JunctionStep::Done(false)
    } else {
        JunctionStep::Evaluate(outcomes.len() as usize)
    }
}

/// A composite condition that requires all of its conditions; `C` is the
/// handle of a member condition.
#[derive(Debug)]
pub struct AndCondition<C> {
    id: String,
    description: Option<String>,
    conditions: Vec<C>,
}

impl<C> AndCondition<C> {
    /// The condition's identifier.
    pub closed spec fn id_spec(self) -> Seq<char> {
        self.id@
    }

    /// The members in order.
    pub closed spec fn conditions_spec(self) -> Seq<C> {
        self.conditions@
    }

    /// Create a new AND condition
    pub fn new(id: &str) -> (c: Self)
        ensures
            c.id_spec() == id@,
            c.conditions_spec().len() == 0,
    {
        AndCondition { id: owned(id), description: None, conditions: Vec::new() }
    }

    /// Set the condition description
    pub fn with_description(self, description: &str) -> (c: Self)
        ensures
            c.description_spec() == Some(description@),
            c.id_spec() == self.id_spec(),
            c.conditions_spec() == self.conditions_spec(),
    {
        let mut c = self;
        c.description = Some(owned(description));
        c
    }

    /// Add a condition
    pub fn add_condition(self, condition: C) -> (c: Self)
        ensures
            c.id_spec() == self.id_spec(),
            c.conditions_spec() == self.conditions_spec().push(condition),
    {
        let mut c = self;
        c.conditions.push(condition);
        c
    }

    /// The members in order
    pub fn conditions(&self) -> (r: &[C])
        ensures
            r@ == self.conditions_spec(),
    {
        self.conditions.as_slice()
    }

    /// The condition type
    pub fn condition_type(&self) -> (r: &'static str)
        ensures
            r@ == "and"@,
    {
        "and"
    }

    /// The next step given the outcomes of the members evaluated so far.
    pub fn step(&self, outcomes: &[bool]) -> (r: JunctionStep)
        ensures
            r == and_step(self.conditions_spec().len(), outcomes@),
    {
        let k = outcomes.len();
        if k > 0 && !outcomes[k - 1] {
            JunctionStep::Done(false)
        } else if k >= self.conditions.len() {
            JunctionStep::Done(true)
        } else {
            JunctionStep::Evaluate(k)
        }
    }

    /// Get the condition ID
    pub fn id(&self) -> (r: &str)
        ensures
            r@ == self.id_spec(),
    {
        self.id.as_str()
    }

    /// The description, if one was given.
    pub closed spec fn description_spec(self) -> Option<Seq<char>> {
        match self.description {
            Some(d) => Some(d@),
            None => None,
        }
    }

    /// Get the condition description
    pub fn description(&self) -> (r: Option<&str>)
        ensures
            match r {
                Some(d) => self.description_spec() == Some(d@),
                None => self.description_spec() is None,
            },
    {
        match &self.description {
            Some(d) => Some(d.as_str()),
            None => None,
        }
    }
}

/// A composite condition that requires any of its conditions; with no
/// members it holds.
#[derive(Debug)]
pub struct OrCondition<C> {
    id: String,
    description: Option<String>,
    conditions: Vec<C>,
}

impl<C> OrCondition<C> {
    /// The condition's identifier.
    pub closed spec fn id_spec(self) -> Seq<char> {
        self.id@
    }

    /// The members in order.
    pub closed spec fn conditions_spec(self) -> Seq<C> {
        self.conditions@
    }

    /// Create a new OR condition
    pub fn new(id: &str) -> (c: Self)
        ensures
            c.id_spec() == id@,
            c.conditions_spec().len() == 0,
    {
        OrCondition { id: owned(id), description: None, conditions: Vec::new() }
    }

    /// Set the condition description
    pub fn with_description(self, description: &str) -> (c: Self)
        ensures
            c.description_spec() == Some(description@),
            c.id_spec() == self.id_spec(),
            c.conditions_spec() == self.conditions_spec(),
    {
        let mut c = self;
        c.description = Some(owned(description));
        c
    }

    /// Add a condition
    pub fn add_condition(self, condition: C) -> (c: Self)
        ensures
            c.id_spec() == self.id_spec(),
            c.conditions_spec() == self.conditions_spec().push(condition),
    {
        let mut c = self;
        c.conditions.push(condition);
        c
    }

    /// The members in order
    pub fn conditions(&self) -> (r: &[C])
        ensures
            r@ == self.conditions_spec(),
    {
        self.conditions.as_slice()
    }

    /// The condition type
    pub fn condition_type(&self) -> (r: &'static str)
        ensures
            r@ == "or"@,
    {
        "or"
    }

    /// The next step given the outcomes of the members evaluated so far.
    pub fn step(&self, outcomes: &[bool]) -> (r: JunctionStep)
        ensures
            r == or_step(self.conditions_spec().len(), outcomes@),
    {
        let k = outcomes.len();
        if self.conditions.len() == 0 {
            JunctionStep::Done(true)
        } else if k > 0 && outcomes[k - 1] {
            JunctionStep::Done(true)
        } else if k >= self.conditions.len() {
            JunctionStep::Done(false)
        } else {
            JunctionStep::Evaluate(k)
        }
    }

    /// Get the condition ID
    pub fn id(&self) -> (r: &str)
        ensures
            r@ == self.id_spec(),
    {
        self.id.as_str()
    }

    /// The description, if one was given.
    pub closed spec fn description_spec(self) -> Option<Seq<char>> {
        match self.description {
            Some(d) => Some(d@),
            None => None,
        }
    }

    /// Get the condition description
    pub fn description(&self) -> (r: Option<&str>)
        ensures
            match r {
                Some(d) => self.description_spec() == Some(d@),
                None => self.description_spec() is None,
            },
    {
        match &self.description {
            Some(d) => Some(d.as_str()),
            None => None,
        }
    }
}

/// A condition that negates another condition
#[derive(Debug)]
pub struct NotCondition<C> {
    id: String,
    description: Option<String>,
    condition: C,
}

impl<C> NotCondition<C> {
    /// The condition's identifier.
    pub closed spec fn id_spec(self) -> Seq<char> {
        self.id@
    }

    /// The negated condition.
    pub closed spec fn inner_spec(self) -> C {
        self.condition
    }

    /// Create a new NOT condition
    pub fn new(id: &str, condition: C) -> (c: Self)
        ensures
            c.id_spec() == id@,
            c.inner_spec() == condition,
    {
        NotCondition { id: owned(id), description: None, condition }
    }

    /// Set the condition description
    pub fn with_description(self, description: &str) -> (c: Self)
        ensures
            c.description_spec() == Some(description@),
            c.id_spec() == self.id_spec(),
            c.inner_spec() == self.inner_spec(),
    {
        let mut c = self;
        c.description = Some(owned(description));
        c
    }

    /// The negated condition
    pub fn condition(&self) -> (r: &C)
        ensures
            *r == self.inner_spec(),
    {
        &self.condition
    }

    /// The condition type
    pub fn condition_type(&self) -> (r: &'static str)
        ensures
            r@ == "not"@,
    {
        "not"
    }

    /// The outcome given that of the negated condition.
    pub fn verdict(&self, inner: bool) -> (r: bool)
        ensures
            r == !inner,
    {
        !inner
    }

    /// Get the condition ID
    pub fn id(&self) -> (r: &str)
        ensures
            r@ == self.id_spec(),
    {
        self.id.as_str()
    }

    /// The description, if one was given.
    pub closed spec fn description_spec(self) -> Option<Seq<char>> {
        match self.description {
            Some(d) => Some(d@),
            None => None,
        }
    }

    /// Get the condition description
    pub fn description(&self) -> (r: Option<&str>)
        ensures
            match r {
                Some(d) => self.description_spec() == Some(d@),
                None => self.description_spec() is None,
            },
    {
        match &self.description {
            Some(d) => Some(d.as_str()),
            None => None,
        }
    }
}

/// Driving an AND to its end, reporting each member's value when asked,
/// yields whether all members hold.
pub proof fn lemma_and_step_conjunction(values: Seq<bool>, k: nat)
    requires
        k <= values.len(),
        forall|i: int| 0 <= i < k - 1 ==> values[i],
    ensures
        and_step(values.len(), values.take(k as int)) == (if k > 0 && !values[k - 1] {
            JunctionStep::Done(false)
        } else if k == values.len() {
            JunctionStep::Done(forall|i: int| 0 <= i < values.len() ==> values[i])
        } else {
            JunctionStep::Evaluate(k as usize)
        }),
{
    if k > 0 {
        assert(values.take(k as int).last() == values[k - 1]);
    }
    if k == values.len() && !(k > 0 && !values[k - 1]) {
        assert forall|i: int| 0 <= i < values.len() implies values[i] by {
            if i < k - 1 {
            } else {
            }
        }
    }
}

/// Driving an OR to its end, reporting each member's value when asked,
/// yields whether some member holds (and true for no members).
pub proof fn lemma_or_step_disjunction(values: Seq<bool>, k: nat)
    requires
        k <= values.len(),
        forall|i: int| 0 <= i < k - 1 ==> !values[i],
    ensures
        or_step(values.len(), values.take(k as int)) == (if values.len() == 0 {
            JunctionStep::Done(true)
        } else if k > 0 && values[k - 1] {
            JunctionStep::Done(true)
        } else if k == values.len() {
            JunctionStep::Done(exists|i: int| 0 <= i < values.len() && values[i])
        } else {
            JunctionStep::Evaluate(k as usize)
        }),
{
    if k > 0 {
        assert(values.take(k as int).last() == values[k - 1]);
    }
    if values.len() > 0 && k == values.len() && !values[k - 1] {
        assert(!exists|i: int| 0 <= i < values.len() && values[i]) by {
            assert forall|i: int| 0 <= i < values.len() implies !values[i] by {
                if i < k - 1 {
                } else {
                }
            }
        }
    }
}

} // verus!
