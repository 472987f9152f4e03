//! Custom fields that a simulation adds to the packets it posts: when each
//! one is due, and the base64 values it takes.

use vstd::prelude::*;
use vstd::utf8::encode_utf8;
use crate::clock::{digit_count, field_due, humantime_nanos, Due, PERIOD_DIGITS};
use crate::encoding::{base64_standard, be_bytes, bool_to_base64, int_to_base64, text_to_base64};
use crate::random::{
    clamp, generate_string, get_int_value, get_random_string_element, random_below, walk_fits,
    walk_step_fits, CHARACTERS,
};
use crate::text::same_text;

verus! {

/// The upper-case form of a text, as `str::to_uppercase` gives it.
pub uninterp spec fn upper_case(text: Seq<char>) -> Seq<char>;

/// Calls `str::to_uppercase`. The contract claims that the result depends on
/// the text alone (its Unicode upper-case mapping).
#[verifier::external_body]
pub(crate) fn to_upper_case(text: &str) -> (upper: String)
    ensures
        upper@ == upper_case(text@),
{
    text.to_uppercase()
}

/// A boolean written as a text: `true` or `false`, and nothing else.
pub open spec fn bool_of(text: Seq<char>) -> Option<bool> {
    if text == "true"@ {
        Some(true)
    } else if text == "false"@ {
        Some(false)
    } else {
        None
    }
}

/// Reads a boolean written as `true` or `false`.
pub fn parse_bool(text: &str) -> (value: Option<bool>)
    ensures
        value == bool_of(text@),
{
    if same_text(text, "true") {
        Some(true)
    } else if same_text(text, "false") {
        Some(false)
    } else {
        None
    }
}

/// The integer rule of a custom field: a random walk within `[min, max]` by
/// steps of at most `deviation` (each read as an `i16`).
pub struct IntRule {
    pub min: i64,
    pub max: i64,
    pub deviation: i64,
}

/// The text rule of a custom field.
pub enum StringRule {
    /// A random text of the given length.
    Random(i64),
    /// A random element of a list (elements that are not texts are `None`).
    Choice(Vec<Option<String>>),
    /// Neither of the two: the field is left as it is.
    Unspecified,
}

/// The rules of a custom field, in the order in which they are applied.
pub struct FieldRule {
    /// `Some` when the type has a `bool` rule: its text, when it is one.
    pub bool_rule: Option<Option<String>>,
    /// `Some` when the type has an `int` rule.
    pub int_rule: Option<IntRule>,
    /// `Some` when the type has a `string` rule.
    pub string_rule: Option<StringRule>,
}

/// The members of a custom field's `type` object that its rules read.
pub struct FieldType {
    /// Whether the object has a `bool` member.
    pub has_bool: bool,
    /// That member, when it is a text.
    pub bool_text: Option<String>,
    /// Whether the object has an `int` member.
    pub has_int: bool,
    /// Its `min`, `max` and `deviation`, when they are integers.
    pub int_min: Option<i64>,
    pub int_max: Option<i64>,
    pub int_deviation: Option<i64>,
    /// Whether the object has a `string` member.
    pub has_string: bool,
    /// Its `random` member, when it is an integer.
    pub random_size: Option<i64>,
    /// Its `array` member, when it is an array (elements that are not texts
    /// are `None`).
    pub choices: Option<Vec<Option<String>>>,
}

/// Whether the members of an `int` rule can be read: all three are integers.
pub open spec fn int_members_readable(t: FieldType) -> bool {
    t.has_int ==> t.int_min is Some && t.int_max is Some && t.int_deviation is Some
}

/// The rules that a `type` object gives: a `bool` rule with its text, an
/// `int` rule with its three members, and a `string` rule that draws a random
/// text when `random` is an integer, else picks from `array` when it is an
/// array, and else leaves the field as it is.
pub open spec fn rule_spec(t: FieldType) -> FieldRule {
    FieldRule {
        bool_rule: if t.has_bool {
            Some(t.bool_text)
        } else {
            None
        },
        int_rule: if t.has_int {
            Some(IntRule { min: t.int_min->0, max: t.int_max->0, deviation: t.int_deviation->0 })
        } else {
            None
        },
        string_rule: if t.has_string {
            Some(
                match t.random_size {
                    Some(n) => StringRule::Random(n),
                    None => match t.choices {
                        Some(a) => StringRule::Choice(a),
                        None => StringRule::Unspecified,
                    },
                },
            )
        } else {
            None
        },
    }
}

/// The rules of a custom field, from the members of its `type` object.
pub fn rule_of(t: FieldType) -> (rule: FieldRule)
    requires
        int_members_readable(t),
    ensures
        rule == rule_spec(t),
{
    let FieldType {
        has_bool,
        bool_text,
        has_int,
        int_min,
        int_max,
        int_deviation,
        has_string,
        random_size,
        choices,
    } = t;
    let bool_rule = if has_bool {
        Some(bool_text)
    } else {
        None
    };
    let int_rule = if has_int {
        match (int_min, int_max, int_deviation) {
            (Some(min), Some(max), Some(deviation)) => Some(IntRule { min, max, deviation }),
            _ => None,
        }
    } else {
        None
    };
    let string_rule = if has_string {
        Some(
            match random_size {
                Some(n) => StringRule::Random(n),
                None => match choices {
                    Some(a) => StringRule::Choice(a),
                    None => StringRule::Unspecified,
                },
            },
        )
    } else {
        None
    };
    FieldRule { bool_rule, int_rule, string_rule }
}

/// A value written to a field: `{"b64_value": text}`, or `null`.
pub enum FieldValue {
    Base64(String),
    Null,
}

/// Whether the rules can be applied: a `bool` rule holds a text, an `int`
/// rule has a non-empty range and a non-negative deviation, and the walk
/// stays within `i16` from its last value; a list to choose from is not empty.
pub open spec fn rule_applicable(rule: FieldRule, first: bool, last: i16) -> bool {
    &&& (rule.bool_rule matches Some(t) ==> t is Some)
    &&& (rule.int_rule matches Some(r) ==> {
        &&& r.min as i16 <= r.max as i16
        &&& (!first ==> r.deviation as i16 >= 0)
        &&& (!first ==> walk_fits(last, r.deviation as i16))
    })
    &&& (rule.string_rule matches Some(StringRule::Choice(a)) ==> a@.len() > 0)
}

/// Why the rules of a custom field cannot be applied.
pub enum RuleFault {
    /// The `bool` member is not a text.
    BoolNotText,
    /// The range of the `int` rule is empty.
    EmptyRange,
    /// The deviation of the `int` rule is negative (and a step is due).
    NegativeDeviation,
    /// A step of the walk could leave the range of `i16`.
    WalkOverflow,
    /// The list of the `string` rule is empty.
    EmptyChoice,
}

/// The first reason, in the order in which the rules are applied, why the
/// rules of a field cannot be applied from the walk's state; `None` when they
/// can.
pub fn rule_fault(rule: &FieldRule, first: bool, last: i16) -> (fault: Option<RuleFault>)
    ensures
        fault is None <==> rule_applicable(*rule, first, last),
        fault matches Some(RuleFault::BoolNotText) ==> rule.bool_rule matches Some(None),
        fault matches Some(RuleFault::EmptyRange) ==> rule.int_rule matches Some(r)
            && r.min as i16 > r.max as i16,
        fault matches Some(RuleFault::NegativeDeviation) ==> rule.int_rule matches Some(r) && !first
            && (r.deviation as i16) < 0,
        fault matches Some(RuleFault::WalkOverflow) ==> rule.int_rule matches Some(r) && !first
            && !walk_fits(last, r.deviation as i16),
        fault matches Some(RuleFault::EmptyChoice) ==> rule.string_rule matches Some(
            StringRule::Choice(a),
        ) && a@.len() == 0,
{
    match &rule.bool_rule {
        Some(None) => {
            return Some(RuleFault::BoolNotText);
        },
        _ => {},
    }
    match &rule.int_rule {
        Some(r) => {
            let min = r.min as i16;
            let max = r.max as i16;
            let deviation = r.deviation as i16;
            if min > max {
                return Some(RuleFault::EmptyRange);
            }
            if !first && deviation < 0 {
                return Some(RuleFault::NegativeDeviation);
            }
            if !first && !walk_step_fits(last, deviation) {
                return Some(RuleFault::WalkOverflow);
            }
        },
        None => {},
    }
    match &rule.string_rule {
        Some(StringRule::Choice(a)) => {
            if a.len() == 0 {
                return Some(RuleFault::EmptyChoice);
            }
        },
        _ => {},
    }
    None
}

/// Whether a value is the base64 of the boolean `b`.
pub open spec fn is_value_of_bool(v: FieldValue, b: bool) -> bool {
    v matches FieldValue::Base64(t) && t@ == base64_standard(seq![if b { 1u8 } else { 0u8 }])
}

/// Whether a text could be drawn for a random text rule of length `n`.
pub open spec fn is_random_text(x: Seq<char>, n: i64) -> bool {
    &&& x.len() == if n > 0 {
        n as int
    } else {
        0
    }
    &&& forall|i: int| 0 <= i < x.len() ==> CHARACTERS@.contains(#[trigger] x[i])
}

/// Whether a value is the base64 of the UTF-8 bytes of a text.
pub open spec fn is_base64_of_text(v: FieldValue, x: Seq<char>) -> bool {
    v matches FieldValue::Base64(t) && t@ == base64_standard(encode_utf8(x))
}

/// Whether a value is what a list element gives: the base64 of its text, or
/// `null` when it is not a text.
pub open spec fn is_value_of_element(v: FieldValue, e: Option<String>) -> bool {
    match e {
        Some(s) => is_base64_of_text(v, s@),
        None => v is Null,
    }
}

/// Whether a value is the base64 of a boolean.
pub open spec fn is_bool_value(v: FieldValue) -> bool {
    is_value_of_bool(v, true) || is_value_of_bool(v, false)
}

/// The values written for one packet, one per rule that writes (a later one
/// replaces an earlier one). A `bool` rule writes the boolean of its text, or
/// a random one when the text is neither `true` nor `false`; an `int` rule
/// writes the next value of the walk, in big-endian bytes; a `string` rule
/// writes a random text or a random element of its list, or `null` when that
/// element is not a text.
pub fn field_values(rule: &FieldRule, first: &mut bool, last: &mut i16) -> (values: Vec<FieldValue>)
    requires
        rule_applicable(*rule, *old(first), *old(last)),
    ensures
        values@.len() == (if rule.bool_rule is Some {
            1int
        } else {
            0
        }) + (if rule.int_rule is Some {
            1int
        } else {
            0
        }) + (if rule.string_rule matches Some(StringRule::Unspecified) || rule.string_rule is None {
            0int
        } else {
            1
        }),
        rule.bool_rule matches Some(Some(t)) ==> (match bool_of(t@) {
            Some(b) => is_value_of_bool(values@[0], b),
            None => is_bool_value(values@[0]),
        }),
        rule.int_rule is Some ==> !*final(first),
        rule.int_rule is None ==> *final(first) == *old(first) && *final(last) == *old(last),
        rule.int_rule matches Some(r) ==> {
            &&& *old(first) ==> r.min as i16 <= *final(last) <= r.max as i16
            &&& !*old(first) ==> exists|d: int|
                -(r.deviation as i16) <= d <= r.deviation as i16 && *final(last) == #[trigger] clamp(
                    *old(last) + d,
                    r.min as i16 as int,
                    r.max as i16 as int,
                )
        },
        rule.int_rule is Some ==> {
            let k = if rule.bool_rule is Some {
                1int
            } else {
                0
            };
            values@[k] matches FieldValue::Base64(t) && t@ == base64_standard(
                be_bytes(*final(last) as i32),
            )
        },
        rule.string_rule matches Some(StringRule::Random(n)) ==> exists|x: Seq<char>|
            #[trigger] is_random_text(x, n) && is_base64_of_text(values@.last(), x),
        rule.string_rule matches Some(StringRule::Choice(a)) ==> exists|i: int|
            0 <= i < a@.len() && is_value_of_element(values@.last(), #[trigger] a@[i]),
{
    let mut values: Vec<FieldValue> = Vec::new();
    match &rule.bool_rule {
        Some(Some(text)) => {
            let value = match parse_bool(text.as_str()) {
                Some(b) => b,
                None => random_below(2) == 1,
            };
            values.push(FieldValue::Base64(bool_to_base64(value)));
        },
        _ => {},
    }
    let ghost after_bool = values@;
    match &rule.int_rule {
        Some(r) => {
            let v = get_int_value(r.min as i16, r.max as i16, r.deviation as i16, first, last);
            values.push(FieldValue::Base64(int_to_base64(v as i32)));
        },
        None => {},
    }
    assert(values@.subrange(0, after_bool.len() as int) =~= after_bool);
    match &rule.string_rule {
        Some(StringRule::Random(size)) => {
            let text = generate_string(*size);
            let encoded = text_to_base64(text.as_str());
            proof {
                assert(is_random_text(text@, *size));
            }
            values.push(FieldValue::Base64(encoded));
        },
        Some(StringRule::Choice(a)) => {
            let picked = get_random_string_element(a);
            let ghost i = choose|i: int| 0 <= i < a@.len() && picked == a@[i];
            match picked {
                Some(s) => {
                    values.push(FieldValue::Base64(text_to_base64(s.as_str())));
                },
                None => {
                    values.push(FieldValue::Null);
                },
            }
            assert(is_value_of_element(values@.last(), a@[i]));
        },
        _ => {},
    }
    values
}

/// What to do with a custom field when packets are posted.
pub enum FieldPlan {
    /// Its period has passed: write it to the packets.
    Update,
    /// Its period has not passed yet.
    Wait,
    /// Its period is not a duration: the field is skipped.
    BadPeriod,
    /// It has no period: the session is aborted.
    NoPeriod,
}

/// What to do with a custom field of period `period`, `elapsed` nanoseconds
/// after its last update (or after the start of the session).
pub fn field_plan(period: Option<&str>, elapsed: u128) -> (plan: FieldPlan)
    requires
        period matches Some(p) ==> digit_count(p@) <= PERIOD_DIGITS,
    ensures
        match period {
            None => plan is NoPeriod,
            Some(p) => match humantime_nanos(p@) {
                Some(n) => if elapsed >= n {
                    plan is Update
                } else {
                    plan is Wait
                },
                None => plan is BadPeriod,
            },
        },
{
    match period {
        None => FieldPlan::NoPeriod,
        Some(p) => match field_due(elapsed, p) {
            Due::Yes => FieldPlan::Update,
            Due::No => FieldPlan::Wait,
            Due::BadPeriod => FieldPlan::BadPeriod,
        },
    }
}

/// What to do with a custom field whose period humantime reads as `nanos`
/// nanoseconds (`None`: the period is not a duration), `elapsed` nanoseconds
/// after its last update: it is written once a whole period has passed, and
/// left alone before.
pub fn plan_for_nanos(nanos: Option<u128>, elapsed: u128) -> (plan: FieldPlan)
    ensures
        match nanos {
            Some(n) => if elapsed >= n {
                plan is Update
            } else {
                plan is Wait
            },
            None => plan is BadPeriod,
        },
{
    match nanos {
        Some(n) => if elapsed >= n {
            FieldPlan::Update
        } else {
            FieldPlan::Wait
        },
        None => FieldPlan::BadPeriod,
    }
}

/// The member of a packet's `fields` that a custom field writes: its name in
/// upper case.
pub fn field_key(field_name: &str) -> (key: String)
    ensures
        key@ == upper_case(field_name@),
{
    to_upper_case(field_name)
}

} // verus!
