//! Random values of the simulated custom fields.

use vstd::prelude::*;
use vstd::string::StrSliceExecFns;
use crate::text::push_char;
use rand::Rng;

verus! {

/// Calls `rand::Rng::gen_range` (rand 0.8) on the thread-local generator with
/// the inclusive range `low..=high` of `i16`. The contract claims only that
/// the value lies in the range; which value comes out is chance. The range is
/// never empty, so the call does not panic.
#[verifier::external_body]
pub(crate) fn random_between(low: i16, high: i16) -> (draw: i16)
    requires
        low <= high,
    ensures
        low <= draw <= high,
{
    rand::thread_rng().gen_range(low..=high)
}

/// Calls `rand::Rng::gen_range` (rand 0.8) on the thread-local generator with
/// the range `0..bound` of `usize` (the same generic method as above, at the
/// other type the simulator draws). The contract claims only that the value
/// is below the bound; which value comes out is chance. The range is never
/// empty, so the call does not panic.
#[verifier::external_body]
pub(crate) fn random_below(bound: usize) -> (draw: usize)
    requires
        bound > 0,
    ensures
        draw < bound,
{
    rand::thread_rng().gen_range(0..bound)
}

/// `value` brought into `[min, max]`.
pub open spec fn clamp(value: int, min: int, max: int) -> int {
    let raised = if value < min {
        min
    } else {
        value
    };
    if raised > max {
        max
    } else {
        raised
    }
}

/// Whether the random walk of an integer field can take a step of at most
/// `deviation` from `last` without leaving the range of `i16`.
pub open spec fn walk_fits(last: i16, deviation: i16) -> bool {
    last + deviation <= i16::MAX && last - deviation >= i16::MIN
}

/// A step of the walk never leaves the range `[min, max]`.
pub proof fn law_walk_stays_in_range(value: int, min: int, max: int)
    requires
        min <= max,
    ensures
        min <= clamp(value, min, max) <= max,
        min <= value <= max ==> clamp(value, min, max) == value,
{
}

/// Whether the random walk can step by at most `deviation` from `last`
/// without leaving the range of `i16`.
pub fn walk_step_fits(last: i16, deviation: i16) -> (fits: bool)
    ensures
        fits == walk_fits(last, deviation),
{
    (last as i32) + (deviation as i32) <= 32767 && (last as i32) - (deviation as i32) >= -32768
}

/// One step of the random walk of an integer field, given the two drawn
/// values: on the first step the walk starts at `draw`; afterwards it moves
/// by `deviation_draw` and is brought back into `[min, max]`. `draw` is taken
/// on every step, as the generator is.
pub fn step_int_value(
    min: i16,
    max: i16,
    first: &mut bool,
    last: &mut i16,
    draw: i16,
    deviation_draw: i16,
) -> (value: i16)
    requires
        min <= max,
        !*old(first) ==> *old(last) + deviation_draw <= i16::MAX && *old(last) + deviation_draw
            >= i16::MIN,
    ensures
        *old(first) ==> value == draw,
        !*old(first) ==> value == clamp(*old(last) + deviation_draw, min as int, max as int),
        *final(last) == value,
        !*final(first),
{
    if *first {
        *last = draw;
        *first = false;
        draw
    } else {
        let moved = *last + deviation_draw;
        let raised = if moved < min {
            min
        } else {
            moved
        };
        let value = if raised > max {
            max
        } else {
            raised
        };
        *last = value;
        value
    }
}

/// The next value of an integer field that walks randomly within
/// `[min, max]`: a random value on the first call, then the last value moved
/// by a random step of at most `deviation` either way and brought back into
/// the range.
pub fn get_int_value(min: i16, max: i16, deviation: i16, first: &mut bool, last: &mut i16) -> (value:
    i16)
    requires
        min <= max,
        !*old(first) ==> deviation >= 0,
        !*old(first) ==> walk_fits(*old(last), deviation),
    ensures
        *old(first) ==> min <= value <= max,
        !*old(first) ==> exists|d: int|
            -deviation <= d <= deviation && value == #[trigger] clamp(*old(last) + d, min as int, max as int),
        *final(last) == value,
        !*final(first),
{
    let draw = random_between(min, max);
    if *first {
        step_int_value(min, max, first, last, draw, 0)
    } else {
        let d = random_between(-deviation, deviation);
        step_int_value(min, max, first, last, draw, d)
    }
}

/// The characters that random texts are made of.
pub const CHARACTERS: &'static str =
    "0123456789ABCDEFGHIJKLMNOPQRSTUVWXYZabcdefghijklmnopqrstuvwxyz!@#$%^&*()_+~`|}{[]\\:;?><,./-=";

/// A random text of `length` characters (none for a negative length), each
/// taken from `CHARACTERS`.
pub fn generate_string(length: i64) -> (text: String)
    ensures
        text@.len() == if length > 0 {
            length as int
        } else {
            0
        },
        forall|i: int| 0 <= i < text@.len() ==> CHARACTERS@.contains(#[trigger] text@[i]),
{
    let characters = CHARACTERS;
    let n = characters.unicode_len();
    let mut text = String::new();
    proof {
        reveal_strlit(
            "0123456789ABCDEFGHIJKLMNOPQRSTUVWXYZabcdefghijklmnopqrstuvwxyz!@#$%^&*()_+~`|}{[]\\:;?><,./-=",
        );
    }
    assert(n > 0);
    let mut made: i64 = 0;
    while made < length
        invariant
            characters@ == CHARACTERS@,
            n == CHARACTERS@.len(),
            n > 0,
            0 <= made,
            made <= length || (length <= 0 && made == 0),
            text@.len() == made,
            forall|i: int| 0 <= i < text@.len() ==> CHARACTERS@.contains(#[trigger] text@[i]),
        decreases length - made,
    {
        let k = random_below(n);
        let c = characters.get_char(k);
        assert(CHARACTERS@[k as int] == c);
        push_char(&mut text, c);
        made = made + 1;
    }
    text
}

/// The element of a list at a drawn position, when it is a text.
pub fn string_element_at(array: &Vec<Option<String>>, index: usize) -> (picked: Option<String>)
    requires
        index < array@.len(),
    ensures
        picked == array@[index as int],
{
    match &array[index] {
        Some(s) => Some(s.clone()),
        None => None,
    }
}

/// A random element of a non-empty list, when it is a text (elements that
/// are not texts are `None`).
pub fn get_random_string_element(array: &Vec<Option<String>>) -> (picked: Option<String>)
    requires
        array@.len() > 0,
    ensures
        exists|i: int| 0 <= i < array@.len() && picked == array@[i],
{
    let k = random_below(array.len());
    string_element_at(array, k)
}

} // verus!
