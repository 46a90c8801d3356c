//! The action protocol: decoding the transformation engine's result record.
//!
//! The engine answers a `process` call with either nothing (a null reply) or
//! an exclusively owned result record: a discriminant, a backspace count, a
//! fixed-capacity array of raw scalar values, and an element count saying how
//! many of the slots are meaningful. This module turns an owned copy of such
//! a record into the [`ImeAction`] sum type. Three rules govern the decode:
//! slots past the element count are never read, a raw value that is not a
//! valid Unicode scalar is silently discarded, and a record that did arrive
//! must be released exactly once — a null reply requires no release.

use vstd::prelude::*;
use vstd::utf8::char_u32_cast;
use vstd::utf8::is_scalar;

verus! {

/// Static capacity of the result record's scalar array. The element count
/// says how many of these slots are meaningful; the rest are never read.
pub const RESULT_CAPACITY: usize = 32;

/// An owned copy of the foreign result record, taken field by field before
/// the foreign original is released.
#[derive(Clone, Copy, Debug)]
pub struct ResultRecord {
    /// Discriminant: 1 asks for an edit, anything else is a no-op.
    pub action: u8,
    /// How many characters to erase before committing.
    pub backspace: u8,
    /// Raw scalar values; only the first `count` slots are meaningful.
    pub chars: [u32; RESULT_CAPACITY],
    /// How many slots of `chars` the engine filled.
    pub count: u8,
}

/// The edit the engine asks for: nothing, or "erase `backspace` characters,
/// then commit `text`". Once constructed it is owned purely by this layer;
/// the foreign record it came from has already been copied out.
#[derive(Debug)]
pub enum ImeAction {
    Nop,
    Send { backspace: u8, text: String },
}

/// The scalar slots an element count actually covers: the counted prefix of
/// the array, clamped to its static capacity.
pub open spec fn counted_prefix(rec: ResultRecord) -> Seq<u32> {
    rec.chars@.take(
        if rec.count as int <= RESULT_CAPACITY as int {
            rec.count as int
        } else {
            RESULT_CAPACITY as int
        },
    )
}

/// The text decoded from a sequence of raw scalar values: each valid Unicode
/// scalar becomes its character, anything else is silently discarded.
pub open spec fn decoded_text(raw: Seq<u32>) -> Seq<char>
    decreases raw.len(),
{
    if raw.len() == 0 {
        Seq::<char>::empty()
    } else {
        let rest = decoded_text(raw.drop_last());
        if is_scalar(raw.last()) {
            rest.push(raw.last() as char)
        } else {
            rest
        }
    }
}

/// What it means for `a` to be the decode of `rec`: a no-op unless the
/// discriminant asks for an edit, else the record's backspace count together
/// with the text decoded from exactly the counted prefix of the array.
pub open spec fn action_of_record(rec: ResultRecord, a: ImeAction) -> bool {
    match a {
        ImeAction::Nop => rec.action != 1,
        ImeAction::Send { backspace, text } => rec.action == 1 && backspace == rec.backspace
            && text@ == decoded_text(counted_prefix(rec)),
    }
}

/// Relies on `char::from_u32`: it returns the character with the given code
/// point exactly when the value is a Unicode scalar (at most 0x10FFFF and not
/// a surrogate), and `None` otherwise.
pub assume_specification[ char::from_u32 ](v: u32) -> (r: Option<char>)
    ensures
        r is Some <==> is_scalar(v),
        r matches Some(c) ==> c as u32 == v,
;

/// Relies on `String`'s `FromIterator<char>` collect: the collected string
/// holds exactly the given characters, in order.
#[verifier::external_body]
fn string_from_chars(chars: &Vec<char>) -> (s: String)
    ensures
        s@ == chars@,
{
    chars.iter().collect()
}

/// Decode an owned copy of the engine's result record into the action it
/// asks for. Reads at most `count` slots of the array, drops raw values that
/// are not valid Unicode scalars, and keeps the rest in order.
pub fn decode_result(rec: &ResultRecord) -> (a: ImeAction)
    ensures
        action_of_record(*rec, a),
        a is Send <==> rec.action == 1,
{
    if rec.action == 1 {
        let n: usize = if (rec.count as usize) <= RESULT_CAPACITY {
            rec.count as usize
        } else {
            RESULT_CAPACITY
        };
        let mut chars: Vec<char> = Vec::new();
        let mut i: usize = 0;
        while i < n
            invariant
                i <= n,
                n <= RESULT_CAPACITY as usize,
                n == (if rec.count as int <= RESULT_CAPACITY as int {
                    rec.count as int
                } else {
                    RESULT_CAPACITY as int
                }),
                chars@ == decoded_text(rec.chars@.take(i as int)),
            decreases n - i,
        {
            let raw = rec.chars[i];
            match char::from_u32(raw) {
                Some(c) => {
                    proof {
                        char_u32_cast(c, raw);
                    }
                    chars.push(c);
                },
                None => {},
            }
            proof {
                assert(rec.chars@.take(i + 1).drop_last() =~= rec.chars@.take(i as int));
                assert(rec.chars@.take(i + 1).last() == rec.chars@[i as int]);
            }
            i = i + 1;
        }
        let text = string_from_chars(&chars);
        ImeAction::Send { backspace: rec.backspace, text }
    } else {
        ImeAction::Nop
    }
}

/// Decode the engine's reply and settle the ownership of the foreign record
/// in one step. The second component says whether the caller must release
/// the foreign record: exactly once when a record arrived, never on a null
/// reply — which always resolves to a no-op, so the key passes through.
pub fn resolve_engine_reply(reply: Option<&ResultRecord>) -> (r: (ImeAction, bool))
    ensures
        r.1 <==> reply is Some,
        reply is None ==> r.0 is Nop,
        reply matches Some(rec) ==> action_of_record(*rec, r.0),
{
    match reply {
        None => (ImeAction::Nop, false),
        Some(rec) => (decode_result(rec), true),
    }
}

/// Slots beyond the element count are never read: two records that agree on
/// the discriminant, the backspace count, the element count and the counted
/// prefix of the array decode to the same action, however their remaining
/// slots differ.
pub proof fn lemma_decode_reads_only_counted_slots(a: ResultRecord, b: ResultRecord, x: ImeAction)
    requires
        a.action == b.action,
        a.backspace == b.backspace,
        a.count == b.count,
        counted_prefix(a) == counted_prefix(b),
    ensures
        action_of_record(a, x) <==> action_of_record(b, x),
{
}

} // verus!
