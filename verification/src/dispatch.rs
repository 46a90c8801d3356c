//! The output dispatcher: an action becomes an ordered plan of outbound
//! framework calls.
//!
//! A `Send` action is dispatched as `backspace` synthetic erase events,
//! strictly before the single commit of the replacement text. The order is
//! mandatory: committing first would visually interleave old and new text.
//! Each emission is fire-and-forget; a transport failure downstream must not
//! roll back what was already emitted, so the plan is a plain sequence.

use vstd::prelude::*;
use crate::action::ImeAction;
use crate::action::ResultRecord;
use crate::action::counted_prefix;
use crate::action::decoded_text;
use crate::action::resolve_engine_reply;

verus! {

/// The keysym of the backspace key, the only key ever forwarded.
pub const BACKSPACE_KEYSYM: u32 = 0xFF08;

/// One outbound call to the framework.
#[derive(Debug)]
pub enum Emission {
    /// Forward a synthetic key event to the application.
    ForwardKey { key_identifier: u32, scan_code: u32, modifier_bits: u32 },
    /// Commit finished text into the application.
    CommitText { text: String },
}

/// A synthetic "erase one character": a forwarded backspace with no scan
/// code and no modifiers.
pub open spec fn is_erase_emission(e: Emission) -> bool {
    e matches Emission::ForwardKey { key_identifier, scan_code, modifier_bits }
        && key_identifier == BACKSPACE_KEYSYM && scan_code == 0 && modifier_bits == 0
}

/// The dispatch order for a `Send`: exactly `backspace` erase events, then
/// exactly one commit carrying the text, and nothing else.
pub open spec fn is_ordered_send_plan(backspace: u8, text: Seq<char>, plan: Seq<Emission>) -> bool {
    &&& plan.len() == backspace as int + 1
    &&& forall|i: int| 0 <= i < backspace as int ==> is_erase_emission(#[trigger] plan[i])
    &&& (plan[backspace as int] matches Emission::CommitText { text: t } && t@ == text)
}

/// Lay out the outbound calls for one `Send` action: first the erase events,
/// then the single commit, in the order they must be issued.
pub fn emission_plan(backspace: u8, text: String) -> (plan: Vec<Emission>)
    ensures
        is_ordered_send_plan(backspace, text@, plan@),
{
    let mut plan: Vec<Emission> = Vec::new();
    let mut i: u8 = 0;
    while i < backspace
        invariant
            i <= backspace,
            plan@.len() == i as int,
            forall|j: int| 0 <= j < i as int ==> is_erase_emission(#[trigger] plan@[j]),
        decreases backspace - i,
    {
        plan.push(
            Emission::ForwardKey { key_identifier: BACKSPACE_KEYSYM, scan_code: 0, modifier_bits: 0 },
        );
        i = i + 1;
    }
    plan.push(Emission::CommitText { text });
    plan
}

/// Turn the decoded action into the event's final outcome: whether the key
/// is consumed, and the ordered plan of outbound calls. A no-op consumes
/// nothing and emits nothing — the key passes through; a `Send` consumes the
/// key and emits its erase-then-commit plan.
pub fn dispatch_action(action: ImeAction) -> (r: (bool, Vec<Emission>))
    ensures
        r.0 <==> action is Send,
        action is Nop ==> r.1@.len() == 0,
        action matches ImeAction::Send { backspace, text } ==> is_ordered_send_plan(
            backspace,
            text@,
            r.1@,
        ),
{
    match action {
        ImeAction::Nop => (false, Vec::new()),
        ImeAction::Send { backspace, text } => (true, emission_plan(backspace, text)),
    }
}

/// Everything one engine-routed key event resolves to, once the engine has
/// answered.
pub struct EventOutcome {
    /// Report the key as handled and suppress the framework's own handling?
    pub consumed: bool,
    /// The outbound calls to issue, in order.
    pub emissions: Vec<Emission>,
    /// Whether the foreign result record must be released (exactly once).
    pub must_release: bool,
}

/// Settle an engine-routed key event from the engine's reply in one step:
/// decode the owned copy of the record, settle the release obligation of the
/// foreign original, and lay out the ordered outbound plan. A null reply, or
/// a record that asks for no edit, leaves the key to pass through with no
/// emission; a record that asks for an edit consumes the key and emits its
/// erase-then-commit plan.
pub fn settle_engine_reply(reply: Option<&ResultRecord>) -> (r: EventOutcome)
    ensures
        r.must_release <==> reply is Some,
        r.consumed <==> (reply matches Some(rec) && rec.action == 1),
        !r.consumed ==> r.emissions@.len() == 0,
        reply matches Some(rec) ==> (rec.action == 1 ==> is_ordered_send_plan(
            rec.backspace,
            decoded_text(counted_prefix(*rec)),
            r.emissions@,
        )),
{
    let (action, must_release) = resolve_engine_reply(reply);
    let (consumed, emissions) = dispatch_action(action);
    EventOutcome { consumed, emissions, must_release }
}

} // verus!
