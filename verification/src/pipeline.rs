//! The per-event routing state machine.
//!
//! The machine is entered fresh for each raw key event and decides, in a
//! fixed order, what the event becomes: modifier-only keys pass through
//! untouched, word-boundary keys clear the engine's pending buffer and pass
//! through, unmapped keys pass through, and everything else is translated and
//! handed to the transformation engine. The decision itself is pure; the
//! surrounding process performs the engine calls the chosen route names, one
//! event at a time, so the calls of consecutive events never interleave.

use vstd::prelude::*;
use crate::keycode::is_boundary_keysym;
use crate::keycode::is_buffer_clear_key;
use crate::keycode::is_modifier_key;
use crate::keycode::is_modifier_keysym;
use crate::keycode::keycode_of;
use crate::keycode::keysym_to_macos_keycode;
use crate::modifiers::ModifierState;
use crate::modifiers::decode_modifiers;
use crate::modifiers::spec_decode_modifiers;

verus! {

/// One physical key press or release as the framework reports it.
#[derive(Clone, Copy, Debug, PartialEq, Eq, Structural)]
pub struct RawKeyEvent {
    pub key_identifier: u32,
    pub scan_code: u32,
    pub modifier_bits: u32,
}

/// A command this layer issues against the engine session while handling one
/// key event.
#[derive(Clone, Copy, Debug, PartialEq, Eq, Structural)]
pub enum EngineCall {
    /// Drop the engine's pending partial composition.
    ClearBuffer,
    /// Feed one translated key to the engine.
    Process { key: u16, uppercase: bool, bypass: bool, shift: bool },
}

/// Where one key event goes. The first three routes resolve to pass-through
/// on the spot; only `Engine` consults the transformation engine, and the
/// event's fate then depends on the engine's reply.
#[derive(Clone, Copy, Debug, PartialEq, Eq, Structural)]
pub enum KeyRoute {
    /// A dedicated modifier key: no character, no engine call, pass through.
    ModifierPass,
    /// A word-boundary key: clear the pending buffer, then pass through.
    BoundaryClear,
    /// A key outside the translation table: pass through untouched.
    UnmappedPass,
    /// A translated key, to be fed to the engine with these flags.
    Engine { key: u16, uppercase: bool, bypass: bool, shift: bool },
}

/// The route of an event, as a mathematical function: the classifier checks
/// in their fixed order, then the translation table, then the modifier flags.
pub open spec fn spec_route(ev: RawKeyEvent) -> KeyRoute {
    let m = spec_decode_modifiers(ev.modifier_bits);
    if is_modifier_keysym(ev.key_identifier) {
        KeyRoute::ModifierPass
    } else if is_boundary_keysym(ev.key_identifier) {
        KeyRoute::BoundaryClear
    } else {
        match keycode_of(ev.key_identifier) {
            Option::None => KeyRoute::UnmappedPass,
            Option::Some(key) => KeyRoute::Engine {
                key,
                uppercase: m.spec_effective_uppercase(),
                bypass: m.spec_bypass_transformation(),
                shift: m.shift,
            },
        }
    }
}

/// The engine calls a route asks for, in order. Only a boundary key clears
/// the buffer, and only a translated key reaches `process`; each at most
/// once per event.
pub open spec fn engine_calls_of(r: KeyRoute) -> Seq<EngineCall> {
    match r {
        KeyRoute::ModifierPass => Seq::<EngineCall>::empty(),
        KeyRoute::BoundaryClear => seq![EngineCall::ClearBuffer],
        KeyRoute::UnmappedPass => Seq::<EngineCall>::empty(),
        KeyRoute::Engine { key, uppercase, bypass, shift } => seq![
            EngineCall::Process { key, uppercase, bypass, shift },
        ],
    }
}

/// Route one raw key event: the entry point of the per-event state machine.
pub fn route_key_event(ev: RawKeyEvent) -> (r: KeyRoute)
    ensures
        r == spec_route(ev),
{
    if is_modifier_key(ev.key_identifier) {
        KeyRoute::ModifierPass
    } else if is_buffer_clear_key(ev.key_identifier) {
        KeyRoute::BoundaryClear
    } else {
        match keysym_to_macos_keycode(ev.key_identifier) {
            Option::None => KeyRoute::UnmappedPass,
            Option::Some(key) => {
                let m: ModifierState = decode_modifiers(ev.modifier_bits);
                KeyRoute::Engine {
                    key,
                    uppercase: m.effective_uppercase(),
                    bypass: m.bypass_transformation(),
                    shift: m.shift,
                }
            },
        }
    }
}

/// A modifier-only key never reaches the engine: whatever the modifier bits,
/// its route is an immediate pass-through that issues no engine call at all.
pub proof fn lemma_modifier_key_never_calls_engine(ev: RawKeyEvent)
    requires
        is_modifier_keysym(ev.key_identifier),
    ensures
        spec_route(ev) == KeyRoute::ModifierPass,
        engine_calls_of(spec_route(ev)) == Seq::<EngineCall>::empty(),
{
}

/// A word-boundary key issues exactly one buffer clear and nothing else, and
/// its route is a pass-through: the framework still inserts the boundary
/// character itself.
pub proof fn lemma_boundary_key_clears_buffer_once(ev: RawKeyEvent)
    requires
        is_boundary_keysym(ev.key_identifier),
    ensures
        spec_route(ev) == KeyRoute::BoundaryClear,
        engine_calls_of(spec_route(ev)) == seq![EngineCall::ClearBuffer],
{
}

/// The engine calls of a stream of key events handled one after another:
/// each event contributes the calls of its own route, in arrival order.
pub open spec fn session_trace(events: Seq<RawKeyEvent>) -> Seq<EngineCall>
    decreases events.len(),
{
    if events.len() == 0 {
        Seq::<EngineCall>::empty()
    } else {
        session_trace(events.drop_last()) + engine_calls_of(spec_route(events.last()))
    }
}

/// Serialized processing never interleaves engine calls: the trace of one
/// stream of events followed by another is the first trace followed by the
/// second, so the calls of an earlier event all precede those of a later one.
pub proof fn lemma_session_trace_concat(a: Seq<RawKeyEvent>, b: Seq<RawKeyEvent>)
    ensures
        session_trace(a + b) == session_trace(a) + session_trace(b),
    decreases b.len(),
{
    if b.len() == 0 {
        assert(a + b =~= a);
        assert(session_trace(a) + session_trace(b) =~= session_trace(a));
    } else {
        lemma_session_trace_concat(a, b.drop_last());
        assert((a + b).drop_last() =~= a + b.drop_last());
        assert(session_trace(a) + session_trace(b) =~= (session_trace(a) + session_trace(
            b.drop_last(),
        )) + engine_calls_of(spec_route(b.last())));
    }
}

/// The two-event shape of the rule above: the calls of two key events
/// processed in sequence are the first event's block followed by the second
/// event's block, never an interleaving.
pub proof fn lemma_two_events_do_not_interleave(first: RawKeyEvent, second: RawKeyEvent)
    ensures
        session_trace(seq![first, second]) == engine_calls_of(spec_route(first))
            + engine_calls_of(spec_route(second)),
{
    let s = seq![first, second];
    let t = seq![first];
    assert(s.last() == second);
    assert(s.drop_last() =~= t);
    assert(session_trace(s) == session_trace(t) + engine_calls_of(spec_route(second)));
    assert(t.last() == first);
    assert(t.drop_last() =~= Seq::<RawKeyEvent>::empty());
    assert(session_trace(t.drop_last()) == Seq::<EngineCall>::empty());
    assert(session_trace(t) == session_trace(t.drop_last()) + engine_calls_of(spec_route(first)));
    assert(session_trace(t) =~= engine_calls_of(spec_route(first)));
}

} // verus!
