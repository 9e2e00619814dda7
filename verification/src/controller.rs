//! The input and redraw controller: a two-state machine that turns window
//! events into effects for the event loop to carry out.

use crate::params::AngleStep;
use vstd::prelude::*;

verus! {

/// The keys the controller tells apart.
#[derive(Clone, Copy, Debug, PartialEq, Eq, Structural)]
pub enum Key {
    Q,
    E,
    Other,
}

/// The key that turns the angle up by one step.
pub const INCREASE_ANGLE_KEY: Key = Key::Q;

/// The key that turns the angle down by one step.
pub const DECREASE_ANGLE_KEY: Key = Key::E;

/// What happened to a window.
#[derive(Clone, Copy, Debug, PartialEq, Eq, Structural)]
pub enum EventKind {
    CloseRequested,
    Resized { width: u32, height: u32 },
    KeyDown(Key),
    RedrawRequested,
}

/// An event, tagged with the window it belongs to.
#[derive(Clone, Copy, Debug, PartialEq, Eq, Structural)]
pub struct Event {
    pub window: u64,
    pub kind: EventKind,
}

/// What the event loop is asked to do.
#[derive(Clone, Copy, Debug, PartialEq, Eq, Structural)]
pub enum Effect {
    /// Add one step to the angle and overwrite the GPU mirror of the
    /// parameter vector.
    UpdateParameter(AngleStep),
    /// Ask the window system for a redraw.
    RequestRedraw,
    /// Run one full frame cycle.
    RenderFrame,
    /// Release everything and leave the loop.
    Exit,
}

#[derive(Clone, Copy, Debug, PartialEq, Eq, Structural)]
pub enum ControllerState {
    /// Waiting for the next event.
    Idle,
    /// Terminal: the window was asked to close.
    Closing,
}

/// The step bound to a key, if any.
pub open spec fn spec_key_step(key: Key) -> Option<AngleStep> {
    match key {
        Key::Q => Some(AngleStep::Increase),
        Key::E => Some(AngleStep::Decrease),
        Key::Other => None,
    }
}

/// The state after `event`. Only a close request for the controller's own
/// window leaves `Idle`, and nothing leaves `Closing`.
pub open spec fn spec_next(state: ControllerState, window: u64, event: Event) -> ControllerState {
    if state == ControllerState::Idle && event.window == window && event.kind
        == EventKind::CloseRequested {
        ControllerState::Closing
    } else {
        state
    }
}

/// The effects of `event`, in the order in which they are to be carried out.
/// Events for other windows, and all events once closing, have none.
pub open spec fn spec_effects(state: ControllerState, window: u64, event: Event) -> Seq<Effect> {
    if state == ControllerState::Closing || event.window != window {
        seq![]
    } else {
        match event.kind {
            EventKind::CloseRequested => seq![Effect::Exit],
            EventKind::Resized { .. } => seq![Effect::RequestRedraw],
            EventKind::KeyDown(key) => match spec_key_step(key) {
                Some(step) => seq![Effect::UpdateParameter(step), Effect::RequestRedraw],
                None => seq![],
            },
            EventKind::RedrawRequested => seq![Effect::RenderFrame],
        }
    }
}

/// The outcome of one transition.
#[derive(Debug)]
pub struct Transition {
    pub next: ControllerState,
    pub effects: Vec<Effect>,
}

/// The step bound to a key, if any.
pub fn key_step(key: Key) -> (r: Option<AngleStep>)
    ensures
        r == spec_key_step(key),
{
    match key {
        Key::Q => Some(AngleStep::Increase),
        Key::E => Some(AngleStep::Decrease),
        Key::Other => None,
    }
}

/// One transition of the controller for the window `window`: the next state
/// and the effects of `event`.
pub fn transition(state: ControllerState, window: u64, event: &Event) -> (t: Transition)
    ensures
        t.next == spec_next(state, window, *event),
        t.effects@ == spec_effects(state, window, *event),
{
    let mut effects: Vec<Effect> = Vec::new();
    let mut next = state;
    match state {
        ControllerState::Closing => {},
        ControllerState::Idle => {
            if event.window == window {
                match event.kind {
                    EventKind::CloseRequested => {
                        effects.push(Effect::Exit);
                        next = ControllerState::Closing;
                    },
                    EventKind::Resized { .. } => {
                        effects.push(Effect::RequestRedraw);
                    },
                    EventKind::KeyDown(key) => {
                        match key_step(key) {
                            Some(step) => {
                                effects.push(Effect::UpdateParameter(step));
                                effects.push(Effect::RequestRedraw);
                            },
                            None => {},
                        }
                    },
                    EventKind::RedrawRequested => {
                        effects.push(Effect::RenderFrame);
                    },
                }
            }
        },
    }
    assert(effects@ =~= spec_effects(state, window, *event));
    Transition { next, effects }
}

/// The controller of one window: the window's identity and the current
/// state.
#[derive(Clone, Copy, Debug)]
pub struct Controller {
    window: u64,
    state: ControllerState,
}

impl Controller {
    /// The window whose events the controller acts on.
    pub closed spec fn spec_window(self) -> u64 {
        self.window
    }

    pub closed spec fn spec_state(self) -> ControllerState {
        self.state
    }

    /// A controller for `window`, idle.
    pub fn new(window: u64) -> (c: Controller)
        ensures
            c.spec_window() == window,
            c.spec_state() == ControllerState::Idle,
    {
        Controller { window, state: ControllerState::Idle }
    }

    pub fn window(&self) -> (w: u64)
        ensures
            w == self.spec_window(),
    {
        self.window
    }

    pub fn state(&self) -> (s: ControllerState)
        ensures
            s == self.spec_state(),
    {
        self.state
    }

    /// Whether the loop is to end.
    pub fn is_closing(&self) -> (b: bool)
        ensures
            b <==> self.spec_state() == ControllerState::Closing,
    {
        match self.state {
            ControllerState::Closing => true,
            ControllerState::Idle => false,
        }
    }

    /// Takes one event: moves to the next state and returns the effects to
    /// carry out, in order.
    pub fn handle(&mut self, event: &Event) -> (effects: Vec<Effect>)
        ensures
            final(self).spec_window() == old(self).spec_window(),
            final(self).spec_state() == spec_next(
                old(self).spec_state(),
                old(self).spec_window(),
                *event,
            ),
            effects@ == spec_effects(old(self).spec_state(), old(self).spec_window(), *event),
    {
        let t = transition(self.state, self.window, event);
        self.state = t.next;
        t.effects
    }
}

/// The key bound to a step.
pub open spec fn spec_step_key(step: AngleStep) -> Key {
    match step {
        AngleStep::Increase => INCREASE_ANGLE_KEY,
        AngleStep::Decrease => DECREASE_ANGLE_KEY,
    }
}

/// The state after a run of events, taken in order.
pub open spec fn spec_run_state(
    state: ControllerState,
    window: u64,
    events: Seq<Event>,
) -> ControllerState
    decreases events.len(),
{
    if events.len() == 0 {
        state
    } else {
        spec_run_state(spec_next(state, window, events[0]), window, events.drop_first())
    }
}

/// The effects of a run of events, in the order in which they arise.
pub open spec fn spec_run_effects(
    state: ControllerState,
    window: u64,
    events: Seq<Event>,
) -> Seq<Effect>
    decreases events.len(),
{
    if events.len() == 0 {
        seq![]
    } else {
        spec_effects(state, window, events[0]) + spec_run_effects(
            spec_next(state, window, events[0]),
            window,
            events.drop_first(),
        )
    }
}

/// The rotation that one effect asks for, in tenths of a radian.
pub open spec fn effect_tenths(effect: Effect) -> int {
    match effect {
        Effect::UpdateParameter(step) => step.spec_tenths(),
        _ => 0,
    }
}

/// The rotation that a sequence of effects adds up to, in tenths of a
/// radian: the change of the angle once all of them are carried out.
pub open spec fn net_tenths(effects: Seq<Effect>) -> int
    decreases effects.len(),
{
    if effects.len() == 0 {
        0
    } else {
        effect_tenths(effects[0]) + net_tenths(effects.drop_first())
    }
}

/// `count` presses of `key` in `window`.
pub open spec fn presses(window: u64, key: Key, count: nat) -> Seq<Event> {
    Seq::new(count, |i: int| Event { window, kind: EventKind::KeyDown(key) })
}

/// An event for another window changes nothing and has no effect.
pub proof fn lemma_other_windows_are_ignored(state: ControllerState, window: u64, event: Event)
    requires
        event.window != window,
    ensures
        spec_next(state, window, event) == state,
        spec_effects(state, window, event) == Seq::<Effect>::empty(),
{
}

/// Closing is terminal: whatever events follow, the state stays `Closing`
/// and nothing more is asked of the event loop.
pub proof fn lemma_closing_is_terminal(window: u64, events: Seq<Event>)
    ensures
        spec_run_state(ControllerState::Closing, window, events) == ControllerState::Closing,
        spec_run_effects(ControllerState::Closing, window, events) == Seq::<Effect>::empty(),
    decreases events.len(),
{
    if events.len() > 0 {
        lemma_closing_is_terminal(window, events.drop_first());
    }
}

/// A parameter update never comes alone: the effect right after it is the
/// request for the redraw that shows it.
pub proof fn lemma_update_is_followed_by_redraw(
    state: ControllerState,
    window: u64,
    event: Event,
    i: int,
)
    requires
        0 <= i < spec_effects(state, window, event).len(),
        spec_effects(state, window, event)[i] is UpdateParameter,
    ensures
        i + 1 < spec_effects(state, window, event).len(),
        spec_effects(state, window, event)[i + 1] == Effect::RequestRedraw,
{
}

/// Running two runs of events one after the other is running their
/// concatenation.
pub proof fn lemma_run_concat(
    state: ControllerState,
    window: u64,
    first: Seq<Event>,
    second: Seq<Event>,
)
    ensures
        spec_run_state(state, window, first + second) == spec_run_state(
            spec_run_state(state, window, first),
            window,
            second,
        ),
        spec_run_effects(state, window, first + second) == spec_run_effects(state, window, first)
            + spec_run_effects(spec_run_state(state, window, first), window, second),
    decreases first.len(),
{
    if first.len() == 0 {
        assert(first + second =~= second);
    } else {
        assert((first + second).drop_first() =~= first.drop_first() + second);
        lemma_run_concat(spec_next(state, window, first[0]), window, first.drop_first(), second);
    }
}

/// The rotation of a concatenation is the sum of the rotations.
pub proof fn lemma_net_tenths_concat(first: Seq<Effect>, second: Seq<Effect>)
    ensures
        net_tenths(first + second) == net_tenths(first) + net_tenths(second),
    decreases first.len(),
{
    if first.len() == 0 {
        assert(first + second =~= second);
    } else {
        assert((first + second).drop_first() =~= first.drop_first() + second);
        lemma_net_tenths_concat(first.drop_first(), second);
    }
}

/// `count` presses of the key bound to `step` leave an idle controller idle
/// and turn the angle by `count` steps.
pub proof fn lemma_presses_turn(window: u64, step: AngleStep, count: nat)
    ensures
        spec_run_state(ControllerState::Idle, window, presses(window, spec_step_key(step), count))
            == ControllerState::Idle,
        net_tenths(
            spec_run_effects(
                ControllerState::Idle,
                window,
                presses(window, spec_step_key(step), count),
            ),
        ) == count * step.spec_tenths(),
    decreases count,
{
    let key = spec_step_key(step);
    let events = presses(window, key, count);
    if count > 0 {
        let rest = presses(window, key, (count - 1) as nat);
        assert(events.drop_first() =~= rest);
        lemma_presses_turn(window, step, (count - 1) as nat);
        let head = spec_effects(ControllerState::Idle, window, events[0]);
        assert(head =~= seq![Effect::UpdateParameter(step), Effect::RequestRedraw]);
        assert(head.drop_first() =~= seq![Effect::RequestRedraw]);
        assert(head.drop_first().drop_first() =~= Seq::<Effect>::empty());
        assert(net_tenths(head) == step.spec_tenths()) by {
            reveal_with_fuel(net_tenths, 3);
        }
        lemma_net_tenths_concat(head, spec_run_effects(ControllerState::Idle, window, rest));
        assert(count * step.spec_tenths() == step.spec_tenths() + (count - 1)
            * step.spec_tenths()) by (nonlinear_arith);
    }
}

/// Pressing the key of one step `count` times and then the key of the
/// opposite step as many times brings the angle back to where it was, and
/// leaves the controller idle.
pub proof fn lemma_opposite_presses_restore_angle(window: u64, step: AngleStep, count: nat)
    ensures
        spec_run_state(
            ControllerState::Idle,
            window,
            presses(window, spec_step_key(step), count) + presses(
                window,
                spec_step_key(step.spec_inverse()),
                count,
            ),
        ) == ControllerState::Idle,
        net_tenths(
            spec_run_effects(
                ControllerState::Idle,
                window,
                presses(window, spec_step_key(step), count) + presses(
                    window,
                    spec_step_key(step.spec_inverse()),
                    count,
                ),
            ),
        ) == 0,
{
    let there = presses(window, spec_step_key(step), count);
    let back = presses(window, spec_step_key(step.spec_inverse()), count);
    lemma_presses_turn(window, step, count);
    lemma_presses_turn(window, step.spec_inverse(), count);
    lemma_run_concat(ControllerState::Idle, window, there, back);
    lemma_net_tenths_concat(
        spec_run_effects(ControllerState::Idle, window, there),
        spec_run_effects(ControllerState::Idle, window, back),
    );
    assert(count * step.spec_tenths() + count * step.spec_inverse().spec_tenths() == 0)
        by (nonlinear_arith)
        requires
            step.spec_inverse().spec_tenths() == -step.spec_tenths(),
    ;
}

} // verus!
