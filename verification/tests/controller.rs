use pixel_fill::controller::{
    key_step, transition, Controller, ControllerState, Effect, Event, EventKind, Key,
    DECREASE_ANGLE_KEY, INCREASE_ANGLE_KEY,
};
use pixel_fill::params::AngleStep;

const WINDOW: u64 = 42;

const OTHER_WINDOW: u64 = 43;

fn all_kinds() -> Vec<EventKind> {
    vec![
        EventKind::CloseRequested,
        EventKind::Resized { width: 800, height: 600 },
        EventKind::KeyDown(Key::Q),
        EventKind::KeyDown(Key::E),
        EventKind::KeyDown(Key::Other),
        EventKind::RedrawRequested,
    ]
}

#[test]
fn key_bindings() {
    assert_eq!(INCREASE_ANGLE_KEY, Key::Q);
    assert_eq!(DECREASE_ANGLE_KEY, Key::E);
    assert_eq!(key_step(Key::Q), Some(AngleStep::Increase));
    assert_eq!(key_step(Key::E), Some(AngleStep::Decrease));
    assert_eq!(key_step(Key::Other), None);
}

#[test]
fn close_request_for_tracked_window_closes() {
    let mut controller = Controller::new(WINDOW);
    assert_eq!(controller.state(), ControllerState::Idle);
    assert!(!controller.is_closing());
    let effects = controller.handle(&Event { window: WINDOW, kind: EventKind::CloseRequested });
    assert_eq!(effects, vec![Effect::Exit]);
    assert_eq!(controller.state(), ControllerState::Closing);
    assert!(controller.is_closing());
    assert_eq!(controller.window(), WINDOW);
}

#[test]
fn close_request_for_unrelated_window_is_filtered() {
    let mut controller = Controller::new(WINDOW);
    let effects =
        controller.handle(&Event { window: OTHER_WINDOW, kind: EventKind::CloseRequested });
    assert_eq!(effects, vec![]);
    assert_eq!(controller.state(), ControllerState::Idle);
    assert!(!controller.is_closing());
}

#[test]
fn increase_key_updates_and_requests_redraw() {
    let mut controller = Controller::new(WINDOW);
    let effects = controller.handle(&Event { window: WINDOW, kind: EventKind::KeyDown(Key::Q) });
    assert_eq!(effects, vec![Effect::UpdateParameter(AngleStep::Increase), Effect::RequestRedraw]);
    assert_eq!(controller.state(), ControllerState::Idle);
}

#[test]
fn decrease_key_updates_and_requests_redraw() {
    let mut controller = Controller::new(WINDOW);
    let effects = controller.handle(&Event { window: WINDOW, kind: EventKind::KeyDown(Key::E) });
    assert_eq!(effects, vec![Effect::UpdateParameter(AngleStep::Decrease), Effect::RequestRedraw]);
    assert_eq!(controller.state(), ControllerState::Idle);
}

#[test]
fn unbound_key_does_nothing() {
    let mut controller = Controller::new(WINDOW);
    let effects =
        controller.handle(&Event { window: WINDOW, kind: EventKind::KeyDown(Key::Other) });
    assert_eq!(effects, vec![]);
    assert_eq!(controller.state(), ControllerState::Idle);
}

#[test]
fn resize_requests_redraw() {
    let mut controller = Controller::new(WINDOW);
    let effects = controller
        .handle(&Event { window: WINDOW, kind: EventKind::Resized { width: 640, height: 480 } });
    assert_eq!(effects, vec![Effect::RequestRedraw]);
    assert_eq!(controller.state(), ControllerState::Idle);
    let effects = controller
        .handle(&Event { window: WINDOW, kind: EventKind::Resized { width: 0, height: 0 } });
    assert_eq!(effects, vec![Effect::RequestRedraw]);
}

#[test]
fn redraw_request_renders_one_frame() {
    let mut controller = Controller::new(WINDOW);
    let effects = controller.handle(&Event { window: WINDOW, kind: EventKind::RedrawRequested });
    assert_eq!(effects, vec![Effect::RenderFrame]);
    assert_eq!(controller.state(), ControllerState::Idle);
}

#[test]
fn events_for_other_windows_are_ignored() {
    for kind in all_kinds() {
        let mut controller = Controller::new(WINDOW);
        let effects = controller.handle(&Event { window: OTHER_WINDOW, kind });
        assert_eq!(effects, vec![]);
        assert_eq!(controller.state(), ControllerState::Idle);
    }
}

#[test]
fn closing_is_terminal() {
    let mut controller = Controller::new(WINDOW);
    controller.handle(&Event { window: WINDOW, kind: EventKind::CloseRequested });
    for window in [WINDOW, OTHER_WINDOW] {
        for kind in all_kinds() {
            let effects = controller.handle(&Event { window, kind });
            assert_eq!(effects, vec![]);
            assert_eq!(controller.state(), ControllerState::Closing);
        }
    }
}

#[test]
fn transition_is_a_function_of_state_window_and_event() {
    for kind in all_kinds() {
        let event = Event { window: WINDOW, kind };
        let first = transition(ControllerState::Idle, WINDOW, &event);
        let second = transition(ControllerState::Idle, WINDOW, &event);
        assert_eq!(first.next, second.next);
        assert_eq!(first.effects, second.effects);
        let mut controller = Controller::new(WINDOW);
        let effects = controller.handle(&event);
        assert_eq!(effects, first.effects);
        assert_eq!(controller.state(), first.next);
    }
}

#[test]
fn transition_table() {
    let idle = ControllerState::Idle;
    let closing = ControllerState::Closing;
    let t = transition(idle, WINDOW, &Event { window: WINDOW, kind: EventKind::CloseRequested });
    assert_eq!((t.next, t.effects), (closing, vec![Effect::Exit]));
    let t = transition(idle, WINDOW, &Event { window: WINDOW, kind: EventKind::RedrawRequested });
    assert_eq!((t.next, t.effects), (idle, vec![Effect::RenderFrame]));
    let t = transition(closing, WINDOW, &Event { window: WINDOW, kind: EventKind::RedrawRequested });
    assert_eq!((t.next, t.effects), (closing, vec![]));
    let t = transition(closing, WINDOW, &Event { window: WINDOW, kind: EventKind::CloseRequested });
    assert_eq!((t.next, t.effects), (closing, vec![]));
    let t = transition(idle, WINDOW, &Event { window: 0, kind: EventKind::CloseRequested });
    assert_eq!((t.next, t.effects), (idle, vec![]));
}

#[test]
fn every_update_is_followed_by_a_redraw_request() {
    for state in [ControllerState::Idle, ControllerState::Closing] {
        for window in [WINDOW, OTHER_WINDOW] {
            for kind in all_kinds() {
                let effects = transition(state, WINDOW, &Event { window, kind }).effects;
                for (i, effect) in effects.iter().enumerate() {
                    if let Effect::UpdateParameter(_) = effect {
                        assert_eq!(effects.get(i + 1), Some(&Effect::RequestRedraw));
                    }
                }
            }
        }
    }
}

#[test]
fn opposite_presses_cancel_out() {
    for first in [AngleStep::Increase, AngleStep::Decrease] {
        let there = if first == AngleStep::Increase { Key::Q } else { Key::E };
        let back = if first == AngleStep::Increase { Key::E } else { Key::Q };
        let mut controller = Controller::new(WINDOW);
        let mut net = 0;
        for key in [there, there, there, back, back, back] {
            for effect in controller.handle(&Event { window: WINDOW, kind: EventKind::KeyDown(key) }) {
                if let Effect::UpdateParameter(step) = effect {
                    net += step.tenths();
                }
            }
        }
        assert_eq!(net, 0);
        assert_eq!(controller.state(), ControllerState::Idle);
    }
}

#[test]
fn presses_add_up() {
    let mut controller = Controller::new(WINDOW);
    let mut net = 0;
    for key in [Key::Q, Key::Q, Key::Other, Key::E, Key::Q, Key::Q] {
        for effect in controller.handle(&Event { window: WINDOW, kind: EventKind::KeyDown(key) }) {
            if let Effect::UpdateParameter(step) = effect {
                net += step.tenths();
            }
        }
    }
    assert_eq!(net, 3);
}
