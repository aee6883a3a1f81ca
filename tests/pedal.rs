use midi_pedal::button::{ButtonBehavior, ButtonConfig, ButtonHandler, ButtonMessage, ButtonState};
use midi_pedal::codec::{decode, encode, handle_midi_message, midi_packet};
use midi_pedal::dispatch::{
    Disconnected, LinkAction, LinkEvent, LinkPhase, MidiHandler, TransportError, MAX_PACKET_SIZE,
};

fn packet(bytes: &[u8]) -> LinkEvent {
    let mut buf = [0u8; MAX_PACKET_SIZE];
    buf[..bytes.len()].copy_from_slice(bytes);
    LinkEvent::Packet(buf, bytes.len())
}

fn running() -> MidiHandler {
    let mut h = MidiHandler::new();
    assert_eq!(h.run(LinkEvent::Connected), LinkAction::Wait);
    assert_eq!(h.phase, LinkPhase::Running);
    h
}

fn sent(h: &mut MidiHandler, m: Option<ButtonMessage>) -> [u8; 4] {
    match h.run(LinkEvent::Button(m.expect("an event"))) {
        LinkAction::Send(p) => p,
        other => panic!("expected a send, got {:?}", other),
    }
}

#[test]
fn press_button_two_under_default_toggle() {
    let mut d = running();
    let mut b = ButtonHandler::new(2, None);
    let p1 = sent(&mut d, b.press());
    assert_eq!(p1, [0x0B, 0xB0, 0x16, 0x7F]);
    assert_eq!(b.release(), None);
    let p2 = sent(&mut d, b.press());
    assert_eq!(p2, [0x0B, 0xB0, 0x16, 0x00]);
    assert_eq!(b.release(), None);
}

#[test]
fn inbound_sets_button_one_momentary() {
    let mut d = running();
    let mut buttons = d.button_tasks();
    let action = d.run(packet(&[0x0B, 0xB0, 0x15, 0x01]));
    assert_eq!(action, LinkAction::Publish(1, ButtonConfig { behavior: ButtonBehavior::Momentary }));
    if let LinkAction::Publish(id, config) = action {
        buttons[id as usize].configure(config);
    }
    let b = &mut buttons[1];
    assert_eq!(b.behavior, ButtonBehavior::Momentary);
    let on = sent(&mut d, b.press());
    assert_eq!(on, [0x0B, 0xB0, 0x15, 0x7F]);
    let off = sent(&mut d, b.release());
    assert_eq!(off, [0x0B, 0xB0, 0x15, 0x00]);
}

#[test]
fn toggle_two_cycles_emit_on_then_off() {
    for id in 0..6u8 {
        let mut b = ButtonHandler::new(id, None);
        let mut values = Vec::new();
        for _ in 0..2 {
            if let Some(m) = b.press() {
                values.push(encode(m)[3]);
            }
            if let Some(m) = b.release() {
                values.push(encode(m)[3]);
            }
        }
        assert_eq!(values, vec![127, 0]);
        assert_eq!(b.state, ButtonState::Off);
    }
}

#[test]
fn momentary_sends_off_only_at_release() {
    let mut b = ButtonHandler::new(4, Some(ButtonConfig { behavior: ButtonBehavior::Momentary }));
    assert_eq!(b.press(), Some(ButtonMessage { button_id: 4, state: ButtonState::On }));
    assert_eq!(b.press(), None);
    assert_eq!(b.release(), Some(ButtonMessage { button_id: 4, state: ButtonState::Off }));
    assert_eq!(b.release(), None);
    assert_eq!(b.state, ButtonState::Off);
}

#[test]
fn tap_sends_on_at_every_press_and_nothing_at_release() {
    let mut b = ButtonHandler::new(0, Some(ButtonConfig { behavior: ButtonBehavior::Tap }));
    for _ in 0..3 {
        assert_eq!(b.press(), Some(ButtonMessage { button_id: 0, state: ButtonState::On }));
        assert_eq!(b.state, ButtonState::On);
        assert_eq!(b.release(), None);
        assert_eq!(b.state, ButtonState::Off);
    }
}

#[test]
fn round_trip_every_button_and_level() {
    for id in 0..6u8 {
        for state in [ButtonState::On, ButtonState::Off] {
            let p = encode(ButtonMessage { button_id: id, state });
            let (controller, value) = decode(&p).expect("well framed");
            assert_eq!(controller, id + 20);
            assert_eq!(value == 127, state == ButtonState::On);
            assert_eq!(value, if state == ButtonState::On { 127 } else { 0 });
        }
    }
}

#[test]
fn malformed_packets_publish_nothing() {
    let bad: Vec<Vec<u8>> = vec![
        vec![],
        vec![0x0B, 0xB0, 0x15],
        vec![0x0B, 0xB0, 0x15, 0x01, 0x00],
        vec![0x0C, 0xB0, 0x15, 0x01],
        vec![0x0B, 0xB1, 0x15, 0x01],
        vec![0x0B, 0xB0, 19, 0x01],
        vec![0x0B, 0xB0, 26, 0x01],
        vec![0x0B, 0xB0, 0, 0x01],
        vec![0x0B, 0xB0, 255, 0x01],
    ];
    for p in bad {
        assert_eq!(handle_midi_message(&p, p.len()), None);
        let mut d = running();
        assert_eq!(d.run(packet(&p)), LinkAction::Wait);
        assert_eq!(d.phase, LinkPhase::Running);
    }
}

#[test]
fn inbound_value_table() {
    let cases = [
        (0x00u8, ButtonBehavior::Toggle),
        (0x01, ButtonBehavior::Momentary),
        (0x02, ButtonBehavior::Tap),
        (0x03, ButtonBehavior::Toggle),
        (0x7F, ButtonBehavior::Toggle),
        (0xFF, ButtonBehavior::Toggle),
    ];
    for (v, behavior) in cases {
        assert_eq!(ButtonBehavior::from(v), behavior);
        assert_eq!(handle_midi_message(&[0x0B, 0xB0, 25, v], 4), Some((5, ButtonConfig { behavior })));
    }
    assert_eq!(handle_midi_message(&[0x0B, 0xB0, 20, 0x02], 4), Some((0, ButtonConfig { behavior: ButtonBehavior::Tap })));
}

#[test]
fn configure_mid_cycle_resets_and_emits_nothing() {
    let mut b = ButtonHandler::new(3, None);
    assert!(b.press().is_some());
    assert_eq!(b.state, ButtonState::On);
    b.configure(ButtonConfig { behavior: ButtonBehavior::Tap });
    assert_eq!(b.state, ButtonState::Off);
    assert!(!b.held);
    assert_eq!(b.press(), Some(ButtonMessage { button_id: 3, state: ButtonState::On }));
    assert_eq!(b.release(), None);

    let mut t = ButtonHandler::new(3, Some(ButtonConfig { behavior: ButtonBehavior::Momentary }));
    assert!(t.press().is_some());
    t.configure(ButtonConfig::default());
    assert_eq!(t.behavior, ButtonBehavior::Toggle);
    assert_eq!(t.release(), None);
    assert_eq!(t.press(), Some(ButtonMessage { button_id: 3, state: ButtonState::On }));
}

#[test]
fn timeout_drops_packet_and_keeps_running() {
    let mut d = running();
    let mut b = ButtonHandler::new(5, None);
    assert_eq!(sent(&mut d, b.press()), [0x0B, 0xB0, 25, 127]);
    assert_eq!(d.run(LinkEvent::SendTimedOut), LinkAction::Wait);
    assert_eq!(d.phase, LinkPhase::Running);
    b.release();
    assert_eq!(sent(&mut d, b.press()), [0x0B, 0xB0, 25, 0]);
    assert_eq!(
        d.run(packet(&[0x0B, 0xB0, 25, 0x02])),
        LinkAction::Publish(5, ButtonConfig { behavior: ButtonBehavior::Tap })
    );
}

#[test]
fn disabled_endpoint_returns_to_awaiting_connection() {
    let mut d = running();
    assert_eq!(d.run(LinkEvent::Failed(TransportError::BufferOverflow)), LinkAction::Wait);
    assert_eq!(d.phase, LinkPhase::Running);
    assert_eq!(d.run(LinkEvent::Failed(TransportError::Disabled)), LinkAction::Reconnect);
    assert_eq!(d.phase, LinkPhase::AwaitingConnection);
    let m = ButtonMessage { button_id: 0, state: ButtonState::On };
    assert_eq!(d.run(LinkEvent::Button(m)), LinkAction::Wait);
    assert_eq!(d.run(LinkEvent::Connected), LinkAction::Wait);
    assert_eq!(d.phase, LinkPhase::Running);
    assert_eq!(d.run(LinkEvent::Button(m)), LinkAction::Send([0x0B, 0xB0, 20, 127]));
}

#[test]
fn disconnected_only_for_disabled_endpoint() {
    assert_eq!(Disconnected::from_error(TransportError::Disabled), Some(Disconnected {}));
    assert_eq!(Disconnected::from_error(TransportError::BufferOverflow), None);
}

#[test]
fn new_dispatcher_awaits_connection() {
    let mut d = MidiHandler::new();
    assert_eq!(d.phase, LinkPhase::AwaitingConnection);
    assert_eq!(d.run(packet(&[0x0B, 0xB0, 0x15, 0x01])), LinkAction::Wait);
    assert_eq!(d.phase, LinkPhase::AwaitingConnection);
}

#[test]
fn button_tasks_start_released_toggle_off() {
    let d = MidiHandler::new();
    let tasks = d.button_tasks();
    for (i, t) in tasks.iter().enumerate() {
        assert_eq!(t.id as usize, i);
        assert_eq!(t.behavior, ButtonBehavior::Toggle);
        assert_eq!(t.state, ButtonState::Off);
        assert!(!t.held);
    }
}

#[test]
fn midi_packet_masks_data_bytes() {
    assert_eq!(midi_packet(0x96, 0xFF), [0x0B, 0xB0, 0x16, 0x7F]);
    assert_eq!(midi_packet(20, 0), [0x0B, 0xB0, 20, 0]);
}

#[test]
fn state_toggle_flips() {
    assert_eq!(ButtonState::On.toggle(), ButtonState::Off);
    assert_eq!(ButtonState::Off.toggle(), ButtonState::On);
    assert_eq!(ButtonBehavior::default(), ButtonBehavior::Toggle);
}
