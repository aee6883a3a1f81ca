use vstd::prelude::*;
use crate::button::{BUTTON_COUNT, ButtonBehavior, ButtonConfig, ButtonMessage, ButtonState};

verus! {

/// USB-MIDI event header: cable 0, code index "Control Change".
pub const PACKET_HEADER: u8 = 0x0b;

/// MIDI status byte: Control Change on channel 0.
pub const CC_STATUS: u8 = 0xb0;

/// Controller number of button 0; button `i` uses `FIRST_CONTROLLER + i`.
pub const FIRST_CONTROLLER: u8 = 20;

/// Outbound value of an On event.
pub const VALUE_ON: u8 = 127;

/// Outbound value of an Off event.
pub const VALUE_OFF: u8 = 0;

/// The four bytes of a Control Change packet on channel 0, with both data
/// bytes cut to seven bits.
pub open spec fn cc_packet(control_number: u8, value: u8) -> Seq<u8> {
    seq![PACKET_HEADER, CC_STATUS, control_number & 0x7f, value & 0x7f]
}

pub open spec fn value_of(s: ButtonState) -> u8 {
    match s {
        ButtonState::On => VALUE_ON,
        ButtonState::Off => VALUE_OFF,
    }
}

/// Wire form of a button event.
pub open spec fn encoded(m: ButtonMessage) -> Seq<u8> {
    seq![PACKET_HEADER, CC_STATUS, (m.button_id + FIRST_CONTROLLER) as u8, value_of(m.state)]
}

/// Controller and value of a well-framed Control Change packet.
pub open spec fn decoded(p: Seq<u8>) -> Option<(u8, u8)> {
    if p.len() == 4 && p[0] == PACKET_HEADER && p[1] == CC_STATUS {
        Some((p[2], p[3]))
    } else {
        None
    }
}

/// The button that a controller number addresses.
pub open spec fn button_of_controller(c: u8) -> Option<u8> {
    if FIRST_CONTROLLER <= c && c < FIRST_CONTROLLER + BUTTON_COUNT {
        Some((c - FIRST_CONTROLLER) as u8)
    } else {
        None
    }
}

/// Behavior selected by an inbound value byte; unknown values select Toggle.
pub open spec fn behavior_of(v: u8) -> ButtonBehavior {
    if v == 1 {
        ButtonBehavior::Momentary
    } else if v == 2 {
        ButtonBehavior::Tap
    } else {
        ButtonBehavior::Toggle
    }
}

/// The reconfiguration that an inbound packet asks for: the button and the
/// configuration to publish to it.
pub open spec fn config_update(p: Seq<u8>) -> Option<(u8, ButtonConfig)> {
    match decoded(p) {
        Some((c, v)) => match button_of_controller(c) {
            Some(id) => Some((id, ButtonConfig { behavior: behavior_of(v) })),
            None => None,
        },
        None => None,
    }
}

proof fn lemma_low_seven_bits(x: u8)
    requires
        x < 128,
    ensures
        x & 0x7f == x,
{
    assert(x < 128 ==> x & 0x7f == x) by (bit_vector);
}

/// Constructs a USB-MIDI Control Change packet on channel 0. Only the low
/// seven bits of `control_number` and `value` are kept.
pub fn midi_packet(control_number: u8, value: u8) -> (r: [u8; 4])
    ensures
        r@ == cc_packet(control_number, value),
{
    let r = [PACKET_HEADER, CC_STATUS, 0x7f & control_number, 0x7f & value];
    assert(0x7f & control_number == control_number & 0x7f) by (bit_vector);
    assert(0x7f & value == value & 0x7f) by (bit_vector);
    assert(r@ =~= cc_packet(control_number, value));
    r
}

/// Encodes a button event as an outbound Control Change packet.
pub fn encode(m: ButtonMessage) -> (r: [u8; 4])
    requires
        m.wf(),
    ensures
        r@ == encoded(m),
{
    let control_number = m.button_id + FIRST_CONTROLLER;
    let value = match m.state {
        ButtonState::On => VALUE_ON,
        ButtonState::Off => VALUE_OFF,
    };
    let r = midi_packet(control_number, value);
    proof {
        lemma_low_seven_bits(control_number);
        lemma_low_seven_bits(value);
    }
    assert(r@ =~= encoded(m));
    r
}

/// Reads controller and value from a received packet; `None` unless the
/// packet is four bytes long and starts with the Control Change header of
/// channel 0.
pub fn decode(p: &[u8]) -> (r: Option<(u8, u8)>)
    ensures
        r == decoded(p@),
{
    if p.len() != 4 {
        return None;
    }
    if p[0] != PACKET_HEADER || p[1] != CC_STATUS {
        return None;
    }
    Some((p[2], p[3]))
}

impl From<u8> for ButtonBehavior {
    fn from(value: u8) -> (r: Self) {
        match value {
            0x00 => ButtonBehavior::Toggle,
            0x01 => ButtonBehavior::Momentary,
            0x02 => ButtonBehavior::Tap,
            _ => ButtonBehavior::Toggle,
        }
    }
}

impl vstd::std_specs::convert::FromSpecImpl<u8> for ButtonBehavior {
    open spec fn obeys_from_spec() -> bool {
        true
    }

    open spec fn from_spec(v: u8) -> ButtonBehavior {
        behavior_of(v)
    }
}

/// Decides what an inbound packet, the first `size` bytes of `message`, asks
/// for: `Some((button_id, config))` when it is a Control Change for one of the
/// buttons, `None` when it is to be discarded.
pub fn handle_midi_message(message: &[u8], size: usize) -> (r: Option<(u8, ButtonConfig)>)
    requires
        size <= message@.len(),
    ensures
        r == config_update(message@.subrange(0, size as int)),
{
    if size != 4 {
        return None;
    }
    if message[0] != PACKET_HEADER || message[1] != CC_STATUS {
        return None;
    }
    let controller = message[2];
    if controller < FIRST_CONTROLLER || controller - FIRST_CONTROLLER >= BUTTON_COUNT {
        return None;
    }
    let behavior = ButtonBehavior::from(message[3]);
    Some((controller - FIRST_CONTROLLER, ButtonConfig { behavior }))
}

/// Decoding an encoded button event gives back its button (through the
/// controller number) and its level (On exactly when the value is 127).
pub proof fn lemma_decode_encode(m: ButtonMessage)
    requires
        m.wf(),
    ensures
        decoded(encoded(m)) == Some(((m.button_id + FIRST_CONTROLLER) as u8, value_of(m.state))),
        button_of_controller((m.button_id + FIRST_CONTROLLER) as u8) == Some(m.button_id),
        (value_of(m.state) == VALUE_ON) <==> (m.state == ButtonState::On),
{
}

/// A packet of the wrong length, with the wrong header, or addressed to a
/// controller outside the buttons' range asks for no reconfiguration.
pub proof fn lemma_malformed_ignored(p: Seq<u8>)
    requires
        p.len() != 4 || p[0] != PACKET_HEADER || p[1] != CC_STATUS || p[2] < FIRST_CONTROLLER
            || p[2] >= FIRST_CONTROLLER + BUTTON_COUNT,
    ensures
        config_update(p) is None,
{
}

} // verus!
