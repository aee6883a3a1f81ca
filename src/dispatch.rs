use vstd::prelude::*;
use crate::button::{BUTTON_COUNT, ButtonConfig, ButtonHandler, ButtonMessage, idle_handler, ButtonBehavior};
use crate::codec::{
    CC_STATUS, FIRST_CONTROLLER, PACKET_HEADER, config_update, encode, encoded,
    handle_midi_message, lemma_malformed_ignored,
};

verus! {

/// Outbound sends are abandoned when the host has not taken them within this
/// many milliseconds.
pub const SEND_TIMEOUT_MS: u64 = 10;

/// Hold after a detected press edge before waiting for the release.
pub const DEBOUNCE_MS: u64 = 20;

/// Capacity of the queue between the buttons and the dispatcher.
pub const EVENT_QUEUE_CAPACITY: usize = 16;

/// Size of the buffer that inbound packets are read into.
pub const MAX_PACKET_SIZE: usize = 64;

/// An error reported by the USB endpoint.
#[derive(Clone, Copy, Debug, PartialEq, Eq, Structural)]
pub enum TransportError {
    /// The packet did not fit the endpoint's buffer.
    BufferOverflow,
    /// The endpoint is disabled: the host went away.
    Disabled,
}

/// The link to the host was lost.
#[derive(Clone, Copy, Debug, PartialEq, Eq, Structural)]
pub struct Disconnected {}

impl Disconnected {
    /// Whether an endpoint error means that the link is lost.
    pub fn from_error(e: TransportError) -> (r: Option<Disconnected>)
        ensures
            r.is_some() <==> e == TransportError::Disabled,
    {
        match e {
            TransportError::BufferOverflow => None,
            TransportError::Disabled => Some(Disconnected {}),
        }
    }
}

/// Whether the dispatcher waits for the host or serves it.
#[derive(Clone, Copy, Debug, PartialEq, Eq, Structural)]
pub enum LinkPhase {
    AwaitingConnection,
    Running,
}

/// What the dispatcher's loop has just observed.
#[derive(Debug)]
pub enum LinkEvent {
    /// The host configured the device.
    Connected,
    /// A button event came off the queue.
    Button(ButtonMessage),
    /// A packet was read from the host: the buffer and how many bytes of it
    /// were filled.
    Packet([u8; MAX_PACKET_SIZE], usize),
    /// An outbound send was abandoned after `SEND_TIMEOUT_MS`.
    SendTimedOut,
    /// A send or a read failed.
    Failed(TransportError),
}

/// What the dispatcher's loop is to do next.
#[derive(Clone, Copy, Debug, PartialEq, Eq)]
pub enum LinkAction {
    /// Nothing: go on waiting for the next event.
    Wait,
    /// Send this packet, bounded by `SEND_TIMEOUT_MS`; drop it on timeout.
    Send([u8; 4]),
    /// Publish the configuration to the channel of this button.
    Publish(u8, ButtonConfig),
    /// Wait for the host to connect again.
    Reconnect,
}

pub open spec fn event_wf(e: LinkEvent) -> bool {
    match e {
        LinkEvent::Button(m) => m.wf(),
        LinkEvent::Packet(_, n) => n <= MAX_PACKET_SIZE,
        _ => true,
    }
}

/// The action that an inbound packet calls for.
pub open spec fn inbound_action(p: Seq<u8>) -> LinkAction {
    match config_update(p) {
        Some((id, c)) => LinkAction::Publish(id, c),
        None => LinkAction::Wait,
    }
}

/// The dispatcher: the single loop that sends button events to the host and
/// turns the host's Control Change packets into button configurations.
#[derive(Clone, Copy, Debug, PartialEq, Eq, Structural)]
pub struct MidiHandler {
    pub phase: LinkPhase,
}

impl MidiHandler {
    /// One turn of the loop: from `self`, event `e` leads to `next` and action `a`.
    pub open spec fn transition(self, e: LinkEvent, next: MidiHandler, a: LinkAction) -> bool {
        match self.phase {
            LinkPhase::AwaitingConnection => a == LinkAction::Wait && next.phase == match e {
                LinkEvent::Connected => LinkPhase::Running,
                _ => LinkPhase::AwaitingConnection,
            },
            LinkPhase::Running => match e {
                LinkEvent::Connected => next == self && a == LinkAction::Wait,
                LinkEvent::SendTimedOut => next == self && a == LinkAction::Wait,
                LinkEvent::Button(m) => next == self && match a {
                    LinkAction::Send(p) => p@ == encoded(m),
                    _ => false,
                },
                LinkEvent::Packet(buf, n) => next == self && a == inbound_action(
                    buf@.subrange(0, n as int),
                ),
                LinkEvent::Failed(err) => match err {
                    TransportError::Disabled => next.phase == LinkPhase::AwaitingConnection
                        && a == LinkAction::Reconnect,
                    TransportError::BufferOverflow => next == self && a == LinkAction::Wait,
                },
            },
        }
    }

    /// A dispatcher that waits for the host.
    pub fn new() -> (r: MidiHandler)
        ensures
            r.phase == LinkPhase::AwaitingConnection,
    {
        MidiHandler { phase: LinkPhase::AwaitingConnection }
    }

    /// The state machines of the six buttons at power-up, in order of id.
    pub fn button_tasks(&self) -> (r: [ButtonHandler; 6])
        ensures
            forall|i: int|
                0 <= i < 6 ==> #[trigger] r@[i] == idle_handler(i as u8, ButtonBehavior::Toggle),
    {
        let r = [
            ButtonHandler::new(0, None),
            ButtonHandler::new(1, None),
            ButtonHandler::new(2, None),
            ButtonHandler::new(3, None),
            ButtonHandler::new(4, None),
            ButtonHandler::new(5, None),
        ];
        assert(r@ =~= seq![
            idle_handler(0, ButtonBehavior::Toggle),
            idle_handler(1, ButtonBehavior::Toggle),
            idle_handler(2, ButtonBehavior::Toggle),
            idle_handler(3, ButtonBehavior::Toggle),
            idle_handler(4, ButtonBehavior::Toggle),
            idle_handler(5, ButtonBehavior::Toggle),
        ]);
        r
    }

    /// Runs one turn of the dispatch loop: takes what the loop observed and
    /// says what it is to do.
    pub fn run(&mut self, e: LinkEvent) -> (r: LinkAction)
        requires
            event_wf(e),
        ensures
            old(self).transition(e, *final(self), r),
    {
        match self.phase {
            LinkPhase::AwaitingConnection => {
                if let LinkEvent::Connected = e {
                    self.phase = LinkPhase::Running;
                }
                LinkAction::Wait
            },
            LinkPhase::Running => match e {
                LinkEvent::Connected => LinkAction::Wait,
                LinkEvent::SendTimedOut => LinkAction::Wait,
                LinkEvent::Button(m) => LinkAction::Send(encode(m)),
                LinkEvent::Packet(buf, n) => match handle_midi_message(&buf, n) {
                    Some((id, c)) => LinkAction::Publish(id, c),
                    None => LinkAction::Wait,
                },
                LinkEvent::Failed(err) => match Disconnected::from_error(err) {
                    Some(_) => {
                        self.phase = LinkPhase::AwaitingConnection;
                        LinkAction::Reconnect
                    },
                    None => LinkAction::Wait,
                },
            },
        }
    }
}

/// A malformed inbound packet (see `lemma_malformed_ignored`) never leads the
/// dispatcher to publish a configuration, whatever its phase.
pub proof fn lemma_malformed_publishes_nothing(
    h: MidiHandler,
    buf: [u8; MAX_PACKET_SIZE],
    n: usize,
    next: MidiHandler,
    a: LinkAction,
)
    requires
        n <= MAX_PACKET_SIZE,
        n != 4 || buf@[0] != PACKET_HEADER || buf@[1] != CC_STATUS || buf@[2] < FIRST_CONTROLLER
            || buf@[2] >= FIRST_CONTROLLER + BUTTON_COUNT,
        h.transition(LinkEvent::Packet(buf, n), next, a),
    ensures
        !(a is Publish),
        next == h,
{
    let p = buf@.subrange(0, n as int);
    lemma_malformed_ignored(p);
}

/// An abandoned send leaves a running dispatcher exactly as it was, with
/// nothing to resend, so the next queued event or inbound packet is handled as
/// if the send had completed.
pub proof fn lemma_timeout_does_not_block(
    h: MidiHandler,
    next: MidiHandler,
    a: LinkAction,
    e: LinkEvent,
    next2: MidiHandler,
    a2: LinkAction,
)
    requires
        h.phase == LinkPhase::Running,
        h.transition(LinkEvent::SendTimedOut, next, a),
    ensures
        next == h,
        a == LinkAction::Wait,
        next.transition(e, next2, a2) == h.transition(e, next2, a2),
{
}

} // verus!
