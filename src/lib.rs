//! Logic of a six-switch USB-MIDI foot pedal: per-button trigger state
//! machines, the Control Change packet codec, and the dispatcher's decisions.

pub mod button;
pub mod codec;
pub mod dispatch;
