//! A USB MIDI device function: event packet encoding, the class-specific
//! descriptor layout, and the mapping of a noisy analog control onto a stream of
//! MIDI control changes, with hysteresis.
pub mod packet;
pub mod class;
pub mod mapper;
pub mod laws;
pub mod sequencer;
pub mod echo;
