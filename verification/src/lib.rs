//! The session core of a voice-channel media player.
//!
//! For each group the core keeps at most one playback session: the voice
//! channel it is bound to, a first-in-first-out queue of requested tracks,
//! and the track that is playing. [`manager::SessionManager`] is the registry
//! of sessions, [`session::Session`] the state machine of one of them, and
//! [`laws`] holds what is proved of both.
//!
//! The core is reactive and does no input or output. Whatever suspends the
//! caller (joining or leaving a channel, starting or halting a track, asking
//! a catalogue) is carried out by the caller: an operation of the core says
//! what is to be done, and a later one takes the outcome. Each operation is
//! one step on the registry, which it holds exclusively; between the steps
//! of one caller those of others may take effect in any order. The registry
//! therefore reserves a group for the caller it tells to join, and [`laws`]
//! states what holds of every order of steps.
//!
//! Around the sessions stand the rules of the player's adapters: how a
//! failure is answered ([`reply`]), how the answers of the catalogues become
//! metadata ([`resolver`]), and which backend opens a source ([`provider`]).

pub mod error;
pub mod laws;
pub mod manager;
pub mod provider;
pub mod reply;
pub mod resolver;
pub mod session;
pub mod text;
pub mod track;
pub mod util;
