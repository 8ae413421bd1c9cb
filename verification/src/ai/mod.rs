//! Voice shell, speech engines, voice activity detection and swarm messaging.
pub mod shell;
pub mod perception;
pub mod speech;
pub mod swarm;
