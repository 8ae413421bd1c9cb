//! Audio: the PC speaker, HDA stream descriptors, and codecs and amplifiers
//! on the I²C bus.
pub mod maxim;
pub mod pc_speaker;
pub mod rt5682;
pub mod stream;
