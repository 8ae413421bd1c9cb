//! The PC speaker: PIT channel 2 programmed as a square wave and gated onto
//! the speaker through port 0x61.
use vstd::prelude::*;
use crate::port::{PortEvent, PortIo};

verus! {

/// PIT channel 2 data port.
pub const PIT_CHANNEL2_PORT: u16 = 0x42;
/// PIT mode/command port.
pub const PIT_COMMAND_PORT: u16 = 0x43;
/// Keyboard controller port B: bits 0-1 gate the speaker.
pub const SPEAKER_PORT: u16 = 0x61;
/// Channel 2, low byte then high byte, mode 3 (square wave), binary.
pub const PIT_SQUARE_WAVE_CH2: u8 = 0xB6;
/// The PIT input clock in Hz.
pub const PIT_FREQUENCY: u32 = 1193180;

/// Stopping the sound: read port B (giving `status`), write it back with the
/// two gate bits cleared.
pub open spec fn stop_trace(status: u8) -> Seq<PortEvent> {
    seq![PortEvent::Read { port: SPEAKER_PORT, value: status }, PortEvent::Write { port: SPEAKER_PORT, value: status & 0xFC }]
}

/// Playing `hz` (non-zero): program channel 2 with divisor `1193180 / hz`
/// (low byte, then the next byte), read port B (giving `status`) and set the
/// two gate bits where they are not both set.
pub open spec fn play_trace(hz: u32, status: u8) -> Seq<PortEvent> {
    let divisor = PIT_FREQUENCY / hz;
    seq![
        PortEvent::Write { port: PIT_COMMAND_PORT, value: PIT_SQUARE_WAVE_CH2 },
        PortEvent::Write { port: PIT_CHANNEL2_PORT, value: (divisor & 0xFF) as u8 },
        PortEvent::Write { port: PIT_CHANNEL2_PORT, value: ((divisor >> 8) & 0xFF) as u8 },
        PortEvent::Read { port: SPEAKER_PORT, value: status },
    ] + (if status != (status | 3) {
        seq![PortEvent::Write { port: SPEAKER_PORT, value: status | 3 }]
    } else {
        Seq::empty()
    })
}

/// The accesses of playing `hz`, where port B read `status`.
pub open spec fn tone_trace(hz: u32, status: u8) -> Seq<PortEvent> {
    if hz == 0 { stop_trace(status) } else { play_trace(hz, status) }
}

/// The PC speaker on its ports.
pub struct PcSpeaker<P> {
    pub ports: P,
}

impl<P: PortIo> PcSpeaker<P> {
    pub fn new(ports: P) -> (s: Self)
        ensures
            s.ports == ports,
    {
        PcSpeaker { ports }
    }

    /// Sounds a tone of `hz`; zero stops the sound.
    pub fn play_sound(&mut self, hz: u32)
        ensures
            exists|status: u8| final(self).ports.events() == old(self).ports.events() + #[trigger] tone_trace(hz, status),
    {
        if hz == 0 {
            self.stop_sound();
            proof {
                let s = choose|s: u8| self.ports.events() == old(self).ports.events() + #[trigger] stop_trace(s);
                assert(tone_trace(hz, s) == stop_trace(s));
            }
            return;
        }
        let divisor = PIT_FREQUENCY / hz;
        self.ports.write_port(PIT_COMMAND_PORT, PIT_SQUARE_WAVE_CH2);
        self.ports.write_port(PIT_CHANNEL2_PORT, (divisor & 0xFF) as u8);
        self.ports.write_port(PIT_CHANNEL2_PORT, ((divisor >> 8) & 0xFF) as u8);
        let status = self.ports.read_port(SPEAKER_PORT);
        if status != (status | 3) {
            self.ports.write_port(SPEAKER_PORT, status | 3);
        }
        assert(self.ports.events() =~= old(self).ports.events() + tone_trace(hz, status));
    }

    /// Clears the speaker's gate bits.
    pub fn stop_sound(&mut self)
        ensures
            exists|status: u8| final(self).ports.events() == old(self).ports.events() + #[trigger] stop_trace(status),
    {
        let status = self.ports.read_port(SPEAKER_PORT) & 0xFC;
        self.ports.write_port(SPEAKER_PORT, status);
        let ghost read = self.ports.events()[self.ports.events().len() - 2];
        proof {
            let s = read->Read_value;
            assert(self.ports.events() =~= old(self).ports.events() + stop_trace(s));
        }
    }
}

/// A short 1000 Hz beep.
pub fn beep<P: PortIo>(speaker: &mut PcSpeaker<P>)
    ensures
        exists|status: u8| final(speaker).ports.events() == old(speaker).ports.events() + #[trigger] play_trace(1000, status),
{
    speaker.play_sound(1000);
}

/// The 1200 Hz alert sounded when an audio device is found.
pub fn audio_discovered_alert<P: PortIo>(speaker: &mut PcSpeaker<P>)
    ensures
        exists|status: u8| final(speaker).ports.events() == old(speaker).ports.events() + #[trigger] play_trace(1200, status),
{
    speaker.play_sound(1200);
}

} // verus!
