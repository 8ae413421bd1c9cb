//! One master type for whichever I²C controller the machine has.
use vstd::prelude::*;
use crate::i2c::{I2cError, I2cMaster, I2cSpeed};
use crate::i2c::bitbang::{GpioBitbang, GpioPort};
use crate::i2c::smbus_host::{Ich9Host, Piix4Host};
use crate::port::PortIo;

verus! {

/// The machine's I²C master: GPIO lines driven by software, or one of the
/// two SMBus host controllers.
pub enum AnyMaster<G: GpioPort, P: PortIo> {
    Gpio(GpioBitbang<G>),
    Piix4(Piix4Host<P>),
    Ich9(Ich9Host<P>),
}

impl<G: GpioPort, P: PortIo> I2cMaster for AnyMaster<G, P> {
    open spec fn transfers(&self) -> Seq<(u8, Seq<u8>, nat, Result<usize, I2cError>, Seq<u8>)> {
        match self {
            AnyMaster::Gpio(b) => b.transfers(),
            AnyMaster::Piix4(b) => b.transfers(),
            AnyMaster::Ich9(b) => b.transfers(),
        }
    }

    open spec fn probes(&self) -> Seq<(u8, bool)> {
        match self {
            AnyMaster::Gpio(b) => b.probes(),
            AnyMaster::Piix4(b) => b.probes(),
            AnyMaster::Ich9(b) => b.probes(),
        }
    }

    fn name(&self) -> &'static str {
        match self {
            AnyMaster::Gpio(b) => b.name(),
            AnyMaster::Piix4(b) => b.name(),
            AnyMaster::Ich9(b) => b.name(),
        }
    }

    fn transfer(&mut self, addr: u8, write_buf: &[u8], read_buf: &mut Vec<u8>) -> (r: Result<usize, I2cError>) {
        match self {
            AnyMaster::Gpio(b) => b.transfer(addr, write_buf, read_buf),
            AnyMaster::Piix4(b) => b.transfer(addr, write_buf, read_buf),
            AnyMaster::Ich9(b) => b.transfer(addr, write_buf, read_buf),
        }
    }

    fn set_speed(&mut self, speed: I2cSpeed) {
        match self {
            AnyMaster::Gpio(b) => b.set_speed(speed),
            AnyMaster::Piix4(b) => b.set_speed(speed),
            AnyMaster::Ich9(b) => b.set_speed(speed),
        }
    }

    fn probe(&mut self, addr: u8) -> (present: bool) {
        match self {
            AnyMaster::Gpio(b) => b.probe(addr),
            AnyMaster::Piix4(b) => b.probe(addr),
            AnyMaster::Ich9(b) => b.probe(addr),
        }
    }
}

} // verus!
