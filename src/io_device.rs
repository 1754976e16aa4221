//! Peripheral devices that can sit on an I/O address: data holders with at
//! most one readable byte.
use vstd::prelude::*;

verus! {

/// A peripheral and the byte it holds.
#[derive(Debug, Copy, Clone, PartialEq, Eq, Structural)]
pub enum IoDevice {
    Nothing,
    Bargraph(u8),
    HexDisplay(u8),
    SevenSeg(u8),
    StepperMotor(u8),
    DILSwitch(u8),
    KeyPad(u8),
    IRQFlipFlop(u8),
}

impl IoDevice {
    /// The byte a read of the device gives: none without a device, always
    /// zero from a bargraph, else the byte the device holds.
    pub open spec fn spec_read(self) -> Option<u8> {
        match self {
            IoDevice::Nothing => None,
            IoDevice::Bargraph(_) => Some(0),
            IoDevice::HexDisplay(stored) => Some(stored),
            IoDevice::SevenSeg(stored) => Some(stored),
            IoDevice::StepperMotor(stored) => Some(stored),
            IoDevice::DILSwitch(stored) => Some(stored),
            IoDevice::KeyPad(stored) => Some(stored),
            IoDevice::IRQFlipFlop(stored) => Some(stored),
        }
    }

    /// The byte a read of the device gives.
    pub fn read(&self) -> (r: Option<u8>)
        ensures
            r == self.spec_read(),
    {
        let res = match self {
            IoDevice::Nothing => return None,
            IoDevice::Bargraph(_) => 0,
            IoDevice::HexDisplay(stored) => *stored,
            IoDevice::SevenSeg(stored) => *stored,
            IoDevice::StepperMotor(stored) => *stored,
            IoDevice::DILSwitch(stored) => *stored,
            IoDevice::KeyPad(stored) => *stored,
            IoDevice::IRQFlipFlop(stored) => *stored,
        };
        Some(res)
    }
}

} // verus!
