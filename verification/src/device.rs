//! Addressable devices: plain byte storage, or an output-only character
//! screen.
//!
//! A storage device keeps every byte written until it is overwritten. An
//! output device stores nothing and reads back as zero; each write to it
//! is turned into an [`OutputAction`] — position a character on a
//! 16-column grid, or switch the screen mode — which the embedding
//! application renders on a real terminal. Computing the action is part
//! of the machine's semantics; performing it is not, so the action is
//! handed out as a value.

use vstd::prelude::*;

use crate::memory::zero_seq;
use crate::memory::zeroed;

verus! {

/// What a device does with the bytes it is handed.
#[derive(Clone, Copy, Debug, PartialEq, Eq, Structural)]
pub enum DeviceType {
    /// Passive storage: bytes written are bytes read.
    Memory,
    /// Output only: writes become screen actions, reads return zero.
    Stdout,
}

/// Writing this byte to an output device clears the screen.
pub const STDOUT_CLEAR: u8 = 0xFF;

/// Writing this byte to an output device switches to bold text.
pub const STDOUT_BOLD: u8 = 0x01;

/// Writing this byte to an output device switches back to regular text.
pub const STDOUT_REGULAR: u8 = 0xF2;

/// One observable effect of a write to an output device.
#[derive(Clone, Copy, Debug, PartialEq, Eq, Structural)]
pub enum OutputAction {
    /// Clear the whole screen.
    Clear,
    /// Switch to bold text.
    Bold,
    /// Switch back to regular text.
    Regular,
    /// Print one character cell: terminal column `x`, row `y`, and the
    /// character's code.
    Put { x: u16, y: u16, ch: u8 },
}

/// The action a write of `data` at device-relative `address` produces on
/// an output device: the three mode bytes switch the screen mode, and any
/// other byte is placed on a 16-column grid (two terminal columns per
/// cell, one column of margin).
pub open spec fn output_action(data: u8, address: u16) -> OutputAction {
    if data == STDOUT_CLEAR {
        OutputAction::Clear
    } else if data == STDOUT_BOLD {
        OutputAction::Bold
    } else if data == STDOUT_REGULAR {
        OutputAction::Regular
    } else {
        OutputAction::Put {
            x: ((address % 16 + 1) * 2) as u16,
            y: (address / 16) as u16,
            ch: data,
        }
    }
}

/// What a device looks like to the rest of the machine: its kind and the
/// bytes it holds.
#[verifier::ext_equal]
pub struct DeviceView {
    pub kind: DeviceType,
    pub bytes: Seq<u8>,
}

/// A fixed-size addressable device.
pub struct Device {
    buffer: Vec<u8>,
    pub length: u16,
    device_type: DeviceType,
}

impl View for Device {
    type V = DeviceView;

    closed spec fn view(&self) -> DeviceView {
        DeviceView { kind: self.device_type, bytes: self.buffer@ }
    }
}

impl Device {
    /// The recorded length really is the buffer's length.
    pub closed spec fn wf(&self) -> bool {
        self.buffer@.len() == self.length as int
    }

    /// A zero-initialised device of `length` bytes.
    pub fn new(length: usize, device_type: DeviceType) -> (d: Device)
        requires
            length <= 0xFFFF,
        ensures
            d.wf(),
            d@.kind == device_type,
            d@.bytes == zero_seq(length as nat),
    {
        Device { buffer: zeroed(length), length: length as u16, device_type }
    }

    /// How many bytes the device holds.
    pub fn len(&self) -> (n: u16)
        requires
            self.wf(),
        ensures
            n as int == self@.bytes.len(),
    {
        self.length
    }

    /// Which kind of device this is.
    pub fn kind(&self) -> (k: DeviceType)
        ensures
            k == self@.kind,
    {
        self.device_type
    }

    /// Writes one byte at a device-relative address. On storage the byte
    /// lands in the buffer; on an output device the buffer is untouched
    /// and the resulting screen action is returned.
    pub fn set_byte(&mut self, data: u8, address: u16) -> (r: Option<OutputAction>)
        requires
            old(self).wf(),
            old(self)@.kind == DeviceType::Memory ==> (address as int) < old(self)@.bytes.len(),
        ensures
            final(self).wf(),
            final(self)@.kind == old(self)@.kind,
            old(self)@.kind == DeviceType::Memory ==> {
                &&& final(self)@.bytes == old(self)@.bytes.update(address as int, data)
                &&& r is None
            },
            old(self)@.kind == DeviceType::Stdout ==> {
                &&& final(self)@.bytes == old(self)@.bytes
                &&& r == Some(output_action(data, address))
            },
    {
        match self.device_type {
            DeviceType::Memory => {
                self.buffer[address as usize] = data;
                None
            }
            DeviceType::Stdout => {
                if data == STDOUT_CLEAR {
                    Some(OutputAction::Clear)
                } else if data == STDOUT_BOLD {
                    Some(OutputAction::Bold)
                } else if data == STDOUT_REGULAR {
                    Some(OutputAction::Regular)
                } else {
                    let x: u16 = (address % 16 + 1) * 2;
                    let y: u16 = address / 16;
                    Some(OutputAction::Put { x, y, ch: data })
                }
            }
        }
    }

    /// Reads one byte at a device-relative address: the stored byte on
    /// storage, always zero on an output device.
    pub fn get_byte(&self, address: u16) -> (b: u8)
        requires
            self.wf(),
            self@.kind == DeviceType::Memory ==> (address as int) < self@.bytes.len(),
        ensures
            b == (match self@.kind {
                DeviceType::Memory => self@.bytes[address as int],
                DeviceType::Stdout => 0u8,
            }),
    {
        match self.device_type {
            DeviceType::Memory => self.buffer[address as usize],
            DeviceType::Stdout => 0x00,
        }
    }
}

} // verus!
