//! The ASCII command set spoken over the serial link.
//!
//! | bytes               | meaning                                    |
//! |---------------------|--------------------------------------------|
//! | `;:H A L0 ECN U `   | wake the device (once, before any motion)  |
//! | `PU<x>,<y>;`        | move to device units (x, y) with pen up    |
//! | `PD<x>,<y>;`        | draw to device units (x, y) with pen down  |
//! | `PU;`               | raise the pen where it stands              |
//! | `PU0,0;!PG;`        | return to the origin and power down        |

use vstd::prelude::*;
use crate::decimal::{decimal_digits, push_decimal};

verus! {

/// One command of the device, with coordinates in device units.
#[derive(Debug, Clone, Copy, PartialEq, Eq, Structural)]
pub enum Command {
    /// Wake the device.
    Wake,
    /// Relocate the pen without marking.
    PenUpMove { x: u32, y: u32 },
    /// Relocate the pen while marking a straight line.
    PenDownDraw { x: u32, y: u32 },
    /// Lift the pen without moving it.
    RaisePen,
    /// Return to the origin and switch the driver circuits off.
    Shutdown,
}

/// `;:H A L0 ECN U `
pub open spec fn wake_bytes() -> Seq<u8> {
    seq![59u8, 58u8, 72u8, 32u8, 65u8, 32u8, 76u8, 48u8, 32u8, 69u8, 67u8, 78u8, 32u8, 85u8, 32u8]
}

/// `PU;`
pub open spec fn raise_pen_bytes() -> Seq<u8> {
    seq![80u8, 85u8, 59u8]
}

/// `PU0,0;!PG;`
pub open spec fn shutdown_bytes() -> Seq<u8> {
    seq![80u8, 85u8, 48u8, 44u8, 48u8, 59u8, 33u8, 80u8, 71u8, 59u8]
}

/// `P`, the letter `verb` (`U` or `D`), the decimal text of `x`, a comma, the
/// decimal text of `y`, and a semicolon.
pub open spec fn motion_bytes(verb: u8, x: u32, y: u32) -> Seq<u8> {
    seq![80u8, verb] + decimal_digits(x as nat) + seq![44u8] + decimal_digits(y as nat) + seq![59u8]
}

fn encode_motion(verb: u8, x: u32, y: u32) -> (bytes: Vec<u8>)
    ensures
        bytes@ == motion_bytes(verb, x, y),
{
    let mut bytes: Vec<u8> = Vec::new();
    bytes.push(80u8);
    bytes.push(verb);
    assert(bytes@ =~= seq![80u8, verb]);
    push_decimal(&mut bytes, x);
    bytes.push(44u8);
    push_decimal(&mut bytes, y);
    bytes.push(59u8);
    assert(bytes@ =~= motion_bytes(verb, x, y));
    bytes
}

impl Command {
    /// The bytes that go over the wire for this command.
    pub open spec fn wire(self) -> Seq<u8> {
        match self {
            Command::Wake => wake_bytes(),
            Command::PenUpMove { x, y } => motion_bytes(85u8, x, y),
            Command::PenDownDraw { x, y } => motion_bytes(68u8, x, y),
            Command::RaisePen => raise_pen_bytes(),
            Command::Shutdown => shutdown_bytes(),
        }
    }

    /// Whether the pen is down once the device has carried the command out.
    pub open spec fn leaves_pen_down(self) -> bool {
        self is PenDownDraw
    }

    /// Encodes the command for the serial link.
    pub fn encode(&self) -> (bytes: Vec<u8>)
        ensures
            bytes@ == self.wire(),
    {
        match *self {
            Command::Wake => {
                let bytes: Vec<u8> = vec![59u8, 58u8, 72u8, 32u8, 65u8, 32u8, 76u8, 48u8, 32u8, 69u8, 67u8, 78u8, 32u8, 85u8, 32u8];
                assert(bytes@ =~= wake_bytes());
                bytes
            },
            Command::PenUpMove { x, y } => encode_motion(85u8, x, y),
            Command::PenDownDraw { x, y } => encode_motion(68u8, x, y),
            Command::RaisePen => {
                let bytes: Vec<u8> = vec![80u8, 85u8, 59u8];
                assert(bytes@ =~= raise_pen_bytes());
                bytes
            },
            Command::Shutdown => {
                let bytes: Vec<u8> = vec![80u8, 85u8, 48u8, 44u8, 48u8, 59u8, 33u8, 80u8, 71u8, 59u8];
                assert(bytes@ =~= shutdown_bytes());
                bytes
            },
        }
    }

    /// Tells whether the command puts the pen down.
    pub fn marks(&self) -> (down: bool)
        ensures
            down == self.leaves_pen_down(),
    {
        match *self {
            Command::PenDownDraw { .. } => true,
            _ => false,
        }
    }
}

} // verus!
