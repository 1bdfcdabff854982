//! Coordinate frame of a USCutter LPII cutter/plotter, and the commands that
//! keep its pen inside it.
//!
//! The cutter counts in device units from the corner of its travel. A plot
//! area of `span` whole units per axis is laid out behind a fixed pen offset,
//! so the pen may travel over `[0, span + offset]`. A position is handed in as
//! the whole number of units between the plot area's lower-left corner and the
//! point; the frame adds the offset and saturates at the ends of the travel.

use vstd::prelude::*;
use crate::error::ConfigError;
use crate::hpgl::Command;

verus! {

/// Pen offset along x, in device units.
pub const OFFSET_X: u32 = 25;

/// Pen offset along y, in device units.
pub const OFFSET_Y: u32 = 25;

/// The mathematical content of a frame: per axis, the pen offset and the
/// largest position the pen may take.
pub struct TravelFrame {
    pub offset_x: int,
    pub offset_y: int,
    pub max_x: int,
    pub max_y: int,
}

/// `v` saturated into `[0, max]`.
pub open spec fn clamp_units(v: int, max: int) -> int {
    if v < 0 {
        0
    } else if v > max {
        max
    } else {
        v
    }
}

/// The coordinate frame of one cutter.
#[derive(Debug, Clone, Copy)]
pub struct USCutter {
    offset_x: u32,
    offset_y: u32,
    max_x: u32,
    max_y: u32,
}

impl View for USCutter {
    type V = TravelFrame;

    closed spec fn view(&self) -> TravelFrame {
        TravelFrame {
            offset_x: self.offset_x as int,
            offset_y: self.offset_y as int,
            max_x: self.max_x as int,
            max_y: self.max_y as int,
        }
    }
}

impl USCutter {
    /// The travel rectangle contains the offset point, and every position in
    /// it fits a device coordinate.
    #[verifier::type_invariant]
    pub open spec fn wf(&self) -> bool {
        &&& 0 <= self@.offset_x <= self@.max_x <= u32::MAX
        &&& 0 <= self@.offset_y <= self@.max_y <= u32::MAX
    }

    /// Whole device units across the plot area.
    pub open spec fn span_x(&self) -> int {
        self@.max_x - self@.offset_x
    }

    /// Whole device units up the plot area.
    pub open spec fn span_y(&self) -> int {
        self@.max_y - self@.offset_y
    }

    /// Where a raw x distance lands before clipping.
    pub open spec fn unclipped_x(&self, raw: int) -> int {
        raw + self@.offset_x
    }

    /// Where a raw y distance lands before clipping.
    pub open spec fn unclipped_y(&self, raw: int) -> int {
        raw + self@.offset_y
    }

    /// The x coordinate the device is sent for a raw x distance.
    pub open spec fn device_x_of(&self, raw: int) -> int {
        clamp_units(self.unclipped_x(raw), self@.max_x)
    }

    /// The y coordinate the device is sent for a raw y distance.
    pub open spec fn device_y_of(&self, raw: int) -> int {
        clamp_units(self.unclipped_y(raw), self@.max_y)
    }

    /// The command leaves the pen inside the travel rectangle.
    pub open spec fn keeps_pen_inside(&self, command: Command) -> bool {
        match command {
            Command::PenUpMove { x, y } => x <= self@.max_x && y <= self@.max_y,
            Command::PenDownDraw { x, y } => x <= self@.max_x && y <= self@.max_y,
            Command::Wake => true,
            Command::RaisePen => true,
            Command::Shutdown => true,
        }
    }

    /// Lays out a plot area of `span_x` by `span_y` whole device units behind
    /// the pen offset. A negative span means that the corners of the area
    /// were given in the wrong order.
    pub fn new(span_x: i32, span_y: i32) -> (made: Result<USCutter, ConfigError>)
        ensures
            made is Ok <==> span_x >= 0 && span_y >= 0,
            made matches Ok(cutter) ==> cutter.wf() && cutter@ == (TravelFrame {
                offset_x: OFFSET_X as int,
                offset_y: OFFSET_Y as int,
                max_x: span_x + OFFSET_X,
                max_y: span_y + OFFSET_Y,
            }),
            made matches Err(e) ==> e == ConfigError::DegenerateBounds,
    {
        if span_x < 0 || span_y < 0 {
            return Err(ConfigError::DegenerateBounds);
        }
        let max_x: u32 = span_x as u32 + OFFSET_X;
        let max_y: u32 = span_y as u32 + OFFSET_Y;
        Ok(USCutter { offset_x: OFFSET_X, offset_y: OFFSET_Y, max_x, max_y })
    }

    /// Pen offset along x.
    pub fn offset_x(&self) -> (units: u32)
        ensures
            units == self@.offset_x,
    {
        self.offset_x
    }

    /// Pen offset along y.
    pub fn offset_y(&self) -> (units: u32)
        ensures
            units == self@.offset_y,
    {
        self.offset_y
    }

    /// Largest x position the pen may take.
    pub fn max_x(&self) -> (units: u32)
        ensures
            units == self@.max_x,
    {
        self.max_x
    }

    /// Largest y position the pen may take.
    pub fn max_y(&self) -> (units: u32)
        ensures
            units == self@.max_y,
    {
        self.max_y
    }

    /// Clips an x position to `[0, max_x]`.
    pub fn clip_x(&self, x: i64) -> (units: u32)
        ensures
            units == clamp_units(x as int, self@.max_x),
    {
        if x < 0 {
            0
        } else if x > self.max_x as i64 {
            self.max_x
        } else {
            x as u32
        }
    }

    /// Clips a y position to `[0, max_y]`.
    pub fn clip_y(&self, y: i64) -> (units: u32)
        ensures
            units == clamp_units(y as int, self@.max_y),
    {
        if y < 0 {
            0
        } else if y > self.max_y as i64 {
            self.max_y
        } else {
            y as u32
        }
    }

    /// Device x coordinate for a raw x distance: the offset is added, and the
    /// sum is clipped to the travel.
    pub fn device_x(&self, raw: i32) -> (units: u32)
        ensures
            units == self.device_x_of(raw as int),
            0 <= units <= self@.max_x,
    {
        proof {
            use_type_invariant(self);
        }
        self.clip_x(raw as i64 + self.offset_x as i64)
    }

    /// Device y coordinate for a raw y distance: the offset is added, and the
    /// sum is clipped to the travel.
    pub fn device_y(&self, raw: i32) -> (units: u32)
        ensures
            units == self.device_y_of(raw as int),
            0 <= units <= self@.max_y,
    {
        proof {
            use_type_invariant(self);
        }
        self.clip_y(raw as i64 + self.offset_y as i64)
    }

    /// The commands that prepare the device: the wake sequence, then a pen-up
    /// move onto the offset point.
    pub fn initialize(&self) -> (commands: (Command, Command))
        ensures
            commands.0 == Command::Wake,
            commands.1 == (Command::PenUpMove { x: self@.offset_x as u32, y: self@.offset_y as u32 }),
            self.keeps_pen_inside(commands.1),
    {
        proof {
            use_type_invariant(self);
        }
        (Command::Wake, Command::PenUpMove { x: self.offset_x, y: self.offset_y })
    }

    /// The command that ends a plot: back to the origin, circuits off.
    pub fn finalize(&self) -> (command: Command)
        ensures
            command == Command::Shutdown,
    {
        Command::Shutdown
    }

    /// The command that draws a straight line to the point at raw distances
    /// `(raw_x, raw_y)`, clipped to the travel.
    pub fn draw(&self, raw_x: i32, raw_y: i32) -> (command: Command)
        ensures
            command == (Command::PenDownDraw {
                x: self.device_x_of(raw_x as int) as u32,
                y: self.device_y_of(raw_y as int) as u32,
            }),
            self.keeps_pen_inside(command),
    {
        Command::PenDownDraw { x: self.device_x(raw_x), y: self.device_y(raw_y) }
    }

    /// The command that moves the raised pen to the point at raw distances
    /// `(raw_x, raw_y)`, clipped to the travel.
    pub fn move_to(&self, raw_x: i32, raw_y: i32) -> (command: Command)
        ensures
            command == (Command::PenUpMove {
                x: self.device_x_of(raw_x as int) as u32,
                y: self.device_y_of(raw_y as int) as u32,
            }),
            self.keeps_pen_inside(command),
    {
        Command::PenUpMove { x: self.device_x(raw_x), y: self.device_y(raw_y) }
    }

    /// The command that lifts the pen where it stands.
    pub fn pen_up(&self) -> (command: Command)
        ensures
            command == Command::RaisePen,
    {
        Command::RaisePen
    }
}

/// Inside the plot area nothing is clamped: for raw distances between 0 and
/// the span, clipping the mapped position gives the mapped position itself.
pub proof fn lemma_inside_is_unclipped(cutter: USCutter, raw_x: int, raw_y: int)
    requires
        cutter.wf(),
        0 <= raw_x <= cutter.span_x(),
        0 <= raw_y <= cutter.span_y(),
    ensures
        cutter.device_x_of(raw_x) == cutter.unclipped_x(raw_x),
        cutter.device_y_of(raw_y) == cutter.unclipped_y(raw_y),
{
}

/// A position beyond the travel is sent as the boundary it crossed, 0 or the
/// maximum, and no position is ever sent beyond either.
pub proof fn lemma_outside_saturates(cutter: USCutter, raw_x: int, raw_y: int)
    requires
        cutter.wf(),
    ensures
        cutter.unclipped_x(raw_x) <= 0 ==> cutter.device_x_of(raw_x) == 0,
        cutter.unclipped_x(raw_x) >= cutter@.max_x ==> cutter.device_x_of(raw_x) == cutter@.max_x,
        cutter.unclipped_y(raw_y) <= 0 ==> cutter.device_y_of(raw_y) == 0,
        cutter.unclipped_y(raw_y) >= cutter@.max_y ==> cutter.device_y_of(raw_y) == cutter@.max_y,
        0 <= cutter.device_x_of(raw_x) <= cutter@.max_x,
        0 <= cutter.device_y_of(raw_y) <= cutter@.max_y,
{
}

} // verus!
