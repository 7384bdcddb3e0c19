//! Event-info views.
//!
//! When the native layer invokes a trampoline it hands over a record
//! describing the triggering input event. These views decode exactly the
//! field asked for, on demand: numeric fields are copied by value, string
//! fields are copied out of their NUL-terminated native buffers (the
//! buffer may be freed or reused after the callback returns, so no
//! borrowed-string accessor is offered), and composite point fields
//! construct owned point values. Decoding is pure, so repeated access
//! simply re-decodes.
//!
//! The native multi-touch records also carry sub-pixel coordinates,
//! radius, pressure and angle as floating-point fields; those fields are
//! not represented here, only the integer ones are.

use vstd::prelude::*;
use vstd::string::StringExecFns;

use crate::cstr::cstr_contents;
use crate::cstr::decode_c_string;

verus! {

/// A point of the native layout, in output (screen) coordinates.
#[derive(Clone, Copy, Debug, PartialEq, Eq, Structural)]
pub struct EvasPoint {
    pub x: i32,
    pub y: i32,
}

/// A point of the native layout, in canvas coordinates.
#[derive(Clone, Copy, Debug, PartialEq, Eq, Structural)]
pub struct EvasCoordPoint {
    pub x: i32,
    pub y: i32,
}

/// A pointer position of the native layout: the same location in output
/// and in canvas coordinates.
#[derive(Clone, Copy, Debug, PartialEq, Eq, Structural)]
pub struct EvasPosition {
    pub output: EvasPoint,
    pub canvas: EvasCoordPoint,
}

/// An owned point in output (screen) coordinates.
#[derive(Clone, Copy, Debug, PartialEq, Eq, Structural)]
pub struct Point {
    pub x: i32,
    pub y: i32,
}

impl Point {
    /// Decodes a native output-coordinate point.
    pub fn from_evas(point: EvasPoint) -> (r: Point)
        ensures
            r.x == point.x,
            r.y == point.y,
    {
        Point { x: point.x, y: point.y }
    }
}

/// An owned point in canvas coordinates.
#[derive(Clone, Copy, Debug, PartialEq, Eq, Structural)]
pub struct CoordPoint {
    pub x: i32,
    pub y: i32,
}

impl CoordPoint {
    /// Decodes a native canvas-coordinate point.
    pub fn from_evas(point: EvasCoordPoint) -> (r: CoordPoint)
        ensures
            r.x == point.x,
            r.y == point.y,
    {
        CoordPoint { x: point.x, y: point.y }
    }
}

/// An owned pointer position: the same location in output and in canvas
/// coordinates.
#[derive(Clone, Copy, Debug, PartialEq, Eq, Structural)]
pub struct Position {
    pub output: Point,
    pub canvas: CoordPoint,
}

impl Position {
    /// Decodes a native position record, both coordinate systems at
    /// once.
    pub fn from_evas(position: EvasPosition) -> (r: Position)
        ensures
            r.output.x == position.output.x,
            r.output.y == position.output.y,
            r.canvas.x == position.canvas.x,
            r.canvas.y == position.canvas.y,
    {
        Position {
            output: Point::from_evas(position.output),
            canvas: CoordPoint::from_evas(position.canvas),
        }
    }
}

/// The set of keyboard modifiers (control, shift, ...) active when an
/// event fired, by modifier key name.
pub struct Modifier {
    pub names: Vec<String>,
}

impl Modifier {
    /// Whether the modifier named `key` is active in this set.
    pub open spec fn spec_is_set(&self, key: Seq<char>) -> bool {
        exists|j: int| 0 <= j < self.names@.len() && self.names@[j]@ == key
    }

    /// Whether the modifier named `keyname` was active when the event
    /// fired.
    pub fn is_set(&self, keyname: &str) -> (r: bool)
        ensures
            r == self.spec_is_set(keyname@),
    {
        let key = String::from_str(keyname);
        let mut i: usize = 0;
        while i < self.names.len()
            invariant
                0 <= i <= self.names@.len(),
                key@ == keyname@,
                forall|j: int| 0 <= j < i ==> self.names@[j]@ != keyname@,
            decreases self.names@.len() - i,
        {
            if self.names[i] == key {
                return true;
            }
            i = i + 1;
        }
        false
    }
}

/// The set of keyboard locks (caps lock, num lock, ...) active when an
/// event fired, by lock key name.
pub struct Lock {
    pub names: Vec<String>,
}

impl Lock {
    /// Whether the lock named `key` is active in this set.
    pub open spec fn spec_is_set(&self, key: Seq<char>) -> bool {
        exists|j: int| 0 <= j < self.names@.len() && self.names@[j]@ == key
    }

    /// Whether the lock named `keyname` was active when the event fired.
    pub fn is_set(&self, keyname: &str) -> (r: bool)
        ensures
            r == self.spec_is_set(keyname@),
    {
        let key = String::from_str(keyname);
        let mut i: usize = 0;
        while i < self.names.len()
            invariant
                0 <= i <= self.names@.len(),
                key@ == keyname@,
                forall|j: int| 0 <= j < i ==> self.names@[j]@ != keyname@,
            decreases self.names@.len() - i,
        {
            if self.names[i] == key {
                return true;
            }
            i = i + 1;
        }
        false
    }
}

/// Event-flag bit: the event is on hold.
pub const EVENT_FLAG_ON_HOLD: u32 = 1;

/// Event-flag bit: the event is part of a scroll gesture.
pub const EVENT_FLAG_ON_SCROLL: u32 = 2;

/// Bits above this bound are unknown event flags.
pub const EVENT_FLAG_LIMIT: u32 = 4;

/// A set of event-flag bits.
#[derive(Clone, Copy, Debug, PartialEq, Eq, Structural)]
pub struct EventFlags {
    pub bits: u32,
}

impl EventFlags {
    /// Validates raw native bits: every bit must be a known event flag.
    pub fn from_bits(bits: u32) -> (r: Option<EventFlags>)
        ensures
            bits < EVENT_FLAG_LIMIT ==> r == Some(EventFlags { bits }),
            bits >= EVENT_FLAG_LIMIT ==> r is None,
    {
        if bits < EVENT_FLAG_LIMIT {
            Some(EventFlags { bits })
        } else {
            None
        }
    }

    /// Whether every bit of `mask` is present.
    pub fn contains(&self, mask: u32) -> (r: bool)
        ensures
            r == (self.bits & mask == mask),
    {
        self.bits & mask == mask
    }
}

/// Button-flag bit: the press is the second of a double click.
pub const BUTTON_DOUBLE_CLICK: u32 = 1;

/// Button-flag bit: the press is the third of a triple click.
pub const BUTTON_TRIPLE_CLICK: u32 = 2;

/// Bits above this bound are unknown button flags.
pub const BUTTON_FLAG_LIMIT: u32 = 4;

/// A set of button-flag bits.
#[derive(Clone, Copy, Debug, PartialEq, Eq, Structural)]
pub struct ButtonFlags {
    pub bits: u32,
}

impl ButtonFlags {
    /// Validates raw native bits: every bit must be a known button flag.
    pub fn from_bits(bits: u32) -> (r: Option<ButtonFlags>)
        ensures
            bits < BUTTON_FLAG_LIMIT ==> r == Some(ButtonFlags { bits }),
            bits >= BUTTON_FLAG_LIMIT ==> r is None,
    {
        if bits < BUTTON_FLAG_LIMIT {
            Some(ButtonFlags { bits })
        } else {
            None
        }
    }

    /// Whether every bit of `mask` is present.
    pub fn contains(&self, mask: u32) -> (r: bool)
        ensures
            r == (self.bits & mask == mask),
    {
        self.bits & mask == mask
    }
}

/// A mouse-button press record.
pub struct MouseDown {
    pub button: i32,
    pub output: EvasPoint,
    pub canvas: EvasCoordPoint,
    pub modifiers: Modifier,
    pub locks: Lock,
    pub flags: u32,
    pub timestamp: u32,
    pub event_flags: u32,
}

impl MouseDown {
    /// The record carries only known flag bits.
    pub open spec fn wf(&self) -> bool {
        self.flags < BUTTON_FLAG_LIMIT && self.event_flags < EVENT_FLAG_LIMIT
    }

    /// The pressed button, numbered from 1.
    pub fn button(&self) -> (r: i32)
        ensures
            r == self.button,
    {
        self.button
    }

    /// The press location in output coordinates.
    pub fn output(&self) -> (r: Point)
        ensures
            r.x == self.output.x && r.y == self.output.y,
    {
        Point::from_evas(self.output)
    }

    /// The press location in canvas coordinates.
    pub fn canvas(&self) -> (r: CoordPoint)
        ensures
            r.x == self.canvas.x && r.y == self.canvas.y,
    {
        CoordPoint::from_evas(self.canvas)
    }

    /// The modifier keys active at the press.
    pub fn modifiers(&self) -> (r: &Modifier)
        ensures
            r == &self.modifiers,
    {
        &self.modifiers
    }

    /// The lock keys active at the press.
    pub fn locks(&self) -> (r: &Lock)
        ensures
            r == &self.locks,
    {
        &self.locks
    }

    /// The click-multiplicity flags of the press.
    pub fn flags(&self) -> (r: ButtonFlags)
        requires
            self.wf(),
        ensures
            r.bits == self.flags,
    {
        ButtonFlags { bits: self.flags }
    }

    /// The native timestamp of the press.
    pub fn timestamp(&self) -> (r: u32)
        ensures
            r == self.timestamp,
    {
        self.timestamp
    }

    /// The event flags of the press.
    pub fn event_flags(&self) -> (r: EventFlags)
        requires
            self.wf(),
        ensures
            r.bits == self.event_flags,
    {
        EventFlags { bits: self.event_flags }
    }
}

/// A mouse-button release record.
pub struct MouseUp {
    pub button: i32,
    pub output: EvasPoint,
    pub canvas: EvasCoordPoint,
    pub modifiers: Modifier,
    pub locks: Lock,
    pub flags: u32,
    pub timestamp: u32,
    pub event_flags: u32,
}

impl MouseUp {
    /// The record carries only known flag bits.
    pub open spec fn wf(&self) -> bool {
        self.flags < BUTTON_FLAG_LIMIT && self.event_flags < EVENT_FLAG_LIMIT
    }

    /// The released button, numbered from 1.
    pub fn button(&self) -> (r: i32)
        ensures
            r == self.button,
    {
        self.button
    }

    /// The release location in output coordinates.
    pub fn output(&self) -> (r: Point)
        ensures
            r.x == self.output.x && r.y == self.output.y,
    {
        Point::from_evas(self.output)
    }

    /// The release location in canvas coordinates.
    pub fn canvas(&self) -> (r: CoordPoint)
        ensures
            r.x == self.canvas.x && r.y == self.canvas.y,
    {
        CoordPoint::from_evas(self.canvas)
    }

    /// The modifier keys active at the release.
    pub fn modifiers(&self) -> (r: &Modifier)
        ensures
            r == &self.modifiers,
    {
        &self.modifiers
    }

    /// The lock keys active at the release.
    pub fn locks(&self) -> (r: &Lock)
        ensures
            r == &self.locks,
    {
        &self.locks
    }

    /// The click-multiplicity flags of the release.
    pub fn flags(&self) -> (r: ButtonFlags)
        requires
            self.wf(),
        ensures
            r.bits == self.flags,
    {
        ButtonFlags { bits: self.flags }
    }

    /// The native timestamp of the release.
    pub fn timestamp(&self) -> (r: u32)
        ensures
            r == self.timestamp,
    {
        self.timestamp
    }

    /// The event flags of the release.
    pub fn event_flags(&self) -> (r: EventFlags)
        requires
            self.wf(),
        ensures
            r.bits == self.event_flags,
    {
        EventFlags { bits: self.event_flags }
    }
}

/// A pointer-entered record.
pub struct MouseIn {
    pub buttons: i32,
    pub output: EvasPoint,
    pub canvas: EvasCoordPoint,
    pub modifiers: Modifier,
    pub locks: Lock,
    pub timestamp: u32,
    pub event_flags: u32,
}

impl MouseIn {
    /// The record carries only known flag bits.
    pub open spec fn wf(&self) -> bool {
        self.event_flags < EVENT_FLAG_LIMIT
    }

    /// The buttons held while entering, as a bit set.
    pub fn buttons(&self) -> (r: i32)
        ensures
            r == self.buttons,
    {
        self.buttons
    }

    /// The entry location in output coordinates.
    pub fn output(&self) -> (r: Point)
        ensures
            r.x == self.output.x && r.y == self.output.y,
    {
        Point::from_evas(self.output)
    }

    /// The entry location in canvas coordinates.
    pub fn canvas(&self) -> (r: CoordPoint)
        ensures
            r.x == self.canvas.x && r.y == self.canvas.y,
    {
        CoordPoint::from_evas(self.canvas)
    }

    /// The modifier keys active at entry.
    pub fn modifiers(&self) -> (r: &Modifier)
        ensures
            r == &self.modifiers,
    {
        &self.modifiers
    }

    /// The lock keys active at entry.
    pub fn locks(&self) -> (r: &Lock)
        ensures
            r == &self.locks,
    {
        &self.locks
    }

    /// The native timestamp of the entry.
    pub fn timestamp(&self) -> (r: u32)
        ensures
            r == self.timestamp,
    {
        self.timestamp
    }

    /// The event flags of the entry.
    pub fn event_flags(&self) -> (r: EventFlags)
        requires
            self.wf(),
        ensures
            r.bits == self.event_flags,
    {
        EventFlags { bits: self.event_flags }
    }
}

/// A pointer-left record.
pub struct MouseOut {
    pub buttons: i32,
    pub output: EvasPoint,
    pub canvas: EvasCoordPoint,
    pub modifiers: Modifier,
    pub locks: Lock,
    pub timestamp: u32,
    pub event_flags: u32,
}

impl MouseOut {
    /// The record carries only known flag bits.
    pub open spec fn wf(&self) -> bool {
        self.event_flags < EVENT_FLAG_LIMIT
    }

    /// The buttons held while leaving, as a bit set.
    pub fn buttons(&self) -> (r: i32)
        ensures
            r == self.buttons,
    {
        self.buttons
    }

    /// The exit location in output coordinates.
    pub fn output(&self) -> (r: Point)
        ensures
            r.x == self.output.x && r.y == self.output.y,
    {
        Point::from_evas(self.output)
    }

    /// The exit location in canvas coordinates.
    pub fn canvas(&self) -> (r: CoordPoint)
        ensures
            r.x == self.canvas.x && r.y == self.canvas.y,
    {
        CoordPoint::from_evas(self.canvas)
    }

    /// The modifier keys active at exit.
    pub fn modifiers(&self) -> (r: &Modifier)
        ensures
            r == &self.modifiers,
    {
        &self.modifiers
    }

    /// The lock keys active at exit.
    pub fn locks(&self) -> (r: &Lock)
        ensures
            r == &self.locks,
    {
        &self.locks
    }

    /// The native timestamp of the exit.
    pub fn timestamp(&self) -> (r: u32)
        ensures
            r == self.timestamp,
    {
        self.timestamp
    }

    /// The event flags of the exit.
    pub fn event_flags(&self) -> (r: EventFlags)
        requires
            self.wf(),
        ensures
            r.bits == self.event_flags,
    {
        EventFlags { bits: self.event_flags }
    }
}

/// A pointer-moved record.
pub struct MouseMove {
    pub buttons: i32,
    pub cur: EvasPosition,
    pub prev: EvasPosition,
    pub modifiers: Modifier,
    pub locks: Lock,
    pub timestamp: u32,
    pub event_flags: u32,
}

impl MouseMove {
    /// The record carries only known flag bits.
    pub open spec fn wf(&self) -> bool {
        self.event_flags < EVENT_FLAG_LIMIT
    }

    /// The buttons held during the move, as a bit set.
    pub fn buttons(&self) -> (r: i32)
        ensures
            r == self.buttons,
    {
        self.buttons
    }

    /// The position after the move.
    pub fn cur(&self) -> (r: Position)
        ensures
            r.output.x == self.cur.output.x && r.output.y == self.cur.output.y,
            r.canvas.x == self.cur.canvas.x && r.canvas.y == self.cur.canvas.y,
    {
        Position::from_evas(self.cur)
    }

    /// The position before the move.
    pub fn prev(&self) -> (r: Position)
        ensures
            r.output.x == self.prev.output.x && r.output.y == self.prev.output.y,
            r.canvas.x == self.prev.canvas.x && r.canvas.y == self.prev.canvas.y,
    {
        Position::from_evas(self.prev)
    }

    /// The modifier keys active during the move.
    pub fn modifiers(&self) -> (r: &Modifier)
        ensures
            r == &self.modifiers,
    {
        &self.modifiers
    }

    /// The lock keys active during the move.
    pub fn locks(&self) -> (r: &Lock)
        ensures
            r == &self.locks,
    {
        &self.locks
    }

    /// The native timestamp of the move.
    pub fn timestamp(&self) -> (r: u32)
        ensures
            r == self.timestamp,
    {
        self.timestamp
    }

    /// The event flags of the move.
    pub fn event_flags(&self) -> (r: EventFlags)
        requires
            self.wf(),
        ensures
            r.bits == self.event_flags,
    {
        EventFlags { bits: self.event_flags }
    }
}

/// A mouse-wheel record.
pub struct MouseWheel {
    pub direction: i32,
    pub z: i32,
    pub output: EvasPoint,
    pub canvas: EvasCoordPoint,
    pub modifiers: Modifier,
    pub locks: Lock,
    pub timestamp: u32,
    pub event_flags: u32,
}

impl MouseWheel {
    /// The record carries only known flag bits.
    pub open spec fn wf(&self) -> bool {
        self.event_flags < EVENT_FLAG_LIMIT
    }

    /// The scroll axis: zero for vertical, non-zero for horizontal.
    pub fn direction(&self) -> (r: i32)
        ensures
            r == self.direction,
    {
        self.direction
    }

    /// The scroll amount and sign along the axis.
    pub fn z(&self) -> (r: i32)
        ensures
            r == self.z,
    {
        self.z
    }

    /// The scroll location in output coordinates.
    pub fn output(&self) -> (r: Point)
        ensures
            r.x == self.output.x && r.y == self.output.y,
    {
        Point::from_evas(self.output)
    }

    /// The scroll location in canvas coordinates.
    pub fn canvas(&self) -> (r: CoordPoint)
        ensures
            r.x == self.canvas.x && r.y == self.canvas.y,
    {
        CoordPoint::from_evas(self.canvas)
    }

    /// The modifier keys active at the scroll.
    pub fn modifiers(&self) -> (r: &Modifier)
        ensures
            r == &self.modifiers,
    {
        &self.modifiers
    }

    /// The lock keys active at the scroll.
    pub fn locks(&self) -> (r: &Lock)
        ensures
            r == &self.locks,
    {
        &self.locks
    }

    /// The native timestamp of the scroll.
    pub fn timestamp(&self) -> (r: u32)
        ensures
            r == self.timestamp,
    {
        self.timestamp
    }

    /// The event flags of the scroll.
    pub fn event_flags(&self) -> (r: EventFlags)
        requires
            self.wf(),
        ensures
            r.bits == self.event_flags,
    {
        EventFlags { bits: self.event_flags }
    }
}

/// A multi-touch press record (integer fields of the native record).
pub struct MultiDown {
    pub device: i32,
    pub output: EvasPoint,
    pub canvas: EvasCoordPoint,
    pub modifiers: Modifier,
    pub locks: Lock,
    pub flags: u32,
    pub timestamp: u32,
    pub event_flags: u32,
}

impl MultiDown {
    /// The record carries only known flag bits.
    pub open spec fn wf(&self) -> bool {
        self.flags < BUTTON_FLAG_LIMIT && self.event_flags < EVENT_FLAG_LIMIT
    }

    /// The touch-device identifier of the press.
    pub fn device(&self) -> (r: i32)
        ensures
            r == self.device,
    {
        self.device
    }

    /// The press location in output coordinates.
    pub fn output(&self) -> (r: Point)
        ensures
            r.x == self.output.x && r.y == self.output.y,
    {
        Point::from_evas(self.output)
    }

    /// The press location in canvas coordinates.
    pub fn canvas(&self) -> (r: CoordPoint)
        ensures
            r.x == self.canvas.x && r.y == self.canvas.y,
    {
        CoordPoint::from_evas(self.canvas)
    }

    /// The modifier keys active at the press.
    pub fn modifiers(&self) -> (r: &Modifier)
        ensures
            r == &self.modifiers,
    {
        &self.modifiers
    }

    /// The lock keys active at the press.
    pub fn locks(&self) -> (r: &Lock)
        ensures
            r == &self.locks,
    {
        &self.locks
    }

    /// The click-multiplicity flags of the press.
    pub fn flags(&self) -> (r: ButtonFlags)
        requires
            self.wf(),
        ensures
            r.bits == self.flags,
    {
        ButtonFlags { bits: self.flags }
    }

    /// The native timestamp of the press.
    pub fn timestamp(&self) -> (r: u32)
        ensures
            r == self.timestamp,
    {
        self.timestamp
    }

    /// The event flags of the press.
    pub fn event_flags(&self) -> (r: EventFlags)
        requires
            self.wf(),
        ensures
            r.bits == self.event_flags,
    {
        EventFlags { bits: self.event_flags }
    }
}

/// A multi-touch release record (integer fields of the native record).
pub struct MultiUp {
    pub device: i32,
    pub output: EvasPoint,
    pub canvas: EvasCoordPoint,
    pub modifiers: Modifier,
    pub locks: Lock,
    pub flags: u32,
    pub timestamp: u32,
    pub event_flags: u32,
}

impl MultiUp {
    /// The record carries only known flag bits.
    pub open spec fn wf(&self) -> bool {
        self.flags < BUTTON_FLAG_LIMIT && self.event_flags < EVENT_FLAG_LIMIT
    }

    /// The touch-device identifier of the release.
    pub fn device(&self) -> (r: i32)
        ensures
            r == self.device,
    {
        self.device
    }

    /// The release location in output coordinates.
    pub fn output(&self) -> (r: Point)
        ensures
            r.x == self.output.x && r.y == self.output.y,
    {
        Point::from_evas(self.output)
    }

    /// The release location in canvas coordinates.
    pub fn canvas(&self) -> (r: CoordPoint)
        ensures
            r.x == self.canvas.x && r.y == self.canvas.y,
    {
        CoordPoint::from_evas(self.canvas)
    }

    /// The modifier keys active at the release.
    pub fn modifiers(&self) -> (r: &Modifier)
        ensures
            r == &self.modifiers,
    {
        &self.modifiers
    }

    /// The lock keys active at the release.
    pub fn locks(&self) -> (r: &Lock)
        ensures
            r == &self.locks,
    {
        &self.locks
    }

    /// The click-multiplicity flags of the release.
    pub fn flags(&self) -> (r: ButtonFlags)
        requires
            self.wf(),
        ensures
            r.bits == self.flags,
    {
        ButtonFlags { bits: self.flags }
    }

    /// The native timestamp of the release.
    pub fn timestamp(&self) -> (r: u32)
        ensures
            r == self.timestamp,
    {
        self.timestamp
    }

    /// The event flags of the release.
    pub fn event_flags(&self) -> (r: EventFlags)
        requires
            self.wf(),
        ensures
            r.bits == self.event_flags,
    {
        EventFlags { bits: self.event_flags }
    }
}

/// A multi-touch move record (integer fields of the native record).
pub struct MultiMove {
    pub device: i32,
    pub cur: EvasPosition,
    pub modifiers: Modifier,
    pub locks: Lock,
    pub timestamp: u32,
    pub event_flags: u32,
}

impl MultiMove {
    /// The record carries only known flag bits.
    pub open spec fn wf(&self) -> bool {
        self.event_flags < EVENT_FLAG_LIMIT
    }

    /// The touch-device identifier of the move.
    pub fn device(&self) -> (r: i32)
        ensures
            r == self.device,
    {
        self.device
    }

    /// The position after the move.
    pub fn cur(&self) -> (r: Position)
        ensures
            r.output.x == self.cur.output.x && r.output.y == self.cur.output.y,
            r.canvas.x == self.cur.canvas.x && r.canvas.y == self.cur.canvas.y,
    {
        Position::from_evas(self.cur)
    }

    /// The modifier keys active during the move.
    pub fn modifiers(&self) -> (r: &Modifier)
        ensures
            r == &self.modifiers,
    {
        &self.modifiers
    }

    /// The lock keys active during the move.
    pub fn locks(&self) -> (r: &Lock)
        ensures
            r == &self.locks,
    {
        &self.locks
    }

    /// The native timestamp of the move.
    pub fn timestamp(&self) -> (r: u32)
        ensures
            r == self.timestamp,
    {
        self.timestamp
    }

    /// The event flags of the move.
    pub fn event_flags(&self) -> (r: EventFlags)
        requires
            self.wf(),
        ensures
            r.bits == self.event_flags,
    {
        EventFlags { bits: self.event_flags }
    }
}

/// A key-press record. The four string fields are NUL-terminated native
/// buffers; the accessors copy their contents out.
pub struct KeyDown {
    pub keyname: Vec<u8>,
    pub key: Vec<u8>,
    pub string: Vec<u8>,
    pub compose: Vec<u8>,
    pub modifiers: Modifier,
    pub locks: Lock,
    pub timestamp: u32,
    pub event_flags: u32,
    pub keycode: u32,
}

impl KeyDown {
    /// The record carries only known flag bits.
    pub open spec fn wf(&self) -> bool {
        self.event_flags < EVENT_FLAG_LIMIT
    }

    /// The name of the pressed key, copied out of the native buffer.
    pub fn keyname(&self) -> (r: Vec<u8>)
        ensures
            r@ == cstr_contents(self.keyname@),
    {
        decode_c_string(&self.keyname)
    }

    /// The logical key, copied out of the native buffer.
    pub fn key(&self) -> (r: Vec<u8>)
        ensures
            r@ == cstr_contents(self.key@),
    {
        decode_c_string(&self.key)
    }

    /// The string the press produces, copied out of the native buffer.
    pub fn string(&self) -> (r: Vec<u8>)
        ensures
            r@ == cstr_contents(self.string@),
    {
        decode_c_string(&self.string)
    }

    /// The compose-sequence string, copied out of the native buffer.
    pub fn compose(&self) -> (r: Vec<u8>)
        ensures
            r@ == cstr_contents(self.compose@),
    {
        decode_c_string(&self.compose)
    }

    /// The modifier keys active at the press.
    pub fn modifiers(&self) -> (r: &Modifier)
        ensures
            r == &self.modifiers,
    {
        &self.modifiers
    }

    /// The lock keys active at the press.
    pub fn locks(&self) -> (r: &Lock)
        ensures
            r == &self.locks,
    {
        &self.locks
    }

    /// The native timestamp of the press.
    pub fn timestamp(&self) -> (r: u32)
        ensures
            r == self.timestamp,
    {
        self.timestamp
    }

    /// The event flags of the press.
    pub fn event_flags(&self) -> (r: EventFlags)
        requires
            self.wf(),
        ensures
            r.bits == self.event_flags,
    {
        EventFlags { bits: self.event_flags }
    }

    /// The hardware keycode of the press.
    pub fn keycode(&self) -> (r: u32)
        ensures
            r == self.keycode,
    {
        self.keycode
    }
}

/// A key-release record. The four string fields are NUL-terminated
/// native buffers; the accessors copy their contents out.
pub struct KeyUp {
    pub keyname: Vec<u8>,
    pub key: Vec<u8>,
    pub string: Vec<u8>,
    pub compose: Vec<u8>,
    pub modifiers: Modifier,
    pub locks: Lock,
    pub timestamp: u32,
    pub event_flags: u32,
    pub keycode: u32,
}

impl KeyUp {
    /// The record carries only known flag bits.
    pub open spec fn wf(&self) -> bool {
        self.event_flags < EVENT_FLAG_LIMIT
    }

    /// The name of the released key, copied out of the native buffer.
    pub fn keyname(&self) -> (r: Vec<u8>)
        ensures
            r@ == cstr_contents(self.keyname@),
    {
        decode_c_string(&self.keyname)
    }

    /// The logical key, copied out of the native buffer.
    pub fn key(&self) -> (r: Vec<u8>)
        ensures
            r@ == cstr_contents(self.key@),
    {
        decode_c_string(&self.key)
    }

    /// The string the release produces, copied out of the native buffer.
    pub fn string(&self) -> (r: Vec<u8>)
        ensures
            r@ == cstr_contents(self.string@),
    {
        decode_c_string(&self.string)
    }

    /// The compose-sequence string, copied out of the native buffer.
    pub fn compose(&self) -> (r: Vec<u8>)
        ensures
            r@ == cstr_contents(self.compose@),
    {
        decode_c_string(&self.compose)
    }

    /// The modifier keys active at the release.
    pub fn modifiers(&self) -> (r: &Modifier)
        ensures
            r == &self.modifiers,
    {
        &self.modifiers
    }

    /// The lock keys active at the release.
    pub fn locks(&self) -> (r: &Lock)
        ensures
            r == &self.locks,
    {
        &self.locks
    }

    /// The native timestamp of the release.
    pub fn timestamp(&self) -> (r: u32)
        ensures
            r == self.timestamp,
    {
        self.timestamp
    }

    /// The event flags of the release.
    pub fn event_flags(&self) -> (r: EventFlags)
        requires
            self.wf(),
        ensures
            r.bits == self.event_flags,
    {
        EventFlags { bits: self.event_flags }
    }

    /// The hardware keycode of the release.
    pub fn keycode(&self) -> (r: u32)
        ensures
            r == self.keycode,
    {
        self.keycode
    }
}

/// An event-hold record: the native layer asks handlers to hold or
/// resume event processing.
pub struct Hold {
    pub hold: i32,
    pub timestamp: u32,
    pub event_flags: u32,
}

impl Hold {
    /// The record carries only known flag bits.
    pub open spec fn wf(&self) -> bool {
        self.event_flags < EVENT_FLAG_LIMIT
    }

    /// Non-zero while events are to be held.
    pub fn hold(&self) -> (r: i32)
        ensures
            r == self.hold,
    {
        self.hold
    }

    /// The native timestamp of the hold change.
    pub fn timestamp(&self) -> (r: u32)
        ensures
            r == self.timestamp,
    {
        self.timestamp
    }

    /// The event flags of the hold change.
    pub fn event_flags(&self) -> (r: EventFlags)
        requires
            self.wf(),
        ensures
            r.bits == self.event_flags,
    {
        EventFlags { bits: self.event_flags }
    }
}

/// An input-event payload, as a trampoline receives it from the native
/// layer: one variant per input-event kind.
pub enum InputEvent {
    MouseDown(MouseDown),
    MouseUp(MouseUp),
    MouseIn(MouseIn),
    MouseOut(MouseOut),
    MouseMove(MouseMove),
    MouseWheel(MouseWheel),
    MultiDown(MultiDown),
    MultiUp(MultiUp),
    MultiMove(MultiMove),
    KeyDown(KeyDown),
    KeyUp(KeyUp),
    Hold(Hold),
}

/// The input-event kind a payload belongs to.
pub open spec fn spec_input_event_kind(e: &InputEvent) -> crate::bridge::InputKind {
    match e {
        InputEvent::MouseDown(_) => crate::bridge::InputKind::MouseDown,
        InputEvent::MouseUp(_) => crate::bridge::InputKind::MouseUp,
        InputEvent::MouseIn(_) => crate::bridge::InputKind::MouseIn,
        InputEvent::MouseOut(_) => crate::bridge::InputKind::MouseOut,
        InputEvent::MouseMove(_) => crate::bridge::InputKind::MouseMove,
        InputEvent::MouseWheel(_) => crate::bridge::InputKind::MouseWheel,
        InputEvent::MultiDown(_) => crate::bridge::InputKind::MultiDown,
        InputEvent::MultiUp(_) => crate::bridge::InputKind::MultiUp,
        InputEvent::MultiMove(_) => crate::bridge::InputKind::MultiMove,
        InputEvent::KeyDown(_) => crate::bridge::InputKind::KeyDown,
        InputEvent::KeyUp(_) => crate::bridge::InputKind::KeyUp,
        InputEvent::Hold(_) => crate::bridge::InputKind::Hold,
    }
}

impl InputEvent {
    /// The input-event kind of this payload.
    pub fn kind(&self) -> (k: crate::bridge::InputKind)
        ensures
            k == spec_input_event_kind(self),
    {
        match self {
            InputEvent::MouseDown(_) => crate::bridge::InputKind::MouseDown,
            InputEvent::MouseUp(_) => crate::bridge::InputKind::MouseUp,
            InputEvent::MouseIn(_) => crate::bridge::InputKind::MouseIn,
            InputEvent::MouseOut(_) => crate::bridge::InputKind::MouseOut,
            InputEvent::MouseMove(_) => crate::bridge::InputKind::MouseMove,
            InputEvent::MouseWheel(_) => crate::bridge::InputKind::MouseWheel,
            InputEvent::MultiDown(_) => crate::bridge::InputKind::MultiDown,
            InputEvent::MultiUp(_) => crate::bridge::InputKind::MultiUp,
            InputEvent::MultiMove(_) => crate::bridge::InputKind::MultiMove,
            InputEvent::KeyDown(_) => crate::bridge::InputKind::KeyDown,
            InputEvent::KeyUp(_) => crate::bridge::InputKind::KeyUp,
            InputEvent::Hold(_) => crate::bridge::InputKind::Hold,
        }
    }
}

} // verus!
