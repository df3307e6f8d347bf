use vstd::prelude::*;
use vstd::string::StrSliceExecFns;

use crate::error::CameraError;

verus! {

/// A pan-tilt direction.
#[derive(Debug, Clone, Copy, PartialEq, Eq, Structural)]
pub enum Direction {
    Down,
    Up,
    Left,
    Right,
}

/// The direction that a word names: "down", "up", "left" or "right".
pub open spec fn direction_from_text(text: Seq<char>) -> Option<Direction> {
    if text == "down"@ {
        Some(Direction::Down)
    } else if text == "up"@ {
        Some(Direction::Up)
    } else if text == "left"@ {
        Some(Direction::Left)
    } else if text == "right"@ {
        Some(Direction::Right)
    } else {
        None
    }
}

/// Whether `s` is exactly `word`.
pub(crate) fn text_is(s: &str, word: &str) -> (r: bool)
    ensures
        r == (s@ == word@),
{
    let n = s.unicode_len();
    if n != word.unicode_len() {
        return false;
    }
    let mut i: usize = 0;
    while i < n
        invariant
            n == s@.len() == word@.len(),
            i <= n,
            forall|j: int| 0 <= j < i ==> s@[j] == word@[j],
        decreases n - i,
    {
        if s.get_char(i) != word.get_char(i) {
            return false;
        }
        i = i + 1;
    }
    assert(s@ == word@);
    true
}

impl Direction {
    /// Reads a direction word; any other word names no direction.
    pub fn from_name(name: &str) -> (r: Option<Direction>)
        ensures
            r == direction_from_text(name@),
    {
        if text_is(name, "down") {
            Some(Direction::Down)
        } else if text_is(name, "up") {
            Some(Direction::Up)
        } else if text_is(name, "left") {
            Some(Direction::Left)
        } else if text_is(name, "right") {
            Some(Direction::Right)
        } else {
            None
        }
    }
}

/// A camera connected through a serial device; implemented for each
/// protocol by the code that owns the device.
pub trait Camera: Send {
    /// Opens the camera on the serial device at `path`.
    fn new(path: &str) -> std::result::Result<Self, CameraError> where Self: Sized;

    /// The name of the serial device, when it has one.
    fn name(&self) -> Option<String>;

    fn power_on(&mut self) -> std::result::Result<(), CameraError>;

    fn power_off(&mut self) -> std::result::Result<(), CameraError>;

    fn autofocus(&mut self, state: bool) -> std::result::Result<(), CameraError>;

    fn zoom_in(&mut self) -> std::result::Result<(), CameraError>;

    fn zoom_out(&mut self) -> std::result::Result<(), CameraError>;

    fn pan_tilt(&mut self, direction: Direction) -> std::result::Result<(), CameraError>;

    fn stop(&mut self) -> std::result::Result<(), CameraError>;

    fn set_preset(&mut self, preset: u8) -> std::result::Result<(), CameraError>;

    fn go_to_preset(&mut self, preset: u8) -> std::result::Result<(), CameraError>;
}

} // verus!
