use vstd::prelude::*;
use vstd::std_specs::convert::{FromSpecImpl, TryFromSpecImpl};

use crate::camera::text_is;
use crate::error::{Result, ViscaError};
use crate::packet::{RequestCategory, Response, ViscaAction, ViscaCommand, ViscaInquiry};

verus! {

/// Largest pan (horizontal) speed.
pub const MAX_PAN_SPEED: u8 = 0x18;

/// Largest tilt (vertical) speed.
pub const MAX_TILT_SPEED: u8 = 0x14;

/// Largest preset number.
pub const MAX_PRESET: u8 = 0x0F;

/// Accepts a speed in `1..=max`.
fn validate_speed(speed: u8, max: u8) -> (r: Result<u8>)
    ensures
        0 < speed <= max ==> r == Ok::<u8, ViscaError>(speed),
        !(0 < speed <= max) ==> r == Err::<u8, ViscaError>(ViscaError::InvalidSpeed),
{
    if speed > 0 && speed <= max {
        Ok(speed)
    } else {
        Err(ViscaError::InvalidSpeed)
    }
}

/// Accepts a preset number in `0..=15`.
fn validate_preset(preset: u8) -> (r: Result<u8>)
    ensures
        preset <= MAX_PRESET ==> r == Ok::<u8, ViscaError>(preset),
        preset > MAX_PRESET ==> r == Err::<u8, ViscaError>(ViscaError::InvalidPreset),
{
    if preset <= MAX_PRESET {
        Ok(preset)
    } else {
        Err(ViscaError::InvalidPreset)
    }
}

/// The value of an inquiry payload's first byte, without its high nibble.
pub open spec fn low_nibble_of_first(payload: Seq<u8>) -> int {
    (payload[0] % 16) as int
}

/// Reads the low nibble of a payload's first byte; `None` when it is empty.
fn first_low_nibble(payload: &[u8]) -> (r: Option<u8>)
    ensures
        payload@.len() == 0 ==> r is None,
        payload@.len() > 0 ==> r == Some((payload@[0] % 16) as u8),
{
    if payload.len() == 0 {
        None
    } else {
        let b = payload[0];
        assert(b & 0x0F == b % 16) by (bit_vector);
        Some(b & 0x0F)
    }
}

// ---------------------------------------------------------------- Power

/// Camera power.
#[derive(Debug, Clone, Copy, PartialEq, Eq, Structural)]
pub enum Power {
    On,
    Off,
}

impl Power {
    pub open spec fn spec_code(self) -> u8 {
        match self {
            Power::On => 0x02,
            Power::Off => 0x03,
        }
    }

    /// The payload byte of this setting.
    pub fn code(&self) -> (r: u8)
        ensures
            r == self.spec_code(),
    {
        match self {
            Power::On => 0x02,
            Power::Off => 0x03,
        }
    }
}

/// The power setting that an inquiry payload reports.
pub open spec fn power_from_payload(payload: Seq<u8>) -> Result<Power> {
    if payload.len() > 0 && low_nibble_of_first(payload) == 2 {
        Ok(Power::On)
    } else if payload.len() > 0 && low_nibble_of_first(payload) == 3 {
        Ok(Power::Off)
    } else {
        Err(ViscaError::InvalidPowerValue)
    }
}

impl ViscaCommand for Power {
    open spec fn spec_id() -> u8 {
        0x00
    }

    open spec fn spec_category() -> RequestCategory {
        RequestCategory::Camera
    }

    fn id() -> (r: u8) {
        0x00
    }

    fn category() -> (r: RequestCategory) {
        RequestCategory::Camera
    }
}

impl ViscaAction for Power {
    open spec fn spec_action_data(&self) -> Result<Seq<u8>> {
        Ok(seq![self.spec_code()])
    }

    fn visca_action_data(&self) -> (r: Result<Vec<u8>>) {
        let data = vec![self.code()];
        assert(data@ == seq![self.spec_code()]);
        Ok(data)
    }
}

impl ViscaInquiry for Power {
    open spec fn spec_from_payload(payload: Seq<u8>) -> Result<Power> {
        power_from_payload(payload)
    }

    fn from_response(response: &Response) -> (r: Result<Power>) {
        match first_low_nibble(response.data()) {
            Some(0x02) => Ok(Power::On),
            Some(0x03) => Ok(Power::Off),
            _ => Err(ViscaError::InvalidPowerValue),
        }
    }
}

impl From<bool> for Power {
    fn from(value: bool) -> (r: Power)
        ensures
            r == (if value { Power::On } else { Power::Off }),
    {
        if value {
            Power::On
        } else {
            Power::Off
        }
    }
}

impl FromSpecImpl<bool> for Power {
    open spec fn obeys_from_spec() -> bool {
        true
    }

    open spec fn from_spec(v: bool) -> Power {
        if v {
            Power::On
        } else {
            Power::Off
        }
    }
}

impl From<Power> for bool {
    fn from(value: Power) -> (r: bool)
        ensures
            r == (value == Power::On),
    {
        match value {
            Power::On => true,
            Power::Off => false,
        }
    }
}

impl FromSpecImpl<Power> for bool {
    open spec fn obeys_from_spec() -> bool {
        true
    }

    open spec fn from_spec(v: Power) -> bool {
        v == Power::On
    }
}


// ---------------------------------------------------------------- Zoom

/// Zoom motion.
#[derive(Debug, Clone, Copy, PartialEq, Eq, Structural)]
pub enum Zoom {
    Tele,
    Wide,
    Stop,
}

impl Zoom {
    pub open spec fn spec_code(self) -> u8 {
        match self {
            Zoom::Tele => 0x02,
            Zoom::Wide => 0x03,
            Zoom::Stop => 0x00,
        }
    }

    /// The payload byte of this motion.
    pub fn code(&self) -> (r: u8)
        ensures
            r == self.spec_code(),
    {
        match self {
            Zoom::Tele => 0x02,
            Zoom::Wide => 0x03,
            Zoom::Stop => 0x00,
        }
    }
}

/// The zoom motion that a word names: "in", "out" or "stop".
pub open spec fn zoom_from_text(text: Seq<char>) -> Result<Zoom> {
    if text == "in"@ {
        Ok(Zoom::Tele)
    } else if text == "out"@ {
        Ok(Zoom::Wide)
    } else if text == "stop"@ {
        Ok(Zoom::Stop)
    } else {
        Err(ViscaError::InvalidZoomValue)
    }
}

impl ViscaCommand for Zoom {
    open spec fn spec_id() -> u8 {
        0x07
    }

    open spec fn spec_category() -> RequestCategory {
        RequestCategory::Camera
    }

    fn id() -> (r: u8) {
        0x07
    }

    fn category() -> (r: RequestCategory) {
        RequestCategory::Camera
    }
}

impl ViscaAction for Zoom {
    open spec fn spec_action_data(&self) -> Result<Seq<u8>> {
        Ok(seq![self.spec_code()])
    }

    fn visca_action_data(&self) -> (r: Result<Vec<u8>>) {
        let data = vec![self.code()];
        assert(data@ == seq![self.spec_code()]);
        Ok(data)
    }
}

impl<'a> TryFrom<&'a str> for Zoom {
    type Error = ViscaError;

    fn try_from(value: &'a str) -> (r: Result<Zoom>)
        ensures
            r == zoom_from_text(value@),
    {
        if text_is(value, "in") {
            Ok(Zoom::Tele)
        } else if text_is(value, "out") {
            Ok(Zoom::Wide)
        } else if text_is(value, "stop") {
            Ok(Zoom::Stop)
        } else {
            Err(ViscaError::InvalidZoomValue)
        }
    }
}

impl<'a> TryFromSpecImpl<&'a str> for Zoom {
    open spec fn obeys_try_from_spec() -> bool {
        true
    }

    open spec fn try_from_spec(v: &'a str) -> Result<Zoom> {
        zoom_from_text(v@)
    }
}

impl From<Zoom> for u8 {
    fn from(value: Zoom) -> (r: u8)
        ensures
            r == value.spec_code(),
    {
        value.code()
    }
}

impl FromSpecImpl<Zoom> for u8 {
    open spec fn obeys_from_spec() -> bool {
        true
    }

    open spec fn from_spec(v: Zoom) -> u8 {
        v.spec_code()
    }
}

// ---------------------------------------------------------------- Autofocus

/// Focus mode.
#[derive(Debug, Clone, Copy, PartialEq, Eq, Structural)]
pub enum Autofocus {
    Auto,
    Manual,
}

impl Autofocus {
    pub open spec fn spec_code(self) -> u8 {
        match self {
            Autofocus::Auto => 0x02,
            Autofocus::Manual => 0x03,
        }
    }

    /// The payload byte of this mode.
    pub fn code(&self) -> (r: u8)
        ensures
            r == self.spec_code(),
    {
        match self {
            Autofocus::Auto => 0x02,
            Autofocus::Manual => 0x03,
        }
    }
}

/// The focus mode that an inquiry payload reports.
pub open spec fn autofocus_from_payload(payload: Seq<u8>) -> Result<Autofocus> {
    if payload.len() > 0 && low_nibble_of_first(payload) == 2 {
        Ok(Autofocus::Auto)
    } else if payload.len() > 0 && low_nibble_of_first(payload) == 3 {
        Ok(Autofocus::Manual)
    } else {
        Err(ViscaError::InvalidAutofocusValue)
    }
}

impl ViscaCommand for Autofocus {
    open spec fn spec_id() -> u8 {
        0x38
    }

    open spec fn spec_category() -> RequestCategory {
        RequestCategory::Camera
    }

    fn id() -> (r: u8) {
        0x38
    }

    fn category() -> (r: RequestCategory) {
        RequestCategory::Camera
    }
}

impl ViscaAction for Autofocus {
    open spec fn spec_action_data(&self) -> Result<Seq<u8>> {
        Ok(seq![self.spec_code()])
    }

    fn visca_action_data(&self) -> (r: Result<Vec<u8>>) {
        let data = vec![self.code()];
        assert(data@ == seq![self.spec_code()]);
        Ok(data)
    }
}

impl ViscaInquiry for Autofocus {
    open spec fn spec_from_payload(payload: Seq<u8>) -> Result<Autofocus> {
        autofocus_from_payload(payload)
    }

    fn from_response(response: &Response) -> (r: Result<Autofocus>) {
        match first_low_nibble(response.data()) {
            Some(0x02) => Ok(Autofocus::Auto),
            Some(0x03) => Ok(Autofocus::Manual),
            _ => Err(ViscaError::InvalidAutofocusValue),
        }
    }
}

impl From<bool> for Autofocus {
    fn from(value: bool) -> (r: Autofocus)
        ensures
            r == (if value { Autofocus::Auto } else { Autofocus::Manual }),
    {
        if value {
            Autofocus::Auto
        } else {
            Autofocus::Manual
        }
    }
}

impl FromSpecImpl<bool> for Autofocus {
    open spec fn obeys_from_spec() -> bool {
        true
    }

    open spec fn from_spec(v: bool) -> Autofocus {
        if v {
            Autofocus::Auto
        } else {
            Autofocus::Manual
        }
    }
}

impl From<Autofocus> for bool {
    fn from(value: Autofocus) -> (r: bool)
        ensures
            r == (value == Autofocus::Auto),
    {
        match value {
            Autofocus::Auto => true,
            Autofocus::Manual => false,
        }
    }
}

impl FromSpecImpl<Autofocus> for bool {
    open spec fn obeys_from_spec() -> bool {
        true
    }

    open spec fn from_spec(v: Autofocus) -> bool {
        v == Autofocus::Auto
    }
}

// ---------------------------------------------------------------- Focus

/// Manual focus motion.
#[derive(Debug, Clone, Copy, PartialEq, Eq, Structural)]
pub enum Focus {
    Stop,
    Far,
    Near,
}

impl Focus {
    pub open spec fn spec_code(self) -> u8 {
        match self {
            Focus::Stop => 0x00,
            Focus::Far => 0x02,
            Focus::Near => 0x03,
        }
    }

    /// The payload byte of this motion.
    pub fn code(&self) -> (r: u8)
        ensures
            r == self.spec_code(),
    {
        match self {
            Focus::Stop => 0x00,
            Focus::Far => 0x02,
            Focus::Near => 0x03,
        }
    }
}

/// The focus motion that a word names: "far", "near" or "stop".
pub open spec fn focus_from_text(text: Seq<char>) -> Result<Focus> {
    if text == "far"@ {
        Ok(Focus::Far)
    } else if text == "near"@ {
        Ok(Focus::Near)
    } else if text == "stop"@ {
        Ok(Focus::Stop)
    } else {
        Err(ViscaError::InvalidFocusValue)
    }
}

impl ViscaCommand for Focus {
    open spec fn spec_id() -> u8 {
        0x08
    }

    open spec fn spec_category() -> RequestCategory {
        RequestCategory::Camera
    }

    fn id() -> (r: u8) {
        0x08
    }

    fn category() -> (r: RequestCategory) {
        RequestCategory::Camera
    }
}

impl ViscaAction for Focus {
    open spec fn spec_action_data(&self) -> Result<Seq<u8>> {
        Ok(seq![self.spec_code()])
    }

    fn visca_action_data(&self) -> (r: Result<Vec<u8>>) {
        let data = vec![self.code()];
        assert(data@ == seq![self.spec_code()]);
        Ok(data)
    }
}

impl<'a> TryFrom<&'a str> for Focus {
    type Error = ViscaError;

    fn try_from(value: &'a str) -> (r: Result<Focus>)
        ensures
            r == focus_from_text(value@),
    {
        if text_is(value, "far") {
            Ok(Focus::Far)
        } else if text_is(value, "near") {
            Ok(Focus::Near)
        } else if text_is(value, "stop") {
            Ok(Focus::Stop)
        } else {
            Err(ViscaError::InvalidFocusValue)
        }
    }
}

impl<'a> TryFromSpecImpl<&'a str> for Focus {
    open spec fn obeys_try_from_spec() -> bool {
        true
    }

    open spec fn try_from_spec(v: &'a str) -> Result<Focus> {
        focus_from_text(v@)
    }
}

// ---------------------------------------------------------------- Preset

/// Store or recall a camera position.
#[derive(Debug, Clone, Copy, PartialEq, Eq, Structural)]
pub enum Preset {
    Store(u8),
    Recall(u8),
}

impl ViscaCommand for Preset {
    open spec fn spec_id() -> u8 {
        0x3F
    }

    open spec fn spec_category() -> RequestCategory {
        RequestCategory::Camera
    }

    fn id() -> (r: u8) {
        0x3F
    }

    fn category() -> (r: RequestCategory) {
        RequestCategory::Camera
    }
}

/// The payload of a preset operation: `[0x01, id]` to store,
/// `[0x02, id]` to recall; the id must lie in `0..=15`.
pub open spec fn preset_data(preset: Preset) -> Result<Seq<u8>> {
    match preset {
        Preset::Store(id) => if id <= MAX_PRESET {
            Ok(seq![0x01u8, id])
        } else {
            Err(ViscaError::InvalidPreset)
        },
        Preset::Recall(id) => if id <= MAX_PRESET {
            Ok(seq![0x02u8, id])
        } else {
            Err(ViscaError::InvalidPreset)
        },
    }
}

impl ViscaAction for Preset {
    open spec fn spec_action_data(&self) -> Result<Seq<u8>> {
        preset_data(*self)
    }

    fn visca_action_data(&self) -> (r: Result<Vec<u8>>) {
        let (op, id) = match *self {
            Preset::Store(id) => (0x01u8, id),
            Preset::Recall(id) => (0x02u8, id),
        };
        let id = validate_preset(id)?;
        let data = vec![op, id];
        assert(data@ == seq![op, id]);
        Ok(data)
    }
}

// ---------------------------------------------------------------- Move

/// Pan-tilt motion; the speeds are 1 to 24 for pan and 1 to 20 for tilt.
#[derive(Debug, Clone, Copy, PartialEq, Eq, Structural)]
pub enum Move {
    Up(u8),
    Down(u8),
    Left(u8),
    Right(u8),
    Stop,
}

impl ViscaCommand for Move {
    open spec fn spec_id() -> u8 {
        0x01
    }

    open spec fn spec_category() -> RequestCategory {
        RequestCategory::PanTilt
    }

    fn id() -> (r: u8) {
        0x01
    }

    fn category() -> (r: RequestCategory) {
        RequestCategory::PanTilt
    }
}

/// Whether a speed lies in `1..=max`.
pub open spec fn speed_ok(speed: u8, max: u8) -> bool {
    0 < speed <= max
}

/// The payload of a pan-tilt motion:
/// `[pan speed, tilt speed, pan direction, tilt direction]`, where a
/// direction byte is 1 or 2 for the two ways and 3 for none.
pub open spec fn move_data(m: Move) -> Result<Seq<u8>> {
    match m {
        Move::Up(s) => if speed_ok(s, MAX_TILT_SPEED) {
            Ok(seq![0x00u8, s, 0x03u8, 0x01u8])
        } else {
            Err(ViscaError::InvalidSpeed)
        },
        Move::Down(s) => if speed_ok(s, MAX_TILT_SPEED) {
            Ok(seq![0x00u8, s, 0x03u8, 0x02u8])
        } else {
            Err(ViscaError::InvalidSpeed)
        },
        Move::Left(s) => if speed_ok(s, MAX_PAN_SPEED) {
            Ok(seq![s, 0x00u8, 0x01u8, 0x03u8])
        } else {
            Err(ViscaError::InvalidSpeed)
        },
        Move::Right(s) => if speed_ok(s, MAX_PAN_SPEED) {
            Ok(seq![s, 0x00u8, 0x02u8, 0x03u8])
        } else {
            Err(ViscaError::InvalidSpeed)
        },
        Move::Stop => Ok(seq![0x00u8, 0x00u8, 0x03u8, 0x03u8]),
    }
}

impl ViscaAction for Move {
    open spec fn spec_action_data(&self) -> Result<Seq<u8>> {
        move_data(*self)
    }

    fn visca_action_data(&self) -> (r: Result<Vec<u8>>) {
        let pan = match *self {
            Move::Left(speed) | Move::Right(speed) => validate_speed(speed, MAX_PAN_SPEED)?,
            _ => 0x00,
        };
        let tilt = match *self {
            Move::Up(speed) | Move::Down(speed) => validate_speed(speed, MAX_TILT_SPEED)?,
            _ => 0x00,
        };
        let pan_direction: u8 = match *self {
            Move::Up(_) | Move::Down(_) | Move::Stop => 0x03,
            Move::Left(_) => 0x01,
            Move::Right(_) => 0x02,
        };
        let tilt_direction: u8 = match *self {
            Move::Up(_) => 0x01,
            Move::Down(_) => 0x02,
            Move::Left(_) | Move::Right(_) | Move::Stop => 0x03,
        };
        let data = vec![pan, tilt, pan_direction, tilt_direction];
        assert(data@ == seq![pan, tilt, pan_direction, tilt_direction]);
        Ok(data)
    }
}

} // verus!
