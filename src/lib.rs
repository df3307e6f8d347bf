//! Command/response engine for pan-tilt-zoom cameras that speak VISCA over a
//! byte-oriented serial link, with Pelco D messages for the simpler cameras.
//!
//! The library holds the verified logic: the packet codec, the typed
//! operations with their payload rules, the decisions of one
//! request/response exchange, and the state that a front end shows. Reading
//! and writing the serial device is left to the caller, which hands each
//! received frame to an [`Exchange`] and acts on the [`Step`] it returns.

mod camera;
mod camera_state;
mod commands;
mod error;
mod packet;
mod pelco;
mod session;
mod ui_state;

pub use camera::{direction_from_text, Camera, Direction};
pub use camera_state::CameraState;
pub use commands::{
    autofocus_from_payload, focus_from_text, move_data, power_from_payload, preset_data,
    speed_ok, zoom_from_text, Autofocus, Focus, Move, Power, Preset, Zoom, MAX_PAN_SPEED,
    MAX_PRESET, MAX_TILT_SPEED,
};
pub use error::{camera_error_text, visca_error_text, CameraError, Result, ViscaError};
pub use packet::{
    decode_frame, device_error, device_error_for, encode_request, header_byte,
    header_for_address, header_receiver, header_sender, kind_field, lemma_address_round_trip,
    ActionRequestBuilder, Header, InquiryRequestBuilder, Request, RequestCategory, RequestKind,
    RequestView, Response, ResponseKind, ResponseView, ViscaAction, ViscaCommand, ViscaInquiry,
    TERMINATOR,
};
pub use pelco::{pelco_frame, pelco_message, pelco_words, PelcoOperation};
pub use session::{
    exchange_outcome, from_other_device, lemma_completion_after_other_devices,
    lemma_other_devices_skipped, lemma_two_own_frames_finish, receive_step, Exchange,
    ExchangeView, Phase, Step, StepView,
};
pub use ui_state::{UIState, UIStateEvent};
