use vstd::prelude::*;

use crate::error::CameraError;

verus! {

/// A Pelco D message on the wire: the sync byte, the address, four command
/// words and a checksum, the sum of the address and the words modulo 256.
pub open spec fn pelco_frame(address: u8, words: Seq<u8>) -> Seq<u8> {
    seq![0xFFu8, address] + words + seq![
        ((address + words[0] + words[1] + words[2] + words[3]) % 256) as u8,
    ]
}

/// Relies on `pelcodrs::MessageBuilder` (`camera_on`, `finalize`): command
/// word 1 is `SENSE | CAMERA_ON_OFF` (0x88), the others 0; `finalize` never
/// fails.
#[verifier::external_body]
fn camera_on_frame(address: u8) -> (r: std::result::Result<Vec<u8>, pelcodrs::Error>)
    ensures
        r is Ok,
        r->Ok_0@ == pelco_frame(address, seq![0x88u8, 0x00u8, 0x00u8, 0x00u8]),
{
    let m = pelcodrs::MessageBuilder::new(address).camera_on().finalize()?;
    Ok(m.as_ref().to_vec())
}

/// Relies on `pelcodrs::MessageBuilder` (`camera_off`, `finalize`): command
/// word 1 is `CAMERA_ON_OFF` (0x08), the others 0; `finalize` never fails.
#[verifier::external_body]
fn camera_off_frame(address: u8) -> (r: std::result::Result<Vec<u8>, pelcodrs::Error>)
    ensures
        r is Ok,
        r->Ok_0@ == pelco_frame(address, seq![0x08u8, 0x00u8, 0x00u8, 0x00u8]),
{
    let m = pelcodrs::MessageBuilder::new(address).camera_off().finalize()?;
    Ok(m.as_ref().to_vec())
}

/// Relies on `pelcodrs::MessageBuilder` (`zoom_in`, `finalize`): command
/// word 2 is `ZOOM_TELE` (0x20), the others 0; `finalize` never fails.
#[verifier::external_body]
fn zoom_in_frame(address: u8) -> (r: std::result::Result<Vec<u8>, pelcodrs::Error>)
    ensures
        r is Ok,
        r->Ok_0@ == pelco_frame(address, seq![0x00u8, 0x20u8, 0x00u8, 0x00u8]),
{
    let m = pelcodrs::MessageBuilder::new(address).zoom_in().finalize()?;
    Ok(m.as_ref().to_vec())
}

/// Relies on `pelcodrs::MessageBuilder` (`zoom_out`, `finalize`): command
/// word 2 is `ZOOM_WIDE` (0x40), the others 0; `finalize` never fails.
#[verifier::external_body]
fn zoom_out_frame(address: u8) -> (r: std::result::Result<Vec<u8>, pelcodrs::Error>)
    ensures
        r is Ok,
        r->Ok_0@ == pelco_frame(address, seq![0x00u8, 0x40u8, 0x00u8, 0x00u8]),
{
    let m = pelcodrs::MessageBuilder::new(address).zoom_out().finalize()?;
    Ok(m.as_ref().to_vec())
}

/// Relies on `pelcodrs::MessageBuilder` (`stop`, `finalize`): every command
/// word is 0; `finalize` never fails.
#[verifier::external_body]
fn stop_frame(address: u8) -> (r: std::result::Result<Vec<u8>, pelcodrs::Error>)
    ensures
        r is Ok,
        r->Ok_0@ == pelco_frame(address, seq![0x00u8, 0x00u8, 0x00u8, 0x00u8]),
{
    let m = pelcodrs::MessageBuilder::new(address).stop().finalize()?;
    Ok(m.as_ref().to_vec())
}

/// Relies on `pelcodrs::Message::auto_focus`: words `[0x00, 0x2B, 0x00, c]`
/// with `c` 0 for `AutoCtrl::Auto` and 1 for `AutoCtrl::Off`; it never fails.
#[verifier::external_body]
fn auto_focus_frame(address: u8, auto: bool) -> (r: std::result::Result<Vec<u8>, pelcodrs::Error>)
    ensures
        r is Ok,
        r->Ok_0@ == pelco_frame(
            address,
            seq![0x00u8, 0x2Bu8, 0x00u8, if auto { 0x00u8 } else { 0x01u8 }],
        ),
{
    let ctrl = if auto { pelcodrs::AutoCtrl::Auto } else { pelcodrs::AutoCtrl::Off };
    let m = pelcodrs::Message::auto_focus(address, ctrl)?;
    Ok(m.as_ref().to_vec())
}

/// Relies on `pelcodrs::Message::set_preset`: words `[0x00, 0x03, 0x00, id]`;
/// it fails exactly when `id` is 0.
#[verifier::external_body]
fn set_preset_frame(address: u8, id: u8) -> (r: std::result::Result<Vec<u8>, pelcodrs::Error>)
    ensures
        id == 0 ==> r is Err,
        id != 0 ==> r is Ok,
        id != 0 ==> r->Ok_0@ == pelco_frame(address, seq![0x00u8, 0x03u8, 0x00u8, id]),
{
    let m = pelcodrs::Message::set_preset(address, id)?;
    Ok(m.as_ref().to_vec())
}

/// Relies on `pelcodrs::Message::go_to_preset`: words
/// `[0x00, 0x07, 0x00, id]`; it fails exactly when `id` is 0.
#[verifier::external_body]
fn go_to_preset_frame(address: u8, id: u8) -> (r: std::result::Result<Vec<u8>, pelcodrs::Error>)
    ensures
        id == 0 ==> r is Err,
        id != 0 ==> r is Ok,
        id != 0 ==> r->Ok_0@ == pelco_frame(address, seq![0x00u8, 0x07u8, 0x00u8, id]),
{
    let m = pelcodrs::Message::go_to_preset(address, id)?;
    Ok(m.as_ref().to_vec())
}

/// A camera operation that a Pelco D camera takes as one message.
#[derive(Debug, Clone, Copy, PartialEq, Eq, Structural)]
pub enum PelcoOperation {
    PowerOn,
    PowerOff,
    Autofocus(bool),
    ZoomIn,
    ZoomOut,
    Stop,
    SetPreset(u8),
    GoToPreset(u8),
}

/// The four command words of an operation; `None` for preset 0, which the
/// protocol does not have.
pub open spec fn pelco_words(op: PelcoOperation) -> Option<Seq<u8>> {
    match op {
        PelcoOperation::PowerOn => Some(seq![0x88u8, 0x00u8, 0x00u8, 0x00u8]),
        PelcoOperation::PowerOff => Some(seq![0x08u8, 0x00u8, 0x00u8, 0x00u8]),
        PelcoOperation::Autofocus(auto) => Some(
            seq![0x00u8, 0x2Bu8, 0x00u8, if auto { 0x00u8 } else { 0x01u8 }],
        ),
        PelcoOperation::ZoomIn => Some(seq![0x00u8, 0x20u8, 0x00u8, 0x00u8]),
        PelcoOperation::ZoomOut => Some(seq![0x00u8, 0x40u8, 0x00u8, 0x00u8]),
        PelcoOperation::Stop => Some(seq![0x00u8, 0x00u8, 0x00u8, 0x00u8]),
        PelcoOperation::SetPreset(id) => if id == 0 {
            None
        } else {
            Some(seq![0x00u8, 0x03u8, 0x00u8, id])
        },
        PelcoOperation::GoToPreset(id) => if id == 0 {
            None
        } else {
            Some(seq![0x00u8, 0x07u8, 0x00u8, id])
        },
    }
}

/// The message that performs `op` on the camera at `address`.
pub fn pelco_message(address: u8, op: PelcoOperation) -> (r: std::result::Result<Vec<u8>, CameraError>)
    ensures
        match pelco_words(op) {
            Some(words) => r matches Ok(v) && v@ == pelco_frame(address, words),
            None => r matches Err(CameraError::PelcoD(_)),
        },
{
    let built = match op {
        PelcoOperation::PowerOn => camera_on_frame(address),
        PelcoOperation::PowerOff => camera_off_frame(address),
        PelcoOperation::Autofocus(auto) => auto_focus_frame(address, auto),
        PelcoOperation::ZoomIn => zoom_in_frame(address),
        PelcoOperation::ZoomOut => zoom_out_frame(address),
        PelcoOperation::Stop => stop_frame(address),
        PelcoOperation::SetPreset(id) => set_preset_frame(address, id),
        PelcoOperation::GoToPreset(id) => go_to_preset_frame(address, id),
    };
    match built {
        Ok(bytes) => Ok(bytes),
        Err(e) => Err(CameraError::PelcoD(e)),
    }
}

} // verus!
