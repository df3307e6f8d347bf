use vstd::prelude::*;

verus! {

/// Declares `std::io::Error` so that a transport failure can travel inside
/// [`ViscaError`] unchanged.
#[verifier::external_type_specification]
#[verifier::external_body]
pub struct ExIoError(std::io::Error);

/// Every reason for which a VISCA operation can fail.
#[derive(Debug)]
pub enum ViscaError {
    InvalidPowerValue,
    InvalidAutofocusValue,
    InvalidZoomValue,
    InvalidFocusValue,
    InvalidAddress,
    InvalidSpeed,
    InvalidPreset,
    InvalidMessageLength,
    Syntax,
    CommandBufferFull,
    CommandCanceled,
    NoSocket,
    CommandNotExecutable,
    Unknown,
    InvalidResponse,
    /// The transport failed; the error is kept as the transport reported it.
    Io(std::io::Error),
}

pub type Result<T> = std::result::Result<T, ViscaError>;

/// Declares `pelcodrs::Error` so that a Pelco D failure can travel inside
/// [`CameraError`] unchanged.
#[verifier::external_type_specification]
#[verifier::external_body]
pub struct ExPelcoError(pelcodrs::Error);

/// Why a camera operation failed.
#[derive(Debug)]
pub enum CameraError {
    /// No camera is connected.
    NoPortSet,
    /// The VISCA exchange failed.
    Visca(ViscaError),
    /// A Pelco D message could not be built.
    PelcoD(pelcodrs::Error),
    /// The serial device failed.
    Io(std::io::Error),
}

/// Two errors name the same reason. A transport failure carries an
/// `std::io::Error`, which has no equality, so it equals nothing.
pub open spec fn same_reason(a: ViscaError, b: ViscaError) -> bool {
    !(a is Io) && !(b is Io) && a == b
}

impl PartialEq for ViscaError {
    fn eq(&self, other: &ViscaError) -> (r: bool)
        ensures
            r == same_reason(*self, *other),
    {
        match self {
            ViscaError::InvalidPowerValue => matches!(other, ViscaError::InvalidPowerValue),
            ViscaError::InvalidAutofocusValue => matches!(other, ViscaError::InvalidAutofocusValue),
            ViscaError::InvalidZoomValue => matches!(other, ViscaError::InvalidZoomValue),
            ViscaError::InvalidFocusValue => matches!(other, ViscaError::InvalidFocusValue),
            ViscaError::InvalidAddress => matches!(other, ViscaError::InvalidAddress),
            ViscaError::InvalidSpeed => matches!(other, ViscaError::InvalidSpeed),
            ViscaError::InvalidPreset => matches!(other, ViscaError::InvalidPreset),
            ViscaError::InvalidMessageLength => matches!(other, ViscaError::InvalidMessageLength),
            ViscaError::Syntax => matches!(other, ViscaError::Syntax),
            ViscaError::CommandBufferFull => matches!(other, ViscaError::CommandBufferFull),
            ViscaError::CommandCanceled => matches!(other, ViscaError::CommandCanceled),
            ViscaError::NoSocket => matches!(other, ViscaError::NoSocket),
            ViscaError::CommandNotExecutable => matches!(other, ViscaError::CommandNotExecutable),
            ViscaError::Unknown => matches!(other, ViscaError::Unknown),
            ViscaError::InvalidResponse => matches!(other, ViscaError::InvalidResponse),
            ViscaError::Io(_) => false,
        }
    }
}

impl vstd::std_specs::cmp::PartialEqSpecImpl for ViscaError {
    open spec fn obeys_eq_spec() -> bool {
        false
    }

    open spec fn eq_spec(&self, other: &ViscaError) -> bool {
        same_reason(*self, *other)
    }
}


/// The text shown for each reason other than a transport failure.
pub open spec fn visca_error_text(e: ViscaError) -> Seq<char> {
    match e {
        ViscaError::InvalidPowerValue => "invalid power value"@,
        ViscaError::InvalidAutofocusValue => "invalid autofocus value"@,
        ViscaError::InvalidZoomValue => "invalid zoom value"@,
        ViscaError::InvalidFocusValue => "invalid focus value"@,
        ViscaError::InvalidAddress => "invalid address"@,
        ViscaError::InvalidSpeed => "invalid speed"@,
        ViscaError::InvalidPreset => "invalid preset"@,
        ViscaError::InvalidMessageLength => "invalid message length"@,
        ViscaError::Syntax => "syntax error"@,
        ViscaError::CommandBufferFull => "command buffer full"@,
        ViscaError::CommandCanceled => "command canceled"@,
        ViscaError::NoSocket => "no socket"@,
        ViscaError::CommandNotExecutable => "command not executable"@,
        ViscaError::Unknown => "unknown error"@,
        ViscaError::InvalidResponse => "invalid response"@,
        ViscaError::Io(_) => Seq::empty(),
    }
}

/// Relies on `std::io::Error`'s `Display` (through `to_string`) for the
/// text of a transport failure.
#[verifier::external_body]
fn io_error_text(e: &std::io::Error) -> String {
    e.to_string()
}

impl ViscaError {
    /// The human-readable text of the error; a transport failure reads as
    /// the transport's own error.
    pub fn message(&self) -> (r: String)
        ensures
            !(*self is Io) ==> r@ == visca_error_text(*self),
    {
        match self {
            ViscaError::InvalidPowerValue => String::from_str("invalid power value"),
            ViscaError::InvalidAutofocusValue => String::from_str("invalid autofocus value"),
            ViscaError::InvalidZoomValue => String::from_str("invalid zoom value"),
            ViscaError::InvalidFocusValue => String::from_str("invalid focus value"),
            ViscaError::InvalidAddress => String::from_str("invalid address"),
            ViscaError::InvalidSpeed => String::from_str("invalid speed"),
            ViscaError::InvalidPreset => String::from_str("invalid preset"),
            ViscaError::InvalidMessageLength => String::from_str("invalid message length"),
            ViscaError::Syntax => String::from_str("syntax error"),
            ViscaError::CommandBufferFull => String::from_str("command buffer full"),
            ViscaError::CommandCanceled => String::from_str("command canceled"),
            ViscaError::NoSocket => String::from_str("no socket"),
            ViscaError::CommandNotExecutable => String::from_str("command not executable"),
            ViscaError::Unknown => String::from_str("unknown error"),
            ViscaError::InvalidResponse => String::from_str("invalid response"),
            ViscaError::Io(e) => io_error_text(e),
        }
    }
}


/// Relies on `pelcodrs::Error`'s `Display` (through `to_string`), which
/// shows the error's description.
#[verifier::external_body]
fn pelco_error_text(e: &pelcodrs::Error) -> String {
    e.to_string()
}

/// The text of a camera error, where it does not come from an outside
/// error's own text.
pub open spec fn camera_error_text(e: CameraError) -> Option<Seq<char>> {
    match e {
        CameraError::NoPortSet => Some("No port set"@),
        CameraError::Visca(v) => if v is Io {
            None
        } else {
            Some(visca_error_text(v))
        },
        _ => None,
    }
}

impl CameraError {
    /// The human-readable text of the error; a Pelco D or transport failure
    /// reads as a prefix and the outside error's own text.
    pub fn message(&self) -> (r: String)
        ensures
            camera_error_text(*self) matches Some(text) ==> r@ == text,
    {
        match self {
            CameraError::NoPortSet => String::from_str("No port set"),
            CameraError::Visca(e) => e.message(),
            CameraError::PelcoD(e) => String::from_str("PelcoD error: ").concat(
                pelco_error_text(e).as_str(),
            ),
            CameraError::Io(e) => String::from_str("IO error: ").concat(io_error_text(e).as_str()),
        }
    }
}

} // verus!
