use vstd::prelude::*;

use crate::error::{Result, ViscaError};

verus! {

/// Last byte of every frame, in both directions.
pub const TERMINATOR: u8 = 0xFF;

/// What a request asks of the device.
#[derive(Debug, Clone, Copy, PartialEq, Eq, Structural)]
pub enum RequestKind {
    /// Change the device's state.
    Command,
    /// Report part of the device's state.
    Inquiry,
}

impl RequestKind {
    pub open spec fn spec_byte(self) -> u8 {
        match self {
            RequestKind::Command => 0x01,
            RequestKind::Inquiry => 0x09,
        }
    }

    /// The kind byte that follows the header on the wire.
    pub fn byte(&self) -> (r: u8)
        ensures
            r == self.spec_byte(),
    {
        match self {
            RequestKind::Command => 0x01,
            RequestKind::Inquiry => 0x09,
        }
    }
}

/// The subsystem that an operation belongs to.
#[derive(Debug, Clone, Copy, PartialEq, Eq, Structural)]
pub enum RequestCategory {
    Camera,
    PanTilt,
}

impl RequestCategory {
    pub open spec fn spec_byte(self) -> u8 {
        match self {
            RequestCategory::Camera => 0x04,
            RequestCategory::PanTilt => 0x06,
        }
    }

    /// The category byte that follows the kind byte on the wire.
    pub fn byte(&self) -> (r: u8)
        ensures
            r == self.spec_byte(),
    {
        match self {
            RequestCategory::Camera => 0x04,
            RequestCategory::PanTilt => 0x06,
        }
    }
}

/// The header byte of a frame sent by `sender` to `receiver`: the start bit,
/// the sender in bits 4 to 6 and the receiver in bits 0 to 2.
pub open spec fn header_byte(sender: u8, receiver: u8) -> u8 {
    (0x80 + 16 * sender + receiver) as u8
}

/// The sender address that a header byte names (`(byte >> 4) - 8`).
pub open spec fn header_sender(byte: u8) -> int {
    (byte / 16) as int - 8
}

/// The receiver address that a header byte names (its low three bits).
pub open spec fn header_receiver(byte: u8) -> int {
    (byte % 8) as int
}

/// The header byte of a request sent to `address` from the controller
/// (address 0).
pub fn header_for_address(address: u8) -> (r: Result<u8>)
    ensures
        address <= 7 ==> r == Ok::<u8, ViscaError>(header_byte(0, address)),
        address > 7 ==> r matches Err(ViscaError::InvalidAddress),
{
    if address <= 7 {
        let h = 0x80u8 | address;
        assert(0x80u8 | address == 0x80u8 + address) by (bit_vector)
            requires
                address <= 7,
        ;
        Ok(h)
    } else {
        Err(ViscaError::InvalidAddress)
    }
}

/// The first byte of a packet: who sends it and who is to receive it.
#[derive(Debug, Clone, Copy, PartialEq, Eq, Structural)]
pub struct Header {
    sender: u8,
    receiver: u8,
}

impl Header {
    pub closed spec fn spec_sender(self) -> u8 {
        self.sender
    }

    pub closed spec fn spec_receiver(self) -> u8 {
        self.receiver
    }

    fn new(sender: u8, receiver: u8) -> (r: Header)
        ensures
            r.spec_sender() == sender,
            r.spec_receiver() == receiver,
    {
        Header { sender, receiver }
    }

    /// Reads the addresses out of a header byte. A byte without the start
    /// bit is no header.
    pub fn from_byte(byte: u8) -> (r: Option<Header>)
        ensures
            byte < 0x80 ==> r is None,
            byte >= 0x80 ==> (r matches Some(h) && h.spec_sender() == header_sender(byte)
                && h.spec_receiver() == header_receiver(byte)),
    {
        if byte < 0x80 {
            None
        } else {
            assert(byte >> 4 == byte / 16) by (bit_vector);
            assert(byte & 0x07 == byte % 8) by (bit_vector);
            let sender = (byte >> 4) - 8;
            let receiver = byte & 0x07;
            Some(Header { sender, receiver })
        }
    }

    pub fn sender(&self) -> (r: u8)
        ensures
            r == self.spec_sender(),
    {
        self.sender
    }

    pub fn receiver(&self) -> (r: u8)
        ensures
            r == self.spec_receiver(),
    {
        self.receiver
    }
}


/// The fields of a request, as plain values.
pub struct RequestView {
    pub sender: u8,
    pub receiver: u8,
    pub kind: RequestKind,
    pub category: RequestCategory,
    pub id: u8,
    pub data: Seq<u8>,
}

/// The bytes of a request on the wire:
/// `[header] [kind] [category] [id] [data...] [0xFF]`.
pub open spec fn encode_request(r: RequestView) -> Seq<u8> {
    seq![header_byte(r.sender, r.receiver), r.kind.spec_byte(), r.category.spec_byte(), r.id]
        + r.data + seq![TERMINATOR]
}

/// A request that is ready to be encoded.
#[derive(Debug)]
pub struct Request {
    header: Header,
    kind: RequestKind,
    category: RequestCategory,
    id: u8,
    data: Vec<u8>,
}

impl View for Request {
    type V = RequestView;

    closed spec fn view(&self) -> RequestView {
        RequestView {
            sender: self.header.sender,
            receiver: self.header.receiver,
            kind: self.kind,
            category: self.category,
            id: self.id,
            data: self.data@,
        }
    }
}

impl Request {
    pub fn new(
        sender: u8,
        receiver: u8,
        kind: RequestKind,
        category: RequestCategory,
        id: u8,
        data: Vec<u8>,
    ) -> (r: Request)
        ensures
            r@ == (RequestView { sender, receiver, kind, category, id, data: data@ }),
    {
        Request { header: Header::new(sender, receiver), kind, category, id, data }
    }

    /// Encodes the request into one frame. Both addresses must lie in 0 to 7.
    pub fn to_bytes(&self) -> (r: Result<Vec<u8>>)
        ensures
            self@.sender <= 7 && self@.receiver <= 7 ==> (r matches Ok(bytes) && bytes@
                == encode_request(self@)),
            !(self@.sender <= 7 && self@.receiver <= 7) ==> r matches Err(
                ViscaError::InvalidAddress,
            ),
    {
        let sender = self.header.sender;
        if sender > 7 {
            return Err(ViscaError::InvalidAddress);
        }
        let h = header_for_address(self.header.receiver)?;
        let receiver = self.header.receiver;
        let first = h | (sender << 4);
        assert(h == 0x80u8 + receiver);
        assert(h | (sender << 4) == 0x80u8 + 16u8 * sender + receiver) by (bit_vector)
            requires
                sender <= 7,
                receiver <= 7,
                h == 0x80u8 + receiver,
        ;
        let mut bytes: Vec<u8> = Vec::new();
        bytes.push(first);
        bytes.push(self.kind.byte());
        bytes.push(self.category.byte());
        bytes.push(self.id);
        let n = self.data.len();
        let mut i: usize = 0;
        while i < n
            invariant
                n == self.data@.len(),
                i <= n,
                bytes@ == seq![first, self.kind.spec_byte(), self.category.spec_byte(), self.id]
                    + self.data@.subrange(0, i as int),
            decreases n - i,
        {
            bytes.push(self.data[i]);
            i = i + 1;
            assert(self.data@.subrange(0, i as int) == self.data@.subrange(0, i - 1 as int).push(
                self.data@[i - 1],
            ));
        }
        bytes.push(TERMINATOR);
        assert(first == header_byte(sender, receiver));
        assert(self.data@.subrange(0, n as int) == self.data@);
        assert(bytes@ == encode_request(self@));
        Ok(bytes)
    }
}


/// What a response reports.
#[derive(Debug, Clone, Copy, PartialEq, Eq, Structural)]
pub enum ResponseKind {
    /// The device has queued the command.
    Ack,
    /// The command has finished, or the inquiry is answered.
    Completion,
}

/// The error that a device reports with the sub-code `code`.
pub open spec fn device_error(code: u8) -> ViscaError {
    if code == 0x01 {
        ViscaError::InvalidMessageLength
    } else if code == 0x02 {
        ViscaError::Syntax
    } else if code == 0x03 {
        ViscaError::CommandBufferFull
    } else if code == 0x04 {
        ViscaError::CommandCanceled
    } else if code == 0x05 {
        ViscaError::NoSocket
    } else if code == 0x41 {
        ViscaError::CommandNotExecutable
    } else {
        ViscaError::Unknown
    }
}

/// Maps the sub-code of a device's error frame to its error.
pub fn device_error_for(code: u8) -> (r: ViscaError)
    ensures
        r == device_error(code),
{
    match code {
        0x01 => ViscaError::InvalidMessageLength,
        0x02 => ViscaError::Syntax,
        0x03 => ViscaError::CommandBufferFull,
        0x04 => ViscaError::CommandCanceled,
        0x05 => ViscaError::NoSocket,
        0x41 => ViscaError::CommandNotExecutable,
        _ => ViscaError::Unknown,
    }
}

/// The response-kind field of a frame's second byte (bits 4 to 6).
pub open spec fn kind_field(byte: u8) -> int {
    ((byte / 16) % 8) as int
}

/// The fields of a response, as plain values.
pub struct ResponseView {
    pub address: u8,
    pub kind: ResponseKind,
    pub payload: Seq<u8>,
}

/// How one terminated frame decodes. A frame holds at least a header, a
/// kind byte and the terminator; its header has the start bit set. A
/// device error needs its sub-code byte, and is reported as the error it
/// names.
pub open spec fn decode_frame(frame: Seq<u8>) -> Result<ResponseView> {
    if frame.len() < 3 || frame[0] < 0x80 || frame.last() != TERMINATOR {
        Err(ViscaError::InvalidResponse)
    } else if kind_field(frame[1]) == 4 || kind_field(frame[1]) == 5 {
        Ok(
            ResponseView {
                address: header_sender(frame[0]) as u8,
                kind: if kind_field(frame[1]) == 4 {
                    ResponseKind::Ack
                } else {
                    ResponseKind::Completion
                },
                payload: frame.subrange(2, frame.len() - 1),
            },
        )
    } else if kind_field(frame[1]) == 6 {
        if frame.len() < 4 {
            Err(ViscaError::InvalidResponse)
        } else {
            Err(device_error(frame[2]))
        }
    } else {
        Err(ViscaError::InvalidResponse)
    }
}

/// A decoded response frame.
#[derive(Debug)]
pub struct Response {
    address: u8,
    kind: ResponseKind,
    payload: Vec<u8>,
}

impl View for Response {
    type V = ResponseView;

    closed spec fn view(&self) -> ResponseView {
        ResponseView { address: self.address, kind: self.kind, payload: self.payload@ }
    }
}

/// The plain values of a decoding result.
pub open spec fn response_result_view(r: Result<Response>) -> Result<ResponseView> {
    match r {
        Ok(resp) => Ok(resp@),
        Err(e) => Err(e),
    }
}

/// Copies `frame[from..to]` into a new vector.
fn copy_range(frame: &[u8], from: usize, to: usize) -> (r: Vec<u8>)
    requires
        from <= to <= frame@.len(),
    ensures
        r@ == frame@.subrange(from as int, to as int),
{
    let mut out: Vec<u8> = Vec::new();
    let mut i: usize = from;
    while i < to
        invariant
            from <= i <= to <= frame@.len(),
            out@ == frame@.subrange(from as int, i as int),
        decreases to - i,
    {
        out.push(frame[i]);
        i = i + 1;
        assert(frame@.subrange(from as int, i as int) == frame@.subrange(from as int, i - 1 as int).push(
            frame@[i - 1],
        ));
    }
    out
}

impl Response {
    /// Decodes one frame, terminator included.
    pub fn from_frame(frame: &[u8]) -> (r: Result<Response>)
        ensures
            response_result_view(r) == decode_frame(frame@),
    {
        let n = frame.len();
        if n < 3 || frame[0] < 0x80 || frame[n - 1] != TERMINATOR {
            return Err(ViscaError::InvalidResponse);
        }
        let b1 = frame[1];
        let field = (b1 >> 4) & 0x07;
        assert((b1 >> 4) & 0x07 == (b1 / 16) % 8) by (bit_vector);
        let kind = if field == 4 {
            ResponseKind::Ack
        } else if field == 5 {
            ResponseKind::Completion
        } else if field == 6 {
            if n < 4 {
                return Err(ViscaError::InvalidResponse);
            }
            return Err(device_error_for(frame[2]));
        } else {
            return Err(ViscaError::InvalidResponse);
        };
        let b0 = frame[0];
        assert(b0 >> 4 == b0 / 16) by (bit_vector);
        let address = (b0 >> 4) - 8;
        let payload = copy_range(frame, 2, n - 1);
        Ok(Response { address, kind, payload })
    }

    pub fn kind(&self) -> (r: ResponseKind)
        ensures
            r == self@.kind,
    {
        self.kind
    }

    /// The sender's address.
    pub fn address(&self) -> (r: u8)
        ensures
            r == self@.address,
    {
        self.address
    }

    /// The bytes between the kind byte and the terminator.
    pub fn data(&self) -> (r: &[u8])
        ensures
            r@ == self@.payload,
    {
        self.payload.as_slice()
    }

    /// A copy of the bytes between the kind byte and the terminator.
    pub fn payload(&self) -> (r: Vec<u8>)
        ensures
            r@ == self@.payload,
    {
        copy_range(self.payload.as_slice(), 0, self.payload.len())
    }
}


/// The protocol identity of an operation: its category and its id.
pub trait ViscaCommand {
    /// The operation id.
    spec fn spec_id() -> u8;

    /// The operation's category.
    spec fn spec_category() -> RequestCategory;

    fn id() -> (r: u8)
        ensures
            r == Self::spec_id(),
    ;

    fn category() -> (r: RequestCategory)
        ensures
            r == Self::spec_category(),
    ;
}

/// The bytes of an action's payload, or why there are none.
pub open spec fn data_result_view(r: Result<Vec<u8>>) -> Result<Seq<u8>> {
    match r {
        Ok(v) => Ok(v@),
        Err(e) => Err(e),
    }
}

/// An operation that changes the device's state.
pub trait ViscaAction: ViscaCommand + Sized {
    /// The payload that the operation sends, or the validation error.
    spec fn spec_action_data(&self) -> Result<Seq<u8>>;

    /// Validates the operation and builds its payload.
    fn visca_action_data(&self) -> (r: Result<Vec<u8>>)
        ensures
            data_result_view(r) == self.spec_action_data(),
    ;

    /// Starts a request that sends this action to `receiver`.
    fn action(self, receiver: u8) -> (r: ActionRequestBuilder<Self>)
        ensures
            r.spec_sender() is None,
            r.spec_receiver() == receiver,
            r.spec_action() == self,
    {
        ActionRequestBuilder { sender: None, receiver, action: self }
    }
}

/// An operation whose response payload reports part of the device's state.
pub trait ViscaInquiry: ViscaCommand + Sized {
    /// The value that a response payload reports, or why it reports none.
    spec fn spec_from_payload(payload: Seq<u8>) -> Result<Self>;

    /// Reads the value out of a completion's payload.
    fn from_response(response: &Response) -> (r: Result<Self>)
        ensures
            r == Self::spec_from_payload(response@.payload),
    ;
}

/// Builds the request for an action.
pub struct ActionRequestBuilder<A> {
    sender: Option<u8>,
    receiver: u8,
    action: A,
}

impl<A> ActionRequestBuilder<A> {
    pub closed spec fn spec_sender(&self) -> Option<u8> {
        self.sender
    }

    pub closed spec fn spec_receiver(&self) -> u8 {
        self.receiver
    }

    pub closed spec fn spec_action(&self) -> A {
        self.action
    }

    /// Sets the sender address (0 unless set).
    pub fn sender(self, sender: u8) -> (r: Self)
        ensures
            r.spec_sender() == Some(sender),
            r.spec_receiver() == self.spec_receiver(),
            r.spec_action() == self.spec_action(),
    {
        ActionRequestBuilder { sender: Some(sender), ..self }
    }
}

impl<A: ViscaAction> ActionRequestBuilder<A> {
    /// Validates the action and builds the command request.
    pub fn build(self) -> (r: Result<Request>)
        ensures
            match self.spec_action().spec_action_data() {
                Ok(data) => r matches Ok(req) && req@ == (RequestView {
                    sender: match self.spec_sender() {
                        Some(s) => s,
                        None => 0,
                    },
                    receiver: self.spec_receiver(),
                    kind: RequestKind::Command,
                    category: A::spec_category(),
                    id: A::spec_id(),
                    data,
                }),
                Err(e) => r == Err::<Request, ViscaError>(e),
            },
    {
        let data = self.action.visca_action_data()?;
        let sender = match self.sender {
            Some(s) => s,
            None => 0,
        };
        Ok(Request::new(sender, self.receiver, RequestKind::Command, A::category(), A::id(), data))
    }
}

/// Builds the request for an inquiry.
pub struct InquiryRequestBuilder {
    sender: Option<u8>,
    receiver: u8,
}

impl InquiryRequestBuilder {
    pub closed spec fn spec_sender(&self) -> Option<u8> {
        self.sender
    }

    pub closed spec fn spec_receiver(&self) -> u8 {
        self.receiver
    }

    /// Starts an inquiry to `receiver`.
    pub fn new(receiver: u8) -> (r: Self)
        ensures
            r.spec_sender() is None,
            r.spec_receiver() == receiver,
    {
        InquiryRequestBuilder { sender: None, receiver }
    }

    /// Sets the sender address (0 unless set).
    pub fn sender(self, sender: u8) -> (r: Self)
        ensures
            r.spec_sender() == Some(sender),
            r.spec_receiver() == self.spec_receiver(),
    {
        InquiryRequestBuilder { sender: Some(sender), ..self }
    }

    /// Builds the inquiry request for `I`; an inquiry has no payload.
    pub fn build<I: ViscaInquiry>(self) -> (r: Result<Request>)
        ensures
            r matches Ok(req) && req@ == (RequestView {
                sender: match self.spec_sender() {
                    Some(s) => s,
                    None => 0,
                },
                receiver: self.spec_receiver(),
                kind: RequestKind::Inquiry,
                category: I::spec_category(),
                id: I::spec_id(),
                data: Seq::empty(),
            }),
    {
        let sender = match self.sender {
            Some(s) => s,
            None => 0,
        };
        Ok(
            Request::new(
                sender,
                self.receiver,
                RequestKind::Inquiry,
                I::category(),
                I::id(),
                Vec::new(),
            ),
        )
    }
}


/// An address written into a header comes back out of it: the sender and
/// receiver of any valid pair are read back exactly, and the response that
/// a device sends with such a header reports that device's address.
pub proof fn lemma_address_round_trip(sender: u8, receiver: u8, frame: Seq<u8>)
    requires
        sender <= 7,
        receiver <= 7,
    ensures
        header_byte(sender, receiver) >= 0x80,
        header_sender(header_byte(sender, receiver)) == sender,
        header_receiver(header_byte(sender, receiver)) == receiver,
        frame.len() > 0 && frame[0] == header_byte(sender, receiver) ==> (decode_frame(frame) matches Ok(resp) ==> resp.address == sender),
{
    let h = header_byte(sender, receiver);
    assert(h == 0x80 + 16 * sender + receiver);
    assert((0x80 + 16 * sender + receiver) / 16 == 8 + sender) by (nonlinear_arith)
        requires
            sender <= 7,
            receiver <= 7,
    ;
    assert((0x80 + 16 * sender + receiver) % 8 == receiver) by (nonlinear_arith)
        requires
            sender <= 7,
            receiver <= 7,
    ;
}

} // verus!
