use vstd::prelude::*;

use crate::error::{Result, ViscaError};
use crate::packet::{
    decode_frame, encode_request, header_sender, Header, InquiryRequestBuilder, RequestKind,
    RequestView, Response, ResponseKind, ResponseView, ViscaAction, ViscaInquiry,
};

verus! {

/// Where an exchange stands.
#[derive(Debug, Clone, Copy, PartialEq, Eq, Structural)]
pub enum Phase {
    /// The request is sent; no frame of the target has arrived yet.
    AwaitingFirst,
    /// The target acknowledged; its completion is due.
    AwaitingSecond,
    /// The exchange has succeeded or failed.
    Finished,
}

/// The state of an exchange, as plain values.
pub struct ExchangeView {
    pub address: u8,
    pub kind: RequestKind,
    pub phase: Phase,
}

/// What a frame did to an exchange, as plain values.
pub enum StepView {
    Skipped,
    Acknowledged,
    Completed(ResponseView),
    Failed(ViscaError),
}

/// Whether a frame names a sender other than `address`. Only a frame whose
/// header carries the start bit names a sender at all.
pub open spec fn from_other_device(frame: Seq<u8>, address: u8) -> bool {
    frame.len() > 0 && frame[0] >= 0x80 && header_sender(frame[0]) != address
}

/// How an exchange that is not finished takes one received frame.
///
/// A frame of another device is skipped. Any other frame is decoded; a
/// decoding failure (a malformed frame or the device's error) ends the
/// exchange with that error. An acknowledgement is accepted once, as the
/// first frame. A completion ends the exchange; a command's completion
/// must carry no payload.
pub open spec fn receive_step(ex: ExchangeView, frame: Seq<u8>) -> (ExchangeView, StepView) {
    if from_other_device(frame, ex.address) {
        (ex, StepView::Skipped)
    } else {
        let finished = ExchangeView { phase: Phase::Finished, ..ex };
        match decode_frame(frame) {
            Err(e) => (finished, StepView::Failed(e)),
            Ok(resp) => if resp.kind == ResponseKind::Ack {
                if ex.phase == Phase::AwaitingFirst {
                    (ExchangeView { phase: Phase::AwaitingSecond, ..ex }, StepView::Acknowledged)
                } else {
                    (finished, StepView::Failed(ViscaError::InvalidResponse))
                }
            } else if ex.kind == RequestKind::Command && resp.payload.len() > 0 {
                (finished, StepView::Failed(ViscaError::InvalidResponse))
            } else {
                (finished, StepView::Completed(resp))
            },
        }
    }
}

/// How an exchange ends on a sequence of received frames: the step that
/// finished it, or `None` when the frames ran out first.
pub open spec fn exchange_outcome(ex: ExchangeView, frames: Seq<Seq<u8>>) -> Option<StepView>
    decreases frames.len(),
{
    if ex.phase == Phase::Finished || frames.len() == 0 {
        None
    } else {
        let (next, step) = receive_step(ex, frames[0]);
        if next.phase == Phase::Finished {
            Some(step)
        } else {
            exchange_outcome(next, frames.drop_first())
        }
    }
}

/// What the caller does after handing a frame to an exchange.
#[derive(Debug)]
pub enum Step {
    /// The frame came from another device: read the next frame.
    Skipped,
    /// The device queued the command: read the next frame.
    Acknowledged,
    /// The exchange succeeded with this completion.
    Completed(Response),
    /// The exchange failed.
    Failed(ViscaError),
}

impl View for Step {
    type V = StepView;

    open spec fn view(&self) -> StepView {
        match self {
            Step::Skipped => StepView::Skipped,
            Step::Acknowledged => StepView::Acknowledged,
            Step::Completed(resp) => StepView::Completed(resp@),
            Step::Failed(e) => StepView::Failed(*e),
        }
    }
}

/// One request/response exchange with one device: the decisions of the
/// session, apart from the reading and writing.
#[derive(Debug)]
pub struct Exchange {
    address: u8,
    kind: RequestKind,
    phase: Phase,
}

impl View for Exchange {
    type V = ExchangeView;

    closed spec fn view(&self) -> ExchangeView {
        ExchangeView { address: self.address, kind: self.kind, phase: self.phase }
    }
}

impl Exchange {
    /// Starts a command exchange: validates the action and the address and
    /// returns the exchange with the frame to send.
    pub fn command<A: ViscaAction>(address: u8, action: A) -> (r: Result<(Exchange, Vec<u8>)>)
        ensures
            match action.spec_action_data() {
                Err(e) => r == Err::<(Exchange, Vec<u8>), ViscaError>(e),
                Ok(data) => if address <= 7 {
                    r matches Ok((ex, bytes)) && ex@ == (ExchangeView {
                        address,
                        kind: RequestKind::Command,
                        phase: Phase::AwaitingFirst,
                    }) && bytes@ == encode_request(
                        RequestView {
                            sender: 0,
                            receiver: address,
                            kind: RequestKind::Command,
                            category: A::spec_category(),
                            id: A::spec_id(),
                            data,
                        },
                    )
                } else {
                    r matches Err(ViscaError::InvalidAddress)
                },
            },
    {
        let request = action.action(address).build()?;
        let bytes = request.to_bytes()?;
        Ok((Exchange { address, kind: RequestKind::Command, phase: Phase::AwaitingFirst }, bytes))
    }

    /// Starts an inquiry exchange for `I`: validates the address and returns
    /// the exchange with the frame to send.
    pub fn inquiry<I: ViscaInquiry>(address: u8) -> (r: Result<(Exchange, Vec<u8>)>)
        ensures
            address <= 7 ==> (r matches Ok((ex, bytes)) && ex@ == (ExchangeView {
                address,
                kind: RequestKind::Inquiry,
                phase: Phase::AwaitingFirst,
            }) && bytes@ == encode_request(
                RequestView {
                    sender: 0,
                    receiver: address,
                    kind: RequestKind::Inquiry,
                    category: I::spec_category(),
                    id: I::spec_id(),
                    data: Seq::empty(),
                },
            )),
            address > 7 ==> r matches Err(ViscaError::InvalidAddress),
    {
        let request = InquiryRequestBuilder::new(address).build::<I>()?;
        let bytes = request.to_bytes()?;
        Ok((Exchange { address, kind: RequestKind::Inquiry, phase: Phase::AwaitingFirst }, bytes))
    }

    /// The address of the device that the exchange talks to.
    pub fn address(&self) -> (r: u8)
        ensures
            r == self@.address,
    {
        self.address
    }

    pub fn phase(&self) -> (r: Phase)
        ensures
            r == self@.phase,
    {
        self.phase
    }

    /// Whether the exchange has succeeded or failed.
    pub fn is_finished(&self) -> (r: bool)
        ensures
            r == (self@.phase == Phase::Finished),
    {
        matches!(self.phase, Phase::Finished)
    }

    /// Takes one received frame, terminator included.
    pub fn receive(&mut self, frame: &[u8]) -> (r: Step)
        requires
            old(self)@.phase != Phase::Finished,
        ensures
            (final(self)@, r@) == receive_step(old(self)@, frame@),
    {
        if frame.len() > 0 {
            if let Some(header) = Header::from_byte(frame[0]) {
                if header.sender() != self.address {
                    return Step::Skipped;
                }
            }
        }
        match Response::from_frame(frame) {
            Err(e) => {
                self.phase = Phase::Finished;
                Step::Failed(e)
            },
            Ok(resp) => {
                if matches!(resp.kind(), ResponseKind::Ack) {
                    if matches!(self.phase, Phase::AwaitingFirst) {
                        self.phase = Phase::AwaitingSecond;
                        Step::Acknowledged
                    } else {
                        self.phase = Phase::Finished;
                        Step::Failed(ViscaError::InvalidResponse)
                    }
                } else if matches!(self.kind, RequestKind::Command) && resp.data().len() > 0 {
                    self.phase = Phase::Finished;
                    Step::Failed(ViscaError::InvalidResponse)
                } else {
                    self.phase = Phase::Finished;
                    Step::Completed(resp)
                }
            },
        }
    }
}


/// Frames of other devices do not end an exchange: an exchange that has
/// not finished ends on `others + rest` as it ends on `rest`, however many
/// such frames come first.
pub proof fn lemma_other_devices_skipped(
    ex: ExchangeView,
    others: Seq<Seq<u8>>,
    rest: Seq<Seq<u8>>,
)
    requires
        ex.phase != Phase::Finished,
        forall|i: int| 0 <= i < others.len() ==> from_other_device(#[trigger] others[i], ex.address),
    ensures
        exchange_outcome(ex, others + rest) == exchange_outcome(ex, rest),
    decreases others.len(),
{
    if others.len() > 0 {
        let all = others + rest;
        assert(all[0] == others[0]);
        assert(all.drop_first() == others.drop_first() + rest);
        lemma_other_devices_skipped(ex, others.drop_first(), rest);
    } else {
        assert(others + rest == rest);
    }
}


/// A completion from the exchange's own device still ends the exchange
/// after any number of frames of other devices: an inquiry, or a command
/// whose completion has no payload, then succeeds with that completion.
pub proof fn lemma_completion_after_other_devices(
    ex: ExchangeView,
    others: Seq<Seq<u8>>,
    frame: Seq<u8>,
)
    requires
        ex.phase != Phase::Finished,
        forall|i: int| 0 <= i < others.len() ==> from_other_device(#[trigger] others[i], ex.address),
        decode_frame(frame) matches Ok(resp) && resp.kind == ResponseKind::Completion
            && resp.address == ex.address && (ex.kind == RequestKind::Inquiry || resp.payload.len()
            == 0),
    ensures
        exchange_outcome(ex, others + seq![frame]) == Some(
            StepView::Completed(decode_frame(frame)->Ok_0),
        ),
{
    lemma_other_devices_skipped(ex, others, seq![frame]);
    assert(!from_other_device(frame, ex.address));
    assert(seq![frame].drop_first().len() == 0);
}


/// An exchange consults at most two frames of its own device: whatever
/// they hold, the exchange has finished after them.
pub proof fn lemma_two_own_frames_finish(ex: ExchangeView, first: Seq<u8>, second: Seq<u8>)
    requires
        ex.phase == Phase::AwaitingFirst,
        !from_other_device(first, ex.address),
        !from_other_device(second, ex.address),
    ensures
        exchange_outcome(ex, seq![first, second]) is Some,
{
    let frames = seq![first, second];
    assert(frames[0] == first);
    assert(frames.drop_first() == seq![second]);
    assert(seq![second][0] == second);
    let (next, _) = receive_step(ex, first);
    if next.phase != Phase::Finished {
        assert(next.phase == Phase::AwaitingSecond);
        assert(exchange_outcome(next, seq![second]) is Some);
    }
}

} // verus!
