//! The steps of one bus exchange: drive the latch enable line low, exchange
//! the 4-byte frame, drive the line high again, whatever the exchange gave,
//! then hand back the answer's payload.
use vstd::prelude::*;
use crate::frame::{be_word, pack, spec_pack, unpack, AccessMode, ProtocolError};
use crate::registers::RegisterAddr;

verus! {

/// What the caller does next on the bus.
#[derive(Debug, Clone, Copy)]
pub enum BusAction {
    /// Drive the latch enable line low.
    SelectLow,
    /// Exchange these four bytes, full duplex.
    Transfer([u8; 4]),
    /// Drive the latch enable line high.
    ReleaseHigh,
    /// The exchange is over.
    Finish(ExchangeOutcome),
}

/// How an exchange ended.
#[derive(Debug, Clone, Copy, PartialEq, Eq, Structural)]
pub enum ExchangeOutcome {
    /// The payload of the answer frame.
    Payload(u32),
    /// The line could not be driven low; nothing was sent.
    SelectFailed,
    /// The 4-byte exchange failed (the line was released after it).
    TransferFailed,
    /// The line could not be driven high after a good exchange.
    ReleaseFailed,
}

/// What the bus reported for the last action.
#[derive(Debug, Clone, Copy)]
pub enum BusEvent {
    Selected,
    SelectFailed,
    Transferred([u8; 4]),
    TransferFailed,
    Released,
    ReleaseFailed,
}

/// Where an exchange stands.
#[derive(Debug, Clone, Copy)]
pub enum ExchangePhase {
    /// The line is to be driven low.
    Idle,
    /// The line is low; the frame is to be sent.
    Selected,
    /// The frame went out; the line is to be released. Holds the answer, or
    /// `None` when the exchange failed.
    Transferred(Option<[u8; 4]>),
    /// Nothing is left to do; holds how the exchange ended.
    Done(ExchangeOutcome),
}

/// One exchange of `frame` in progress.
#[derive(Debug, Clone, Copy)]
pub struct Exchange {
    pub frame: [u8; 4],
    pub phase: ExchangePhase,
}

/// The action that the phase waits on.
pub open spec fn spec_pending(x: Exchange) -> BusAction {
    match x.phase {
        ExchangePhase::Idle => BusAction::SelectLow,
        ExchangePhase::Selected => BusAction::Transfer(x.frame),
        ExchangePhase::Transferred(_) => BusAction::ReleaseHigh,
        ExchangePhase::Done(o) => BusAction::Finish(o),
    }
}

/// The next exchange state and action after `event`. An event that does not
/// answer the pending action changes nothing and repeats that action.
pub open spec fn spec_step(x: Exchange, event: BusEvent) -> (Exchange, BusAction) {
    match (x.phase, event) {
        (ExchangePhase::Idle, BusEvent::Selected) => (
            Exchange { phase: ExchangePhase::Selected, ..x },
            BusAction::Transfer(x.frame),
        ),
        (ExchangePhase::Idle, BusEvent::SelectFailed) => (
            Exchange { phase: ExchangePhase::Done(ExchangeOutcome::SelectFailed), ..x },
            BusAction::Finish(ExchangeOutcome::SelectFailed),
        ),
        (ExchangePhase::Selected, BusEvent::Transferred(b)) => (
            Exchange { phase: ExchangePhase::Transferred(Some(b)), ..x },
            BusAction::ReleaseHigh,
        ),
        (ExchangePhase::Selected, BusEvent::TransferFailed) => (
            Exchange { phase: ExchangePhase::Transferred(None), ..x },
            BusAction::ReleaseHigh,
        ),
        (ExchangePhase::Transferred(Some(b)), BusEvent::Released) => (
            Exchange { phase: ExchangePhase::Done(ExchangeOutcome::Payload(be_word(b@))), ..x },
            BusAction::Finish(ExchangeOutcome::Payload(be_word(b@))),
        ),
        (ExchangePhase::Transferred(Some(_)), BusEvent::ReleaseFailed) => (
            Exchange { phase: ExchangePhase::Done(ExchangeOutcome::ReleaseFailed), ..x },
            BusAction::Finish(ExchangeOutcome::ReleaseFailed),
        ),
        (ExchangePhase::Transferred(None), BusEvent::Released) => (
            Exchange { phase: ExchangePhase::Done(ExchangeOutcome::TransferFailed), ..x },
            BusAction::Finish(ExchangeOutcome::TransferFailed),
        ),
        (ExchangePhase::Transferred(None), BusEvent::ReleaseFailed) => (
            Exchange { phase: ExchangePhase::Done(ExchangeOutcome::TransferFailed), ..x },
            BusAction::Finish(ExchangeOutcome::TransferFailed),
        ),
        _ => (x, spec_pending(x)),
    }
}

impl Exchange {
    /// Starts an exchange with register `addr`; a read sends payload 0. A
    /// frame that `pack` refuses never reaches the bus.
    pub fn start(addr: RegisterAddr, payload: u32, mode: AccessMode) -> (r: Result<
        (Exchange, BusAction),
        ProtocolError,
    >)
        ensures
            ({
                let sent = if mode == AccessMode::Read {
                    0
                } else {
                    payload
                };
                match r {
                    Ok((x, a)) => spec_pack(addr, sent, mode) == Ok::<Seq<u8>, ProtocolError>(
                        x.frame@,
                    ) && x.phase == ExchangePhase::Idle && a == BusAction::SelectLow,
                    Err(e) => spec_pack(addr, sent, mode) == Err::<Seq<u8>, ProtocolError>(e),
                }
            }),
    {
        let sent = if mode == AccessMode::Read {
            0
        } else {
            payload
        };
        match pack(addr, sent, mode) {
            Ok(frame) => Ok((Exchange { frame, phase: ExchangePhase::Idle }, BusAction::SelectLow)),
            Err(e) => Err(e),
        }
    }

    /// Takes the bus's report on the last action and says what comes next.
    pub fn step(&self, event: BusEvent) -> (r: (Exchange, BusAction))
        ensures
            r == spec_step(*self, event),
    {
        let x = *self;
        match (x.phase, event) {
            (ExchangePhase::Idle, BusEvent::Selected) => (
                Exchange { phase: ExchangePhase::Selected, ..x },
                BusAction::Transfer(x.frame),
            ),
            (ExchangePhase::Idle, BusEvent::SelectFailed) => (
                Exchange { phase: ExchangePhase::Done(ExchangeOutcome::SelectFailed), ..x },
                BusAction::Finish(ExchangeOutcome::SelectFailed),
            ),
            (ExchangePhase::Selected, BusEvent::Transferred(b)) => (
                Exchange { phase: ExchangePhase::Transferred(Some(b)), ..x },
                BusAction::ReleaseHigh,
            ),
            (ExchangePhase::Selected, BusEvent::TransferFailed) => (
                Exchange { phase: ExchangePhase::Transferred(None), ..x },
                BusAction::ReleaseHigh,
            ),
            (ExchangePhase::Transferred(Some(b)), BusEvent::Released) => {
                let o = ExchangeOutcome::Payload(unpack(b));
                (Exchange { phase: ExchangePhase::Done(o), ..x }, BusAction::Finish(o))
            },
            (ExchangePhase::Transferred(Some(_)), BusEvent::ReleaseFailed) => (
                Exchange { phase: ExchangePhase::Done(ExchangeOutcome::ReleaseFailed), ..x },
                BusAction::Finish(ExchangeOutcome::ReleaseFailed),
            ),
            (ExchangePhase::Transferred(None), BusEvent::Released) => (
                Exchange { phase: ExchangePhase::Done(ExchangeOutcome::TransferFailed), ..x },
                BusAction::Finish(ExchangeOutcome::TransferFailed),
            ),
            (ExchangePhase::Transferred(None), BusEvent::ReleaseFailed) => (
                Exchange { phase: ExchangePhase::Done(ExchangeOutcome::TransferFailed), ..x },
                BusAction::Finish(ExchangeOutcome::TransferFailed),
            ),
            _ => {
                let a = match x.phase {
                    ExchangePhase::Idle => BusAction::SelectLow,
                    ExchangePhase::Selected => BusAction::Transfer(x.frame),
                    ExchangePhase::Transferred(_) => BusAction::ReleaseHigh,
                    ExchangePhase::Done(o) => BusAction::Finish(o),
                };
                (x, a)
            },
        }
    }
}

/// Once the line is low the exchange cannot finish before it is released:
/// from the selected phase every step asks to send the frame or to release
/// the line, and a finish first comes from the idle phase, when the line
/// could not be driven low, or right after the release was reported.
pub proof fn lemma_release_guaranteed(x: Exchange, event: BusEvent)
    ensures
        x.phase is Selected ==> (spec_step(x, event).1 is Transfer || spec_step(x, event).1 is ReleaseHigh),
        spec_step(x, event).1 is Finish ==> (x.phase is Idle && event is SelectFailed) || (
        x.phase is Transferred && (event is Released || event is ReleaseFailed)) || x.phase is Done,
{
}

} // verus!
