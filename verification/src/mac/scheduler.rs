//! The decisions of the join and class A/C schedulers, between their radio and timer
//! operations.

use vstd::prelude::*;

use super::region::channel_plan::{ChannelPlan, NUM_OF_CHANNEL_BLOCKS};
use super::region::Region;
use super::types::Frame;
use super::{Error, Mac};
use crate::encoding::parser::FRMPayload;

verus! {

/// A random delay between 1 and 2 seconds, in milliseconds, before a new attempt.
pub fn random_delay_ms(random: u32) -> (res: u32)
    ensures
        res == 1000 + random % 1000,
{
    1000 + (random % 1000)
}

/// What listening in the receive windows after a transmission gave.
#[derive(Debug, Clone, Copy, PartialEq, Eq, Structural)]
pub enum SendAttempt {
    /// A frame was received.
    Received,
    /// Nothing was received.
    NothingReceived,
    /// Listening failed.
    Failed,
}

/// What to do after listening in the receive windows of a transmission.
#[derive(Debug, Clone, Copy, PartialEq, Eq, Structural)]
pub enum SendStep {
    /// Give the received frame.
    ReturnReceived,
    /// Give that nothing was received.
    ReturnNothing,
    /// Give the failure.
    ReturnFailure,
    /// Transmit on the next channel.
    NextChannel,
    /// Start the next transmission after a random delay.
    NextTransmission,
}

/// The next step after transmission number `trans_index` (from 0) of
/// `number_of_transmissions`: a received frame ends the sending; a data frame that got
/// nothing, or whose listening failed, ends with that on its last transmission and
/// otherwise is repeated; a join tries the next channel.
pub open spec fn spec_after_send_attempt(frame: Frame, trans_index: u8, number_of_transmissions: u8, attempt: SendAttempt) -> SendStep {
    match attempt {
        SendAttempt::Received => SendStep::ReturnReceived,
        _ => match frame {
            Frame::Join => SendStep::NextChannel,
            Frame::Data => if trans_index + 1 >= number_of_transmissions {
                if attempt == SendAttempt::NothingReceived {
                    SendStep::ReturnNothing
                } else {
                    SendStep::ReturnFailure
                }
            } else {
                SendStep::NextTransmission
            },
        },
    }
}

/// The next step after listening in the receive windows of a transmission.
pub fn after_send_attempt(frame: Frame, trans_index: u8, number_of_transmissions: u8, attempt: SendAttempt) -> (res: SendStep)
    ensures
        res == spec_after_send_attempt(frame, trans_index, number_of_transmissions, attempt),
{
    match attempt {
        SendAttempt::Received => SendStep::ReturnReceived,
        _ => match frame {
            Frame::Join => SendStep::NextChannel,
            Frame::Data => if trans_index as u16 + 1 >= number_of_transmissions as u16 {
                if attempt == SendAttempt::NothingReceived {
                    SendStep::ReturnNothing
                } else {
                    SendStep::ReturnFailure
                }
            } else {
                SendStep::NextTransmission
            },
        },
    }
}

/// Whether a class A uplink stops after `trans_index` transmissions (counted from 1):
/// it is repeated, whatever was received, until the configured number of transmissions
/// is reached.
pub open spec fn spec_class_a_transmissions_done(trans_index: u8, number_of_transmissions: u8) -> bool {
    trans_index >= number_of_transmissions
}

/// Whether a class A uplink stops after `trans_index` transmissions.
pub fn after_class_a_transmission(trans_index: u8, number_of_transmissions: u8) -> (res: bool)
    ensures
        res == spec_class_a_transmissions_done(trans_index, number_of_transmissions),
{
    trans_index >= number_of_transmissions
}

/// The receive window a class A exchange waits for.
#[derive(Debug, Clone, Copy, PartialEq, Eq, Structural)]
pub enum RxStage {
    Rx1,
    Rx2,
}

/// What listening in a receive window gave.
#[derive(Debug, Clone, Copy, PartialEq, Eq, Structural)]
pub enum WindowOutcome {
    /// A downlink was received and accepted.
    Accepted,
    /// A downlink was received but not accepted.
    NotAccepted,
    /// The radio or the handling of the downlink failed.
    Failed,
}

/// What taking in a received downlink gave: accepted when it yielded a payload.
pub open spec fn spec_downlink_outcome(res: Result<Option<FRMPayload>, Error>) -> WindowOutcome {
    match res {
        Ok(Some(_)) => WindowOutcome::Accepted,
        _ => WindowOutcome::NotAccepted,
    }
}

/// What taking in a received downlink gave.
pub fn downlink_outcome(res: &Result<Option<FRMPayload>, Error>) -> (out: WindowOutcome)
    ensures
        out == spec_downlink_outcome(*res),
{
    match res {
        Ok(Some(_)) => WindowOutcome::Accepted,
        _ => WindowOutcome::NotAccepted,
    }
}

/// What to do after a receive window.
#[derive(Debug, Clone, Copy, PartialEq, Eq, Structural)]
pub enum WindowStep {
    /// The exchange is over; whether a downlink was accepted.
    Done(bool),
    /// Wait for the next window.
    Next(RxStage),
}

/// The next step after a receive window of a class A exchange: an accepted downlink
/// ends it; otherwise RX2 follows RX1, and after RX2 the exchange ends without one.
pub open spec fn spec_after_window(stage: RxStage, outcome: WindowOutcome) -> WindowStep {
    match (stage, outcome) {
        (_, WindowOutcome::Accepted) => WindowStep::Done(true),
        (RxStage::Rx1, _) => WindowStep::Next(RxStage::Rx2),
        (RxStage::Rx2, _) => WindowStep::Done(false),
    }
}

/// The next step after a receive window of a class A exchange.
pub fn after_window(stage: RxStage, outcome: WindowOutcome) -> (res: WindowStep)
    ensures
        res == spec_after_window(stage, outcome),
{
    match (stage, outcome) {
        (_, WindowOutcome::Accepted) => WindowStep::Done(true),
        (RxStage::Rx1, _) => WindowStep::Next(RxStage::Rx2),
        (RxStage::Rx2, _) => WindowStep::Done(false),
    }
}

/// What happened while listening in class C until a receive window opens.
#[derive(Debug, Clone, Copy, PartialEq, Eq, Structural)]
pub enum RxcEvent {
    /// The receive window opened first.
    WindowOpened,
    /// A class C downlink was received.
    Received,
    /// Class C reception failed.
    Failed,
}

/// What to do on a class C event.
#[derive(Debug, Clone, Copy, PartialEq, Eq, Structural)]
pub enum RxcAction {
    /// Listen again.
    KeepListening,
    /// Handle the class C downlink, then listen again.
    HandleDownlink,
    /// Listen in the receive window that opened.
    OpenWindow,
}

/// The action on a class C event: a failure is ignored, a downlink is handled, and the
/// receive window takes over once it opens.
pub open spec fn spec_on_rxc_event(event: RxcEvent) -> RxcAction {
    match event {
        RxcEvent::WindowOpened => RxcAction::OpenWindow,
        RxcEvent::Received => RxcAction::HandleDownlink,
        RxcEvent::Failed => RxcAction::KeepListening,
    }
}

/// The action on a class C event.
pub fn on_rxc_event(event: RxcEvent) -> (res: RxcAction)
    ensures
        res == spec_on_rxc_event(event),
{
    match event {
        RxcEvent::WindowOpened => RxcAction::OpenWindow,
        RxcEvent::Received => RxcAction::HandleDownlink,
        RxcEvent::Failed => RxcAction::KeepListening,
    }
}

/// What listening in a receive window after a JoinRequest gave.
#[derive(Debug, Clone, Copy, PartialEq, Eq, Structural)]
pub enum JoinWindowOutcome {
    /// A JoinAccept was received and a session started.
    Joined,
    /// A frame was received that started no session.
    NotJoined,
    /// The radio failed.
    RadioFailed,
    /// Handling the received frame failed.
    Refused,
}

/// What a receive window of a join gave, from what taking in the received frame gave
/// (`None` when the radio received nothing): a session, a frame that started none, or
/// a JoinAccept whose CFList the channel plan refused.
pub open spec fn spec_join_window_outcome(received: Option<Result<(), Error>>) -> JoinWindowOutcome {
    match received {
        None => JoinWindowOutcome::RadioFailed,
        Some(Ok(())) => JoinWindowOutcome::Joined,
        Some(Err(Error::Region(_))) => JoinWindowOutcome::Refused,
        Some(Err(_)) => JoinWindowOutcome::NotJoined,
    }
}

/// What a receive window of a join gave.
pub fn join_window_outcome(received: &Option<Result<(), Error>>) -> (out: JoinWindowOutcome)
    ensures
        out == spec_join_window_outcome(*received),
{
    match received {
        None => JoinWindowOutcome::RadioFailed,
        Some(Ok(())) => JoinWindowOutcome::Joined,
        Some(Err(Error::Region(_))) => JoinWindowOutcome::Refused,
        Some(Err(_)) => JoinWindowOutcome::NotJoined,
    }
}

/// What to do after a receive window of a join.
#[derive(Debug, Clone, Copy, PartialEq, Eq, Structural)]
pub enum JoinStep {
    /// The device has joined.
    Joined,
    /// Go on: the next window, or the next channel.
    Continue,
    /// Give up the join with the failure.
    Abort,
}

/// The next step after a receive window of a join: a session ends the join, a failure
/// to handle the received frame aborts it, and anything else goes on.
pub open spec fn spec_after_join_window(outcome: JoinWindowOutcome) -> JoinStep {
    match outcome {
        JoinWindowOutcome::Joined => JoinStep::Joined,
        JoinWindowOutcome::Refused => JoinStep::Abort,
        _ => JoinStep::Continue,
    }
}

/// The next step after a receive window of a join.
pub fn after_join_window(outcome: JoinWindowOutcome) -> (res: JoinStep)
    ensures
        res == spec_after_join_window(outcome),
{
    match outcome {
        JoinWindowOutcome::Joined => JoinStep::Joined,
        JoinWindowOutcome::Refused => JoinStep::Abort,
        _ => JoinStep::Continue,
    }
}

/// The first channel of a collection drawn from the channel blocks, if any.
pub fn first_channel<Ch: Copy>(channels: &[Option<Ch>; NUM_OF_CHANNEL_BLOCKS]) -> (res: Option<Ch>)
    ensures
        res is None <==> forall|i: int| 0 <= i < NUM_OF_CHANNEL_BLOCKS ==> #[trigger] channels@[i] is None,
        res is Some ==> exists|i: int|
            0 <= i < NUM_OF_CHANNEL_BLOCKS && channels@[i] == res && forall|j: int| 0 <= j < i ==> #[trigger] channels@[j] is None,
{
    let mut i: usize = 0;
    while i < NUM_OF_CHANNEL_BLOCKS
        invariant
            i <= NUM_OF_CHANNEL_BLOCKS,
            forall|j: int| 0 <= j < i ==> #[trigger] channels@[j] is None,
        decreases NUM_OF_CHANNEL_BLOCKS - i,
    {
        if let Some(c) = channels[i] {
            return Some(c);
        }
        i = i + 1;
    }
    None
}

impl<R: Region, C: ChannelPlan<R>> Mac<R, C> {
    /// The channels to send a frame on: one drawn at random from each channel block.
    pub fn get_send_channels(&self, randoms: [u32; NUM_OF_CHANNEL_BLOCKS], frame: Frame) -> (res: Result<
        [Option<C::Channel>; NUM_OF_CHANNEL_BLOCKS],
        super::region::Error,
    >)
        requires
            C::spec_random_channels_ok(frame),
        ensures
            res matches Ok(cs) && forall|i: int|
                0 <= i < NUM_OF_CHANNEL_BLOCKS ==> #[trigger] cs@[i] == C::spec_random_channel(
                    self.channel_plan.spec_state(),
                    randoms@,
                    frame,
                    i,
                ),
    {
        self.channel_plan.get_random_channels_from_blocks(randoms, frame)
    }
}

} // verus!
