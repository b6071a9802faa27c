//! The queue of MAC command answers waiting to be piggybacked on the next uplinks: a
//! `heapless::Vec` of capacity 15.

use vstd::prelude::*;

use crate::mac::mac_1_0_4::encoding::maccommandcreator::UplinkMacCommandCreator;

verus! {

/// Capacity of the queue of pending uplink MAC commands.
pub const UPLINK_CMDS_CAPACITY: usize = 15;

/// The fixed-capacity vector of the `heapless` crate.
#[verifier::external_type_specification]
#[verifier::external_body]
#[verifier::reject_recursive_types(T)]
pub struct ExHeaplessVec<T, const N: usize>(heapless::Vec<T, N>);

/// The commands that a queue holds, oldest first.
pub uninterp spec fn queued(v: heapless::Vec<UplinkMacCommandCreator, 15>) -> Seq<UplinkMacCommandCreator>;

/// Whether an answer stays queued after an uplink that got no downlink: these answers
/// must be repeated until the network server has seen one.
pub open spec fn spec_sticky(cmd: UplinkMacCommandCreator) -> bool {
    ||| cmd is RXParamSetupAns
    ||| cmd is RXTimingSetupAns
    ||| cmd is DlChannelAns
    ||| cmd is TXParamSetupAns
}

/// [`spec_sticky`] as a predicate.
pub open spec fn sticky_pred() -> spec_fn(UplinkMacCommandCreator) -> bool {
    |cmd: UplinkMacCommandCreator| spec_sticky(cmd)
}

/// Whether an answer stays queued after an uplink that got no downlink.
pub fn is_sticky(cmd: &UplinkMacCommandCreator) -> (res: bool)
    ensures
        res == spec_sticky(*cmd),
{
    match cmd {
        UplinkMacCommandCreator::RXParamSetupAns(_) => true,
        UplinkMacCommandCreator::RXTimingSetupAns(_) => true,
        UplinkMacCommandCreator::DlChannelAns(_) => true,
        UplinkMacCommandCreator::TXParamSetupAns(_) => true,
        _ => false,
    }
}

/// `heapless::Vec::new`: an empty queue.
#[verifier::external_body]
pub(crate) fn queue_new() -> (res: heapless::Vec<UplinkMacCommandCreator, 15>)
    ensures
        queued(res) == Seq::<UplinkMacCommandCreator>::empty(),
{
    heapless::Vec::new()
}

/// What a push gives back: nothing, or the command that did not fit.
pub type PushOutcome = Result<(), UplinkMacCommandCreator>;

/// `heapless::Vec::push`: appends `cmd` when the queue holds fewer than 15 commands,
/// and otherwise hands it back and leaves the queue as it was.
#[verifier::external_body]
pub(crate) fn queue_push(v: &mut heapless::Vec<UplinkMacCommandCreator, 15>, cmd: UplinkMacCommandCreator) -> (res: PushOutcome)
    ensures
        queued(*old(v)).len() < 15 ==> res is Ok && queued(*final(v)) == queued(*old(v)).push(cmd),
        queued(*old(v)).len() >= 15 ==> res == PushOutcome::Err(cmd) && queued(*final(v)) == queued(*old(v)),
{
    v.push(cmd)
}

/// `heapless::Vec::as_slice`: the queued commands, at most 15.
#[verifier::external_body]
pub(crate) fn queue_as_slice(v: &heapless::Vec<UplinkMacCommandCreator, 15>) -> (res: &[UplinkMacCommandCreator])
    ensures
        res@ == queued(*v),
        res@.len() <= 15,
{
    v.as_slice()
}

/// `heapless::Vec::is_empty`.
#[verifier::external_body]
pub(crate) fn queue_is_empty(v: &heapless::Vec<UplinkMacCommandCreator, 15>) -> (res: bool)
    ensures
        res == (queued(*v).len() == 0),
{
    v.is_empty()
}

/// `heapless::Vec::clear`: empties the queue.
#[verifier::external_body]
pub(crate) fn queue_clear(v: &mut heapless::Vec<UplinkMacCommandCreator, 15>)
    ensures
        queued(*final(v)) == Seq::<UplinkMacCommandCreator>::empty(),
{
    v.clear()
}

/// `heapless::Vec::retain` with [`is_sticky`]: keeps the sticky answers, in their order.
#[verifier::external_body]
pub(crate) fn queue_retain_sticky(v: &mut heapless::Vec<UplinkMacCommandCreator, 15>)
    ensures
        queued(*final(v)) == queued(*old(v)).filter(sticky_pred()),
{
    v.retain(|cmd| is_sticky(cmd))
}

} // verus!
