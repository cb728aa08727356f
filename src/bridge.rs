//! The frame bridges: bounded channels that carry two-channel frames from the
//! capture callback to the processor, and from the processor to the render
//! callback. The channels are kanal's; this module holds the policy each end
//! applies to what the channel answers.

use crate::error::{ChannelFailure, ErrorKind};
use vstd::prelude::*;

verus! {

/// How many blocks' worth of frames a bridge holds.
pub const BRIDGE_BLOCKS: usize = 4;

/// One sample instant on both channels.
#[derive(Clone, Copy, Debug)]
pub struct Frame<S> {
    pub left: S,
    pub right: S,
}

/// The frames the bridges carry: each sample as the bit pattern of an
/// IEEE-754 single precision number.
pub type AudioFrame = Frame<u32>;

/// Most frames a bridge may be opened for: their storage, reserved up front,
/// then stays far below `isize::MAX` bytes on every target.
pub const MAX_BRIDGE_FRAMES: usize = 0x0800_0000;

#[verifier::external_type_specification]
#[verifier::external_body]
#[verifier::reject_recursive_types(T)]
pub struct ExSender<T>(kanal::Sender<T>);

#[verifier::external_type_specification]
#[verifier::external_body]
#[verifier::reject_recursive_types(T)]
pub struct ExReceiver<T>(kanal::Receiver<T>);

#[verifier::external_type_specification]
pub struct ExSendError(kanal::SendError);

#[verifier::external_type_specification]
pub struct ExReceiveError(kanal::ReceiveError);

/// kanal's `Sender::try_send`: never waits; `Ok(true)` when the item was
/// queued or handed to a waiting receiver, `Ok(false)` when the queue was
/// full (the item is dropped), an error when the channel is closed. Which one
/// comes depends on the other side, so nothing is promised.
pub assume_specification<T>[ kanal::Sender::<T>::try_send ](
    s: &kanal::Sender<T>,
    data: T,
) -> Result<bool, kanal::SendError>;

/// kanal's `Receiver::try_recv`: never waits; `Ok(None)` when nothing is
/// queued, an error when the channel is closed.
pub assume_specification<T>[ kanal::Receiver::<T>::try_recv ](
    r: &kanal::Receiver<T>,
) -> Result<Option<T>, kanal::ReceiveError>;

/// kanal's `Receiver::recv`: waits for an item; an error when the channel is
/// closed.
pub assume_specification<T>[ kanal::Receiver::<T>::recv ](
    r: &kanal::Receiver<T>,
) -> Result<T, kanal::ReceiveError>;

pub open spec fn spec_send_failure(e: kanal::SendError) -> ChannelFailure {
    match e {
        kanal::SendError::Closed => ChannelFailure::Closed,
        kanal::SendError::ReceiveClosed => ChannelFailure::HalfClosed,
    }
}

pub open spec fn spec_receive_failure(e: kanal::ReceiveError) -> ChannelFailure {
    match e {
        kanal::ReceiveError::Closed => ChannelFailure::Closed,
        kanal::ReceiveError::SendClosed => ChannelFailure::HalfClosed,
    }
}

pub fn send_failure(e: kanal::SendError) -> (r: ChannelFailure)
    ensures
        r == spec_send_failure(e),
{
    match e {
        kanal::SendError::Closed => ChannelFailure::Closed,
        kanal::SendError::ReceiveClosed => ChannelFailure::HalfClosed,
    }
}

pub fn receive_failure(e: kanal::ReceiveError) -> (r: ChannelFailure)
    ensures
        r == spec_receive_failure(e),
{
    match e {
        kanal::ReceiveError::Closed => ChannelFailure::Closed,
        kanal::ReceiveError::SendClosed => ChannelFailure::HalfClosed,
    }
}

/// Capacity of a bridge for the given block size.
pub open spec fn spec_bridge_capacity(block_size: nat) -> nat {
    BRIDGE_BLOCKS as nat * block_size
}

/// The number of frames a bridge's queue holds at most: the bound it was
/// opened with.
pub uninterp spec fn bridge_capacity(tx: kanal::Sender<AudioFrame>) -> nat;

/// Relies on kanal's `bounded`: the channel it opens queues at most `size`
/// items (its `capacity()` reports `size`). The queue's storage is reserved
/// up front, so `size` is kept small enough for that never to panic.
#[verifier::external_body]
fn open_bounded(size: usize) -> (r: (kanal::Sender<AudioFrame>, kanal::Receiver<AudioFrame>))
    requires
        size <= MAX_BRIDGE_FRAMES,
    ensures
        bridge_capacity(r.0) == size,
{
    kanal::bounded(size)
}

/// Opens a bridge able to absorb `BRIDGE_BLOCKS` blocks of jitter: its
/// capacity is `BRIDGE_BLOCKS * block_size` frames.
pub fn bridge(block_size: usize) -> (r: (kanal::Sender<AudioFrame>, kanal::Receiver<AudioFrame>))
    requires
        spec_bridge_capacity(block_size as nat) <= MAX_BRIDGE_FRAMES,
    ensures
        bridge_capacity(r.0) == spec_bridge_capacity(block_size as nat),
{
    open_bounded(BRIDGE_BLOCKS * block_size)
}

/// What the processor does with the channel's answer to a processed frame:
/// accepted is fine; a full bridge means the render side has stopped
/// consuming, which ends the session; a closed bridge is a send error.
pub open spec fn spec_processed_outcome(sent: Result<bool, kanal::SendError>) -> Result<(), ErrorKind> {
    match sent {
        Ok(true) => Ok(()),
        Ok(false) => Err(ErrorKind::RenderStalled),
        Err(e) => Err(ErrorKind::Send(spec_send_failure(e))),
    }
}

pub fn processed_outcome(sent: Result<bool, kanal::SendError>) -> (r: Result<(), ErrorKind>)
    ensures
        r == spec_processed_outcome(sent),
{
    match sent {
        Ok(true) => Ok(()),
        Ok(false) => Err(ErrorKind::RenderStalled),
        Err(e) => Err(ErrorKind::Send(send_failure(e))),
    }
}

/// Capture side: offers a frame without ever waiting. A frame that does not
/// fit, or that finds the bridge closed, is dropped: the capture callback
/// neither blocks nor fails.
pub fn offer_captured<S>(tx: &kanal::Sender<Frame<S>>, frame: Frame<S>) {
    let _ = tx.try_send(frame);
}

/// Processor side: offers a processed frame without waiting; a frame the
/// bridge cannot take is a fatal session error, not a silent loss.
pub fn offer_processed<S>(tx: &kanal::Sender<Frame<S>>, frame: Frame<S>) -> (r: Result<
    (),
    ErrorKind,
>)
    ensures
        r is Ok || r->Err_0 is RenderStalled || r->Err_0 is Send,
{
    let sent = tx.try_send(frame);
    processed_outcome(sent)
}

/// Processor side: offers a processed block's frames in order, and stops at
/// the first one the bridge does not take. With no frames to offer there is
/// nothing that can fail.
pub fn emit_frames<S: Copy>(tx: &kanal::Sender<Frame<S>>, frames: &Vec<Frame<S>>) -> (r: Result<
    (),
    ErrorKind,
>)
    ensures
        frames@.len() == 0 ==> r is Ok,
        r is Ok || r->Err_0 is RenderStalled || r->Err_0 is Send,
{
    let mut i: usize = 0;
    while i < frames.len()
        invariant
            i <= frames.len(),
        decreases frames.len() - i,
    {
        let sent = offer_processed(tx, frames[i]);
        if sent.is_err() {
            return sent;
        }
        i = i + 1;
    }
    Ok(())
}

/// What the render callback plays for the channel's answer: the queued frame,
/// or silence when nothing is queued or the bridge is closed.
pub open spec fn spec_render_outcome<S>(got: Result<Option<Frame<S>>, kanal::ReceiveError>, silence: Frame<S>) -> Frame<S> {
    match got {
        Ok(Some(f)) => f,
        _ => silence,
    }
}

pub fn render_outcome<S>(got: Result<Option<Frame<S>>, kanal::ReceiveError>, silence: Frame<S>) -> (r: Frame<S>)
    ensures
        r == spec_render_outcome(got, silence),
{
    match got {
        Ok(Some(f)) => f,
        _ => silence,
    }
}

/// Render side: takes the next processed frame without waiting, or silence.
pub fn next_render_frame<S>(rx: &kanal::Receiver<Frame<S>>, silence: Frame<S>) -> Frame<S> {
    let got = rx.try_recv();
    render_outcome(got, silence)
}

/// Processor side of the input bridge: waits for the next captured frame.
pub fn next_captured<S>(rx: &kanal::Receiver<Frame<S>>) -> (r: Result<Frame<S>, ErrorKind>)
    ensures
        r is Ok || r->Err_0 is Receive,
{
    match rx.recv() {
        Ok(f) => Ok(f),
        Err(e) => Err(ErrorKind::Receive(receive_failure(e))),
    }
}

} // verus!
