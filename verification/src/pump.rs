use vstd::prelude::*;

verus! {

/// A WebSocket message, as far as the pumps read it.
#[derive(Debug)]
pub enum Frame {
    /// A binary message and its payload.
    Binary(Vec<u8>),
    /// A close message.
    Close,
    /// Any other message (text, ping, pong, raw frame).
    Other,
}

/// What a pump does with what it has just read.
#[derive(Debug)]
pub enum PumpStep {
    /// Pass these bytes on to the other side.
    Forward(Vec<u8>),
    /// Stop pumping.
    Finish,
    /// Drop what was read and read on.
    Skip,
}

/// A pump's step, and whether the tunnel counts as active after it.
#[derive(Debug)]
pub struct PumpDecision {
    pub step: PumpStep,
    /// Whether the tunnel's activity hook runs once the step is done.
    pub touch: bool,
}

/// What a pump from a WebSocket does with a frame: a binary payload is
/// passed on, a close ends the pump, anything else is dropped.
pub open spec fn frame_step(frame: Frame) -> PumpStep {
    match frame {
        Frame::Binary(bytes) => PumpStep::Forward(bytes),
        Frame::Close => PumpStep::Finish,
        Frame::Other => PumpStep::Skip,
    }
}

/// The step of the pump from a WebSocket to a TCP stream.
pub fn ws_to_tcp_step(frame: Frame) -> (step: PumpStep)
    ensures
        step == frame_step(frame),
        frame matches Frame::Binary(b) ==> step == PumpStep::Forward(b),
        frame is Close ==> step is Finish,
        frame is Other ==> step is Skip,
{
    match frame {
        Frame::Binary(bytes) => PumpStep::Forward(bytes),
        Frame::Close => PumpStep::Finish,
        Frame::Other => PumpStep::Skip,
    }
}

/// The step of the pump from a WebSocket to a UDP socket. The tunnel counts
/// as active after every frame but a close.
pub fn ws_to_udp_step(frame: Frame) -> (d: PumpDecision)
    ensures
        d.step == frame_step(frame),
        frame matches Frame::Binary(b) ==> d.step == PumpStep::Forward(b),
        frame is Close ==> d.step is Finish,
        frame is Other ==> d.step is Skip,
        d.touch == !(frame is Close),
{
    let touch = match &frame {
        Frame::Close => false,
        _ => true,
    };
    PumpDecision { step: ws_to_tcp_step(frame), touch }
}

/// The step of the pump from a UDP source to a WebSocket: an empty datagram
/// ends the pump; any other is passed on, after which the tunnel counts as
/// active.
pub fn udp_to_ws_step(datagram: Vec<u8>) -> (d: PumpDecision)
    ensures
        datagram@.len() == 0 ==> d.step is Finish && !d.touch,
        datagram@.len() > 0 ==> d.step == PumpStep::Forward(datagram) && d.touch,
{
    if datagram.len() == 0 {
        PumpDecision { step: PumpStep::Finish, touch: false }
    } else {
        PumpDecision { step: PumpStep::Forward(datagram), touch: true }
    }
}

/// The bytes that a read of `n` bytes into `buffer` delivered.
pub fn received_bytes(buffer: &[u8], n: usize) -> (bytes: Vec<u8>)
    requires
        n <= buffer@.len(),
    ensures
        bytes@ == buffer@.take(n as int),
{
    let mut bytes: Vec<u8> = Vec::new();
    if n == 0 {
        return bytes;
    }
    for i in 0..n
        invariant
            n <= buffer@.len(),
            bytes@ == buffer@.take(i as int),
    {
        bytes.push(buffer[i]);
        proof {
            assert(buffer@.take(i + 1) =~= buffer@.take(i as int).push(buffer@[i as int]));
        }
    }
    bytes
}

} // verus!
