use vstd::prelude::*;

verus! {

/// The outcome of reading one frame from the connection.
#[derive(Clone, Copy, Debug, PartialEq, Eq, Structural)]
pub enum FrameRead {
    /// A frame was decoded into a packet.
    Decoded,
    /// The bytes did not form a valid packet.
    Malformed,
}

/// What woke the per-connection read loop: a message on the stop channel
/// (`None` once the channel is closed), or the next item of the frame stream
/// (`None` at its end).
#[derive(Clone, Copy, Debug, PartialEq, Eq, Structural)]
pub enum FrameEvent {
    Stop(Option<bool>),
    Frame(Option<FrameRead>),
}

/// What the read loop does next.
#[derive(Clone, Copy, Debug, PartialEq, Eq, Structural)]
pub enum FrameStep {
    /// Leave the loop.
    Exit,
    /// Wrap the decoded packet with the connection's id and address and put it
    /// on the request queue, then keep reading.
    Forward,
    /// Keep reading.
    Continue,
}

/// The step the read loop takes on `event`.
pub open spec fn step_on(event: FrameEvent) -> FrameStep {
    match event {
        FrameEvent::Stop(Some(true)) => FrameStep::Exit,
        FrameEvent::Frame(Some(FrameRead::Decoded)) => FrameStep::Forward,
        _ => FrameStep::Continue,
    }
}

/// Decides the read loop's next step: it stops only on a `true` stop signal,
/// forwards every decoded packet, and keeps reading on anything else (a
/// `false` signal, a closed stop channel, a malformed frame, or the end of
/// the stream).
pub fn frame_step(event: &FrameEvent) -> (step: FrameStep)
    ensures
        step == step_on(*event),
        (step == FrameStep::Exit) <==> (*event == FrameEvent::Stop(Some(true))),
        (step == FrameStep::Forward) <==> (*event == FrameEvent::Frame(Some(FrameRead::Decoded))),
{
    match *event {
        FrameEvent::Stop(signal) => match signal {
            Some(flag) => {
                if flag {
                    FrameStep::Exit
                } else {
                    FrameStep::Continue
                }
            },
            None => FrameStep::Continue,
        },
        FrameEvent::Frame(item) => match item {
            Some(FrameRead::Decoded) => FrameStep::Forward,
            Some(FrameRead::Malformed) => FrameStep::Continue,
            None => FrameStep::Continue,
        },
    }
}

} // verus!
