use robustmq::frame::{frame_step, FrameEvent, FrameRead, FrameStep};

#[test]
fn loop_exits_only_on_a_true_stop_signal() {
    assert_eq!(frame_step(&FrameEvent::Stop(Some(true))), FrameStep::Exit);
    assert_eq!(frame_step(&FrameEvent::Stop(Some(false))), FrameStep::Continue);
    assert_eq!(frame_step(&FrameEvent::Stop(None)), FrameStep::Continue);
}

#[test]
fn decoded_frames_are_forwarded_and_others_skipped() {
    assert_eq!(
        frame_step(&FrameEvent::Frame(Some(FrameRead::Decoded))),
        FrameStep::Forward
    );
    assert_eq!(
        frame_step(&FrameEvent::Frame(Some(FrameRead::Malformed))),
        FrameStep::Continue
    );
    assert_eq!(frame_step(&FrameEvent::Frame(None)), FrameStep::Continue);
}
