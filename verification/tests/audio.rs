use wan_player::buffer::SampleBuffer;
use wan_player::decoder::{admits, frame_action, push_frame, FrameAction, FrameEvent};
use wan_player::sink::{fill_output, render};
use wan_player::volume::scale_sample;

#[test]
fn fresh_buffer_is_empty() {
    let buf = SampleBuffer::new(8);
    assert_eq!(buf.capacity(), 8);
    assert_eq!(buf.len(), 0);
    assert_eq!(buf.free_len(), 8);
}

#[test]
fn push_then_pop_preserves_order() {
    let mut buf = SampleBuffer::new(16);
    let n = buf.push(&vec![10, 20, 30, 40, 50]);
    assert_eq!(n, 5);
    let mut out = vec![0i16; 5];
    let got = buf.pop_into(&mut out);
    assert_eq!(got, 5);
    assert_eq!(out, vec![10, 20, 30, 40, 50]);
    assert_eq!(buf.len(), 0);
}

#[test]
fn capacity_four_push_four_pop_six() {
    // Buffer of capacity 4; push [1,2,3,4]; a pop with room for 6 returns
    // exactly the 4 queued samples and leaves the last 2 slots exactly as
    // the caller initialized them.
    let mut buf = SampleBuffer::new(4);
    let n = buf.push(&vec![1, 2, 3, 4]);
    assert_eq!(n, 4);
    let mut out = vec![9i16; 6];
    let got = buf.pop_into(&mut out);
    assert_eq!(got, 4);
    assert_eq!(out, vec![1, 2, 3, 4, 9, 9]);
}

#[test]
fn push_on_full_buffer_accepts_nothing_and_drops_nothing() {
    let mut buf = SampleBuffer::new(4);
    assert_eq!(buf.push(&vec![1, 2, 3, 4, 5, 6]), 4);
    assert_eq!(buf.push(&vec![7, 8]), 0);
    let mut out = vec![0i16; 4];
    assert_eq!(buf.pop_into(&mut out), 4);
    assert_eq!(out, vec![1, 2, 3, 4]);
}

#[test]
fn pop_frees_space_for_waiting_writer() {
    let mut buf = SampleBuffer::new(4);
    assert_eq!(buf.push(&vec![1, 2, 3, 4]), 4);
    assert_eq!(buf.free_len(), 0);
    let mut out = vec![0i16; 2];
    assert_eq!(buf.pop_into(&mut out), 2);
    assert_eq!(buf.free_len(), 2);
    assert_eq!(buf.push(&vec![5, 6]), 2);
    let mut rest = vec![0i16; 4];
    assert_eq!(buf.pop_into(&mut rest), 4);
    assert_eq!(rest, vec![3, 4, 5, 6]);
}

#[test]
fn pop_on_empty_buffer_returns_zero_and_touches_nothing() {
    let mut buf = SampleBuffer::new(4);
    let mut out = vec![7i16; 3];
    assert_eq!(buf.pop_into(&mut out), 0);
    assert_eq!(out, vec![7, 7, 7]);
}

#[test]
fn order_is_kept_across_wraparound() {
    let mut buf = SampleBuffer::new(4);
    assert_eq!(buf.push(&vec![1, 2, 3]), 3);
    let mut out = vec![0i16; 2];
    assert_eq!(buf.pop_into(&mut out), 2);
    assert_eq!(out, vec![1, 2]);
    assert_eq!(buf.push(&vec![4, 5, 6]), 3);
    let mut rest = vec![0i16; 4];
    assert_eq!(buf.pop_into(&mut rest), 4);
    assert_eq!(rest, vec![3, 4, 5, 6]);
}

#[test]
fn half_volume_truncates_toward_zero() {
    // Volume 50 on [100, -100, 32767] gives [50, -50, 16383].
    assert_eq!(scale_sample(100, 50), 50);
    assert_eq!(scale_sample(-100, 50), -50);
    assert_eq!(scale_sample(32767, 50), 16383);
    assert_eq!(scale_sample(-101, 50), -50);
    assert_eq!(scale_sample(99, 50), 49);
}

#[test]
fn full_volume_reproduces_samples_exactly() {
    for s in [0i16, 1, -1, 100, -100, 32767, -32768] {
        assert_eq!(scale_sample(s, 100), s);
    }
}

#[test]
fn zero_volume_silences_everything() {
    for s in [0i16, 1, -1, 100, -100, 32767, -32768] {
        assert_eq!(scale_sample(s, 0), 0);
    }
}

#[test]
fn render_scales_prefix_and_silences_tail() {
    let mut out = vec![100i16, -100, 32767, 5, -5];
    render(&mut out, 3, 50);
    assert_eq!(out, vec![50, -50, 16383, 0, 0]);
}

#[test]
fn callback_on_underfilled_buffer_pads_with_silence() {
    let mut buf = SampleBuffer::new(8);
    assert_eq!(buf.push(&vec![100, -100, 32767]), 3);
    let mut out = vec![1i16; 5];
    let n = fill_output(&mut buf, &mut out, 50);
    assert_eq!(n, 3);
    assert_eq!(out, vec![50, -50, 16383, 0, 0]);
    assert_eq!(buf.len(), 0);
}

#[test]
fn callback_at_full_volume_is_passthrough() {
    let mut buf = SampleBuffer::new(8);
    assert_eq!(buf.push(&vec![7, -7, 32767, -32768]), 4);
    let mut out = vec![0i16; 4];
    let n = fill_output(&mut buf, &mut out, 100);
    assert_eq!(n, 4);
    assert_eq!(out, vec![7, -7, 32767, -32768]);
}

#[test]
fn callback_at_zero_volume_is_silence() {
    let mut buf = SampleBuffer::new(8);
    assert_eq!(buf.push(&vec![7, -7, 32767, -32768]), 4);
    let mut out = vec![5i16; 6];
    let n = fill_output(&mut buf, &mut out, 0);
    assert_eq!(n, 4);
    assert_eq!(out, vec![0, 0, 0, 0, 0, 0]);
}

#[test]
fn good_frames_are_delivered_bad_ones_skipped_eof_finishes() {
    assert_eq!(frame_action(&FrameEvent::Frame(vec![1, 2, 3])), FrameAction::Deliver);
    assert_eq!(frame_action(&FrameEvent::CorruptFrame), FrameAction::Skip);
    assert_eq!(frame_action(&FrameEvent::EndOfStream), FrameAction::Finish);
}

#[test]
fn writer_waits_until_a_whole_frame_fits() {
    let mut buf = SampleBuffer::new(4);
    assert_eq!(buf.push(&vec![1, 2, 3]), 3);
    assert!(!admits(&buf, 2));
    assert!(admits(&buf, 1));
    let mut out = vec![0i16; 2];
    assert_eq!(buf.pop_into(&mut out), 2);
    assert!(admits(&buf, 2));
    push_frame(&mut buf, &vec![4, 5]);
    let mut rest = vec![0i16; 3];
    assert_eq!(buf.pop_into(&mut rest), 3);
    assert_eq!(rest, vec![3, 4, 5]);
}
