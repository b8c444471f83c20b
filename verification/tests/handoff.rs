//! Frame handoff: single-slot backpressure, ordering, acknowledgement,
//! and failure on a closed channel.

use std::sync::atomic::{AtomicBool, Ordering};
use std::sync::Arc;
use std::time::Duration;

use psychophysics::errors::PsychophysicsError;
use psychophysics::pwindow::Window;
use psychophysics::visual::{Frame, Stimulus};

fn frame_with_id(id: u64) -> Frame {
    let mut f = Frame::new();
    f.add(&Stimulus { id, finnished: false });
    f
}

fn sleep_ms(ms: u64) {
    smol::block_on(smol::Timer::after(Duration::from_millis(ms)));
}

#[test]
fn second_submit_blocks_until_first_is_consumed() {
    let (window, _key_sender) = Window::new();
    // the first submission fills the single slot and returns at once
    window.submit_frame(frame_with_id(1)).unwrap();

    let second_done = Arc::new(AtomicBool::new(false));
    let flag = second_done.clone();
    let producer = window.clone();
    let task = smol::unblock(move || {
        producer.submit_frame(frame_with_id(2)).unwrap();
        flag.store(true, Ordering::SeqCst);
    });
    task.detach();

    // with the slot still full, the second submission stays blocked
    sleep_ms(300);
    assert!(!second_done.load(Ordering::SeqCst));

    // consuming the first frame frees the slot and unblocks the producer
    let plan = window.present_next().unwrap();
    assert_eq!(plan.prepare_ops, vec![1]);
    sleep_ms(300);
    assert!(second_done.load(Ordering::SeqCst));
    let plan2 = window.present_next().unwrap();
    assert_eq!(plan2.prepare_ops, vec![2]);
}

#[test]
fn frames_come_out_in_submission_order() {
    let (window, _key_sender) = Window::new();
    window.submit_frame(frame_with_id(10)).unwrap();
    let producer = window.clone();
    let task = smol::unblock(move || {
        producer.submit_frame(frame_with_id(20)).unwrap();
        producer.submit_frame(frame_with_id(30)).unwrap();
    });
    task.detach();
    assert_eq!(window.present_next().unwrap().prepare_ops, vec![10]);
    assert_eq!(window.present_next().unwrap().prepare_ops, vec![20]);
    assert_eq!(window.present_next().unwrap().prepare_ops, vec![30]);
}

#[test]
fn present_plan_matches_fetched_frame() {
    let (window, _key_sender) = Window::new();
    let mut f = window.get_frame();
    f.add(&Stimulus { id: 5, finnished: false });
    f.add(&Stimulus { id: 6, finnished: true });
    window.submit_frame(f).unwrap();
    let plan = window.present_next().unwrap();
    assert_eq!(plan.prepare_ops, vec![5, 6]);
    assert_eq!(plan.frame.renderables.len(), 2);
    assert_eq!(plan.draw_ops.len(), 2);
}

#[test]
fn submit_into_closed_channel_reports_the_error() {
    let (window, _key_sender) = Window::new();
    window.frame_receiver.close();
    let r = window.submit_frame(frame_with_id(1));
    assert_eq!(r, Err(PsychophysicsError::FrameChannelClosed));
}

#[test]
fn present_next_on_closed_drained_channel_is_none() {
    let (window, _key_sender) = Window::new();
    window.submit_frame(frame_with_id(1)).unwrap();
    window.frame_sender.close();
    // the queued frame still comes out, then the channel reports closed
    assert!(window.present_next().is_some());
    assert!(window.present_next().is_none());
}

#[test]
fn acknowledgement_flows_back_to_the_producer() {
    let (window, _key_sender) = Window::new();
    window.ack_frame().unwrap();
    assert_eq!(window.wait_frame_ok(), Some(true));
}

#[test]
fn ack_into_closed_channel_reports_the_error() {
    let (window, _key_sender) = Window::new();
    window.frame_ok_receiver.close();
    assert_eq!(window.ack_frame(), Err(PsychophysicsError::AckChannelClosed));
}

#[test]
fn close_requests_shutdown_and_is_idempotent() {
    let (window, _key_sender) = Window::new();
    window.close();
    // a second request while one is pending is fine: best-effort signaling
    window.close();
    assert_eq!(smol::block_on(window.close_receiver.recv()), Ok(()));
}
