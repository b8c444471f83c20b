//! Frame composition and the screen adapter's prepare/render protocol.

use psychophysics::visual::{
    Color, DrawEncoder, DrawOp, Frame, RenderContext, Renderable, Screen, Stimulus,
};

#[test]
fn frame_prepares_and_draws_in_insertion_order() {
    let mut frame = Frame::new();
    frame.add(&Stimulus { id: 7, finnished: false });
    frame.add(&Stimulus { id: 3, finnished: false });
    frame.add(&Stimulus { id: 9, finnished: false });
    let mut ctx = RenderContext::new();
    frame.prepare(&mut ctx);
    assert_eq!(ctx.prepared, vec![7, 3, 9]);
    let mut enc = DrawEncoder::new();
    frame.render(&mut enc);
    assert_eq!(enc.ops, vec![DrawOp::Draw(7), DrawOp::Draw(3), DrawOp::Draw(9)]);
}

#[test]
fn frame_background_clears_before_any_draw() {
    let mut frame = Frame::with_bg_color(Color::RGB { r: 0, g: 0, b: 0 });
    frame.add(&Stimulus { id: 4, finnished: false });
    let mut enc = DrawEncoder::new();
    frame.render(&mut enc);
    assert_eq!(
        enc.ops,
        vec![DrawOp::Clear(Color::RGB { r: 0, g: 0, b: 0 }), DrawOp::Draw(4)]
    );
}

#[test]
fn frame_add_captures_state_at_attachment() {
    let mut stim = Stimulus { id: 1, finnished: false };
    let mut frame = Frame::new();
    frame.add(&stim);
    stim.id = 2;
    frame.add(&stim);
    let mut ctx = RenderContext::new();
    frame.prepare(&mut ctx);
    assert_eq!(ctx.prepared, vec![1, 2]);
}

#[test]
fn screen_builds_frame_on_prepare_and_draws_on_render() {
    let mut screen = Screen::new(|mut f: Frame| -> Frame {
        f.add(&Stimulus { id: 11, finnished: false });
        f
    });
    let mut ctx = RenderContext::new();
    screen.prepare(&mut ctx);
    assert_eq!(ctx.prepared, vec![11]);
    let mut enc = DrawEncoder::new();
    screen.render(&mut enc);
    assert_eq!(enc.ops, vec![DrawOp::Draw(11)]);
}

#[test]
fn screen_render_twice_without_prepare_is_noop() {
    let mut screen = Screen::new(|mut f: Frame| -> Frame {
        f.add(&Stimulus { id: 5, finnished: false });
        f
    });
    let mut ctx = RenderContext::new();
    screen.prepare(&mut ctx);
    let mut enc = DrawEncoder::new();
    screen.render(&mut enc);
    assert_eq!(enc.ops.len(), 1);
    // no intervening prepare: the second and third render draw nothing
    screen.render(&mut enc);
    assert_eq!(enc.ops.len(), 1);
    screen.render(&mut enc);
    assert_eq!(enc.ops.len(), 1);
    // a fresh prepare re-arms the adapter
    screen.prepare(&mut ctx);
    screen.render(&mut enc);
    assert_eq!(enc.ops.len(), 2);
}

#[test]
fn screen_propagates_frame_completion() {
    let mut screen = Screen::new(|mut f: Frame| -> Frame {
        f.is_finnished = true;
        f
    });
    assert!(!screen.is_finnished());
    let mut ctx = RenderContext::new();
    screen.prepare(&mut ctx);
    // completion is propagated at render, not at prepare
    assert!(!screen.is_finnished());
    let mut enc = DrawEncoder::new();
    screen.render(&mut enc);
    assert!(screen.is_finnished());
}

#[test]
fn stimulus_reports_its_own_completion() {
    let done = Stimulus { id: 0, finnished: true };
    let not_done = Stimulus { id: 0, finnished: false };
    assert!(done.is_finnished());
    assert!(!not_done.is_finnished());
}
