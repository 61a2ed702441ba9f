use termframe::diff::DrawOp;
use termframe::frame::{Frame, Pixel};
use termframe::pacer::sleep_slack;
use termframe::term::{origin_col, RenderError, RenderSetting, Renderer};

fn px(r: u8, g: u8, b: u8) -> Pixel {
    Pixel { r, g, b }
}

fn solid(w: u16, h: u16, p: Pixel) -> Frame {
    Frame::new(w, h, vec![p; (w as usize) * (h as usize)]).unwrap()
}

fn ready_renderer(term: (u16, u16)) -> Renderer {
    let mut rd = Renderer::with_term_size(RenderSetting { frame_interval_micros: 0 }, term);
    rd.init().unwrap();
    rd
}

#[test]
fn first_frame_full_redraw() {
    let mut rd = ready_renderer((80, 24));
    let red = px(255, 0, 0);
    let ops = rd.plan_frame(solid(2, 2, red)).unwrap();
    // 2 x 2 pixels, frame centered: left edge at 80/2 - 2/2 = 39.
    let expected = vec![
        DrawOp { x: 39, y: 0, color: red },
        DrawOp { x: 40, y: 0, color: red },
        DrawOp { x: 39, y: 1, color: red },
        DrawOp { x: 40, y: 1, color: red },
    ];
    assert_eq!(ops, expected);
}

#[test]
fn second_identical_frame_no_ops() {
    let mut rd = ready_renderer((80, 24));
    let red = px(200, 10, 10);
    assert_eq!(rd.plan_frame(solid(3, 2, red)).unwrap().len(), 6);
    assert_eq!(rd.plan_frame(solid(3, 2, red)).unwrap().len(), 0);
}

#[test]
fn partial_diff_emits_exactly_changed_pixels() {
    let mut rd = ready_renderer((80, 24));
    let a = px(1, 1, 1);
    let b = px(9, 9, 9);
    rd.plan_frame(solid(2, 2, a)).unwrap();
    // Change exactly one pixel: position (1, 0).
    let second = Frame::new(2, 2, vec![a, b, a, a]).unwrap();
    let ops = rd.plan_frame(second).unwrap();
    assert_eq!(ops, vec![DrawOp { x: 40, y: 0, color: b }]);
    // Change exactly three pixels against the cached second frame.
    let third = Frame::new(2, 2, vec![b, b, b, b]).unwrap();
    let ops = rd.plan_frame(third).unwrap();
    assert_eq!(
        ops,
        vec![
            DrawOp { x: 39, y: 0, color: b },
            DrawOp { x: 39, y: 1, color: b },
            DrawOp { x: 40, y: 1, color: b },
        ]
    );
}

#[test]
fn dimension_mismatch_is_rejected() {
    let mut rd = ready_renderer((80, 24));
    let c = px(5, 5, 5);
    rd.plan_frame(solid(2, 2, c)).unwrap();
    assert_eq!(rd.plan_frame(solid(2, 3, c)), Err(RenderError::DimensionMismatch));
    assert_eq!(rd.plan_frame(solid(4, 2, c)), Err(RenderError::DimensionMismatch));
    // The failed render leaves the session intact: the matching size still works.
    assert_eq!(rd.plan_frame(solid(2, 2, c)).unwrap().len(), 0);
}

#[test]
fn render_before_init_fails() {
    let mut rd = Renderer::with_term_size(RenderSetting { frame_interval_micros: 0 }, (80, 24));
    assert_eq!(rd.plan_frame(solid(2, 2, px(0, 0, 0))), Err(RenderError::NotInitialized));
    assert_eq!(rd.frames_rendered(), 0);
}

#[test]
fn centering_width_80_frame_40() {
    let mut rd = ready_renderer((80, 24));
    let c = px(7, 8, 9);
    let ops = rd.plan_frame(solid(40, 1, c)).unwrap();
    assert_eq!(ops[0], DrawOp { x: 20, y: 0, color: c });
    assert_eq!(ops.len(), 40);
}

#[test]
fn origin_col_values() {
    assert_eq!(origin_col(80, 40), 20);
    assert_eq!(origin_col(81, 40), 20);
    assert_eq!(origin_col(80, 80), 0);
    assert_eq!(origin_col(10, 20), 0);
}

#[test]
fn sleep_slack_values() {
    // FPS = 10 means a 100ms interval; a 5ms frame sleeps the 95ms rest.
    assert_eq!(sleep_slack(100_000, 5_000), 95_000);
    assert_eq!(sleep_slack(100_000, 100_000), 0);
    assert_eq!(sleep_slack(100_000, 250_000), 0);
    assert_eq!(sleep_slack(0, 17), 0);
}

#[test]
fn solid_sequence_red_red_blue() {
    let mut rd = ready_renderer((80, 24));
    let red = px(255, 0, 0);
    let blue = px(0, 0, 255);
    assert_eq!(rd.plan_frame(solid(2, 2, red)).unwrap().len(), 4);
    assert_eq!(rd.plan_frame(solid(2, 2, red)).unwrap().len(), 0);
    assert_eq!(rd.plan_frame(solid(2, 2, blue)).unwrap().len(), 4);
    assert_eq!(rd.frames_rendered(), 3);
}

#[test]
fn zero_sized_frame_renders_nothing() {
    let mut rd = ready_renderer((80, 24));
    let empty = Frame::new(0, 0, Vec::new()).unwrap();
    assert_eq!(rd.plan_frame(empty).unwrap().len(), 0);
    assert_eq!(rd.frames_rendered(), 1);
}

#[test]
fn render_frame_advances_session() {
    let mut rd = ready_renderer((80, 24));
    let c = px(3, 2, 1);
    rd.render_frame(solid(2, 1, c)).unwrap();
    assert_eq!(rd.frames_rendered(), 1);
    rd.render_frame(solid(2, 1, c)).unwrap();
    assert_eq!(rd.frames_rendered(), 2);
    assert_eq!(rd.render_frame(solid(4, 1, c)), Err(RenderError::DimensionMismatch));
    assert_eq!(rd.frames_rendered(), 2);
}

#[test]
fn teardown_closes_session() {
    let mut rd = ready_renderer((80, 24));
    rd.teardown().unwrap();
    assert_eq!(rd.plan_frame(solid(2, 2, px(0, 0, 0))), Err(RenderError::NotInitialized));
}

#[test]
fn frame_size_accessors() {
    let mut rd = Renderer::with_term_size(RenderSetting { frame_interval_micros: 33_333 }, (120, 40));
    assert_eq!(rd.term_size(), (120, 40));
    assert_eq!(rd.frame_size(), (120, 40));
    rd.set_frame_size((64, 32));
    assert_eq!(rd.frame_size(), (64, 32));
    assert_eq!(rd.term_size(), (120, 40));
}

#[test]
fn error_messages() {
    assert_eq!(RenderError::NotInitialized.message(), "Renderer not inited");
    assert_eq!(
        RenderError::DimensionMismatch.message(),
        "Frame size differs from the previous frame"
    );
    assert_eq!(RenderError::Terminal.message(), "Terminal write failed");
}
