use lumberjack::frame::{crop_to_window, CaptureError, Frame};
use lumberjack::geometry::{CaptureRect, Point, ScreenPoint, Size, WindowBounds};
use lumberjack::matching::{accept, Candidate, MatchResult, BUTTON_THRESHOLD, OBSTACLE_THRESHOLD};
use lumberjack::templates::TemplateId;

#[test]
fn click_target_at_scale_two() {
    let bounds = WindowBounds::new(100, 200, 400, 600);
    let target = bounds.click_target(Point { x: 41, y: 60 }, Size { width: 50, height: 30 });
    assert_eq!(target, ScreenPoint { x: 100 + 20 + 12, y: 200 + 30 + 7 });
}

#[test]
fn click_target_at_scale_three() {
    let bounds = WindowBounds::with_scale(7, 9, 100, 100, 3).unwrap();
    let target = bounds.click_target(Point { x: 10, y: 0 }, Size { width: 30, height: 5 });
    assert_eq!(target, ScreenPoint { x: 7 + 3 + 5, y: 9 + 0 + 0 });
}

#[test]
fn negative_location_counts_as_zero() {
    let bounds = WindowBounds::new(5, 6, 10, 10);
    let target = bounds.click_target(Point { x: -8, y: -1 }, Size { width: 0, height: 0 });
    assert_eq!(target, ScreenPoint { x: 5, y: 6 });
}

#[test]
fn click_target_does_not_overflow() {
    let bounds = WindowBounds::new(u32::MAX, u32::MAX, 1, 1);
    let target = bounds.click_target(
        Point { x: i32::MAX, y: i32::MAX },
        Size { width: u32::MAX, height: u32::MAX },
    );
    let expected = u32::MAX as u64 + (i32::MAX as u64) / 2 + (u32::MAX as u64 / 2) / 2;
    assert_eq!(target, ScreenPoint { x: expected, y: expected });
}

#[test]
fn zero_scale_is_refused() {
    assert_eq!(WindowBounds::with_scale(1, 2, 3, 4, 0), None);
    assert_eq!(
        WindowBounds::with_scale(1, 2, 3, 4, 1),
        Some(WindowBounds { x: 1, y: 2, width: 3, height: 4, resolution_scale: 1 })
    );
}

#[test]
fn capture_rect_doubles_every_measure() {
    let bounds = WindowBounds::new(10, 20, 300, 400);
    assert_eq!(bounds.resolution_scale, 2);
    assert_eq!(
        bounds.capture_rect(),
        Some(CaptureRect { x: 20, y: 40, width: 600, height: 800 })
    );
}

#[test]
fn capture_rect_refuses_overflow() {
    let bounds = WindowBounds::new(10, 20, 0x8000_0000, 400);
    assert_eq!(bounds.capture_rect(), None);
    let bounds = WindowBounds::new(10, 20, 0x7fff_ffff, 400);
    assert_eq!(
        bounds.capture_rect(),
        Some(CaptureRect { x: 20, y: 40, width: 0xffff_fffe, height: 800 })
    );
}

#[test]
fn score_at_threshold_is_a_hit() {
    let location = Point { x: 3, y: 4 };
    assert_eq!(accept(Candidate { location, score: 600_000 }, BUTTON_THRESHOLD), Some(location));
    assert_eq!(accept(Candidate { location, score: 599_999 }, BUTTON_THRESHOLD), None);
    assert_eq!(accept(Candidate { location, score: 650_000 }, OBSTACLE_THRESHOLD), Some(location));
    assert_eq!(accept(Candidate { location, score: 649_999 }, OBSTACLE_THRESHOLD), None);
    assert_eq!(accept(Candidate { location, score: -1_000_000 }, OBSTACLE_THRESHOLD), None);
}

#[test]
fn match_result_keeps_location_and_score() {
    let location = Point { x: 3, y: 4 };
    let hit = MatchResult::evaluate(Candidate { location, score: 1_000_000 }, OBSTACLE_THRESHOLD);
    assert_eq!(hit, MatchResult { found: true, location, score: 1_000_000 });
    assert_eq!(hit.hit(), Some(location));
    let miss = MatchResult::evaluate(Candidate { location, score: 10 }, OBSTACLE_THRESHOLD);
    assert_eq!(miss, MatchResult { found: false, location, score: 10 });
    assert_eq!(miss.hit(), None);
}

#[test]
fn templates_have_paths_and_thresholds() {
    assert_eq!(TemplateId::Branch1.path(), "lumber/branch_1.png");
    assert_eq!(TemplateId::Branch4.path(), "lumber/branch_4.png");
    assert_eq!(TemplateId::LeftBranch.path(), "lumber/left_branch.png");
    assert_eq!(TemplateId::RightBranch.path(), "lumber/right_branch.png");
    assert_eq!(TemplateId::RestartButton.path(), "lumber/restart_button.png");
    assert_eq!(TemplateId::PlayButton.path(), "lumber/play_button.png");
    assert_eq!(TemplateId::StartButton.path(), "lumber/start_button.png");
    assert_eq!(TemplateId::StartButton.threshold(), 600_000);
    assert_eq!(TemplateId::LeftBranch.threshold(), 650_000);
    assert_eq!(TemplateId::composite(2), TemplateId::Branch3);
}

fn capture_4x4() -> Vec<u8> {
    let mut raw = Vec::new();
    for y in 0..4u8 {
        for x in 0..4u8 {
            raw.push(10 * y + x);
            raw.push(100 + 10 * y + x);
            raw.push(200 + 10 * y + x);
            raw.push(255);
        }
    }
    raw
}

#[test]
fn crop_cuts_the_scaled_rectangle() {
    let bounds = WindowBounds::new(1, 1, 1, 1);
    let frame = crop_to_window(capture_4x4(), 4, 4, &bounds, 1234).unwrap();
    assert_eq!(
        frame,
        Frame {
            width: 2,
            height: 2,
            rgb: vec![22, 122, 222, 23, 123, 223, 32, 132, 232, 33, 133, 233],
            origin_x: 1,
            origin_y: 1,
            captured_at_millis: 1234,
        }
    );
}

#[test]
fn crop_is_clamped_to_the_capture() {
    let bounds = WindowBounds::new(1, 0, 5, 1);
    let frame = crop_to_window(capture_4x4(), 4, 4, &bounds, 1234).unwrap();
    assert_eq!((frame.width, frame.height), (2, 2));
    assert_eq!(frame.rgb.len(), 12);
    assert_eq!(&frame.rgb[0..3], &[2, 102, 202]);
    let outside = WindowBounds::new(9, 9, 5, 5);
    let frame = crop_to_window(capture_4x4(), 4, 4, &outside, 0).unwrap();
    assert_eq!((frame.width, frame.height), (0, 0));
    assert_eq!(frame.rgb.len(), 0);
}

#[test]
fn crop_reports_its_errors() {
    let bounds = WindowBounds::new(0, 0, 2, 2);
    let mut short = capture_4x4();
    short.pop();
    assert_eq!(crop_to_window(short, 4, 4, &bounds, 0), Err(CaptureError::BufferTooSmall));
    let huge = WindowBounds::new(0, 0, u32::MAX, 2);
    assert_eq!(crop_to_window(capture_4x4(), 4, 4, &huge, 0), Err(CaptureError::WindowTooLarge));
}
