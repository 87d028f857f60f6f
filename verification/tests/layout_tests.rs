use egui_toast::Align;
use egui_toast::Direction;
use egui_toast::Pos2;
use egui_toast::Rect;
use egui_toast::Vec2;
use egui_toast::cross_align;
use egui_toast::next_anchor_pos;
use egui_toast::progress_bar_rects;
use egui_toast::progress_bar_rounding;
use egui_toast::stacking_rect;

fn anchor() -> Pos2 {
    Pos2 { x: 30, y: 40 }
}

fn screen() -> Vec2 {
    Vec2 { x: 100, y: 200 }
}

#[test]
fn stack_rect_top_down_near_edge() {
    let rect = stacking_rect(Direction::TopDown, false, anchor(), screen());
    assert_eq!(rect, Rect { min: Pos2 { x: 30, y: 40 }, max: Pos2 { x: 100, y: 200 } });
}

#[test]
fn stack_rect_left_to_right_near_edge() {
    let rect = stacking_rect(Direction::LeftToRight, false, anchor(), screen());
    assert_eq!(rect, Rect { min: Pos2 { x: 30, y: 40 }, max: Pos2 { x: 100, y: 200 } });
}

#[test]
fn stack_rect_bottom_up_far_edge() {
    let rect = stacking_rect(Direction::BottomUp, true, anchor(), screen());
    assert_eq!(rect, Rect { min: Pos2 { x: 0, y: 0 }, max: Pos2 { x: 30, y: 40 } });
}

#[test]
fn stack_rect_right_to_left_far_edge() {
    let rect = stacking_rect(Direction::RightToLeft, true, anchor(), screen());
    assert_eq!(rect, Rect { min: Pos2 { x: 0, y: 0 }, max: Pos2 { x: 30, y: 40 } });
}

#[test]
fn stack_rect_bottom_up_near_edge() {
    let rect = stacking_rect(Direction::BottomUp, false, anchor(), screen());
    assert_eq!(rect, Rect { min: Pos2 { x: 30, y: 0 }, max: Pos2 { x: 100, y: 40 } });
}

#[test]
fn stack_rect_left_to_right_far_edge() {
    let rect = stacking_rect(Direction::LeftToRight, true, anchor(), screen());
    assert_eq!(rect, Rect { min: Pos2 { x: 30, y: 0 }, max: Pos2 { x: 100, y: 40 } });
}

#[test]
fn stack_rect_right_to_left_near_edge() {
    let rect = stacking_rect(Direction::RightToLeft, false, anchor(), screen());
    assert_eq!(rect, Rect { min: Pos2 { x: 0, y: 40 }, max: Pos2 { x: 30, y: 200 } });
}

#[test]
fn stack_rect_top_down_far_edge() {
    let rect = stacking_rect(Direction::TopDown, true, anchor(), screen());
    assert_eq!(rect, Rect { min: Pos2 { x: 0, y: 40 }, max: Pos2 { x: 30, y: 200 } });
}

#[test]
fn stack_rect_splits_viewport_in_all_cases() {
    let directions = [
        Direction::TopDown,
        Direction::BottomUp,
        Direction::LeftToRight,
        Direction::RightToLeft,
    ];
    for direction in directions {
        for align_to_end in [false, true] {
            let rect = stacking_rect(direction, align_to_end, anchor(), screen());
            assert!(0 <= rect.min.x && rect.min.x <= rect.max.x && rect.max.x <= screen().x);
            assert!(0 <= rect.min.y && rect.min.y <= rect.max.y && rect.max.y <= screen().y);
            assert!(
                (rect.min.x == anchor().x && rect.max.x == screen().x)
                    || (rect.min.x == 0 && rect.max.x == anchor().x)
            );
            assert!(
                (rect.min.y == anchor().y && rect.max.y == screen().y)
                    || (rect.min.y == 0 && rect.max.y == anchor().y)
            );
        }
    }
}

#[test]
fn only_right_to_left_reverses_contents() {
    assert!(Direction::RightToLeft.is_right_to_left());
    assert!(!Direction::LeftToRight.is_right_to_left());
    assert!(!Direction::TopDown.is_right_to_left());
    assert!(!Direction::BottomUp.is_right_to_left());
}

#[test]
fn cross_align_follows_end_flag() {
    assert_eq!(cross_align(false), Align::Min);
    assert_eq!(cross_align(true), Align::Max);
}

#[test]
fn next_anchor_is_anchor_without_toasts() {
    let mins: Vec<Pos2> = Vec::new();
    assert_eq!(next_anchor_pos(&mins, anchor()), Pos2 { x: 30, y: 40 });
}

#[test]
fn next_anchor_is_componentwise_minimum() {
    let mins = vec![
        Pos2 { x: 12, y: 90 },
        Pos2 { x: 45, y: 8 },
        Pos2 { x: 33, y: 77 },
    ];
    assert_eq!(next_anchor_pos(&mins, anchor()), Pos2 { x: 12, y: 8 });
}

#[test]
fn next_anchor_with_one_rect_is_its_corner() {
    let mins = vec![Pos2 { x: -5, y: 123 }];
    assert_eq!(next_anchor_pos(&mins, anchor()), Pos2 { x: -5, y: 123 });
}

#[test]
fn progress_bar_full_fraction_fills_outline() {
    let window = Rect { min: Pos2 { x: 0, y: 0 }, max: Pos2 { x: 100, y: 50 } };
    let (outline, fill) = progress_bar_rects(window, 4, 1000, 1000);
    assert_eq!(outline, Rect { min: Pos2 { x: 10, y: 44 }, max: Pos2 { x: 90, y: 48 } });
    assert_eq!(fill, outline);
}

#[test]
fn progress_bar_half_fraction_halves_fill() {
    let window = Rect { min: Pos2 { x: 0, y: 0 }, max: Pos2 { x: 100, y: 50 } };
    let (outline, fill) = progress_bar_rects(window, 4, 500, 1000);
    assert_eq!(outline.max.x, 90);
    assert_eq!(fill.min, outline.min);
    assert_eq!(fill.max.y, outline.max.y);
    assert_eq!(fill.max.x, 50);
}

#[test]
fn progress_bar_zero_fraction_empties_fill() {
    let window = Rect { min: Pos2 { x: 0, y: 0 }, max: Pos2 { x: 100, y: 50 } };
    let (outline, fill) = progress_bar_rects(window, 4, 0, 1000);
    assert_eq!(fill.min, outline.min);
    assert_eq!(fill.max.x, fill.min.x);
}

#[test]
fn progress_bar_rounding_is_half_the_width() {
    assert_eq!(progress_bar_rounding(4), 2);
    assert_eq!(progress_bar_rounding(5), 2);
    assert_eq!(progress_bar_rounding(0), 0);
}
