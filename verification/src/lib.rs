//! Toast notifications for an immediate-mode GUI: transient messages that
//! stack from an anchor point in one of four directions, expire on a timer,
//! and can show a progress-bar countdown of their remaining lifetime.

mod geometry;
mod time;
mod toast;
mod toasts;

pub use geometry::Align;
pub use geometry::Color32;
pub use geometry::Direction;
pub use geometry::Pos2;
pub use geometry::Rect;
pub use geometry::Vec2;
pub use geometry::cross_align;
pub use geometry::lemma_stacking_rect_splits_viewport;
pub use geometry::next_anchor_pos;
pub use geometry::progress_bar_rects;
pub use geometry::progress_bar_rounding;
pub use geometry::spec_progress_fill_rect;
pub use geometry::spec_progress_fill_shrink;
pub use geometry::spec_progress_outline_rect;
pub use geometry::spec_stacking_rect;
pub use geometry::stacking_rect;
pub use time::Duration;
pub use time::Instant;
pub use toast::Toast;
pub use toast::ToastKind;
pub use toast::ToastOptions;
pub use toast::alive_at;
pub use toast::error_color;
pub use toast::info_color;
pub use toast::kind_icon_and_color;
pub use toast::lemma_closed_toast_not_alive;
pub use toast::lemma_no_expiry_always_alive;
pub use toast::lemma_progress_full_at_creation;
pub use toast::lemma_progress_monotone;
pub use toast::lemma_progress_zero_at_expiry;
pub use toast::spec_close_at;
pub use toast::spec_kind_color;
pub use toast::spec_kind_icon;
pub use toast::spec_progress_fraction;
pub use toast::spec_with_duration_at;
pub use toast::success_color;
pub use toast::warning_color;
pub use toasts::Toasts;
pub use toasts::alive_pred;
pub use toasts::lemma_closed_toast_pruned;
pub use toasts::lemma_expired_toast_pruned;
pub use toasts::lemma_no_expiry_toast_survives;
pub use toasts::lemma_prune_keeps_exactly_alive;
pub use toasts::merge_frame_toasts;
pub use toasts::prune_expired;
pub use toasts::spec_config_unchanged;
