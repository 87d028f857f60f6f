use egui_toast::Color32;
use egui_toast::Duration;
use egui_toast::Instant;
use egui_toast::Toast;
use egui_toast::ToastKind;
use egui_toast::ToastOptions;
use egui_toast::error_color;
use egui_toast::info_color;
use egui_toast::kind_icon_and_color;
use egui_toast::success_color;
use egui_toast::warning_color;

fn options_with_life(created_ms: u64, duration_ms: u64) -> ToastOptions {
    ToastOptions::with_duration_at(
        Some(Duration::from_millis(duration_ms)),
        Instant::from_millis(created_ms),
    )
}

#[test]
fn custom_kind_from_tag() {
    assert_eq!(ToastKind::from(7), ToastKind::Custom(7));
}

#[test]
fn default_options_show_icon_and_never_expire() {
    let options = ToastOptions::default();
    assert!(options.show_icon);
    assert_eq!(options.expires_at, None);
    assert_eq!(options.created_at, None);
}

#[test]
fn with_duration_at_stamps_creation_and_expiry() {
    let options = options_with_life(1_000, 5_000);
    assert!(options.show_icon);
    assert_eq!(options.created_at, Some(Instant::from_millis(1_000)));
    assert_eq!(options.expires_at, Some(Instant::from_millis(6_000)));
}

#[test]
fn with_duration_at_none_never_expires() {
    let options = ToastOptions::with_duration_at(None, Instant::from_millis(1_000));
    assert_eq!(options.created_at, Some(Instant::from_millis(1_000)));
    assert_eq!(options.expires_at, None);
}

#[test]
fn with_duration_uses_the_clock() {
    let options = ToastOptions::with_duration(None);
    assert!(options.created_at.is_some());
    assert_eq!(options.expires_at, None);
}

#[test]
fn close_at_forces_expiry_and_keeps_the_rest() {
    let mut toast = Toast {
        kind: ToastKind::Warning,
        text: "careful".to_string(),
        options: options_with_life(1_000, 5_000),
    };
    toast.close_at(Instant::from_millis(2_500));
    assert_eq!(toast.kind, ToastKind::Warning);
    assert_eq!(toast.text, "careful");
    assert!(toast.options.show_icon);
    assert_eq!(toast.options.created_at, Some(Instant::from_millis(1_000)));
    assert_eq!(toast.options.expires_at, Some(Instant::from_millis(2_500)));
}

#[test]
fn close_sets_some_expiry() {
    let mut toast = Toast {
        kind: ToastKind::Info,
        text: "hello".to_string(),
        options: ToastOptions::default(),
    };
    toast.close();
    assert!(toast.options.expires_at.is_some());
}

#[test]
fn progress_is_full_at_creation() {
    let options = options_with_life(1_000, 5_000);
    let (num, den) = options.progress_fraction(Instant::from_millis(1_000)).unwrap();
    assert_eq!((num, den), (5_000, 5_000));
    let ratio = num as f64 / den as f64;
    assert!((ratio - 1.0).abs() < 1e-9);
}

#[test]
fn progress_runs_down_toward_expiry() {
    let options = options_with_life(1_000, 5_000);
    let (num, den) = options.progress_fraction(Instant::from_millis(3_500)).unwrap();
    assert_eq!((num, den), (2_500, 5_000));
    let ratio = num as f64 / den as f64;
    assert!((ratio - 0.5).abs() < 1e-9);
}

#[test]
fn progress_is_zero_at_and_after_expiry() {
    let options = options_with_life(1_000, 5_000);
    assert_eq!(
        options.progress_fraction(Instant::from_millis(6_000)),
        Some((0, 5_000))
    );
    assert_eq!(
        options.progress_fraction(Instant::from_millis(9_999)),
        Some((0, 5_000))
    );
}

#[test]
fn progress_missing_without_both_timestamps() {
    let now = Instant::from_millis(2_000);
    assert_eq!(ToastOptions::default().progress_fraction(now), None);
    let only_created = ToastOptions::with_duration_at(None, Instant::from_millis(1_000));
    assert_eq!(only_created.progress_fraction(now), None);
    let no_created = ToastOptions {
        show_icon: true,
        expires_at: Some(Instant::from_millis(5_000)),
        created_at: None,
    };
    assert_eq!(no_created.progress_fraction(now), None);
}

#[test]
fn progress_missing_for_empty_lifetime() {
    let options = options_with_life(1_000, 0);
    assert_eq!(options.progress_fraction(Instant::from_millis(1_000)), None);
}

#[test]
fn icons_and_colors_per_kind() {
    assert_eq!(kind_icon_and_color(ToastKind::Warning), ('\u{26a0}', warning_color()));
    assert_eq!(kind_icon_and_color(ToastKind::Error), ('\u{2757}', error_color()));
    assert_eq!(kind_icon_and_color(ToastKind::Success), ('\u{2714}', success_color()));
    assert_eq!(kind_icon_and_color(ToastKind::Info), ('\u{2139}', info_color()));
    assert_eq!(kind_icon_and_color(ToastKind::Custom(3)), ('\u{2139}', info_color()));
}

#[test]
fn accent_colors_match_the_palette() {
    assert_eq!(info_color(), Color32 { r: 0, g: 155, b: 255, a: 255 });
    assert_eq!(warning_color(), Color32 { r: 255, g: 212, b: 0, a: 255 });
    assert_eq!(error_color(), Color32 { r: 255, g: 32, b: 0, a: 255 });
    assert_eq!(success_color(), Color32 { r: 0, g: 255, b: 32, a: 255 });
}

#[test]
fn instant_add_saturates_at_the_top() {
    let top = Instant::from_millis(u64::MAX);
    assert_eq!(top.add(Duration::from_millis(5)), Instant::from_millis(u64::MAX));
    let t = Instant::from_millis(10).add(Duration::from_millis(5));
    assert_eq!(t, Instant::from_millis(15));
}

#[test]
fn instant_sub_saturates_at_zero() {
    let t = Instant::from_millis(10);
    assert_eq!(t.sub(Duration::from_millis(4)), Instant::from_millis(6));
    assert_eq!(t.sub(Duration::from_millis(40)), Instant::from_millis(0));
}

#[test]
fn durations_between_instants() {
    let a = Instant::from_millis(1_000);
    let b = Instant::from_millis(4_500);
    assert_eq!(b.duration_since(a).as_millis(), 3_500);
    assert_eq!(b.saturating_duration_since(a).as_millis(), 3_500);
    assert_eq!(a.saturating_duration_since(b).as_millis(), 0);
}

#[test]
fn duration_from_secs_counts_millis() {
    assert_eq!(Duration::from_secs(5).as_millis(), 5_000);
    assert_eq!(Duration::from_millis(123).as_millis(), 123);
}
