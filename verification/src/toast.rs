use vstd::prelude::*;

use crate::geometry::Color32;
use crate::time::Duration;
use crate::time::Instant;

verus! {

/// The kind of a toast: one of the four built-in styles, or a caller-chosen
/// tag for custom-rendered toasts.
#[derive(Debug, Copy, Clone, Ord, PartialOrd, Eq, PartialEq, Hash, Structural)]
pub enum ToastKind {
    Info,
    Warning,
    Error,
    Success,
    Custom(u32),
}

impl From<u32> for ToastKind {
    fn from(value: u32) -> (k: ToastKind) {
        ToastKind::Custom(value)
    }
}

impl vstd::std_specs::convert::FromSpecImpl<u32> for ToastKind {
    open spec fn obeys_from_spec() -> bool {
        true
    }

    open spec fn from_spec(value: u32) -> ToastKind {
        ToastKind::Custom(value)
    }
}

/// Display options of a toast. When an expiry is set, the creation time must
/// be set too for the progress fraction to be defined.
#[derive(Debug, Copy, Clone)]
pub struct ToastOptions {
    /// Whether the toast kind's icon is shown.
    pub show_icon: bool,
    /// If set, the toast is removed once this time is reached.
    pub expires_at: Option<Instant>,
    /// When the toast was created; sizes the progress-bar countdown.
    pub created_at: Option<Instant>,
}

impl Default for ToastOptions {
    fn default() -> (o: ToastOptions)
        ensures
            o.show_icon == true,
            o.expires_at is None,
            o.created_at is None,
    {
        ToastOptions { show_icon: true, expires_at: None, created_at: None }
    }
}

/// The options that [`ToastOptions::with_duration_at`] builds at `now`:
/// icon shown, creation stamped `now`, and expiry `duration` later, or never
/// when `duration` is `None`.
pub open spec fn spec_with_duration_at(duration: Option<Duration>, now: Instant) -> ToastOptions {
    ToastOptions {
        show_icon: true,
        expires_at: match duration {
            Some(d) => Some(now.spec_add(d)),
            None => None,
        },
        created_at: Some(now),
    }
}

impl ToastOptions {
    /// Options for a toast created at `now` that lives for `duration`, or
    /// forever when `duration` is `None`.
    pub fn with_duration_at(duration: Option<Duration>, now: Instant) -> (o: ToastOptions)
        ensures
            o == spec_with_duration_at(duration, now),
    {
        ToastOptions {
            show_icon: true,
            expires_at: match duration {
                Some(d) => Some(now.add(d)),
                None => None,
            },
            created_at: Some(now),
        }
    }

    /// Options for a toast created at the current clock reading.
    pub fn with_duration(duration: Option<Duration>) -> (o: ToastOptions)
        ensures
            o.created_at is Some,
            o == spec_with_duration_at(duration, o.created_at->0),
    {
        let now = Instant::now();
        ToastOptions::with_duration_at(duration, now)
    }

    /// The remaining-lifetime fraction used to size the countdown bar, as the
    /// exact ratio `remaining / total` in milliseconds. `None` when either
    /// timestamp is missing or the lifetime is empty: no bar is drawn then.
    pub fn progress_fraction(&self, now: Instant) -> (r: Option<(u64, u64)>)
        ensures
            r == spec_progress_fraction(*self, now),
    {
        match (self.expires_at, self.created_at) {
            (Some(e), Some(c)) => {
                if c.millis < e.millis {
                    let remaining: u64 = if now.millis <= e.millis {
                        e.millis - now.millis
                    } else {
                        0
                    };
                    Some((remaining, e.millis - c.millis))
                } else {
                    None
                }
            },
            _ => None,
        }
    }
}

/// The remaining-lifetime fraction of a toast at `now`: the milliseconds
/// still to run over the whole lifetime in milliseconds, with the remainder
/// clamped at zero once `now` is past the expiry.
pub open spec fn spec_progress_fraction(options: ToastOptions, now: Instant) -> Option<
    (u64, u64),
> {
    match (options.expires_at, options.created_at) {
        (Some(e), Some(c)) => if c.millis < e.millis {
            Some(
                (
                    if now.millis <= e.millis {
                        (e.millis - now.millis) as u64
                    } else {
                        0u64
                    },
                    (e.millis - c.millis) as u64,
                ),
            )
        } else {
            None
        },
        _ => None,
    }
}

/// At the creation instant the progress fraction is exactly one: the
/// remaining time equals the whole lifetime.
pub proof fn lemma_progress_full_at_creation(options: ToastOptions, c: Instant, e: Instant)
    requires
        options.created_at == Some(c),
        options.expires_at == Some(e),
        c.millis < e.millis,
    ensures
        spec_progress_fraction(options, c) == Some(
            ((e.millis - c.millis) as u64, (e.millis - c.millis) as u64),
        ),
{
}

/// At the expiry instant, and ever after, the progress fraction is exactly
/// zero.
pub proof fn lemma_progress_zero_at_expiry(
    options: ToastOptions,
    c: Instant,
    e: Instant,
    now: Instant,
)
    requires
        options.created_at == Some(c),
        options.expires_at == Some(e),
        c.millis < e.millis,
        e.millis <= now.millis,
    ensures
        spec_progress_fraction(options, now) == Some((0u64, (e.millis - c.millis) as u64)),
{
}

/// As the current time advances, the remaining fraction never grows: the
/// countdown only runs down, approaching zero at the expiry.
pub proof fn lemma_progress_monotone(options: ToastOptions, now1: Instant, now2: Instant)
    requires
        now1.millis <= now2.millis,
        spec_progress_fraction(options, now1) is Some,
    ensures
        ({
            let f1 = spec_progress_fraction(options, now1)->0;
            let f2 = spec_progress_fraction(options, now2);
            &&& f2 is Some
            &&& (f2->0).1 == f1.1
            &&& (f2->0).0 <= f1.0
        }),
{
}

/// A transient notification: its kind picks the style, its options govern
/// its lifetime.
#[derive(Clone)]
pub struct Toast {
    pub kind: ToastKind,
    pub text: String,
    pub options: ToastOptions,
}

/// `toast` with its expiry forced to `now`, everything else unchanged: what
/// [`Toast::close_at`] leaves behind.
pub open spec fn spec_close_at(toast: Toast, now: Instant) -> Toast {
    Toast {
        kind: toast.kind,
        text: toast.text,
        options: ToastOptions {
            show_icon: toast.options.show_icon,
            expires_at: Some(now),
            created_at: toast.options.created_at,
        },
    }
}

/// A toast is alive at `now` while it has no expiry or its expiry is still
/// in the future; the prune pass removes every toast that is not alive.
pub open spec fn alive_at(toast: Toast, now: Instant) -> bool {
    match toast.options.expires_at {
        None => true,
        Some(e) => now.millis < e.millis,
    }
}

impl Toast {
    /// Forces expiry at `now`: the toast is removed by the first prune pass
    /// that runs at `now` or later, whatever its original duration was.
    pub fn close_at(&mut self, now: Instant)
        ensures
            *final(self) == spec_close_at(*old(self), now),
    {
        self.options.expires_at = Some(now);
    }

    /// Forces expiry at the current clock reading.
    pub fn close(&mut self)
        ensures
            final(self).options.expires_at is Some,
            *final(self) == spec_close_at(*old(self), final(self).options.expires_at->0),
    {
        let now = Instant::now();
        self.close_at(now);
    }
}

/// A toast with no expiry is alive at every instant: only an explicit close
/// can make the timer remove it.
pub proof fn lemma_no_expiry_always_alive(toast: Toast, now: Instant)
    requires
        toast.options.expires_at is None,
    ensures
        alive_at(toast, now),
{
}

/// Closing a toast at `now` guarantees that it is dead for every prune pass
/// at `now` or later, regardless of its original expiry.
pub proof fn lemma_closed_toast_not_alive(toast: Toast, now: Instant, later: Instant)
    requires
        now.millis <= later.millis,
    ensures
        !alive_at(spec_close_at(toast, now), later),
{
}

/// The accent color of info toasts.
pub fn info_color() -> (c: Color32)
    ensures
        c == (Color32 { r: 0, g: 155, b: 255, a: 255 }),
{
    Color32::from_rgb(0, 155, 255)
}

/// The accent color of warning toasts.
pub fn warning_color() -> (c: Color32)
    ensures
        c == (Color32 { r: 255, g: 212, b: 0, a: 255 }),
{
    Color32::from_rgb(255, 212, 0)
}

/// The accent color of error toasts.
pub fn error_color() -> (c: Color32)
    ensures
        c == (Color32 { r: 255, g: 32, b: 0, a: 255 }),
{
    Color32::from_rgb(255, 32, 0)
}

/// The accent color of success toasts.
pub fn success_color() -> (c: Color32)
    ensures
        c == (Color32 { r: 0, g: 255, b: 32, a: 255 }),
{
    Color32::from_rgb(0, 255, 32)
}

/// The icon glyph of each toast kind; custom kinds share the info glyph.
pub open spec fn spec_kind_icon(kind: ToastKind) -> char {
    match kind {
        ToastKind::Warning => '\u{26a0}',
        ToastKind::Error => '\u{2757}',
        ToastKind::Success => '\u{2714}',
        _ => '\u{2139}',
    }
}

/// The accent color of each toast kind; custom kinds share the info color.
pub open spec fn spec_kind_color(kind: ToastKind) -> Color32 {
    match kind {
        ToastKind::Warning => Color32 { r: 255, g: 212, b: 0, a: 255 },
        ToastKind::Error => Color32 { r: 255, g: 32, b: 0, a: 255 },
        ToastKind::Success => Color32 { r: 0, g: 255, b: 32, a: 255 },
        _ => Color32 { r: 0, g: 155, b: 255, a: 255 },
    }
}

/// The icon glyph and accent color that the default renderer gives a toast
/// of the given kind.
pub fn kind_icon_and_color(kind: ToastKind) -> (r: (char, Color32))
    ensures
        r.0 == spec_kind_icon(kind),
        r.1 == spec_kind_color(kind),
{
    match kind {
        ToastKind::Warning => ('\u{26a0}', warning_color()),
        ToastKind::Error => ('\u{2757}', error_color()),
        ToastKind::Success => ('\u{2714}', success_color()),
        _ => ('\u{2139}', info_color()),
    }
}

} // verus!
