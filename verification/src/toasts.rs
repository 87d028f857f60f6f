use vstd::prelude::*;

use crate::geometry::Color32;
use crate::geometry::Direction;
use crate::geometry::Pos2;
use crate::geometry::Rect;
use crate::geometry::Vec2;
use crate::geometry::spec_stacking_rect;
use crate::geometry::stacking_rect;
use crate::time::Instant;
use crate::toast::Toast;
use crate::toast::ToastKind;
use crate::toast::ToastOptions;
use crate::toast::alive_at;
use crate::toast::lemma_closed_toast_not_alive;
use crate::toast::lemma_no_expiry_always_alive;
use crate::toast::spec_close_at;

verus! {

/// The toast registry: the pending toasts and the configuration that the
/// per-frame layout and rendering follow.
pub struct Toasts {
    /// The screen position the stack of toasts originates from.
    pub anchor: Pos2,
    /// The axis and sense along which successive toasts stack.
    pub direction: Direction,
    /// Whether toasts are cross-aligned to the far edge instead of the near
    /// edge of their stacking axis.
    pub align_to_end: bool,
    /// The toasts added since the last frame.
    pub toasts: Vec<Toast>,
    /// Fill color of the progress-bar countdown.
    pub progress_bar_color: Color32,
    /// Height of the progress-bar countdown, in pixels; zero hides it.
    pub progress_bar_width: u32,
    /// Color of the outline the progress bar is drawn against.
    pub progress_bar_outline_color: Color32,
}

/// Both registries carry the same configuration; only the toast list may
/// differ.
pub open spec fn spec_config_unchanged(a: Toasts, b: Toasts) -> bool {
    &&& a.anchor == b.anchor
    &&& a.direction == b.direction
    &&& a.align_to_end == b.align_to_end
    &&& a.progress_bar_color == b.progress_bar_color
    &&& a.progress_bar_width == b.progress_bar_width
    &&& a.progress_bar_outline_color == b.progress_bar_outline_color
}

impl Default for Toasts {
    fn default() -> (t: Toasts)
        ensures
            t.anchor == (Pos2 { x: 0, y: 0 }),
            t.direction == Direction::TopDown,
            t.align_to_end == false,
            t.toasts@ == Seq::<Toast>::empty(),
            t.progress_bar_color == (Color32 { r: 0, g: 100, b: 0, a: 255 }),
            t.progress_bar_width == 0,
            t.progress_bar_outline_color == (Color32 { r: 220, g: 220, b: 220, a: 255 }),
    {
        Toasts::new()
    }
}

impl Toasts {
    /// An empty registry with the default configuration: anchored at the
    /// origin, stacking top-down, aligned to the near edge, with a hidden
    /// dark-green progress bar on a light-gray outline.
    pub fn new() -> (t: Toasts)
        ensures
            t.anchor == (Pos2 { x: 0, y: 0 }),
            t.direction == Direction::TopDown,
            t.align_to_end == false,
            t.toasts@ == Seq::<Toast>::empty(),
            t.progress_bar_color == (Color32 { r: 0, g: 100, b: 0, a: 255 }),
            t.progress_bar_width == 0,
            t.progress_bar_outline_color == (Color32 { r: 220, g: 220, b: 220, a: 255 }),
    {
        Toasts {
            anchor: Pos2 { x: 0, y: 0 },
            direction: Direction::TopDown,
            align_to_end: false,
            toasts: Vec::new(),
            progress_bar_color: Color32 { r: 0, g: 100, b: 0, a: 255 },
            progress_bar_width: 0,
            progress_bar_outline_color: Color32 { r: 220, g: 220, b: 220, a: 255 },
        }
    }

    /// Progress bar options: fill color, height in pixels, outline color.
    pub fn progress_bar(self, color: Color32, width: u32, outline_color: Color32) -> (t: Toasts)
        ensures
            t == (Toasts {
                progress_bar_color: color,
                progress_bar_width: width,
                progress_bar_outline_color: outline_color,
                ..self
            }),
    {
        Toasts {
            progress_bar_color: color,
            progress_bar_width: width,
            progress_bar_outline_color: outline_color,
            ..self
        }
    }

    /// Starting position for the toasts.
    pub fn anchor(self, anchor: Pos2) -> (t: Toasts)
        ensures
            t == (Toasts { anchor, ..self }),
    {
        Toasts { anchor, ..self }
    }

    /// Direction where the toasts stack up.
    pub fn direction(self, direction: Direction) -> (t: Toasts)
        ensures
            t == (Toasts { direction, ..self }),
    {
        Toasts { direction, ..self }
    }

    /// Whether to align toasts to the right/bottom depending on the
    /// direction.
    pub fn align_to_end(self, align_to_end: bool) -> (t: Toasts)
        ensures
            t == (Toasts { align_to_end, ..self }),
    {
        Toasts { align_to_end, ..self }
    }

    /// Adds a new toast to be shown from the next frame on.
    pub fn add(&mut self, toast: Toast)
        ensures
            final(self).toasts@ == old(self).toasts@.push(toast),
            spec_config_unchanged(*old(self), *final(self)),
    {
        self.toasts.push(toast);
    }

    /// Adds a new info toast.
    pub fn info(&mut self, text: String, options: ToastOptions)
        ensures
            final(self).toasts@ == old(self).toasts@.push(
                Toast { kind: ToastKind::Info, text, options },
            ),
            spec_config_unchanged(*old(self), *final(self)),
    {
        self.add(Toast { kind: ToastKind::Info, text, options });
    }

    /// Adds a new warning toast.
    pub fn warning(&mut self, text: String, options: ToastOptions)
        ensures
            final(self).toasts@ == old(self).toasts@.push(
                Toast { kind: ToastKind::Warning, text, options },
            ),
            spec_config_unchanged(*old(self), *final(self)),
    {
        self.add(Toast { kind: ToastKind::Warning, text, options });
    }

    /// Adds a new error toast.
    pub fn error(&mut self, text: String, options: ToastOptions)
        ensures
            final(self).toasts@ == old(self).toasts@.push(
                Toast { kind: ToastKind::Error, text, options },
            ),
            spec_config_unchanged(*old(self), *final(self)),
    {
        self.add(Toast { kind: ToastKind::Error, text, options });
    }

    /// Adds a new success toast.
    pub fn success(&mut self, text: String, options: ToastOptions)
        ensures
            final(self).toasts@ == old(self).toasts@.push(
                Toast { kind: ToastKind::Success, text, options },
            ),
            spec_config_unchanged(*old(self), *final(self)),
    {
        self.add(Toast { kind: ToastKind::Success, text, options });
    }

    /// Hands out the toasts added since the last frame and leaves the
    /// registry's list empty; the frame appends them to the persisted list.
    pub fn take_pending(&mut self) -> (pending: Vec<Toast>)
        ensures
            pending@ == old(self).toasts@,
            final(self).toasts@ == Seq::<Toast>::empty(),
            spec_config_unchanged(*old(self), *final(self)),
    {
        let pending = self.toasts.split_off(0);
        proof {
            assert(pending@ =~= old(self).toasts@);
            assert(final(self).toasts@ =~= Seq::<Toast>::empty());
        }
        pending
    }

    /// The rectangle within which this frame's toasts stack, inside a
    /// viewport of the given size.
    pub fn stacking_rect(&self, screen_size: Vec2) -> (rect: Rect)
        ensures
            rect == spec_stacking_rect(self.direction, self.align_to_end, self.anchor, screen_size),
    {
        stacking_rect(self.direction, self.align_to_end, self.anchor, screen_size)
    }
}

/// The frame's working list: the toasts persisted from earlier frames
/// followed by the newly added ones, keeping insertion order.
pub fn merge_frame_toasts(persisted: Vec<Toast>, pending: Vec<Toast>) -> (merged: Vec<Toast>)
    ensures
        merged@ == persisted@ + pending@,
{
    let mut merged = persisted;
    let mut rest = pending;
    merged.append(&mut rest);
    merged
}

/// The prune pass keeps a toast at `now` exactly when [`alive_at`] holds of
/// it.
pub open spec fn alive_pred(now: Instant) -> spec_fn(Toast) -> bool {
    |t: Toast| alive_at(t, now)
}

/// Removes every toast that is not alive at `now` — the timer part of one
/// frame's processing — keeping the survivors in their order.
pub fn prune_expired(toasts: Vec<Toast>, now: Instant) -> (kept: Vec<Toast>)
    ensures
        kept@ == toasts@.filter(alive_pred(now)),
{
    let ghost all = toasts@;
    let mut remaining = toasts;
    let mut kept: Vec<Toast> = Vec::new();
    let ghost mut done: Seq<Toast> = Seq::empty();
    while remaining.len() > 0
        invariant
            all == done + remaining@,
            kept@ == done.filter(alive_pred(now)),
        decreases remaining@.len(),
    {
        let toast = remaining.remove(0);
        let keep: bool = match toast.options.expires_at {
            None => true,
            Some(e) => now.millis < e.millis,
        };
        proof {
            assert(done.push(toast) + remaining@ =~= all);
            done.lemma_filter_push(toast, alive_pred(now));
            assert(keep == alive_pred(now)(toast));
            done = done.push(toast);
        }
        if keep {
            kept.push(toast);
        }
    }
    proof {
        assert(done =~= all);
    }
    kept
}

/// What one prune pass leaves: every kept toast is alive at `now`, and every
/// toast that was alive at `now` is kept.
pub proof fn lemma_prune_keeps_exactly_alive(toasts: Seq<Toast>, now: Instant)
    ensures
        forall|i: int|
            0 <= i < toasts.filter(alive_pred(now)).len() ==> alive_at(
                #[trigger] toasts.filter(alive_pred(now))[i],
                now,
            ),
        forall|i: int|
            0 <= i < toasts.len() && alive_at(#[trigger] toasts[i], now) ==> toasts.filter(
                alive_pred(now),
            ).contains(toasts[i]),
{
    broadcast use vstd::seq_lib::group_filter_ensures;

    assert forall|i: int|
        0 <= i < toasts.filter(alive_pred(now)).len() implies alive_at(
        toasts.filter(alive_pred(now))[i],
        now,
    ) by {
        toasts.lemma_filter_pred(alive_pred(now), i);
    }
}

/// A toast whose expiry is at or before `now` — in particular one whose
/// expiry is strictly in the past — is gone after the prune pass at `now`.
pub proof fn lemma_expired_toast_pruned(toasts: Seq<Toast>, now: Instant, toast: Toast)
    requires
        toast.options.expires_at is Some,
        (toast.options.expires_at->0).millis <= now.millis,
    ensures
        !toasts.filter(alive_pred(now)).contains(toast),
{
    let pred = alive_pred(now);
    let out = toasts.filter(pred);
    if out.contains(toast) {
        let i = choose|i: int| 0 <= i < out.len() && out[i] == toast;
        toasts.lemma_filter_pred(pred, i);
    }
}

/// A toast with no expiry survives every prune pass: only an explicit close
/// removes it.
pub proof fn lemma_no_expiry_toast_survives(toasts: Seq<Toast>, now: Instant, i: int)
    requires
        0 <= i < toasts.len(),
        toasts[i].options.expires_at is None,
    ensures
        toasts.filter(alive_pred(now)).contains(toasts[i]),
{
    lemma_no_expiry_always_alive(toasts[i], now);
    toasts.lemma_filter_contains(alive_pred(now), i);
}

/// Closing a toast at `now` guarantees its removal on the very next prune
/// pass — which runs at `now` or later — regardless of its original
/// duration.
pub proof fn lemma_closed_toast_pruned(
    toasts: Seq<Toast>,
    toast: Toast,
    now: Instant,
    prune_at: Instant,
)
    requires
        now.millis <= prune_at.millis,
    ensures
        !toasts.filter(alive_pred(prune_at)).contains(spec_close_at(toast, now)),
{
    lemma_closed_toast_not_alive(toast, now, prune_at);
    lemma_expired_toast_pruned(toasts, prune_at, spec_close_at(toast, now));
}

} // verus!
