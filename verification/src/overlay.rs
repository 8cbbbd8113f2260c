//! Stats Overlay Module
//!
//! When the statistics overlay is shown, what it says, and when its text has to be
//! laid out again.

use vstd::prelude::*;

use crate::stats::{Figures, StreamStats};
use crate::text::push_decimal;

verus! {

use crate::text::decimal;

/// The text changes at most ten times a second.
pub const UPDATE_INTERVAL_NS: u64 = 100_000_000;

/// Stats overlay
#[derive(Debug, Clone, Copy, PartialEq, Eq, Structural)]
pub struct Overlay {
    pub visible: bool,
    pub last_update_ns: u64,
    pub needs_prepare: bool,
}

/// What drawing the overlay takes.
#[derive(Debug, Clone, Copy, PartialEq, Eq, Structural)]
pub enum OverlayDrawing {
    Nothing,
    /// Draw the text that has been laid out.
    Draw,
    /// Lay the text out, then draw it.
    PrepareAndDraw,
}

/// The text of the overlay.
pub open spec fn overlay_text(stats: StreamStats, figures: Figures) -> Seq<char> {
    "FPS: "@ + figures.render_fps@ + "/"@ + decimal(stats.target_fps as nat) + " (decode: "@
        + figures.decode_fps@ + ")\n"@ + stats.latency_line(figures) + "\n"@ + stats.bitrate_line(
        figures,
    ) + "\n"@ + stats.packets_line() + "\n"@ + stats.dropped_line()
}

impl Overlay {
    /// Create a new overlay, which is visible
    pub fn new(now_ns: u64) -> (overlay: Self)
        ensures
            overlay == (Overlay { visible: true, last_update_ns: now_ns, needs_prepare: true }),
    {
        Overlay { visible: true, last_update_ns: now_ns, needs_prepare: true }
    }

    /// Toggle overlay visibility
    pub fn toggle(&mut self)
        ensures
            *final(self) == (Overlay { visible: !old(self).visible, ..*old(self) }),
    {
        self.visible = !self.visible;
    }

    /// Check if overlay is visible
    pub fn is_visible(&self) -> (visible: bool)
        ensures
            visible == self.visible,
    {
        self.visible
    }

    /// Set overlay visibility
    pub fn set_visible(&mut self, visible: bool)
        ensures
            *final(self) == (Overlay { visible, ..*old(self) }),
    {
        self.visible = visible;
    }

    /// Whether the text is to change now.
    pub open spec fn is_due(&self, now_ns: u64) -> bool {
        self.visible && now_ns - self.last_update_ns >= UPDATE_INTERVAL_NS
    }

    /// Update overlay text with current stats (throttled to 10 updates/sec): the new
    /// text, if it is to change
    pub fn update(&mut self, now_ns: u64, stats: &StreamStats, figures: &Figures) -> (text: Option<
        String,
    >)
        ensures
            match text {
                Some(text) => {
                    &&& old(self).is_due(now_ns)
                    &&& text@ == overlay_text(*stats, *figures)
                    &&& *final(self) == (Overlay {
                        last_update_ns: now_ns,
                        needs_prepare: true,
                        ..*old(self)
                    })
                },
                None => !old(self).is_due(now_ns) && *final(self) == *old(self),
            },
    {
        if !self.visible {
            return None;
        }
        if now_ns.saturating_sub(self.last_update_ns) < UPDATE_INTERVAL_NS {
            return None;
        }
        self.last_update_ns = now_ns;
        let mut text: String = "FPS: ".to_string();
        text.append(figures.render_fps.as_str());
        text.append("/");
        push_decimal(&mut text, stats.target_fps as u64);
        text.append(" (decode: ");
        text.append(figures.decode_fps.as_str());
        text.append(")\n");
        stats.push_latency_line(&mut text, figures);
        text.append("\n");
        stats.push_bitrate_line(&mut text, figures);
        text.append("\n");
        stats.push_packets_line(&mut text);
        text.append("\n");
        stats.push_dropped_line(&mut text);
        self.needs_prepare = true;
        Some(text)
    }

    /// Render the overlay: what there is to do
    pub fn render(&self) -> (drawing: OverlayDrawing)
        ensures
            drawing == if !self.visible {
                OverlayDrawing::Nothing
            } else if self.needs_prepare {
                OverlayDrawing::PrepareAndDraw
            } else {
                OverlayDrawing::Draw
            },
    {
        if !self.visible {
            OverlayDrawing::Nothing
        } else if self.needs_prepare {
            OverlayDrawing::PrepareAndDraw
        } else {
            OverlayDrawing::Draw
        }
    }

    /// The text has been laid out
    pub fn prepared(&mut self)
        ensures
            *final(self) == (Overlay { needs_prepare: false, ..*old(self) }),
    {
        self.needs_prepare = false;
    }
}

/// Between two changes of the text lies at least a tenth of a second.
pub proof fn updates_are_throttled(before: Overlay, first_ns: u64, second_ns: u64)
    requires
        before.is_due(first_ns),
        (Overlay { last_update_ns: first_ns, needs_prepare: true, ..before }).is_due(second_ns),
    ensures
        second_ns - first_ns >= UPDATE_INTERVAL_NS,
{
}

/// Toggling twice leaves the overlay as it was.
pub proof fn toggling_twice_changes_nothing(overlay: Overlay)
    ensures
        ({
            let once = Overlay { visible: !overlay.visible, ..overlay };
            (Overlay { visible: !once.visible, ..once }) == overlay
        }),
{
}

/// A visible overlay changes its text a tenth of a second after the last change and not
/// before; one that is not visible does not change it.
pub proof fn text_changes_ten_times_a_second(overlay: Overlay, now_ns: u64)
    ensures
        overlay.is_due(now_ns) <==> overlay.visible && overlay.last_update_ns + 100_000_000
            <= now_ns,
{
}

/// The overlay says what the five lines of the statistics say, with the decoding rate in
/// brackets on the first one.
pub proof fn overlay_has_five_lines(stats: StreamStats, figures: Figures)
    ensures
        overlay_text(stats, figures) == "FPS: "@ + figures.render_fps@ + "/"@ + decimal(
            stats.target_fps as nat,
        ) + " (decode: "@ + figures.decode_fps@ + ")\n"@ + stats.latency_line(figures) + "\n"@
            + stats.bitrate_line(figures) + "\n"@ + stats.packets_line() + "\n"@
            + stats.dropped_line(),
{
}

} // verus!
