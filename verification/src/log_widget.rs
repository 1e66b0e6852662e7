//! Scroll state and widget models for the log panel.
//!
//! `LogState` is the panel's toggle flag plus a scroll offset that saturates
//! at its bounds instead of wrapping. The widget types carry the data a
//! renderer needs: a title, and for the list widget the rows to show, from
//! which `visible_rows` computes the clamped, scrolled slice. Drawing
//! itself — borders, styles, terminal cells — happens outside the verified
//! core, reading only what these types expose.

use vstd::prelude::*;

use crate::history::spec_window;

verus! {

/// Whether the log panel is shown, and how far it is scrolled.
///
/// The offset counts records from the oldest end and is clamped against the
/// history length only at render time; here it merely saturates.
#[derive(Clone, Copy, Debug, PartialEq, Eq, Structural)]
pub struct LogState {
    pub enabled: bool,
    pub scroll: u16,
}

impl LogState {
    pub fn new(enabled: bool) -> (s: Self)
        ensures
            s.enabled == enabled,
            s.scroll == 0,
    {
        Self { enabled, scroll: 0 }
    }

    /// Flip the panel's visibility; the scroll offset is kept.
    pub fn toggle(&mut self)
        ensures
            final(self).enabled == !old(self).enabled,
            final(self).scroll == old(self).scroll,
    {
        self.enabled = !self.enabled;
    }

    /// Raise the scroll offset, saturating at its maximum.
    pub fn scroll_up(&mut self, amount: u16)
        ensures
            final(self).enabled == old(self).enabled,
            final(self).scroll == (if old(self).scroll + amount <= u16::MAX {
                old(self).scroll + amount
            } else {
                u16::MAX as int
            }),
    {
        self.scroll = self.scroll.saturating_add(amount);
    }

    /// Lower the scroll offset, saturating at zero.
    pub fn scroll_down(&mut self, amount: u16)
        ensures
            final(self).enabled == old(self).enabled,
            final(self).scroll == (if old(self).scroll - amount >= 0 {
                old(self).scroll - amount
            } else {
                0
            }),
    {
        self.scroll = self.scroll.saturating_sub(amount);
    }
}

/// Placeholder log panel: a titled, empty frame drawn while no records are
/// shown.
#[derive(Clone, Debug)]
pub struct LogDebugWidget {
    pub title: String,
}

impl LogDebugWidget {
    pub fn new(title: &str) -> (w: Self)
        ensures
            w.title@ == title@,
    {
        Self { title: String::from_str(title) }
    }
}

impl Default for LogDebugWidget {
    fn default() -> (w: Self)
        ensures
            w.title@ == "Log Debug"@,
    {
        Self { title: String::from_str("Log Debug") }
    }
}

/// The data behind one rendering of the log panel: the records to draw,
/// a title, and the requested scroll offset.
#[derive(Clone, Debug)]
pub struct LogListWidget {
    pub logs: Vec<String>,
    pub title: String,
    pub scroll_offset: u16,
}

impl LogListWidget {
    pub fn new(logs: Vec<String>, title: &str, scroll_offset: u16) -> (w: Self)
        ensures
            w.logs == logs,
            w.title@ == title@,
            w.scroll_offset == scroll_offset,
    {
        Self { logs, title: String::from_str(title), scroll_offset }
    }

    /// The rows a renderer should draw into a viewport of `visible_height`
    /// lines: the scroll offset clamped so the window never runs past the
    /// newest record, then that many rows oldest-to-newest.
    pub fn visible_rows(&self, visible_height: usize) -> (out: Vec<String>)
        ensures
            out@.map_values(|s: String| s@) == spec_window(
                self.logs@.map_values(|s: String| s@),
                self.scroll_offset as nat,
                visible_height as nat,
            ),
    {
        let ghost model = self.logs@.map_values(|s: String| s@);
        let len = self.logs.len();
        let max_scroll = if len > visible_height {
            len - visible_height
        } else {
            0
        };
        let offset = self.scroll_offset as usize;
        let start = if offset < max_scroll {
            offset
        } else {
            max_scroll
        };
        let end = if visible_height <= len - start {
            start + visible_height
        } else {
            len
        };
        let mut out: Vec<String> = Vec::new();
        let mut i = start;
        while i < end
            invariant
                start <= i <= end <= len,
                len == self.logs@.len(),
                model == self.logs@.map_values(|s: String| s@),
                out@.map_values(|s: String| s@) =~= model.subrange(start as int, i as int),
            decreases end - i,
        {
            let rec = self.logs[i].clone();
            proof {
                assert(rec@ == model[i as int]);
            }
            let ghost prev = out@;
            out.push(rec);
            proof {
                prev.lemma_push_map_commute(|s: String| s@, rec);
                assert(out@.map_values(|s: String| s@) =~= model.subrange(
                    start as int,
                    i + 1 as int,
                ));
            }
            i += 1;
        }
        proof {
            assert(out@.map_values(|s: String| s@) =~= spec_window(
                model,
                self.scroll_offset as nat,
                visible_height as nat,
            ));
        }
        out
    }
}

} // verus!
