//! Bounded log aggregator.
//!
//! `LogHistory` is a fixed-capacity, insertion-ordered store of formatted
//! diagnostic records: once full, appending evicts the oldest record first,
//! so the history never grows beyond its capacity. A render pass reads it
//! through `window`, which clamps a requested scroll offset and returns the
//! visible slice oldest-to-newest. Records carry no structure beyond their
//! text; a severity hint for coloring is recovered by a stable substring
//! match on the level name.
//!
//! Concurrency is the caller's concern: producers and the one reader share
//! an instance behind a lock held only for the duration of one append or one
//! window copy, never across rendering.

use vstd::prelude::*;

use crate::textfmt::{contains_seq, spec_digits, str_contains, u32_to_string};
use std::collections::VecDeque;

verus! {

/// Rendering hint for one record, derived from the severity printed in its
/// text. The derivation is a substring match, so it is stable across calls
/// for the same record.
#[derive(Clone, Copy, Debug, PartialEq, Eq, Structural)]
pub enum LevelHint {
    Error,
    Warn,
    Debug,
    Trace,
    Info,
}

/// The severity hint of a formatted record: the first of the level names
/// found in its text, or `Info` when none occurs.
pub open spec fn spec_severity_hint(line: Seq<char>) -> LevelHint {
    if contains_seq(line, "ERROR"@) {
        LevelHint::Error
    } else if contains_seq(line, "WARN"@) {
        LevelHint::Warn
    } else if contains_seq(line, "DEBUG"@) {
        LevelHint::Debug
    } else if contains_seq(line, "TRACE"@) {
        LevelHint::Trace
    } else {
        LevelHint::Info
    }
}

/// Derive the rendering hint for one record.
pub fn severity_hint(line: &str) -> (h: LevelHint)
    ensures
        h == spec_severity_hint(line@),
{
    if str_contains(line, "ERROR") {
        LevelHint::Error
    } else if str_contains(line, "WARN") {
        LevelHint::Warn
    } else if str_contains(line, "DEBUG") {
        LevelHint::Debug
    } else if str_contains(line, "TRACE") {
        LevelHint::Trace
    } else {
        LevelHint::Info
    }
}

/// One record appended to a history of capacity `cap`: the oldest entry is
/// evicted first when the history is full.
pub open spec fn spec_step(h: Seq<Seq<char>>, cap: nat, entry: Seq<char>) -> Seq<Seq<char>> {
    if h.len() < cap {
        h.push(entry)
    } else {
        h.subrange(1, h.len() as int).push(entry)
    }
}

/// All of `entries` appended in order, oldest-evicted-first throughout.
pub open spec fn spec_run(h: Seq<Seq<char>>, cap: nat, entries: Seq<Seq<char>>) -> Seq<Seq<char>>
    decreases entries.len(),
{
    if entries.len() == 0 {
        h
    } else {
        spec_run(spec_step(h, cap, entries[0]), cap, entries.subrange(1, entries.len() as int))
    }
}

/// The scroll offset actually used for a history of `len` records and a
/// viewport of `height` rows: the request, clamped so the window never runs
/// past the newest record.
pub open spec fn spec_clamped_offset(len: nat, offset: nat, height: nat) -> nat {
    let max_scroll: nat = if len > height {
        (len - height) as nat
    } else {
        0
    };
    if offset < max_scroll {
        offset
    } else {
        max_scroll
    }
}

/// The visible slice of `s` for a clamped scroll offset and viewport height,
/// ordered oldest to newest.
pub open spec fn spec_window(s: Seq<Seq<char>>, offset: nat, height: nat) -> Seq<Seq<char>> {
    let c = spec_clamped_offset(s.len(), offset, height);
    let end: nat = if c + height <= s.len() {
        (c + height) as nat
    } else {
        s.len()
    };
    s.subrange(c as int, end as int)
}

/// A fixed-capacity, insertion-ordered history of formatted log records.
pub struct LogHistory {
    records: VecDeque<String>,
    capacity: usize,
}

impl LogHistory {
    /// The records held, oldest first, as character sequences.
    pub closed spec fn view(&self) -> Seq<Seq<char>> {
        self.records@.map_values(|s: String| s@)
    }

    /// The fixed capacity this history was created with.
    pub closed spec fn cap(&self) -> usize {
        self.capacity
    }

    /// Well-formed: the capacity is positive and never exceeded.
    pub closed spec fn wf(&self) -> bool {
        1 <= self.capacity && self.records@.len() <= self.capacity
    }

    /// Create an empty history that will never hold more than `capacity`
    /// records.
    pub fn new(capacity: usize) -> (h: Self)
        requires
            capacity >= 1,
        ensures
            h.wf(),
            h@ == Seq::<Seq<char>>::empty(),
            h.cap() == capacity,
    {
        let h = LogHistory { records: VecDeque::with_capacity(capacity), capacity };
        proof {
            assert(h@ =~= Seq::<Seq<char>>::empty());
        }
        h
    }

    /// How many records are currently held; never more than the capacity.
    pub fn len(&self) -> (n: usize)
        requires
            self.wf(),
        ensures
            n == self@.len(),
            n <= self.cap(),
    {
        self.records.len()
    }

    /// The capacity this history was created with.
    pub fn capacity(&self) -> (c: usize)
        ensures
            c == self.cap(),
    {
        self.capacity
    }

    /// Append one already-formatted record, evicting the oldest first when
    /// the history is full.
    pub fn push_record(&mut self, entry: String)
        requires
            old(self).wf(),
        ensures
            final(self).wf(),
            final(self).cap() == old(self).cap(),
            final(self)@ == spec_step(old(self)@, old(self).cap() as nat, entry@),
    {
        if self.records.len() >= self.capacity {
            let _ = self.records.pop_front();
        }
        self.records.push_back(entry);
        proof {
            assert(final(self)@ =~= spec_step(old(self)@, old(self).cap() as nat, entry@));
        }
    }

    /// Format one diagnostic event as a record line and append it:
    /// `[LEVEL] target: message (file:line)`, with the `: message` part
    /// left out when the message is empty.
    pub fn record(&mut self, level: &str, target: &str, message: &str, file: &str, line: u32)
        requires
            old(self).wf(),
        ensures
            final(self).wf(),
            final(self).cap() == old(self).cap(),
            final(self)@ == spec_step(
                old(self)@,
                old(self).cap() as nat,
                spec_record_line(level@, target@, message@, file@, line),
            ),
    {
        let entry = format_record(level, target, message, file, line);
        self.push_record(entry);
    }

    /// Copy out the visible window for a requested scroll offset and
    /// viewport height: the offset is clamped, the slice has `height` rows
    /// unless fewer records exist, ordered oldest to newest.
    pub fn window(&self, scroll_offset: usize, visible_height: usize) -> (out: Vec<String>)
        requires
            self.wf(),
        ensures
            out@.map_values(|s: String| s@) == spec_window(
                self@,
                scroll_offset as nat,
                visible_height as nat,
            ),
    {
        let len = self.records.len();
        let max_scroll = if len > visible_height {
            len - visible_height
        } else {
            0
        };
        let start = if scroll_offset < max_scroll {
            scroll_offset
        } else {
            max_scroll
        };
        let end = if visible_height <= len - start {
            start + visible_height
        } else {
            len
        };
        let mut out: Vec<String> = Vec::new();
        let mut i = start;
        while i < end
            invariant
                start <= i <= end <= len,
                len == self.records@.len(),
                out@.map_values(|s: String| s@) =~= self@.subrange(start as int, i as int),
            decreases end - i,
        {
            let rec = self.records[i].clone();
            proof {
                assert(rec@ == self@[i as int]);
            }
            let ghost prev = out@;
            out.push(rec);
            proof {
                prev.lemma_push_map_commute(|s: String| s@, rec);
                assert(out@.map_values(|s: String| s@) =~= self@.subrange(
                    start as int,
                    i + 1 as int,
                ));
            }
            i += 1;
        }
        proof {
            assert(out@.map_values(|s: String| s@) =~= spec_window(
                self@,
                scroll_offset as nat,
                visible_height as nat,
            ));
        }
        out
    }
}

/// The record line for one diagnostic event, as `record` writes it.
pub open spec fn spec_record_line(
    level: Seq<char>,
    target: Seq<char>,
    message: Seq<char>,
    file: Seq<char>,
    line: u32,
) -> Seq<char> {
    "["@ + level + "] "@ + target + (if message.len() == 0 {
        Seq::<char>::empty()
    } else {
        ": "@ + message
    }) + " ("@ + file + ":"@ + spec_digits(line as nat) + ")"@
}

/// Build the record line for one diagnostic event.
pub fn format_record(level: &str, target: &str, message: &str, file: &str, line: u32) -> (out:
    String)
    ensures
        out@ == spec_record_line(level@, target@, message@, file@, line),
{
    let mut out = String::from_str("[");
    out.append(level);
    out.append("] ");
    out.append(target);
    if message.unicode_len() > 0 {
        out.append(": ");
        out.append(message);
    }
    out.append(" (");
    out.append(file);
    out.append(":");
    let digits = u32_to_string(line);
    out.append(digits.as_str());
    out.append(")");
    out
}

/// Law (aggregator capacity): running any sequence of at least `cap`
/// appends against a well-formed history leaves exactly the last `cap`
/// entries appended, in insertion order.
pub proof fn lemma_capacity_retains_latest(h: Seq<Seq<char>>, cap: nat, entries: Seq<Seq<char>>)
    requires
        1 <= cap,
        h.len() <= cap,
        entries.len() >= cap,
    ensures
        spec_run(h, cap, entries).len() == cap,
        spec_run(h, cap, entries) == entries.subrange(
            entries.len() - cap,
            entries.len() as int,
        ),
{
    lemma_run_window(h, cap, entries);
    assert(spec_run(h, cap, entries) =~= entries.subrange(
        entries.len() - cap,
        entries.len() as int,
    ));
}

/// After any run of appends, the history holds the newest records of
/// everything ever present, up to its capacity, in order.
pub proof fn lemma_run_window(h: Seq<Seq<char>>, cap: nat, entries: Seq<Seq<char>>)
    requires
        1 <= cap,
        h.len() <= cap,
    ensures
        spec_run(h, cap, entries) == ({
            let all = h + entries;
            let keep: nat = if all.len() <= cap {
                all.len()
            } else {
                cap
            };
            all.subrange(all.len() - keep, all.len() as int)
        }),
    decreases entries.len(),
{
    let all = h + entries;
    let keep: nat = if all.len() <= cap {
        all.len()
    } else {
        cap
    };
    if entries.len() == 0 {
        assert(all =~= h);
        assert(all.subrange(all.len() - keep, all.len() as int) =~= h);
    } else {
        let h2 = spec_step(h, cap, entries[0]);
        let rest = entries.subrange(1, entries.len() as int);
        lemma_run_window(h2, cap, rest);
        let all2 = h2 + rest;
        let keep2: nat = if all2.len() <= cap {
            all2.len()
        } else {
            cap
        };
        if h.len() < cap {
            assert(all2 =~= all);
        } else {
            assert(all2 =~= all.subrange(1, all.len() as int));
        }
        assert(all2.subrange(all2.len() - keep2, all2.len() as int) =~= all.subrange(
            all.len() - keep,
            all.len() as int,
        ));
    }
}

/// Law (scroll clamp): for any history length, viewport height and
/// requested offset, the window starts at the clamped offset and shows
/// `height` records, or every record when fewer exist.
pub proof fn lemma_scroll_clamp(s: Seq<Seq<char>>, offset: nat, height: nat)
    ensures
        spec_window(s, offset, height).len() == (if s.len() < height {
            s.len()
        } else {
            height
        }),
        forall|i: int|
            0 <= i < spec_window(s, offset, height).len() ==> spec_window(s, offset, height)[i]
                == s[spec_clamped_offset(s.len(), offset, height) + i],
{
}

} // verus!
