//! Debounced, bounded scroll and selection state over a list whose length
//! may change between events.
//!
//! A scroll event is accepted only when more than [`SCROLL_DEBOUNCE_MS`]
//! milliseconds have passed since the last accepted one, so a burst of queued
//! terminal events moves the cursor at a capped rate. An accepted event moves
//! the display cursor one step (floor-clamped at zero) and the selection one
//! step, clamped to the observed list; the two are independent.

use vstd::prelude::*;

verus! {

/// Minimum interval between two accepted scroll steps, in milliseconds.
pub const SCROLL_DEBOUNCE_MS: u64 = 20;

/// Direction of one scroll event.
#[derive(Clone, Copy, PartialEq, Eq, Structural)]
pub enum ScrollDirection {
    /// Toward the start of the list.
    Up,
    /// Toward the end of the list.
    Down,
}

/// Scroll cursor, selection and debounce clock for the queue list.
pub struct ScrollState {
    /// Scrollbar display cursor; floor-clamped at zero and independent of the
    /// selection.
    pub offset: usize,
    /// Selected list index: empty exactly while the observed list is empty.
    pub selected: Option<usize>,
    /// Timestamp, in milliseconds, of the last accepted scroll event.
    pub last_update: Option<u64>,
}

/// The selection is lawful for a list of `len` items: empty exactly on an
/// empty list, otherwise inside `[0, len - 1]`.
pub open spec fn selection_in_bounds(sel: Option<usize>, len: usize) -> bool {
    match sel {
        None => len == 0,
        Some(i) => len > 0 && i < len,
    }
}

/// The selection after an accepted step in `dir` over a list of `len` items:
/// cleared on an empty list; otherwise moved one step from the current index
/// (an empty selection counts as index 0) and clamped to `[0, len - 1]`.
pub open spec fn spec_move_selection(sel: Option<usize>, dir: ScrollDirection, len: usize)
    -> Option<usize> {
    if len == 0 {
        None
    } else {
        let cur: int = match sel {
            None => 0,
            Some(i) => i as int,
        };
        let moved: int = match dir {
            ScrollDirection::Up => if cur == 0 {
                0
            } else {
                cur - 1
            },
            ScrollDirection::Down => cur + 1,
        };
        let clamped: int = if moved > len - 1 {
            len - 1
        } else {
            moved
        };
        Some(clamped as usize)
    }
}

/// The display cursor after an accepted step: one up (floor-clamped at zero)
/// or one down (saturating at the type's maximum).
pub open spec fn spec_move_offset(off: usize, dir: ScrollDirection) -> usize {
    match dir {
        ScrollDirection::Up => if off == 0 {
            0
        } else {
            (off - 1) as usize
        },
        ScrollDirection::Down => if off == usize::MAX {
            usize::MAX
        } else {
            (off + 1) as usize
        },
    }
}

impl ScrollState {
    /// An event at `now` passes the debounce gate: either no event was
    /// accepted yet, or more than the debounce interval has passed since the
    /// last accepted one. A timestamp earlier than the last accepted one (a
    /// clock that stepped back) does not pass.
    pub open spec fn accepts(self, now: u64) -> bool {
        match self.last_update {
            None => true,
            Some(t) => t <= now && now - t > SCROLL_DEBOUNCE_MS,
        }
    }
}

/// The selection after the observed list changed to `len` items without any
/// scroll event: cleared on an empty list, started at the first item where
/// there was none, and otherwise re-clamped so it never points past the end.
pub open spec fn spec_clamp_selection(sel: Option<usize>, len: usize) -> Option<usize> {
    if len == 0 {
        None
    } else {
        match sel {
            None => Some(0usize),
            Some(i) => if i < len {
                Some(i)
            } else {
                Some((len - 1) as usize)
            },
        }
    }
}

/// The whole state after one scroll event: unchanged when the debounce gate
/// rejects it, else stamped with `now` and moved one step.
pub open spec fn spec_on_scroll(s: ScrollState, dir: ScrollDirection, len: usize, now: u64)
    -> ScrollState {
    if !s.accepts(now) {
        s
    } else {
        ScrollState {
            offset: spec_move_offset(s.offset, dir),
            selected: spec_move_selection(s.selected, dir, len),
            last_update: Some(now),
        }
    }
}

impl ScrollState {
    /// The state before any event: cursor at the top, no accepted event
    /// yet, and no selection — none has been observed, so the selection is
    /// lawful for the empty list; the first non-empty observation selects
    /// the first item.
    pub fn new() -> (s: ScrollState)
        ensures
            s == (ScrollState { offset: 0, selected: None, last_update: None }),
            selection_in_bounds(s.selected, 0),
    {
        ScrollState { offset: 0, selected: None, last_update: None }
    }

    /// Process one scroll event at time `now_ms` over a list of `list_len`
    /// items. A rejected event (within the debounce window) changes nothing;
    /// an accepted one stamps the clock and moves cursor and selection one
    /// step, the selection clamped to the list.
    pub fn on_scroll(&mut self, dir: ScrollDirection, list_len: usize, now_ms: u64)
        ensures
            *final(self) == spec_on_scroll(*old(self), dir, list_len, now_ms),
            old(self).accepts(now_ms) ==> selection_in_bounds(final(self).selected, list_len),
    {
        let accept = match self.last_update {
            None => true,
            Some(t) => now_ms >= t && now_ms - t > SCROLL_DEBOUNCE_MS,
        };
        if !accept {
            return ;
        }
        self.last_update = Some(now_ms);
        self.offset = match dir {
            ScrollDirection::Up => if self.offset == 0 {
                0
            } else {
                self.offset - 1
            },
            ScrollDirection::Down => if self.offset == usize::MAX {
                usize::MAX
            } else {
                self.offset + 1
            },
        };
        if list_len == 0 {
            self.selected = None;
            return ;
        }
        let cur = match self.selected {
            Some(i) => i,
            None => 0,
        };
        let moved = match dir {
            ScrollDirection::Up => if cur == 0 {
                0
            } else {
                cur - 1
            },
            ScrollDirection::Down => if cur < list_len - 1 {
                cur + 1
            } else {
                list_len - 1
            },
        };
        let clamped = if moved > list_len - 1 {
            list_len - 1
        } else {
            moved
        };
        self.selected = Some(clamped);
    }

    /// Reset the selection bounds for a list that now has `list_len` items:
    /// the debounce clock and the display cursor stay put, the selection is
    /// re-clamped so it is empty exactly on an empty list and otherwise
    /// never points past the end.
    pub fn observe_length(&mut self, list_len: usize)
        ensures
            *final(self) == (ScrollState {
                selected: spec_clamp_selection(old(self).selected, list_len),
                ..*old(self)
            }),
            selection_in_bounds(final(self).selected, list_len),
    {
        if list_len == 0 {
            self.selected = None;
            return ;
        }
        self.selected = match self.selected {
            None => Some(0),
            Some(i) => if i < list_len {
                Some(i)
            } else {
                Some(list_len - 1)
            },
        };
    }
}

/// Debounce, rejection half: after an event accepted at time `t`, a second
/// event not more than the debounce interval later (or with a clock that
/// stepped back) changes nothing at all.
pub proof fn lemma_debounce_too_soon(
    s: ScrollState,
    t: u64,
    dir: ScrollDirection,
    len: usize,
    now: u64,
)
    requires
        s.last_update == Some(t),
        now - t <= SCROLL_DEBOUNCE_MS,
    ensures
        !s.accepts(now),
        spec_on_scroll(s, dir, len, now) == s,
{
}

/// Debounce, acceptance half: an event more than the debounce interval after
/// the last accepted one is accepted and performs exactly one step.
pub proof fn lemma_debounce_elapsed(
    s: ScrollState,
    t: u64,
    dir: ScrollDirection,
    len: usize,
    now: u64,
)
    requires
        s.last_update == Some(t),
        t <= now,
        now - t > SCROLL_DEBOUNCE_MS,
    ensures
        s.accepts(now),
        spec_on_scroll(s, dir, len, now) == (ScrollState {
            offset: spec_move_offset(s.offset, dir),
            selected: spec_move_selection(s.selected, dir, len),
            last_update: Some(now),
        }),
{
}

/// Bounds: whatever the previous selection — even one left dangling by a
/// list that shrank — an accepted step over a list of `len` items leaves the
/// selection empty exactly on an empty list and otherwise inside
/// `[0, len - 1]`.
pub proof fn lemma_selection_bounds(sel: Option<usize>, dir: ScrollDirection, len: usize)
    ensures
        selection_in_bounds(spec_move_selection(sel, dir, len), len),
{
}

/// An accepted downward step from a selection that is not yet at the end
/// advances it by exactly one.
pub proof fn lemma_step_down(s: ScrollState, i: usize, len: usize, now: u64)
    requires
        s.accepts(now),
        s.selected == Some(i),
        i + 1 < len,
    ensures
        spec_on_scroll(s, ScrollDirection::Down, len, now).selected == Some((i + 1) as usize),
{
}

} // verus!
