//! The owned state of the front-end and the per-event decisions over it.
//!
//! One value of [`App`] holds everything the render loop mutates: the quit
//! and pause flags, the scroll/selection state, the queue lines as last
//! observed, and the displayed bar heights. Key events are reduced to plain
//! [`Key`] values at the terminal boundary; [`App::handle_key_event`] applies
//! their whole effect and hands back the one command (a pause toggle) that
//! must go to the player.

use vstd::prelude::*;
use crate::scroll::{ScrollDirection, ScrollState, selection_in_bounds, spec_clamp_selection, spec_on_scroll};

verus! {

/// Number of visualization bars before the first resize.
pub const DEFAULT_BAR_COUNT: usize = 40;

/// Floor height of a bar, in fill units.
pub const MIN_BAR_HEIGHT: u8 = 1;

/// A key event, reduced to what the front-end reacts to.
#[derive(Clone, Copy, PartialEq, Eq, Structural)]
pub enum Key {
    /// A printable character key.
    Char(char),
    /// The cursor-up key.
    Up,
    /// The cursor-down key.
    Down,
    /// Any other key.
    Other,
}

/// The whole mutable state of the front-end.
pub struct App {
    /// True once a quit command was received; the render loop's sole
    /// controlled exit.
    pub exit: bool,
    /// Local view of whether playback is paused, toggled by the pause key.
    pub pause: bool,
    /// Scroll cursor, selection and debounce clock for the queue list.
    pub scroll: ScrollState,
    /// The queue lines as last observed.
    pub active_list: Vec<String>,
    /// Displayed bar heights, in fill units, one entry per column.
    pub spectrum_data: Vec<u8>,
    /// Number of bar columns the display currently has room for.
    pub spectrum_width: u16,
}

/// The state and the player command after one key event: quit and pause keys
/// flip their flag (the pause key also commands the player with the pause
/// flag as it stood), the cursor keys scroll over the observed list, and any
/// other key does nothing.
pub open spec fn spec_handle_key(s: App, key: Key, now_ms: u64) -> (App, Option<bool>) {
    match key {
        Key::Char(c) => if c == 'q' {
            (App { exit: true, ..s }, None)
        } else if c == 'p' {
            (App { pause: !s.pause, ..s }, Some(s.pause))
        } else {
            (s, None)
        },
        Key::Up => (
            App {
                scroll: spec_on_scroll(
                    s.scroll,
                    ScrollDirection::Up,
                    s.active_list@.len() as usize,
                    now_ms,
                ),
                ..s
            },
            None,
        ),
        Key::Down => (
            App {
                scroll: spec_on_scroll(
                    s.scroll,
                    ScrollDirection::Down,
                    s.active_list@.len() as usize,
                    now_ms,
                ),
                ..s
            },
            None,
        ),
        Key::Other => (s, None),
    }
}

impl Default for App {
    /// The state before the first frame: running, not paused, cursor at the
    /// top, an empty queue with accordingly no selection, and
    /// [`DEFAULT_BAR_COUNT`] bars at the floor height.
    fn default() -> (d: App)
        ensures
            d.exit == false,
            d.pause == false,
            d.scroll == (ScrollState { offset: 0, selected: None, last_update: None }),
            d.active_list@.len() == 0,
            selection_in_bounds(d.scroll.selected, d.active_list@.len() as usize),
            d.spectrum_width == DEFAULT_BAR_COUNT as u16,
            d.spectrum_data@ == Seq::new(DEFAULT_BAR_COUNT as nat, |i: int| MIN_BAR_HEIGHT),
    {
        let mut data: Vec<u8> = Vec::new();
        let mut i: usize = 0;
        while i < DEFAULT_BAR_COUNT
            invariant
                i <= DEFAULT_BAR_COUNT,
                data@.len() == i,
                forall|j: int| 0 <= j < i ==> data@[j] == MIN_BAR_HEIGHT,
            decreases DEFAULT_BAR_COUNT - i,
        {
            data.push(MIN_BAR_HEIGHT);
            i = i + 1;
        }
        proof {
            assert(data@ =~= Seq::new(DEFAULT_BAR_COUNT as nat, |j: int| MIN_BAR_HEIGHT));
        }
        App {
            exit: false,
            pause: false,
            scroll: ScrollState::new(),
            active_list: Vec::new(),
            spectrum_data: data,
            spectrum_width: DEFAULT_BAR_COUNT as u16,
        }
    }
}

impl App {
    /// One downward scroll event over a list of `list_len` items; only the
    /// scroll state moves, and only if the debounce gate passes.
    pub fn scroll_down(&mut self, list_len: usize, now_ms: u64)
        ensures
            *final(self) == (App {
                scroll: spec_on_scroll(old(self).scroll, ScrollDirection::Down, list_len, now_ms),
                ..*old(self)
            }),
            old(self).scroll.accepts(now_ms) ==> selection_in_bounds(
                final(self).scroll.selected,
                list_len,
            ),
    {
        self.scroll.on_scroll(ScrollDirection::Down, list_len, now_ms);
    }

    /// One upward scroll event; the mirror of [`App::scroll_down`].
    pub fn scroll_up(&mut self, list_len: usize, now_ms: u64)
        ensures
            *final(self) == (App {
                scroll: spec_on_scroll(old(self).scroll, ScrollDirection::Up, list_len, now_ms),
                ..*old(self)
            }),
            old(self).scroll.accepts(now_ms) ==> selection_in_bounds(
                final(self).scroll.selected,
                list_len,
            ),
    {
        self.scroll.on_scroll(ScrollDirection::Up, list_len, now_ms);
    }

    /// Record that a quit command was received.
    pub fn exit(&mut self)
        ensures
            *final(self) == (App { exit: true, ..*old(self) }),
    {
        self.exit = true;
    }

    /// Flip the local pause flag and say what to send to the player: the
    /// flag as it stood before the flip.
    pub fn play_pause(&mut self) -> (send: bool)
        ensures
            *final(self) == (App { pause: !old(self).pause, ..*old(self) }),
            send == old(self).pause,
    {
        let send = self.pause;
        self.pause = !self.pause;
        send
    }

    /// Apply one key event to the state; the result is the pause command to
    /// forward to the player, if the key asked for one.
    pub fn handle_key_event(&mut self, key: Key, now_ms: u64) -> (cmd: Option<bool>)
        ensures
            *final(self) == spec_handle_key(*old(self), key, now_ms).0,
            cmd == spec_handle_key(*old(self), key, now_ms).1,
    {
        match key {
            Key::Char(c) => {
                if c == 'q' {
                    self.exit();
                    None
                } else if c == 'p' {
                    let send = self.play_pause();
                    Some(send)
                } else {
                    None
                }
            },
            Key::Up => {
                let len = self.active_list.len();
                self.scroll_up(len, now_ms);
                None
            },
            Key::Down => {
                let len = self.active_list.len();
                self.scroll_down(len, now_ms);
                None
            },
            Key::Other => None,
        }
    }

    /// Replace the observed queue lines and reset the selection bounds for
    /// the new length: the selection is empty exactly while the list is,
    /// and otherwise never points past its end.
    pub fn set_active_list(&mut self, list: Vec<String>)
        ensures
            *final(self) == (App {
                active_list: list,
                scroll: (ScrollState {
                    selected: spec_clamp_selection(old(self).scroll.selected, list@.len() as usize),
                    ..old(self).scroll
                }),
                ..*old(self)
            }),
            selection_in_bounds(final(self).scroll.selected, list@.len() as usize),
    {
        let len = list.len();
        self.active_list = list;
        self.scroll.observe_length(len);
    }

    /// Replace the displayed bar heights with what the engine computed.
    pub fn set_spectrum_data(&mut self, data: Vec<u8>)
        ensures
            *final(self) == (App { spectrum_data: data, ..*old(self) }),
    {
        self.spectrum_data = data;
    }

    /// Resize the bar bank to `width` columns: existing heights up to the
    /// new width are kept, any new column starts at the floor height.
    pub fn resize_spectrum(&mut self, width: u16)
        ensures
            final(self).spectrum_width == width,
            final(self).spectrum_data@.len() == width as int,
            forall|i: int|
                0 <= i < vstd::math::min(old(self).spectrum_data@.len() as int, width as int)
                    ==> final(self).spectrum_data@[i] == old(self).spectrum_data@[i],
            forall|i: int|
                old(self).spectrum_data@.len() <= i < width as int
                    ==> final(self).spectrum_data@[i] == MIN_BAR_HEIGHT,
            final(self).exit == old(self).exit,
            final(self).pause == old(self).pause,
            final(self).scroll == old(self).scroll,
            final(self).active_list == old(self).active_list,
    {
        let ghost orig = self.spectrum_data@;
        let target: usize = width as usize;
        if self.spectrum_data.len() > target {
            while self.spectrum_data.len() > target
                invariant
                    target <= self.spectrum_data@.len() <= orig.len(),
                    self.spectrum_data@ == orig.subrange(0, self.spectrum_data@.len() as int),
                    self.exit == old(self).exit,
                    self.pause == old(self).pause,
                    self.scroll == old(self).scroll,
                    self.active_list == old(self).active_list,
                    self.spectrum_width == old(self).spectrum_width,
                decreases self.spectrum_data@.len(),
            {
                self.spectrum_data.pop();
                proof {
                    assert(self.spectrum_data@ =~= orig.subrange(
                        0,
                        self.spectrum_data@.len() as int,
                    ));
                }
            }
        }
        proof {
            assert(forall|i: int|
                0 <= i < vstd::math::min(orig.len() as int, target as int)
                    ==> self.spectrum_data@[i] == orig[i]);
        }
        while self.spectrum_data.len() < target
            invariant
                self.spectrum_data@.len() <= target,
                forall|i: int|
                    0 <= i < vstd::math::min(orig.len() as int, target as int)
                        ==> self.spectrum_data@[i] == orig[i],
                forall|i: int|
                    orig.len() <= i < self.spectrum_data@.len()
                        ==> self.spectrum_data@[i] == MIN_BAR_HEIGHT,
                self.spectrum_data@.len() >= vstd::math::min(orig.len() as int, target as int),
                self.exit == old(self).exit,
                self.pause == old(self).pause,
                self.scroll == old(self).scroll,
                self.active_list == old(self).active_list,
                self.spectrum_width == old(self).spectrum_width,
            decreases target - self.spectrum_data@.len(),
        {
            self.spectrum_data.push(MIN_BAR_HEIGHT);
        }
        self.spectrum_width = width;
    }
}

} // verus!
