//! Building the display lines of the playback queue.
//!
//! The player connection hands over one plain [`QueueEntry`] per song; the
//! functions here turn each into its display line
//! `position: artist - title`, with fixed fallbacks where a tag is missing.

use vstd::prelude::*;
use vstd::string::StringExecFns;

verus! {

/// One song of the queue, as plain values: its position in the queue and its
/// optional title and artist tags.
pub struct QueueEntry {
    /// Position of the song in the queue.
    pub position: u32,
    /// The artist tag, where the song has one.
    pub artist: Option<String>,
    /// The title tag, where the song has one.
    pub title: Option<String>,
}

/// The decimal digit `d` as a character.
pub open spec fn digit_char(d: nat) -> char {
    if d == 0 {
        '0'
    } else if d == 1 {
        '1'
    } else if d == 2 {
        '2'
    } else if d == 3 {
        '3'
    } else if d == 4 {
        '4'
    } else if d == 5 {
        '5'
    } else if d == 6 {
        '6'
    } else if d == 7 {
        '7'
    } else if d == 8 {
        '8'
    } else {
        '9'
    }
}

/// The decimal notation of `n`, most significant digit first, without
/// leading zeros (a single zero for zero itself).
pub open spec fn spec_dec(n: nat) -> Seq<char>
    decreases n,
{
    if n < 10 {
        seq![digit_char(n)]
    } else {
        spec_dec(n / 10) + seq![digit_char(n % 10)]
    }
}

/// The display line of one queue entry: `position: artist - title`, with
/// `No Artist` and `No Title` standing in for missing tags.
pub open spec fn spec_entry_line(e: QueueEntry) -> Seq<char> {
    spec_dec(e.position as nat) + (": ")@ + (match e.artist {
        Some(a) => a@,
        None => ("No Artist")@,
    }) + (" - ")@ + (match e.title {
        Some(t) => t@,
        None => ("No Title")@,
    })
}

/// The decimal digit `d` as a one-character string slice.
fn digit_str(d: u32) -> (r: &'static str)
    requires
        d < 10,
    ensures
        r@ == seq![digit_char(d as nat)],
{
    let r: &'static str = if d == 0 {
        "0"
    } else if d == 1 {
        "1"
    } else if d == 2 {
        "2"
    } else if d == 3 {
        "3"
    } else if d == 4 {
        "4"
    } else if d == 5 {
        "5"
    } else if d == 6 {
        "6"
    } else if d == 7 {
        "7"
    } else if d == 8 {
        "8"
    } else {
        "9"
    };
    proof {
        reveal_strlit("0");
        reveal_strlit("1");
        reveal_strlit("2");
        reveal_strlit("3");
        reveal_strlit("4");
        reveal_strlit("5");
        reveal_strlit("6");
        reveal_strlit("7");
        reveal_strlit("8");
        reveal_strlit("9");
        assert(r@ =~= seq![digit_char(d as nat)]);
    }
    r
}

/// The decimal notation of `n` as a string.
pub fn decimal_string(n: u32) -> (r: String)
    ensures
        r@ == spec_dec(n as nat),
    decreases n,
{
    if n < 10 {
        let mut s = String::new();
        s.append(digit_str(n));
        proof {
            assert(s@ =~= spec_dec(n as nat));
        }
        s
    } else {
        let mut s = decimal_string(n / 10);
        s.append(digit_str(n % 10));
        proof {
            assert(s@ =~= spec_dec(n as nat));
        }
        s
    }
}

/// Build the display line of one queue entry.
pub fn format_entry(e: &QueueEntry) -> (r: String)
    ensures
        r@ == spec_entry_line(*e),
{
    let mut s = decimal_string(e.position);
    s.append(": ");
    match &e.artist {
        Some(a) => s.append(a.as_str()),
        None => s.append("No Artist"),
    }
    s.append(" - ");
    match &e.title {
        Some(t) => s.append(t.as_str()),
        None => s.append("No Title"),
    }
    proof {
        assert(s@ =~= spec_entry_line(*e));
    }
    s
}

/// Build the display lines for the whole queue, one per entry, in order.
pub fn process_queue(entries: &Vec<QueueEntry>) -> (r: Vec<String>)
    ensures
        r@.len() == entries@.len(),
        forall|i: int| 0 <= i < entries@.len() ==> r@[i]@ == spec_entry_line(entries@[i]),
{
    let mut r: Vec<String> = Vec::new();
    let mut i: usize = 0;
    while i < entries.len()
        invariant
            i <= entries@.len(),
            r@.len() == i,
            forall|j: int| 0 <= j < i ==> r@[j]@ == spec_entry_line(entries@[j]),
        decreases entries@.len() - i,
    {
        let line = format_entry(&entries[i]);
        r.push(line);
        i = i + 1;
    }
    r
}

} // verus!
