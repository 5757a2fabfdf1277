//! Text checks and encodings used around native Windows calls.

use vstd::prelude::*;
use crate::text::{chars_of, contains, contains_seq, lower, lower_chars, occurs_at};

verus! {

/// The text of a crash dialog of the garbage collector, ignoring ASCII case.
pub open spec fn fatal_gc_text(text: Seq<char>) -> bool {
    let l = lower(text);
    ||| contains_seq(l, "fatal error in gc"@)
    ||| contains_seq(l, "suspendthread loop failed"@)
    ||| (contains_seq(l, "fatal"@) && contains_seq(l, "gc"@) && contains_seq(l, "suspendthread"@))
}

/// Any text that contains "Fatal Error in GC" or "SuspendThread Loop failed",
/// in any ASCII case, is a crash dialog, and every crash-dialog text mentions
/// "SuspendThread" or "Fatal Error in GC".
pub proof fn crash_dialog_texts(text: Seq<char>)
    ensures
        contains_seq(lower(text), "fatal error in gc"@) ==> fatal_gc_text(text),
        contains_seq(lower(text), "suspendthread loop failed"@) ==> fatal_gc_text(text),
        contains_seq(lower(text), "fatal"@) && contains_seq(lower(text), "gc"@)
            && contains_seq(lower(text), "suspendthread"@) ==> fatal_gc_text(text),
        fatal_gc_text(text) ==> contains_seq(lower(text), "fatal error in gc"@)
            || contains_seq(lower(text), "suspendthread"@),
{
    if contains_seq(lower(text), "suspendthread loop failed"@) {
        let l = lower(text);
        let i = choose|i: int| occurs_at(l, "suspendthread loop failed"@, i);
        reveal_strlit("suspendthread loop failed");
        reveal_strlit("suspendthread");
        let long = "suspendthread loop failed"@;
        let short = "suspendthread"@;
        assert(l.subrange(i, i + long.len()) == long);
        assert(l.subrange(i, i + short.len()) =~= short) by {
            assert forall|k: int| 0 <= k < short.len() implies l.subrange(i, i + short.len())[k] == short[k] by {
                assert(l.subrange(i, i + long.len())[k] == long[k]);
            }
        }
        assert(occurs_at(l, short, i));
    }
}

/// Whether a window text is the VRChat startup crash dialog.
pub fn is_fatal_gc_text(text: &str) -> (r: bool)
    ensures
        r == fatal_gc_text(text@),
{
    let l = lower_chars(&chars_of(text));
    contains(&l, &chars_of("fatal error in gc"))
        || contains(&l, &chars_of("suspendthread loop failed"))
        || (contains(&l, &chars_of("fatal")) && contains(&l, &chars_of("gc"))
            && contains(&l, &chars_of("suspendthread")))
}

/// The UTF-16 code units of one character.
pub open spec fn utf16_char(c: char) -> Seq<u16> {
    let v = c as u32;
    if v < 0x10000 {
        seq![v as u16]
    } else {
        seq![(0xD800 + (v - 0x10000) / 0x400) as u16, (0xDC00 + (v - 0x10000) % 0x400) as u16]
    }
}

/// The UTF-16 encoding of a character sequence.
pub open spec fn utf16(s: Seq<char>) -> Seq<u16>
    decreases s.len(),
{
    if s.len() == 0 {
        seq![]
    } else {
        utf16(s.drop_last()) + utf16_char(s.last())
    }
}

/// The UTF-16 encoding of a string.
pub fn encode_utf16(value: &str) -> (units: Vec<u16>)
    ensures
        units@ == utf16(value@),
{
    let chars = chars_of(value);
    let mut units: Vec<u16> = Vec::new();
    let mut i: usize = 0;
    while i < chars.len()
        invariant
            chars@ == value@,
            i <= chars@.len(),
            units@ == utf16(chars@.subrange(0, i as int)),
        decreases chars@.len() - i,
    {
        let c = chars[i];
        let v: u32 = c as u32;
        let ghost before = units@;
        if v < 0x10000 {
            units.push(v as u16);
            assert(units@ =~= before + utf16_char(c));
        } else {
            let u: u32 = v - 0x10000;
            let hi: u32 = 0xD800 + u / 0x400;
            let lo: u32 = 0xDC00 + u % 0x400;
            units.push(hi as u16);
            units.push(lo as u16);
            assert(utf16_char(c) == seq![hi as u16, lo as u16]);
            assert(units@ =~= before + utf16_char(c));
        }
        proof {
            let next = chars@.subrange(0, i + 1);
            assert(next.drop_last() =~= chars@.subrange(0, i as int));
            assert(units@ =~= before + utf16_char(c));
        }
        i = i + 1;
    }
    assert(chars@.subrange(0, chars@.len() as int) =~= chars@);
    units
}

/// A NUL-terminated UTF-16 copy of a string, as Windows calls take it.
pub fn wide(value: &str) -> (units: Vec<u16>)
    ensures
        units@ == utf16(value@).push(0u16),
{
    let mut units = encode_utf16(value);
    units.push(0);
    units
}

/// What a scan of a process's windows found.
#[derive(Debug)]
pub struct WindowInspection {
    pub visible_top_level: bool,
    pub hung_top_level: bool,
    pub fatal_text: Option<String>,
}

/// How many child window texts one scan reads at most.
pub const CHILD_TEXT_BUDGET: usize = 16;

/// A scan of a process's windows in progress.
#[derive(Debug)]
pub struct WindowScan {
    pub visible_top_level: bool,
    pub responsive_top_level: bool,
    pub fatal_text: Option<String>,
    pub child_text_budget: usize,
}

impl WindowScan {
    pub fn new() -> (scan: Self)
        ensures
            !scan.visible_top_level,
            !scan.responsive_top_level,
            scan.fatal_text is None,
            scan.child_text_budget == CHILD_TEXT_BUDGET,
    {
        WindowScan {
            visible_top_level: false,
            responsive_top_level: false,
            fatal_text: None,
            child_text_budget: CHILD_TEXT_BUDGET,
        }
    }

    /// A visible top-level window of the process, and whether it answered a
    /// message in time.
    pub fn visible_top_level(&mut self, responsive: bool)
        ensures
            final(self).visible_top_level,
            final(self).responsive_top_level == (old(self).responsive_top_level || responsive),
            final(self).fatal_text == old(self).fatal_text,
            final(self).child_text_budget == old(self).child_text_budget,
    {
        self.visible_top_level = true;
        self.responsive_top_level = self.responsive_top_level || responsive;
    }

    /// Whether a window caption is still worth reading: no fatal text yet.
    pub fn wants_caption(&self) -> (r: bool)
        ensures
            r == (self.fatal_text is None),
    {
        self.fatal_text.is_none()
    }

    /// Claims one read of a child window's text: only while no fatal text was
    /// found and the budget lasts.
    pub fn take_child_text_read(&mut self) -> (granted: bool)
        ensures
            granted == (old(self).fatal_text is None && old(self).child_text_budget > 0),
            final(self).child_text_budget == if granted {
                (old(self).child_text_budget - 1) as usize
            } else {
                old(self).child_text_budget
            },
            final(self).visible_top_level == old(self).visible_top_level,
            final(self).responsive_top_level == old(self).responsive_top_level,
            final(self).fatal_text == old(self).fatal_text,
    {
        if self.fatal_text.is_some() || self.child_text_budget == 0 {
            return false;
        }
        self.child_text_budget = self.child_text_budget - 1;
        true
    }

    /// A window text that was read; the first crash-dialog text is kept.
    pub fn text_read(&mut self, text: String)
        ensures
            final(self).fatal_text == if old(self).fatal_text is None && fatal_gc_text(text@) {
                Some(text)
            } else {
                old(self).fatal_text
            },
            final(self).visible_top_level == old(self).visible_top_level,
            final(self).responsive_top_level == old(self).responsive_top_level,
            final(self).child_text_budget == old(self).child_text_budget,
    {
        if self.fatal_text.is_none() && is_fatal_gc_text(text.as_str()) {
            self.fatal_text = Some(text);
        }
    }

    /// The result: a process shows a hung window when it has a visible
    /// top-level window and none of them answered.
    pub fn finish(self) -> (r: WindowInspection)
        ensures
            r.visible_top_level == self.visible_top_level,
            r.hung_top_level == (self.visible_top_level && !self.responsive_top_level),
            r.fatal_text == self.fatal_text,
    {
        WindowInspection {
            visible_top_level: self.visible_top_level,
            hung_top_level: self.visible_top_level && !self.responsive_top_level,
            fatal_text: self.fatal_text,
        }
    }
}

} // verus!
