//! Layout shared by the display widgets: the rows they draw on, the width of
//! a glyph, and the text that scrolls when it does not fit on a row.
use vstd::prelude::*;
use crate::signals::EventBits;

verus! {

/// Vertical position of a text that is alone on the screen.
pub const ONLY_ONE_ROW_Y: u8 = 27;
/// Vertical position of the first row (the title).
pub const FIRST_ROW_Y: u8 = 25;
/// Vertical position of the second row (the value).
pub const SECOND_ROW_Y: u8 = 45;
/// Capacity of a text that a widget edits.
pub const MAX_SIZE: usize = 32;
/// Milliseconds a scrolling text rests on each position.
pub const SCROLL_DELAY_MS: u64 = 200;
/// Width and height of a glyph of the 8x8 font.
pub const FONT_WIDTH: u8 = 8;

/// The visible part of a text that scrolls: `n` characters of the text
/// followed by four spaces and repeated, starting at position `start`.
pub open spec fn scroll_window(text: Seq<char>, start: nat, n: nat) -> Seq<char> {
    let looped = text + seq![' ', ' ', ' ', ' '];
    Seq::new(n, |k: int| looped[(start + k) % (looped.len() as int)])
}

/// Whether a text of `len` characters fits on a row `visible_width` pixels
/// wide with glyphs `char_width` pixels wide.
pub open spec fn fits(len: nat, visible_width: u8, char_width: u8) -> bool {
    len <= visible_width / char_width
}

/// The text to draw on a row and its horizontal position. A text that fits
/// is drawn whole, centred in the visible area that starts at `margin_left`.
/// A longer one is drawn from `margin_left` and scrolls, looped with four
/// spaces between its repeats: it moves by one
/// character every `scroll_delay_ms` of the tick count `ticks`, and the draw
/// flag is raised whenever it has moved since the last call (`last_slot`).
pub fn scroll_text(
    text: &Vec<char>,
    ticks: u32,
    last_slot: &mut u32,
    signal: &mut EventBits,
    margin_left: u8,
    visible_width: u8,
    char_width: u8,
    scroll_delay_ms: u64,
) -> (r: (Vec<char>, u8))
    requires
        char_width > 0,
        !fits(text@.len(), visible_width, char_width) ==> scroll_delay_ms > 0,
        text@.len() + 4 <= usize::MAX,
        fits(text@.len(), visible_width, char_width)
            ==> margin_left + (visible_width - text@.len() * char_width) / 2 <= u8::MAX,
    ensures
        fits(text@.len(), visible_width, char_width) ==> {
            &&& r.0@ == text@
            &&& r.1 == margin_left + (visible_width - text@.len() * char_width) / 2
            &&& *final(last_slot) == *old(last_slot)
            &&& *final(signal) == *old(signal)
        },
        !fits(text@.len(), visible_width, char_width) ==> {
            let slot = ticks as u64 / scroll_delay_ms;
            &&& r.0@ == scroll_window(text@, ((slot as nat) % (text@.len() + 4)) as nat, (visible_width / char_width) as nat)
            &&& r.1 == margin_left
            &&& *final(last_slot) == slot
            &&& *final(signal) == if *old(last_slot) != slot { *old(signal) | 0x0080_0000u32 } else { *old(signal) }
        },
{
    let text_len = text.len();
    let max_chars: usize = (visible_width / char_width) as usize;
    if text_len <= max_chars {
        assert(text_len * char_width <= visible_width) by (nonlinear_arith)
            requires
                text_len <= visible_width / char_width,
                char_width > 0;
        let text_width: u8 = (text_len as u8) * char_width;
        let x_pos: u8 = margin_left + (visible_width - text_width) / 2;
        let shown = text.clone();
        assert(shown@ =~= text@);
        (shown, x_pos)
    } else {
        let total_millis: u64 = ticks as u64;
        let slot_wide: u64 = total_millis / scroll_delay_ms;
        let scroll_slot: u32 = slot_wide as u32;
        assert(slot_wide <= u32::MAX) by (nonlinear_arith)
            requires
                slot_wide == total_millis / scroll_delay_ms,
                total_millis <= u32::MAX,
                scroll_delay_ms > 0;
        if *last_slot != scroll_slot {
            *signal = *signal | 0x0080_0000u32;
        }
        *last_slot = scroll_slot;
        let loop_len: usize = text_len + 4;
        let start: usize = (slot_wide % (loop_len as u64)) as usize;
        let ghost looped = text@ + seq![' ', ' ', ' ', ' '];
        let mut shown: Vec<char> = Vec::new();
        let mut k: usize = 0;
        while k < max_chars
            invariant
                0 <= k <= max_chars,
                max_chars <= 255,
                max_chars < text_len,
                text_len == text@.len(),
                start < loop_len,
                loop_len == text@.len() + 4,
                looped == text@ + seq![' ', ' ', ' ', ' '],
                shown@ =~= Seq::new(k as nat, |j: int| looped[(start + j) % (loop_len as int)]),
            decreases max_chars - k,
        {
            let rest: usize = loop_len - start;
            let pos: usize = if k < rest { start + k } else { k - rest };
            assert(pos == (start + k) % (loop_len as int)) by (nonlinear_arith)
                requires
                    start < loop_len,
                    k < loop_len,
                    rest == loop_len - start,
                    pos == if k < rest { start + k } else { k - rest };
            let c: char = if pos < text_len { text[pos] } else { ' ' };
            assert(c == looped[pos as int]);
            shown.push(c);
            k = k + 1;
            assert(shown@ =~= Seq::new(k as nat, |j: int| looped[(start + j) % (loop_len as int)]));
        }
        (shown, margin_left)
    }
}

/// A text drawn alone on the screen, on one row or on two.
#[derive(Debug)]
pub struct Text {}

impl Text {
    /// The text widget.
    pub fn new() -> (r: Text) {
        Text {}
    }

    /// The rows of `text`: the whole text when it holds no `|`, the parts
    /// before and after its `|` otherwise; `None` (a text the widget
    /// refuses) when it holds more than one `|`.
    pub fn draw(&self, text: &Vec<char>) -> (r: Option<(Vec<char>, Option<Vec<char>>)>)
        ensures
            match r {
                Some((first, None)) => first@ == text@ && !text@.contains('|'),
                Some((first, Some(second))) => text@ == first@ + seq!['|'] + second@
                    && !first@.contains('|') && !second@.contains('|'),
                None => exists|i: int, j: int| 0 <= i < j < text@.len() && text@[i] == '|' && text@[j] == '|',
            },
    {
        text_rows(text)
    }
}

/// The rows of a text drawn alone: the parts before and after its `|`.
/// `None` when it holds more than one `|`.
pub fn text_rows(text: &Vec<char>) -> (r: Option<(Vec<char>, Option<Vec<char>>)>)
    ensures
        match r {
            Some((first, None)) => first@ == text@ && !text@.contains('|'),
            Some((first, Some(second))) => text@ == first@ + seq!['|'] + second@
                && !first@.contains('|') && !second@.contains('|'),
            None => exists|i: int, j: int| 0 <= i < j < text@.len() && text@[i] == '|' && text@[j] == '|',
        },
{
    let mut first: Vec<char> = Vec::new();
    let mut i: usize = 0;
    while i < text.len() && text[i] != '|'
        invariant
            0 <= i <= text@.len(),
            first@ == text@.take(i as int),
            forall|k: int| 0 <= k < i ==> text@[k] != '|',
        decreases text.len() - i,
    {
        first.push(text[i]);
        i = i + 1;
        assert(first@ =~= text@.take(i as int));
    }
    if i == text.len() {
        assert(text@.take(i as int) =~= text@);
        return Some((first, None));
    }
    let bar: usize = i;
    let mut second: Vec<char> = Vec::new();
    i = i + 1;
    while i < text.len() && text[i] != '|'
        invariant
            bar < i <= text@.len(),
            text@[bar as int] == '|',
            second@ == text@.subrange(bar + 1, i as int),
            forall|k: int| bar < k < i ==> text@[k] != '|',
        decreases text.len() - i,
    {
        second.push(text[i]);
        i = i + 1;
        assert(second@ =~= text@.subrange(bar + 1, i as int));
    }
    if i == text.len() {
        assert(text@ =~= first@ + seq!['|'] + second@);
        assert(!first@.contains('|')) by {
            assert forall|k: int| 0 <= k < first@.len() implies first@[k] != '|' by {
                assert(first@[k] == text@[k]);
            }
        }
        assert(!second@.contains('|')) by {
            assert forall|k: int| 0 <= k < second@.len() implies second@[k] != '|' by {
                assert(second@[k] == text@[bar + 1 + k]);
            }
        }
        Some((first, Some(second)))
    } else {
        assert(text@[bar as int] == '|' && text@[i as int] == '|');
        None
    }
}

} // verus!
