//! Placement of the text and cursor in the one-line fields of the new-pod
//! form.

use vstd::prelude::*;

verus! {

/// The terminal columns that unicode-width gives for a text.
pub uninterp spec fn display_width(s: Seq<char>) -> nat;

/// Relies on `unicode_width::UnicodeWidthStr::width`: the columns the text
/// takes in a terminal; empty text takes none.
#[verifier::external_body]
fn text_width(s: &str) -> (r: usize)
    ensures
        r as nat == display_width(s@),
        s@.len() == 0 ==> r == 0,
{
    unicode_width::UnicodeWidthStr::width(s)
}

/// The columns inside a field `box_width` wide, its two borders taken off.
pub open spec fn inner_width(box_width: u16) -> int {
    if box_width >= 2 { box_width - 2 } else { 0 }
}

/// How far a field scrolls so that text `width` columns wide ends in view,
/// at most the largest `u16`.
pub open spec fn scroll_for(width: nat, box_width: u16) -> u16 {
    if width >= inner_width(box_width) {
        if width - inner_width(box_width) <= u16::MAX { (width - inner_width(box_width)) as u16 } else { u16::MAX }
    } else {
        0
    }
}

/// The cursor's column inside a field: just after the text, held to the
/// inner width.
pub open spec fn cursor_for(width: nat, box_width: u16) -> u16 {
    if width + 1 >= inner_width(box_width) { inner_width(box_width) as u16 } else { (width + 1) as u16 }
}

/// The scroll offset and cursor column of a field `box_width` columns wide
/// (borders included) holding text `width` columns wide.
pub fn input_layout(width: usize, box_width: u16) -> (r: (u16, u16))
    ensures
        r == (scroll_for(width as nat, box_width), cursor_for(width as nat, box_width)),
{
    let inner: u16 = if box_width >= 2 { box_width - 2 } else { 0 };
    let w = width as u64;
    let scroll: u16 = if w >= inner as u64 {
        let over = w - inner as u64;
        if over <= u16::MAX as u64 { over as u16 } else { u16::MAX }
    } else {
        0
    };
    let cursor: u16 = if w >= inner as u64 { inner } else if w + 1 >= inner as u64 { inner } else { (w + 1) as u16 };
    (scroll, cursor)
}

/// The scroll offset and cursor column of a field `box_width` columns wide
/// holding `text`.
pub fn text_input_layout(text: &str, box_width: u16) -> (r: (u16, u16))
    ensures
        r == (scroll_for(display_width(text@), box_width), cursor_for(display_width(text@), box_width)),
{
    input_layout(text_width(text), box_width)
}

} // verus!
