//! Paging of server-side lists: the devices pager, the IPTV channel pager and
//! the activity log's "load more".

use vstd::prelude::*;
use crate::num::{fmt_int, push_i64};
use crate::text::{push_str, string_of};

verus! {

/// Where the previous and next buttons of an offset pager lead, and whether
/// they are enabled.
#[derive(Debug, Clone, Copy, PartialEq, Eq)]
pub struct OffsetPager {
    pub has_prev: bool,
    pub has_next: bool,
    pub prev_offset: i64,
    pub next_offset: i64,
}

/// The pager of a list shown from `offset`, `page_size` rows at a time, out of
/// `total` rows: back by one page (not below zero), forward by one page while
/// rows remain.
pub fn offset_pager(total: i64, offset: i64, page_size: i64) -> (p: OffsetPager)
    requires
        i64::MIN <= offset - page_size <= i64::MAX,
        i64::MIN <= offset + page_size <= i64::MAX,
    ensures
        p.has_prev == (offset > 0),
        p.has_next == (offset + page_size < total),
        p.prev_offset == if offset - page_size > 0 { offset - page_size } else { 0 },
        p.next_offset == offset + page_size,
{
    let back = offset - page_size;
    OffsetPager {
        has_prev: offset > 0,
        has_next: offset + page_size < total,
        prev_offset: if back > 0 {
            back
        } else {
            0
        },
        next_offset: offset + page_size,
    }
}

/// The range text under the devices list, e.g. `1–25 of 60`.
pub open spec fn range_label_spec(total: int, offset: int, page_size: int) -> Seq<char> {
    let end = if offset + page_size < total {
        offset + page_size
    } else {
        total
    };
    fmt_int(offset + 1) + "\u{2013}"@ + fmt_int(end) + " of "@ + fmt_int(total)
}

/// The range text under the devices list.
pub fn range_label(total: i64, offset: i64, page_size: i64) -> (s: String)
    requires
        i64::MIN <= offset + page_size <= i64::MAX,
        offset < i64::MAX,
    ensures
        s@ == range_label_spec(total as int, offset as int, page_size as int),
        s@ == fmt_int(offset + 1) + "\u{2013}"@ + fmt_int(
            vstd::math::min(offset + page_size, total as int),
        ) + " of "@ + fmt_int(total as int),
{
    let end = if offset + page_size < total {
        offset + page_size
    } else {
        total
    };
    let mut out: Vec<char> = Vec::new();
    push_i64(offset + 1, &mut out);
    push_str(&mut out, "\u{2013}");
    push_i64(end, &mut out);
    push_str(&mut out, " of ");
    push_i64(total, &mut out);
    string_of(&out)
}

/// Channels per page of the IPTV channel editor.
pub const CHANNEL_PAGE_SIZE: u32 = 50;

/// The number of channel pages, as `total.div_ceil(50) as u32` computes it
/// (the `as` keeping the low 32 bits).
pub open spec fn channel_page_count_spec(total: nat) -> nat {
    ((total + 49) / 50) % 0x1_0000_0000
}

/// The number of channel pages for `total` channels.
pub fn channel_page_count(total: usize) -> (n: u32)
    ensures
        n == channel_page_count_spec(total as nat),
{
    let pages: usize = total / 50 + if total % 50 == 0 {
        0
    } else {
        1
    };
    assert(pages == (total + 49) / 50);
    (pages as u64 % 0x1_0000_0000) as u32
}

/// The offset of the first channel of a page.
pub fn channel_offset(page: u32) -> (o: u32)
    requires
        page * 50 <= u32::MAX,
    ensures
        o == page * 50,
{
    page * CHANNEL_PAGE_SIZE
}

/// The state of the channel pager: shown only with more than one page;
/// previous disabled on the first page, next on the last.
#[derive(Debug, Clone, Copy, PartialEq, Eq)]
pub struct ChannelPager {
    pub visible: bool,
    pub prev_enabled: bool,
    pub next_enabled: bool,
    pub prev_page: u32,
    pub next_page: u32,
}

/// The pager of the channel editor on `page` (zero-based) of `pages`.
pub fn channel_pager(page: u32, pages: u32) -> (p: ChannelPager)
    requires
        page < u32::MAX,
    ensures
        p.visible == (pages > 1),
        p.prev_enabled == (page != 0),
        p.next_enabled == (page + 1 < pages),
        p.prev_page == if page > 0 { page - 1 } else { 0 },
        p.next_page == page + 1,
{
    ChannelPager {
        visible: pages > 1,
        prev_enabled: page != 0,
        next_enabled: page + 1 < pages,
        prev_page: if page > 0 {
            page - 1
        } else {
            0
        },
        next_page: page + 1,
    }
}

/// The channel pager's caption, `Page {n} of {pages}`.
pub fn channel_page_label(page: u32, pages: u32) -> (s: String)
    ensures
        s@ == "Page "@ + fmt_int(page + 1) + " of "@ + fmt_int(pages as int),
{
    let mut out: Vec<char> = Vec::new();
    push_str(&mut out, "Page ");
    push_i64(page as i64 + 1, &mut out);
    push_str(&mut out, " of ");
    push_i64(pages as i64, &mut out);
    string_of(&out)
}

/// Whether the activity log offers "load more": fewer entries loaded than
/// the server reports in total.
pub fn activity_has_more(loaded: usize, total: i64) -> (b: bool)
    ensures
        b == ((loaded as i64) < total),
{
    (loaded as i64) < total
}

/// The range label names the first row shown (one past the offset), the
/// last row shown — a full page on from the offset, but never past the
/// total — and the total.
pub proof fn law_range_label_rows(total: int, offset: int, page_size: int)
    ensures
        range_label_spec(total, offset, page_size) == fmt_int(offset + 1) + "\u{2013}"@ + fmt_int(
            vstd::math::min(offset + page_size, total),
        ) + " of "@ + fmt_int(total),
        offset + page_size <= total ==> range_label_spec(total, offset, page_size) == fmt_int(
            offset + 1,
        ) + "\u{2013}"@ + fmt_int(offset + page_size) + " of "@ + fmt_int(total),
        total <= offset + page_size ==> range_label_spec(total, offset, page_size) == fmt_int(
            offset + 1,
        ) + "\u{2013}"@ + fmt_int(total) + " of "@ + fmt_int(total),
{
}

} // verus!
