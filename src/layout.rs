//! Screen geometry and hit-testing: which menu row, shortcut or form line a
//! click lands on.
use ratatui::layout::{Constraint, Direction, Layout, Rect};
use vstd::prelude::*;

verus! {

/// A rectangle of terminal cells.
#[derive(Clone, Copy, Debug, PartialEq, Eq, Structural)]
pub struct Area {
    pub x: u16,
    pub y: u16,
    pub width: u16,
    pub height: u16,
}

impl Area {
    /// The cell `(col, row)` lies inside the rectangle.
    pub open spec fn holds(self, col: u16, row: u16) -> bool {
        self.x <= col && (col as int) < self.x + self.width && self.y <= row && (row as int)
            < self.y + self.height
    }

    pub fn contains(&self, col: u16, row: u16) -> (r: bool)
        ensures
            r == self.holds(col, row),
    {
        self.x <= col && (col as u32) < self.x as u32 + self.width as u32 && self.y <= row && (
        row as u32) < self.y as u32 + self.height as u32
    }
}

pub open spec fn sat_add(a: u16, b: u16) -> u16 {
    if a + b > u16::MAX {
        u16::MAX
    } else {
        (a + b) as u16
    }
}

/// The rectangle shrunk by a margin on each side, or the empty rectangle at
/// the origin when the margin does not fit, as `Rect::inner` computes it.
pub open spec fn inner_spec(a: Area, horizontal: u16, vertical: u16) -> Area {
    let dh: int = if 2 * horizontal > u16::MAX {
        u16::MAX as int
    } else {
        2 * horizontal
    };
    let dv: int = if 2 * vertical > u16::MAX {
        u16::MAX as int
    } else {
        2 * vertical
    };
    if a.width < dh || a.height < dv {
        Area { x: 0, y: 0, width: 0, height: 0 }
    } else {
        Area {
            x: sat_add(a.x, horizontal),
            y: sat_add(a.y, vertical),
            width: (a.width - dh) as u16,
            height: (a.height - dv) as u16,
        }
    }
}

pub fn inner(a: Area, horizontal: u16, vertical: u16) -> (r: Area)
    ensures
        r == inner_spec(a, horizontal, vertical),
{
    let dh: u16 = if horizontal > 32767 {
        u16::MAX
    } else {
        2 * horizontal
    };
    let dv: u16 = if vertical > 32767 {
        u16::MAX
    } else {
        2 * vertical
    };
    if a.width < dh || a.height < dv {
        Area { x: 0, y: 0, width: 0, height: 0 }
    } else {
        Area {
            x: if a.x as u32 + horizontal as u32 > 65535 {
                u16::MAX
            } else {
                a.x + horizontal
            },
            y: if a.y as u32 + vertical as u32 > 65535 {
                u16::MAX
            } else {
                a.y + vertical
            },
            width: a.width - dh,
            height: a.height - dv,
        }
    }
}

/// A size rule for one part of a split, as ratatui's `Constraint` has it.
#[derive(Clone, Copy, Debug, PartialEq, Eq, Structural)]
pub enum SizeRule {
    Length(u16),
    Min(u16),
    Ratio(u32, u32),
}

/// Relies on ratatui's `Layout::split`: one area per rule. Where the rules
/// leave the solver more than one optimum, which one it picks is not fixed,
/// so nothing more is stated.
#[verifier::external_body]
fn split_area(area: Area, vertical: bool, rules: &Vec<SizeRule>) -> (r: Vec<Area>)
    ensures
        r@.len() == rules@.len(),
{
    let constraints: Vec<Constraint> = rules.iter().map(|rule| match *rule {
        SizeRule::Length(n) => Constraint::Length(n),
        SizeRule::Min(n) => Constraint::Min(n),
        SizeRule::Ratio(a, b) => Constraint::Ratio(a, b),
    }).collect();
    let direction = if vertical { Direction::Vertical } else { Direction::Horizontal };
    let parts = Layout::new(direction, constraints).split(Rect::new(area.x, area.y, area.width, area.height));
    parts.iter().map(|p| Area { x: p.x, y: p.y, width: p.width, height: p.height }).collect()
}

/// The title, footer, menu and status rows of the main screen (lengths 1,
/// 1, at least 1, and 1).
fn split_main(area: Area) -> (r: Vec<Area>)
    ensures
        r@.len() == 4,
{
    let mut rules: Vec<SizeRule> = Vec::new();
    rules.push(SizeRule::Length(1));
    rules.push(SizeRule::Length(1));
    rules.push(SizeRule::Min(1));
    rules.push(SizeRule::Length(1));
    split_area(area, true, &rules)
}

/// The heading, shortcut bar, content and spare rows of a form popup
/// (lengths 1, 1, at least 3, and 1).
fn split_popup(area: Area) -> (r: Vec<Area>)
    ensures
        r@.len() == 4,
{
    let mut rules: Vec<SizeRule> = Vec::new();
    rules.push(SizeRule::Length(1));
    rules.push(SizeRule::Length(1));
    rules.push(SizeRule::Min(3));
    rules.push(SizeRule::Length(1));
    split_area(area, true, &rules)
}

/// `count` equal columns of `area`.
fn split_columns(area: Area, count: u16) -> (r: Vec<Area>)
    ensures
        r@.len() == count,
{
    let mut rules: Vec<SizeRule> = Vec::new();
    let mut i: u16 = 0;
    while i < count
        invariant
            i <= count,
            rules@.len() == i,
        decreases count - i,
    {
        rules.push(SizeRule::Ratio(1, count as u32));
        i = i + 1;
    }
    split_area(area, false, &rules)
}

/// The geometry of one drawn frame, against which clicks are resolved: the
/// footer row, the menu area inside its border and its column chunks, and
/// a form popup's shortcut bar and content area inside its margin.
pub struct ScreenLayout {
    pub footer: Area,
    pub menu: Area,
    pub columns: Vec<Area>,
    pub popup_bar: Area,
    pub popup_content: Area,
}

/// The number of columns the menu is drawn in.
pub open spec fn drawn_columns(count: u16) -> nat {
    if count >= 1 {
        count as nat
    } else {
        1
    }
}

/// Lays out a terminal of size `terminal` for `column_count` columns, as
/// the frame is drawn.
pub fn screen_layout(terminal: Area, column_count: u16) -> (r: ScreenLayout)
    ensures
        r.columns@.len() == drawn_columns(column_count),
{
    let rows = split_main(terminal);
    let menu = inner(rows[2], 1, 1);
    let count = if column_count >= 1 {
        column_count
    } else {
        1
    };
    let columns = split_columns(menu, count);
    let popup = split_popup(terminal);
    ScreenLayout {
        footer: rows[1],
        menu,
        columns,
        popup_bar: popup[1],
        popup_content: inner(popup[2], 3, 1),
    }
}

/// The contents of each column of the partition.
pub open spec fn map_view(m: Seq<Vec<usize>>) -> Seq<Seq<usize>> {
    Seq::new(m.len(), |i: int| m[i]@)
}

/// The menu entry under the cell, searching the column chunks from `k` on:
/// the first chunk that holds the cell decides.
pub open spec fn scan_chunks(
    chunks: Seq<Area>,
    map: Seq<Seq<usize>>,
    col: u16,
    row: u16,
    k: int,
) -> Option<usize>
    decreases chunks.len() - k,
{
    if k < 0 || k >= chunks.len() {
        None
    } else if chunks[k].holds(col, row) {
        let line = row - chunks[k].y;
        if k >= map.len() || line >= map[k].len() {
            None
        } else {
            Some(map[k][line])
        }
    } else {
        scan_chunks(chunks, map, col, row, k + 1)
    }
}

/// The menu entry at a cell, given the menu area and its column chunks.
pub open spec fn entry_target_spec(map: Seq<Seq<usize>>, menu: Area, chunks: Seq<Area>, col: u16, row: u16) -> Option<usize> {
    if menu.width == 0 || menu.height == 0 || !menu.holds(col, row) {
        None
    } else {
        scan_chunks(chunks, map, col, row, 0)
    }
}

/// The display entry under a click at `(col, row)`, given the column
/// partition of the display list and the drawn menu area and columns.
pub fn entry_at_position(
    column_map: &Vec<Vec<usize>>,
    menu: Area,
    chunks: &Vec<Area>,
    col: u16,
    row: u16,
) -> (r: Option<usize>)
    ensures
        r == entry_target_spec(map_view(column_map@), menu, chunks@, col, row),
{
    if menu.width == 0 || menu.height == 0 || !menu.contains(col, row) {
        return None;
    }
    let ghost map = map_view(column_map@);
    let mut k: usize = 0;
    while k < chunks.len()
        invariant
            k <= chunks@.len(),
            map == map_view(column_map@),
            entry_target_spec(map, menu, chunks@, col, row) == scan_chunks(
                chunks@,
                map,
                col,
                row,
                0,
            ),
            scan_chunks(chunks@, map, col, row, 0) == scan_chunks(chunks@, map, col, row, k as int),
        decreases chunks@.len() - k,
    {
        let chunk = chunks[k];
        if chunk.contains(col, row) {
            if k >= column_map.len() {
                return None;
            }
            let line = (row - chunk.y) as usize;
            if line >= column_map[k].len() {
                return None;
            }
            return Some(column_map[k][line]);
        }
        k = k + 1;
    }
    None
}

/// A clickable span of a shortcut bar, in cells from the bar's start.
#[derive(Clone, Copy, Debug, PartialEq, Eq, Structural)]
pub struct Segment {
    pub start: u16,
    pub end: u16,
}

/// One shortcut of a bar: the separator before it, its key and its label.
pub struct BarEntry {
    pub gap: &'static str,
    pub key: &'static str,
    pub label: &'static str,
}

pub open spec fn entry_widths(e: BarEntry) -> (nat, nat, nat) {
    (e.gap@.len(), e.key@.len(), e.label@.len())
}

pub open spec fn sat_add_nat(a: u16, b: nat) -> u16 {
    if a + b > u16::MAX {
        u16::MAX
    } else {
        (a + b) as u16
    }
}

/// The spans of the first `n` entries of a bar and the width they take:
/// each entry starts right after the separator that follows the previous
/// one, and widths saturate at the largest `u16`.
pub open spec fn bar_layout(entries: Seq<(nat, nat, nat)>, n: int) -> (Seq<Segment>, u16)
    decreases n,
{
    if n <= 0 {
        (Seq::empty(), 0)
    } else {
        let (segs, cursor) = bar_layout(entries, n - 1);
        let start = sat_add_nat(cursor, entries[n - 1].0);
        let end = sat_add_nat(sat_add_nat(start, entries[n - 1].1), entries[n - 1].2);
        (segs.push(Segment { start, end }), end)
    }
}

pub open spec fn bar_widths(entries: Seq<BarEntry>) -> Seq<(nat, nat, nat)> {
    Seq::new(entries.len(), |i: int| entry_widths(entries[i]))
}

fn add_saturating(a: u16, b: usize) -> (r: u16)
    ensures
        r == sat_add_nat(a, b as nat),
{
    if b > 65535 || a as usize + b > 65535 {
        u16::MAX
    } else {
        (a as usize + b) as u16
    }
}

/// The clickable spans of a bar and its total width.
pub fn bar_segments(entries: &Vec<BarEntry>) -> (r: (Vec<Segment>, u16))
    ensures
        (r.0@, r.1) == bar_layout(bar_widths(entries@), entries@.len() as int),
{
    let mut segs: Vec<Segment> = Vec::new();
    let mut cursor: u16 = 0;
    let mut i: usize = 0;
    while i < entries.len()
        invariant
            i <= entries@.len(),
            (segs@, cursor) == bar_layout(bar_widths(entries@), i as int),
        decreases entries@.len() - i,
    {
        let e = &entries[i];
        let start = add_saturating(cursor, e.gap.unicode_len());
        let end = add_saturating(add_saturating(start, e.key.unicode_len()), e.label.unicode_len());
        segs.push(Segment { start, end });
        cursor = end;
        i = i + 1;
    }
    (segs, cursor)
}

/// The first span that holds `rel`, from span `k` on.
pub open spec fn span_from(segs: Seq<Segment>, rel: int, k: int) -> Option<usize>
    decreases segs.len() - k,
{
    if k < 0 || k >= segs.len() {
        None
    } else if segs[k].start <= rel < segs[k].end {
        Some(k as usize)
    } else {
        span_from(segs, rel, k + 1)
    }
}

/// The shortcut under column `col` of a bar drawn centered in `bar`.
pub open spec fn span_target_spec(bar: Area, total: u16, segs: Seq<Segment>, col: u16) -> Option<usize> {
    let text_width: int = if total < bar.width {
        total as int
    } else {
        bar.width as int
    };
    let start: int = if bar.width > text_width {
        bar.x + (bar.width - text_width) / 2
    } else {
        bar.x as int
    };
    if total == 0 || segs.len() == 0 || bar.width == 0 || col < start || col >= start + text_width {
        None
    } else {
        span_from(segs, col - start, 0)
    }
}

/// Resolves a click on a centered shortcut bar to the index of its span.
pub fn span_target(bar: Area, total: u16, segs: &Vec<Segment>, col: u16) -> (r: Option<usize>)
    ensures
        r == span_target_spec(bar, total, segs@, col),
{
    if total == 0 || segs.len() == 0 || bar.width == 0 {
        return None;
    }
    let text_width: u32 = if total < bar.width {
        total as u32
    } else {
        bar.width as u32
    };
    let start: u32 = if bar.width as u32 > text_width {
        bar.x as u32 + (bar.width as u32 - text_width) / 2
    } else {
        bar.x as u32
    };
    if (col as u32) < start || col as u32 >= start + text_width {
        return None;
    }
    let rel = col as u32 - start;
    assert(span_target_spec(bar, total, segs@, col) == span_from(segs@, rel as int, 0));
    let mut k: usize = 0;
    while k < segs.len()
        invariant
            k <= segs@.len(),
            span_target_spec(bar, total, segs@, col) == span_from(segs@, rel as int, 0),
            span_from(segs@, rel as int, 0) == span_from(segs@, rel as int, k as int),
        decreases segs@.len() - k,
    {
        if segs[k].start as u32 <= rel && rel < segs[k].end as u32 {
            return Some(k);
        }
        k = k + 1;
    }
    None
}

/// Resolving the same click against the same layout gives the same target,
/// for menu entries and for shortcut bars alike.
pub proof fn lemma_hit_test_repeatable(
    map: Seq<Seq<usize>>,
    menu: Area,
    chunks: Seq<Area>,
    col: u16,
    row: u16,
    bar: Area,
    total: u16,
    segs: Seq<Segment>,
    first: Option<usize>,
    second: Option<usize>,
    first_span: Option<usize>,
    second_span: Option<usize>,
)
    requires
        first == entry_target_spec(map, menu, chunks, col, row),
        second == entry_target_spec(map, menu, chunks, col, row),
        first_span == span_target_spec(bar, total, segs, col),
        second_span == span_target_spec(bar, total, segs, col),
    ensures
        first == second,
        first_span == second_span,
{
}

} // verus!
