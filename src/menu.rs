//! The menu: categories of runnable items, their configuration form, the
//! category color presets, and the flattened display order.
use crate::hex::{normalize_hex, normalize_hex_spec};
use crate::text::{eq_ignore_case_spec, to_owned};
use vstd::prelude::*;
use vstd::string::StringExecFns;

verus! {

/// The number of columns the menu can be laid out in.
pub const MAX_COLUMNS: u16 = 6;

/// A runnable entry of the menu.
pub struct MenuItem {
    pub label: String,
    pub cmd: String,
    pub info: String,
    pub pause: bool,
}

/// Optional colors of a category header.
pub struct ColorConfig {
    pub background: Option<String>,
    pub text: Option<String>,
}

impl ColorConfig {
    /// A copy with the same colors.
    pub fn copy(&self) -> (r: ColorConfig)
        ensures
            r == *self,
    {
        ColorConfig { background: clone_opt(&self.background), text: clone_opt(&self.text) }
    }
}

pub fn clone_opt(v: &Option<String>) -> (r: Option<String>)
    ensures
        r == *v,
{
    match v {
        Some(s) => {
            let c = s.clone();
            assert(c@ == s@);
            Some(c)
        },
        None => None,
    }
}

/// A category of the menu, with its items in insertion order.
pub struct CategoryState {
    pub name: String,
    pub expanded: bool,
    pub column: u16,
    pub colors: Option<ColorConfig>,
    pub items: Vec<MenuItem>,
}

/// An item as the configuration store keeps it.
pub struct MenuItemConfig {
    pub label: String,
    pub cmd: String,
    pub info: Option<String>,
    pub category: Option<String>,
    pub pause: Option<bool>,
}

/// A category as the configuration store keeps it; the name is its key.
pub struct CategoryConfig {
    pub expanded: bool,
    pub column: Option<u16>,
    pub items: Vec<MenuItemConfig>,
    pub colors: Option<ColorConfig>,
}

/// `value` clamped to `1..=MAX_COLUMNS`.
pub open spec fn clamp_column(value: int) -> u16 {
    if value < 1 {
        1
    } else if value > MAX_COLUMNS {
        MAX_COLUMNS
    } else {
        value as u16
    }
}

pub fn clamp_columns(value: u16) -> (r: u16)
    ensures
        r == clamp_column(value as int),
{
    if value < 1 {
        1
    } else if value > MAX_COLUMNS {
        MAX_COLUMNS
    } else {
        value
    }
}

impl MenuItem {
    /// The item from its stored form; a missing description reads
    /// `Item in <category>`, a missing pause flag is off.
    pub fn from_config(category: &str, cfg: &MenuItemConfig) -> (r: MenuItem)
        ensures
            r.label@ == cfg.label@,
            r.cmd@ == cfg.cmd@,
            r.info@ == match cfg.info {
                Some(i) => i@,
                None => "Item in "@ + category@,
            },
            r.pause == match cfg.pause {
                Some(p) => p,
                None => false,
            },
    {
        let info = match &cfg.info {
            Some(i) => i.clone(),
            None => {
                let mut s = String::from_str("Item in ");
                s.append(category);
                s
            },
        };
        MenuItem {
            label: cfg.label.clone(),
            cmd: cfg.cmd.clone(),
            info,
            pause: match cfg.pause {
                Some(p) => p,
                None => false,
            },
        }
    }
}

/// An item read from its stored form in category `category`.
pub open spec fn item_from_config(m: MenuItem, category: Seq<char>, cfg: MenuItemConfig) -> bool {
    &&& m.label@ == cfg.label@
    &&& m.cmd@ == cfg.cmd@
    &&& m.info@ == match cfg.info {
        Some(i) => i@,
        None => "Item in "@ + category,
    }
    &&& m.pause == match cfg.pause {
        Some(p) => p,
        None => false,
    }
}

impl CategoryState {
    /// The category from its stored form; the column defaults to 1 and is
    /// clamped to `1..=MAX_COLUMNS`.
    pub fn from_config(name: &str, cfg: &CategoryConfig) -> (r: CategoryState)
        ensures
            r.name@ == name@,
            r.expanded == cfg.expanded,
            r.column == clamp_column(
                match cfg.column {
                    Some(c) => c as int,
                    None => 1,
                },
            ),
            r.colors == cfg.colors,
            r.items@.len() == cfg.items@.len(),
            forall|k: int|
                0 <= k < r.items@.len() ==> item_from_config(#[trigger] r.items@[k], name@, cfg.items@[k]),
    {
        let column = clamp_columns(
            match cfg.column {
                Some(c) => c,
                None => 1,
            },
        );
        let mut items: Vec<MenuItem> = Vec::new();
        let mut k: usize = 0;
        while k < cfg.items.len()
            invariant
                k <= cfg.items@.len(),
                items@.len() == k,
                forall|t: int| 0 <= t < k ==> item_from_config(#[trigger] items@[t], name@, cfg.items@[t]),
            decreases cfg.items@.len() - k,
        {
            items.push(MenuItem::from_config(name, &cfg.items[k]));
            k = k + 1;
        }
        let colors = match &cfg.colors {
            Some(c) => Some(c.copy()),
            None => None,
        };
        CategoryState { name: to_owned(name), expanded: cfg.expanded, column, colors, items }
    }

    /// The stored form of the category; each item records its category.
    pub fn to_config(&self) -> (r: CategoryConfig)
        ensures
            r.expanded == self.expanded,
            r.column == Some(self.column),
            r.colors == self.colors,
            r.items@.len() == self.items@.len(),
            forall|k: int|
                0 <= k < r.items@.len() ==> {
                    let c = #[trigger] r.items@[k];
                    let i = self.items@[k];
                    &&& c.label@ == i.label@
                    &&& c.cmd@ == i.cmd@
                    &&& c.info is Some && c.info->Some_0@ == i.info@
                    &&& c.category is Some && c.category->Some_0@ == self.name@
                    &&& c.pause == Some(i.pause)
                },
    {
        let mut items: Vec<MenuItemConfig> = Vec::new();
        let mut k: usize = 0;
        while k < self.items.len()
            invariant
                k <= self.items@.len(),
                items@.len() == k,
                forall|t: int|
                    0 <= t < k ==> {
                        let c = #[trigger] items@[t];
                        let i = self.items@[t];
                        &&& c.label@ == i.label@
                        &&& c.cmd@ == i.cmd@
                        &&& c.info is Some && c.info->Some_0@ == i.info@
                        &&& c.category is Some && c.category->Some_0@ == self.name@
                        &&& c.pause == Some(i.pause)
                    },
            decreases self.items@.len() - k,
        {
            let item = &self.items[k];
            items.push(
                MenuItemConfig {
                    label: item.label.clone(),
                    cmd: item.cmd.clone(),
                    info: Some(item.info.clone()),
                    category: Some(self.name.clone()),
                    pause: Some(item.pause),
                },
            );
            k = k + 1;
        }
        let colors = match &self.colors {
            Some(c) => Some(c.copy()),
            None => None,
        };
        CategoryConfig { expanded: self.expanded, column: Some(self.column), items, colors }
    }
}

/// A named background/text pair that the user added for categories.
pub struct NamedColorPair {
    pub name: Option<String>,
    pub background: Option<String>,
    pub text: Option<String>,
}

/// A color pair offered for category headers: built in, or user-added with
/// the position of its pair in the user list.
pub struct ColorPreset {
    pub name: String,
    pub background: String,
    pub text: String,
    pub custom_index: Option<usize>,
}

impl ColorPreset {
    /// A built-in preset, its colors normalized.
    pub fn new(name: String, background: &str, text: &str) -> (r: ColorPreset)
        ensures
            r.name@ == name@,
            r.background@ == normalize_hex_spec(background@),
            r.text@ == normalize_hex_spec(text@),
            r.custom_index is None,
    {
        ColorPreset {
            name,
            background: normalize_hex(background),
            text: normalize_hex(text),
            custom_index: None,
        }
    }

    /// A user-added preset for pair `index`, its colors normalized.
    pub fn from_custom(name: String, background: &str, text: &str, index: usize) -> (r:
        ColorPreset)
        ensures
            r.name@ == name@,
            r.background@ == normalize_hex_spec(background@),
            r.text@ == normalize_hex_spec(text@),
            r.custom_index == Some(index),
    {
        ColorPreset {
            name,
            background: normalize_hex(background),
            text: normalize_hex(text),
            custom_index: Some(index),
        }
    }

    /// Whether the preset has these colors, once normalized, up to case.
    pub fn matches(&self, background: &str, text: &str) -> (r: bool)
        ensures
            r == (eq_ignore_case_spec(self.background@, normalize_hex_spec(background@))
                && eq_ignore_case_spec(self.text@, normalize_hex_spec(text@))),
    {
        let bg = normalize_hex(background);
        let txt = normalize_hex(text);
        crate::text::eq_ignore_ascii_case(self.background.as_str(), bg.as_str())
            && crate::text::eq_ignore_ascii_case(self.text.as_str(), txt.as_str())
    }
}

/// One row of the flattened menu.
#[derive(Clone, Copy, Debug, PartialEq, Eq, Structural)]
pub enum DisplayEntry {
    Category { category_index: usize },
    Item { category_index: usize, item_index: usize },
}

impl DisplayEntry {
    pub open spec fn category(self) -> int {
        match self {
            DisplayEntry::Category { category_index } => category_index as int,
            DisplayEntry::Item { category_index, .. } => category_index as int,
        }
    }
}

/// The rows of category `i`: its header, then its items when expanded.
pub open spec fn category_entries(cats: Seq<CategoryState>, i: int) -> Seq<DisplayEntry> {
    seq![DisplayEntry::Category { category_index: i as usize }] + if cats[i].expanded {
        Seq::new(
            cats[i].items@.len(),
            |j: int| DisplayEntry::Item { category_index: i as usize, item_index: j as usize },
        )
    } else {
        Seq::empty()
    }
}

/// The rows of the first `n` categories, in order.
pub open spec fn entries_upto(cats: Seq<CategoryState>, n: int) -> Seq<DisplayEntry>
    decreases n,
{
    if n <= 0 {
        Seq::empty()
    } else {
        entries_upto(cats, n - 1) + category_entries(cats, n - 1)
    }
}

/// The flattened menu.
pub open spec fn display_spec(cats: Seq<CategoryState>) -> Seq<DisplayEntry> {
    entries_upto(cats, cats.len() as int)
}

/// The column that a category with column number `column` lands in, out of
/// `count` columns.
pub open spec fn column_slot(column: u16, count: nat) -> nat {
    let c: int = if column >= 1 {
        column - 1
    } else {
        0
    };
    if count == 0 {
        0
    } else if c > count - 1 {
        (count - 1) as nat
    } else {
        c as nat
    }
}

/// The positions among the first `n` rows that lie in column `c`, in order.
pub open spec fn column_positions(
    cats: Seq<CategoryState>,
    entries: Seq<DisplayEntry>,
    count: nat,
    c: nat,
    n: int,
) -> Seq<usize>
    decreases n,
{
    if n <= 0 {
        Seq::empty()
    } else {
        let prev = column_positions(cats, entries, count, c, n - 1);
        if column_slot(cats[entries[n - 1].category()].column, count) == c {
            prev.push((n - 1) as usize)
        } else {
            prev
        }
    }
}

/// The order that categories are kept in: by column, then by name.
pub open spec fn name_le(a: Seq<char>, b: Seq<char>) -> bool
    decreases a.len(),
{
    if a.len() == 0 {
        true
    } else if b.len() == 0 {
        false
    } else if (a[0] as u32) < (b[0] as u32) {
        true
    } else if a[0] == b[0] {
        name_le(a.drop_first(), b.drop_first())
    } else {
        false
    }
}

pub open spec fn category_le(a: CategoryState, b: CategoryState) -> bool {
    a.column < b.column || (a.column == b.column && name_le(a.name@, b.name@))
}

pub open spec fn categories_sorted(cats: Seq<CategoryState>) -> bool {
    forall|i: int, j: int| 0 <= i < j < cats.len() ==> category_le(cats[i], cats[j])
}

/// Relies on `slice::sort_by_key`, a stable sort, keyed by column and then
/// by name; `String` orders by bytes, which for UTF-8 is the order of code
/// points.
#[verifier::external_body]
pub(crate) fn sort_categories(cats: &mut Vec<CategoryState>)
    ensures
        final(cats)@.to_multiset() == old(cats)@.to_multiset(),
        final(cats)@.len() == old(cats)@.len(),
        categories_sorted(final(cats)@),
{
    cats.sort_by_key(|c| (c.column, c.name.clone()))
}

/// Builds the flattened menu and its partition into `count` columns.
pub fn build_display(cats: &Vec<CategoryState>, count: u16) -> (r: (
    Vec<DisplayEntry>,
    Vec<Vec<usize>>,
))
    requires
        1 <= count,
        display_spec(cats@).len() <= usize::MAX,
    ensures
        r.0@ == display_spec(cats@),
        r.1@.len() == count,
        forall|c: int|
            0 <= c < count ==> #[trigger] r.1@[c]@ == column_positions(
                cats@,
                r.0@,
                count as nat,
                c as nat,
                r.0@.len() as int,
            ),
{
    let mut entries: Vec<DisplayEntry> = Vec::new();
    let ncats = cats.len();
    let mut i: usize = 0;
    while i < cats.len()
        invariant
            i <= cats@.len(),
            entries@ == entries_upto(cats@, i as int),
            display_spec(cats@).len() <= usize::MAX,
        decreases cats@.len() - i,
    {
        proof {
            lemma_entries_upto_prefix(cats@, i as int + 1, cats@.len() as int);
        }
        entries.push(DisplayEntry::Category { category_index: i });
        if cats[i].expanded {
            let n = cats[i].items.len();
            let mut j: usize = 0;
            while j < n
                invariant
                    i < cats@.len(),
                    n == cats@[i as int].items@.len(),
                    cats@[i as int].expanded,
                    j <= n,
                    entries@ == entries_upto(cats@, i as int) + seq![
                        DisplayEntry::Category { category_index: i },
                    ] + Seq::new(
                        j as nat,
                        |t: int| DisplayEntry::Item { category_index: i, item_index: t as usize },
                    ),
                    entries_upto(cats@, i as int + 1).len() <= usize::MAX,
                decreases n - j,
            {
                entries.push(DisplayEntry::Item { category_index: i, item_index: j });
                j = j + 1;
                assert(entries@ =~= entries_upto(cats@, i as int) + seq![
                    DisplayEntry::Category { category_index: i },
                ] + Seq::new(
                    j as nat,
                    |t: int| DisplayEntry::Item { category_index: i, item_index: t as usize },
                ));
            }
        }
        assert(entries@ =~= entries_upto(cats@, i as int + 1));
        i = i + 1;
    }
    let mut columns: Vec<Vec<usize>> = Vec::new();
    let mut c: usize = 0;
    while c < count as usize
        invariant
            c <= count,
            1 <= count,
            cats@.len() == ncats,
            columns@.len() == c,
            entries@ == display_spec(cats@),
            forall|d: int|
                0 <= d < c ==> #[trigger] columns@[d]@ == column_positions(
                    cats@,
                    entries@,
                    count as nat,
                    d as nat,
                    entries@.len() as int,
                ),
        decreases count - c,
    {
        let mut positions: Vec<usize> = Vec::new();
        let mut k: usize = 0;
        while k < entries.len()
            invariant
                k <= entries@.len(),
                1 <= count,
                c < count,
                cats@.len() == ncats,
                entries@ == display_spec(cats@),
                positions@ == column_positions(cats@, entries@, count as nat, c as nat, k as int),
            decreases entries@.len() - k,
        {
            proof {
                lemma_display_entry_in_range(cats@, k as int);
            }
            let cat_index = match entries[k] {
                DisplayEntry::Category { category_index } => category_index,
                DisplayEntry::Item { category_index, .. } => category_index,
            };
            let column = cats[cat_index].column;
            let slot: u16 = if column >= 1 {
                column - 1
            } else {
                0
            };
            let slot = if slot > count - 1 {
                count - 1
            } else {
                slot
            };
            if slot as usize == c {
                positions.push(k);
            }
            k = k + 1;
        }
        columns.push(positions);
        c = c + 1;
    }
    (entries, columns)
}

/// The rows of fewer categories are a prefix of the rows of more.
pub proof fn lemma_entries_upto_prefix(cats: Seq<CategoryState>, m: int, n: int)
    requires
        0 <= m <= n,
    ensures
        entries_upto(cats, m).len() <= entries_upto(cats, n).len(),
        forall|k: int|
            0 <= k < entries_upto(cats, m).len() ==> entries_upto(cats, m)[k] == entries_upto(
                cats,
                n,
            )[k],
    decreases n - m,
{
    if m < n {
        lemma_entries_upto_prefix(cats, m, n - 1);
    }
}

/// Each row names a category in range, and an item row names an item of it.
pub proof fn lemma_display_entry_in_range(cats: Seq<CategoryState>, k: int)
    requires
        0 <= k < display_spec(cats).len(),
        cats.len() <= usize::MAX,
        display_spec(cats).len() <= usize::MAX,
    ensures
        0 <= display_spec(cats)[k].category() < cats.len(),
        match display_spec(cats)[k] {
            DisplayEntry::Item { category_index, item_index } => item_index
                < cats[category_index as int].items@.len(),
            _ => true,
        },
{
    lemma_entries_shape(cats, cats.len() as int);
    assert(row_is_placed(cats, display_spec(cats), cats.len() as int, k));
}

/// What a row of the flattened menu says of its place: the category is
/// among the first `n`, and an item row for item `j` has its category's
/// header `j + 1` rows above it.
pub open spec fn row_is_placed(cats: Seq<CategoryState>, rows: Seq<DisplayEntry>, n: int, k: int) -> bool {
    let e = rows[k];
    &&& 0 <= e.category() < n
    &&& match e {
        DisplayEntry::Item { category_index, item_index } => {
            &&& item_index < cats[category_index as int].items@.len()
            &&& k >= item_index + 1
            &&& rows[k - item_index - 1] == DisplayEntry::Category { category_index }
        },
        DisplayEntry::Category { category_index } => true,
    }
}

proof fn lemma_tail_row(cats: Seq<CategoryState>, n: int, k: int)
    requires
        0 < n <= cats.len(),
        cats.len() <= usize::MAX,
        entries_upto(cats, n).len() <= usize::MAX,
        entries_upto(cats, n - 1).len() <= k < entries_upto(cats, n).len(),
    ensures
        row_is_placed(cats, entries_upto(cats, n), n, k),
{
    let prev = entries_upto(cats, n - 1);
    let cur = entries_upto(cats, n);
    let tail = category_entries(cats, n - 1);
    assert(cur == prev + tail);
    let m = k - prev.len();
    assert(cur[k] == tail[m]);
    assert(tail[0] == DisplayEntry::Category { category_index: (n - 1) as usize });
    assert(cur[prev.len() as int] == tail[0]);
    if m > 0 {
        if !cats[n - 1].expanded {
            assert(tail.len() == 1);
        }
        assert(tail[m] == DisplayEntry::Item {
            category_index: (n - 1) as usize,
            item_index: (m - 1) as usize,
        });
    }
}

proof fn lemma_head_row(cats: Seq<CategoryState>, n: int, k: int)
    requires
        0 < n <= cats.len(),
        0 <= k < entries_upto(cats, n - 1).len(),
        row_is_placed(cats, entries_upto(cats, n - 1), n - 1, k),
    ensures
        row_is_placed(cats, entries_upto(cats, n), n, k),
{
    let prev = entries_upto(cats, n - 1);
    let cur = entries_upto(cats, n);
    assert(cur == prev + category_entries(cats, n - 1));
    assert(cur[k] == prev[k]);
    match prev[k] {
        DisplayEntry::Item { category_index, item_index } => {
            assert(cur[k - item_index - 1] == prev[k - item_index - 1]);
        },
        _ => {},
    }
}

/// Every row of the first `n` categories is placed as `row_is_placed` says.
pub proof fn lemma_entries_shape(cats: Seq<CategoryState>, n: int)
    requires
        0 <= n <= cats.len(),
        cats.len() <= usize::MAX,
        display_spec(cats).len() <= usize::MAX,
    ensures
        forall|k: int|
            0 <= k < entries_upto(cats, n).len() ==> row_is_placed(cats, entries_upto(cats, n), n, k),
    decreases n,
{
    if n > 0 {
        lemma_entries_shape(cats, n - 1);
        lemma_entries_upto_prefix(cats, n, cats.len() as int);
        let prev = entries_upto(cats, n - 1);
        assert forall|k: int| 0 <= k < entries_upto(cats, n).len() implies row_is_placed(
            cats,
            entries_upto(cats, n),
            n,
            k,
        ) by {
            if k < prev.len() {
                lemma_head_row(cats, n, k);
            } else {
                lemma_tail_row(cats, n, k);
            }
        }
    }
}

/// The built-in category color presets.
pub fn default_color_presets() -> (r: Vec<ColorPreset>)
    ensures
        r@.len() == 5,
        forall|k: int| 0 <= k < 5 ==> (#[trigger] r@[k]).custom_index is None,
{
    let mut r: Vec<ColorPreset> = Vec::new();
    r.push(ColorPreset::new(String::from_str("Teal Glow"), "#034e68", "#caf0f8"));
    r.push(ColorPreset::new(String::from_str("Amber Pop"), "#6f1d1b", "#ffe5d9"));
    r.push(ColorPreset::new(String::from_str("Purple Mist"), "#240046", "#f8f9fa"));
    r.push(ColorPreset::new(String::from_str("Forest Tones"), "#283618", "#fefae0"));
    r.push(ColorPreset::new(String::from_str("Slate Shine"), "#2b2d42", "#edf2f4"));
    r
}

/// In the flattened menu every item row comes after its category's header:
/// an item row for item `j` has that header exactly `j + 1` rows above it,
/// and both lie in the category's column. Together with the order that
/// `sort_categories` establishes, headers follow the `(column, name)` order.
pub proof fn lemma_items_follow_headers(cats: Seq<CategoryState>, count: nat, k: int)
    requires
        cats.len() <= usize::MAX,
        display_spec(cats).len() <= usize::MAX,
        0 <= k < display_spec(cats).len(),
    ensures
        match display_spec(cats)[k] {
            DisplayEntry::Item { category_index, item_index } => {
                &&& k >= item_index + 1
                &&& display_spec(cats)[k - item_index - 1] == DisplayEntry::Category { category_index }
                &&& column_slot(cats[display_spec(cats)[k - item_index - 1].category()].column, count)
                    == column_slot(cats[display_spec(cats)[k].category()].column, count)
            },
            DisplayEntry::Category { .. } => true,
        },
{
    lemma_entries_shape(cats, cats.len() as int);
    assert(row_is_placed(cats, display_spec(cats), cats.len() as int, k));
}

/// The headers of the flattened menu appear in category order, so sorted
/// categories give headers in `(column, name)` order.
pub proof fn lemma_headers_in_order(cats: Seq<CategoryState>, a: int, b: int)
    requires
        categories_sorted(cats),
        cats.len() <= usize::MAX,
        display_spec(cats).len() <= usize::MAX,
        0 <= a < b < display_spec(cats).len(),
        display_spec(cats)[a] is Category,
        display_spec(cats)[b] is Category,
    ensures
        display_spec(cats)[a].category() < display_spec(cats)[b].category(),
        category_le(cats[display_spec(cats)[a].category()], cats[display_spec(cats)[b].category()]),
{
    lemma_header_positions(cats, cats.len() as int);
    lemma_display_entry_in_range(cats, a);
    lemma_display_entry_in_range(cats, b);
    let i = display_spec(cats)[a].category();
    let j = display_spec(cats)[b].category();
    assert(category_le(cats[i], cats[j]));
}

/// Header rows of earlier categories come before those of later ones.
proof fn lemma_header_positions(cats: Seq<CategoryState>, n: int)
    requires
        0 <= n <= cats.len(),
        cats.len() <= usize::MAX,
        display_spec(cats).len() <= usize::MAX,
    ensures
        forall|a: int, b: int|
            0 <= a < b < entries_upto(cats, n).len() && entries_upto(cats, n)[a] is Category
                && entries_upto(cats, n)[b] is Category ==> #[trigger] entries_upto(cats, n)[a].category()
                < #[trigger] entries_upto(cats, n)[b].category(),
    decreases n,
{
    if n > 0 {
        lemma_header_positions(cats, n - 1);
        lemma_entries_shape(cats, n - 1);
        lemma_entries_upto_prefix(cats, n, cats.len() as int);
        lemma_entries_upto_prefix(cats, n - 1, cats.len() as int);
        let prev = entries_upto(cats, n - 1);
        let cur = entries_upto(cats, n);
        let tail = category_entries(cats, n - 1);
        assert(cur == prev + tail);
        assert forall|a: int, b: int|
            0 <= a < b < cur.len() && cur[a] is Category && cur[b] is Category implies #[trigger] cur[a].category()
                < #[trigger] cur[b].category() by {
            if b < prev.len() {
                assert(cur[a] == prev[a]);
                assert(cur[b] == prev[b]);
            } else {
                let m = b - prev.len();
                assert(cur[b] == tail[m]);
                if m > 0 {
                    if !cats[n - 1].expanded {
                        assert(tail.len() == 1);
                    }
                    assert(tail[m] is Item);
                }
                assert(cur[b].category() == n - 1);
                if a < prev.len() {
                    assert(cur[a] == prev[a]);
                    assert(row_is_placed(cats, prev, n - 1, a));
                } else {
                    let ma = a - prev.len();
                    assert(ma < m);
                    assert(cur[a] == tail[ma]);
                    if ma > 0 {
                        assert(tail[ma] is Item);
                    }
                }
            }
        }
    }
}

/// The positions in column `c` are increasing, lie below `n`, lie in that
/// column, and include every such row.
pub proof fn lemma_column_positions(
    cats: Seq<CategoryState>,
    entries: Seq<DisplayEntry>,
    count: nat,
    c: nat,
    n: int,
)
    requires
        0 <= n <= entries.len(),
        n <= usize::MAX,
    ensures
        ({
            let cp = column_positions(cats, entries, count, c, n);
            &&& forall|q: int| 0 <= q < cp.len() ==> (cp[q] as int) < n && column_slot(
                cats[entries[cp[q] as int].category()].column,
                count,
            ) == c
            &&& forall|q1: int, q2: int| 0 <= q1 < q2 < cp.len() ==> cp[q1] < cp[q2]
            &&& forall|h: int|
                0 <= h < n && column_slot(cats[entries[h].category()].column, count) == c ==> exists|q: int|
                    0 <= q < cp.len() && cp[q] == h
        }),
    decreases n,
{
    if n > 0 {
        lemma_column_positions(cats, entries, count, c, n - 1);
        let prev = column_positions(cats, entries, count, c, n - 1);
        let cp = column_positions(cats, entries, count, c, n);
        if column_slot(cats[entries[n - 1].category()].column, count) == c {
            assert(cp == prev.push((n - 1) as usize));
            assert forall|h: int|
                0 <= h < n && column_slot(cats[entries[h].category()].column, count) == c implies exists|q: int|
                    0 <= q < cp.len() && cp[q] == h by {
                if h == n - 1 {
                    assert(cp[prev.len() as int] == h);
                } else {
                    let q = choose|q: int| 0 <= q < prev.len() && prev[q] == h;
                    assert(cp[q] == h);
                }
            }
        } else {
            assert(cp == prev);
        }
    }
}

/// In every column of the display, an item row has its category's header
/// at an earlier position of the same column.
pub proof fn lemma_column_headers_first(cats: Seq<CategoryState>, count: nat, c: nat, p: int)
    requires
        cats.len() <= usize::MAX,
        display_spec(cats).len() <= usize::MAX,
        0 <= p < column_positions(cats, display_spec(cats), count, c, display_spec(cats).len() as int).len(),
    ensures
        ({
            let e = display_spec(cats);
            let cp = column_positions(cats, e, count, c, e.len() as int);
            e[cp[p] as int] matches DisplayEntry::Item { category_index, .. } ==> exists|q: int|
                0 <= q < p && e[cp[q] as int] == DisplayEntry::Category { category_index }
        }),
{
    let e = display_spec(cats);
    let n = e.len() as int;
    let cp = column_positions(cats, e, count, c, n);
    lemma_column_positions(cats, e, count, c, n);
    let k = cp[p] as int;
    if let DisplayEntry::Item { category_index, item_index } = e[k] {
        lemma_items_follow_headers(cats, count, k);
        let h = k - item_index - 1;
        assert(e[h] == DisplayEntry::Category { category_index });
        assert(e[h].category() == e[k].category());
        let q = choose|q: int| 0 <= q < cp.len() && cp[q] == h;
        if q >= p {
            if q > p {
                assert(cp[p] < cp[q]);
            }
        }
        assert(q < p);
    }
}

} // verus!
