//! The arithmetic and text of the main window: the "onion" of analysis layers,
//! its zoom and page label, and the rows of the file tree.
//!
//! Everything that draws is done by the user interface; it hands these
//! functions the sizes it measured and the localized texts it looked up.
use vstd::prelude::*;
use crate::icon_catalog::{for_path, icon_for_path};
use crate::text::{decimal, owned, push_char, push_str, starts_with, usize_text};

verus! {

/// The fewest rings the onion shows while there are layers.
pub const MIN_VISIBLE_LAYERS: usize = 2;

/// The most rings the onion shows.
pub const MAX_VISIBLE_LAYERS: usize = 10;

/// The side of the onion while nothing is right of the divider.
pub const DEFAULT_ONION_SIZE: i32 = 340;

/// The smallest side of the onion.
pub const MIN_ONION_SIZE: i32 = 260;

/// The largest side of the onion.
pub const MAX_ONION_SIZE: i32 = 560;

/// The side of the onion's core.
pub const ONION_CORE_SIZE: i32 = 84;

/// The width of a ring's number badge.
pub const ONION_LAYER_BADGE_WIDTH: i32 = 18;

/// The height of a ring's number badge.
pub const ONION_LAYER_BADGE_HEIGHT: i32 = 16;

/// The gap after each badge width when rings are counted.
pub const ONION_LAYER_BADGE_GAP: usize = 2;

/// The gap between the core and the innermost ring.
pub const ONION_CORE_RING_GAP: i32 = 34;

/// The state of one analysis layer.
#[derive(Debug, Clone, Copy, PartialEq, Eq, Structural)]
pub enum LayerState {
    Idle,
    Active,
    Done,
}

/// One ring of the onion.
#[derive(Debug, Clone)]
pub struct LayerSpec {
    pub number: usize,
    pub label: String,
    pub current_label: String,
    pub detail: String,
    pub state: LayerState,
}

// ---------------------------------------------------------------------------
// Tree rows.

/// The position of the first branch character (`├` or `└`) of a tree prefix,
/// or zero when there is none.
pub open spec fn connector_index(branch: Seq<char>) -> int
    decreases branch.len(),
{
    if branch.len() == 0 {
        0
    } else if branch[0] == '├' || branch[0] == '└' {
        0
    } else if branch.drop_first().contains('├') || branch.drop_first().contains('└') {
        1 + connector_index(branch.drop_first())
    } else {
        0
    }
}

/// The connector drawn for a tree prefix.
pub open spec fn connector_of(branch: Seq<char>) -> Seq<char> {
    if branch.contains('└') {
        "└─"@
    } else if branch.contains('├') {
        "├─"@
    } else {
        ""@
    }
}

/// The indentation depth (one level per four characters before the branch
/// character) and the connector of a tree prefix such as `│   ├──`.
pub fn tree_branch_parts(branch: &str) -> (r: (i32, &'static str))
    ensures
        r.0 == (connector_index(branch@) / 4) as i32,
        r.1@ == connector_of(branch@),
{
    let n = branch.unicode_len();
    let mut i: usize = 0;
    let mut found: Option<usize> = None;
    while i < n
        invariant
            n == branch@.len(),
            i <= n,
            found is None ==> forall|j: int| 0 <= j < i ==> branch@[j] != '├' && branch@[j] != '└',
            found matches Some(k) ==> k < i && (branch@[k as int] == '├' || branch@[k as int] == '└')
                && forall|j: int| 0 <= j < k ==> branch@[j] != '├' && branch@[j] != '└',
        decreases n - i,
    {
        let c = branch.get_char(i);
        if found.is_none() && (c == '├' || c == '└') {
            found = Some(i);
        }
        i = i + 1;
    }
    let index = match found {
        Some(k) => k,
        None => 0,
    };
    proof {
        lemma_connector_index(branch@, found);
    }
    let has_end = crate::text::str_contains_char(branch, '└');
    let has_mid = crate::text::str_contains_char(branch, '├');
    proof {
        reveal_strlit("└─");
        reveal_strlit("├─");
        reveal_strlit("");
    }
    let connector = if has_end {
        "└─"
    } else if has_mid {
        "├─"
    } else {
        ""
    };
    ((index / 4) as i32, connector)
}

proof fn lemma_connector_index(s: Seq<char>, found: Option<usize>)
    requires
        found is None ==> forall|j: int| 0 <= j < s.len() ==> s[j] != '├' && s[j] != '└',
        found matches Some(k) ==> k < s.len() && (s[k as int] == '├' || s[k as int] == '└') && forall|j: int|
            0 <= j < k ==> s[j] != '├' && s[j] != '└',
    ensures
        connector_index(s) == match found {
            Some(k) => k as int,
            None => 0,
        },
    decreases s.len(),
{
    if s.len() > 0 {
        match found {
            Some(k) => {
                if k > 0 {
                    let t = s.drop_first();
                    assert(t[k - 1] == s[k as int]);
                    assert(t.contains(s[k as int]));
                    lemma_connector_index(t, Some((k - 1) as usize));
                }
            },
            None => {
                let t = s.drop_first();
                assert(!t.contains('├') && !t.contains('└')) by {
                    if t.contains('├') {
                        let w = choose|w: int| 0 <= w < t.len() && t[w] == '├';
                        assert(s[w + 1] == '├');
                    }
                    if t.contains('└') {
                        let w = choose|w: int| 0 <= w < t.len() && t[w] == '└';
                        assert(s[w + 1] == '└');
                    }
                }
            },
        }
    }
}

/// One entry of the file tree panel: its tree prefix, the icon it falls back
/// to, and its name.
#[derive(Debug)]
pub struct TreeItem {
    pub branch: &'static str,
    pub icon: &'static str,
    pub name: String,
}

/// How a tree entry is drawn: the width of its indentation, its connector and
/// its icon.
#[derive(Debug, Clone, Copy, PartialEq, Eq)]
pub struct TreeRow {
    pub indent: i32,
    pub connector: &'static str,
    pub icon: &'static str,
}

/// The indentation width of a tree prefix: fourteen pixels per level.
pub open spec fn indent_for(branch: Seq<char>) -> int {
    (connector_index(branch) / 4) * 14
}

/// How a tree entry is drawn: indented fourteen pixels per level of its
/// prefix, with the prefix's connector and the icon of its name.
pub fn tree_row(item: &TreeItem) -> (r: TreeRow)
    requires
        indent_for(item.branch@) <= i32::MAX,
    ensures
        r.indent == indent_for(item.branch@),
        r.connector@ == connector_of(item.branch@),
        r.icon@ == icon_for_path(item.name@, item.icon@),
{
    let (depth, connector) = tree_branch_parts(item.branch);
    proof {
        assert(connector_index(item.branch@) >= 0) by {
            lemma_connector_index_bounds(item.branch@);
        }
        assert(connector_index(item.branch@) / 4 <= i32::MAX);
        assert(depth == connector_index(item.branch@) / 4);
    }
    let icon = for_path(item.name.as_str(), item.icon);
    TreeRow { indent: depth * 14, connector, icon }
}

proof fn lemma_connector_index_bounds(s: Seq<char>)
    ensures
        0 <= connector_index(s) <= s.len(),
    decreases s.len(),
{
    if s.len() > 0 {
        lemma_connector_index_bounds(s.drop_first());
    }
}

// ---------------------------------------------------------------------------
// The onion.

/// `v` cut into the range of an `i32`, as saturating arithmetic does.
pub open spec fn saturate_i32(v: int) -> i32 {
    if v < i32::MIN {
        i32::MIN
    } else if v > i32::MAX {
        i32::MAX
    } else {
        v as i32
    }
}

fn saturating_sub_i32(a: i32, b: i32) -> (r: i32)
    ensures
        r == saturate_i32(a - b),
{
    let d: i64 = a as i64 - b as i64;
    if d < i32::MIN as i64 {
        i32::MIN
    } else if d > i32::MAX as i64 {
        i32::MAX
    } else {
        d as i32
    }
}

/// `v` clamped to `[lo, hi]`.
pub open spec fn clamp_int(v: int, lo: int, hi: int) -> int {
    if v < lo {
        lo
    } else if v > hi {
        hi
    } else {
        v
    }
}

/// The side length of the onion for a split pane: the width right of the
/// divider less a margin of 64, or the default size when nothing is right of
/// it, kept within the minimum and maximum size.
pub open spec fn onion_size_for(paned_width: i32, position: i32) -> int {
    let right = saturate_i32(paned_width - position);
    let available = if right > 0 {
        saturate_i32(right - 64)
    } else {
        DEFAULT_ONION_SIZE
    };
    clamp_int(available as int, MIN_ONION_SIZE as int, MAX_ONION_SIZE as int)
}

/// The side length of the onion for a split pane of `paned_width` whose
/// divider stands at `position`.
pub fn onion_size(paned_width: i32, position: i32) -> (r: i32)
    ensures
        r == onion_size_for(paned_width, position),
        MIN_ONION_SIZE <= r <= MAX_ONION_SIZE,
{
    let right = saturating_sub_i32(paned_width, position);
    let available = if right > 0 {
        saturating_sub_i32(right, 64)
    } else {
        DEFAULT_ONION_SIZE
    };
    if available < MIN_ONION_SIZE {
        MIN_ONION_SIZE
    } else if available > MAX_ONION_SIZE {
        MAX_ONION_SIZE
    } else {
        available
    }
}

/// How many rings fit in an onion of the given size: one per badge width
/// (with its gap) of the room between the core and the edge, plus one, kept
/// within the visible minimum and maximum, and never more than there are.
pub open spec fn visible_layers_for(total: int, onion_size: int) -> int {
    if total == 0 {
        0
    } else {
        let min_ring_size = ONION_CORE_SIZE + ONION_CORE_RING_GAP * 2;
        let room = (onion_size - (44 + min_ring_size)) / 2;
        let by_size = room / (ONION_LAYER_BADGE_WIDTH + ONION_LAYER_BADGE_GAP) + 1;
        let clamped = clamp_int(by_size, MIN_VISIBLE_LAYERS as int, MAX_VISIBLE_LAYERS as int);
        if clamped <= total {
            clamped
        } else {
            total
        }
    }
}

/// How many of `total` layers an onion of `onion_size` shows.
pub fn visible_layer_count(total: usize, onion_size: i32) -> (r: usize)
    requires
        MIN_ONION_SIZE <= onion_size <= MAX_ONION_SIZE,
    ensures
        r == visible_layers_for(total as int, onion_size as int),
        r <= total,
        total > 0 ==> r >= 1,
{
    if total == 0 {
        return 0;
    }
    let min_ring_size = ONION_CORE_SIZE + ONION_CORE_RING_GAP * 2;
    let room = ((onion_size - (44 + min_ring_size)) as usize) / 2;
    let by_size = room / (ONION_LAYER_BADGE_WIDTH as usize + ONION_LAYER_BADGE_GAP) + 1;
    let clamped = if by_size < MIN_VISIBLE_LAYERS {
        MIN_VISIBLE_LAYERS
    } else if by_size > MAX_VISIBLE_LAYERS {
        MAX_VISIBLE_LAYERS
    } else {
        by_size
    };
    if clamped <= total {
        clamped
    } else {
        total
    }
}

/// The first layer of the last full page of `total` layers shown `visible`
/// at a time.
pub open spec fn last_page_offset(total: int, visible: int) -> int {
    if visible <= total { total - visible } else { 0 }
}

/// The first visible layer after zooming in from `offset`.
pub open spec fn zoom_in_for(offset: int, total: int, visible: int) -> int {
    if offset + 1 <= last_page_offset(total, visible) { offset + 1 } else { last_page_offset(total, visible) }
}

/// The first visible layer after zooming out from `offset`.
pub open spec fn zoom_out_for(offset: int) -> int {
    if offset > 0 { offset - 1 } else { 0 }
}

/// The first visible layer after zooming in: one further, but not past the
/// last full page.
pub fn zoom_in_offset(offset: usize, total: usize, visible: usize) -> (r: usize)
    requires
        offset < usize::MAX,
    ensures
        r == zoom_in_for(offset as int, total as int, visible as int),
{
    let last = total.saturating_sub(visible);
    if offset + 1 <= last {
        offset + 1
    } else {
        last
    }
}

/// The first visible layer after zooming out: one back, unless already at the first.
pub fn zoom_out_offset(offset: usize) -> (r: usize)
    ensures
        r == zoom_out_for(offset as int),
{
    if offset > 0 {
        offset - 1
    } else {
        0
    }
}

/// Zooming in and then out, or out and then in, comes back to the same first
/// layer whenever the first step moved the window.
pub proof fn lemma_zoom_round_trip(offset: int, total: int, visible: int)
    requires
        0 <= offset,
        0 <= visible,
    ensures
        zoom_in_for(offset, total, visible) != offset && offset <= last_page_offset(total, visible)
            ==> zoom_out_for(zoom_in_for(offset, total, visible)) == offset,
        zoom_out_for(offset) != offset && offset <= last_page_offset(total, visible)
            ==> zoom_in_for(zoom_out_for(offset), total, visible) == offset,
{
}

/// The visible window of layers and the state of the zoom controls.
#[derive(Debug)]
pub struct OnionViewport {
    /// The first visible layer.
    pub offset: usize,
    /// One past the last visible layer.
    pub end: usize,
    /// Whether zooming out is possible.
    pub zoom_out_enabled: bool,
    /// Whether zooming in is possible.
    pub zoom_in_enabled: bool,
    /// The page label: `first–last / total`, or a dash when there are no layers.
    pub page_label: String,
}

/// The page label for a window of layers.
pub open spec fn page_label_for(offset: nat, visible: nat, total: nat) -> Seq<char> {
    if total == 0 {
        "–"@
    } else {
        let last = if offset + visible <= total { offset + visible } else { total };
        decimal(offset + 1) + "–"@ + decimal(last) + " / "@ + decimal(total)
    }
}

/// The window that `total` layers show, `visible` at a time, from a requested
/// first layer: the first layer is kept within the last full page. As
/// [`visible_layer_count`] gives it, `visible` is at most `total` and not zero
/// while there are layers.
pub fn onion_viewport(total: usize, visible: usize, requested_offset: usize) -> (r: OnionViewport)
    requires
        visible <= total,
        total > 0 ==> visible > 0,
    ensures
        r.offset == (if requested_offset <= total - visible { requested_offset } else { (total - visible) as usize }),
        r.end == r.offset + visible,
        r.zoom_out_enabled == (r.offset > 0),
        r.zoom_in_enabled == (r.offset + visible < total),
        r.page_label@ == page_label_for(r.offset as nat, visible as nat, total as nat),
{
    let max_offset = total - visible;
    let offset = if requested_offset <= max_offset { requested_offset } else { max_offset };
    let end = offset + visible;
    let page_label = if total == 0 {
        owned("–")
    } else {
        let mut s = usize_text(offset + 1);
        push_str(&mut s, "–");
        let last = usize_text(end);
        push_str(&mut s, last.as_str());
        push_str(&mut s, " / ");
        let all = usize_text(total);
        push_str(&mut s, all.as_str());
        s
    };
    OnionViewport {
        offset,
        end,
        zoom_out_enabled: offset > 0,
        zoom_in_enabled: end < total,
        page_label,
    }
}

/// The zoom controls of a viewport are enabled exactly when the zoom step
/// would move the window, and the window always lies within the layers.
pub proof fn lemma_viewport_controls(total: int, visible: int, offset: int)
    requires
        0 <= visible <= total,
        0 <= offset <= total - visible,
    ensures
        (offset > 0) == (zoom_out_for(offset) != offset),
        (offset + visible < total) == (zoom_in_for(offset, total, visible) != offset),
        offset + visible <= total,
{
}

/// The style classes of a ring and of its number badge.
#[derive(Debug, Clone, Copy, PartialEq, Eq)]
pub struct RingClasses {
    pub ring: Option<&'static str>,
    pub badge: Option<&'static str>,
}

/// How a ring is marked: the active layer always, a finished layer only at
/// either edge of the shown window, any other ring not at all.
pub open spec fn ring_mark(state: LayerState, index: int, count: int) -> Option<LayerState> {
    match state {
        LayerState::Active => Some(LayerState::Active),
        LayerState::Done => if index == 0 || index + 1 == count {
            Some(LayerState::Done)
        } else {
            None
        },
        LayerState::Idle => None,
    }
}

/// The style classes of ring `index` of the `count` rings shown.
pub fn ring_classes(state: LayerState, index: usize, count: usize) -> (r: RingClasses)
    requires
        index < count,
    ensures
        ring_mark(state, index as int, count as int) == Some(LayerState::Active)
            ==> r.ring == Some("onion-layer-active") && r.badge == Some("onion-layer-number-active"),
        ring_mark(state, index as int, count as int) == Some(LayerState::Done)
            ==> r.ring == Some("onion-layer-done") && r.badge == Some("onion-layer-number-done"),
        ring_mark(state, index as int, count as int) is None ==> r.ring is None && r.badge is None,
{
    let edge = index == 0 || index + 1 == count;
    match state {
        LayerState::Active => RingClasses {
            ring: Some("onion-layer-active"),
            badge: Some("onion-layer-number-active"),
        },
        LayerState::Done => if edge {
            RingClasses { ring: Some("onion-layer-done"), badge: Some("onion-layer-number-done") }
        } else {
            RingClasses { ring: None, badge: None }
        },
        LayerState::Idle => RingClasses { ring: None, badge: None },
    }
}

// ---------------------------------------------------------------------------
// Layer texts.

/// `s` with every occurrence of `pat` replaced by `rep`, scanning from the
/// left without overlaps, as `str::replace` does.
pub open spec fn replace_all(s: Seq<char>, pat: Seq<char>, rep: Seq<char>) -> Seq<char>
    decreases s.len(),
{
    if s.len() == 0 || pat.len() == 0 {
        s
    } else if starts_with(s, pat) {
        rep + replace_all(s.skip(pat.len() as int), pat, rep)
    } else {
        seq![s[0]] + replace_all(s.skip(1), pat, rep)
    }
}

/// Whether `pat` stands in `s` at position `i`.
fn occurs_at(s: &str, pat: &str, i: usize, n: usize, m: usize) -> (r: bool)
    requires
        n == s@.len(),
        m == pat@.len(),
        i <= n,
    ensures
        r == starts_with(s@.skip(i as int), pat@),
{
    if m > n - i {
        return false;
    }
    let mut k: usize = 0;
    while k < m
        invariant
            n == s@.len(),
            m == pat@.len(),
            i + m <= n,
            k <= m,
            forall|j: int| 0 <= j < k ==> s@[i + j] == pat@[j],
        decreases m - k,
    {
        if s.get_char(i + k) != pat.get_char(k) {
            assert(s@.skip(i as int).subrange(0, m as int)[k as int] != pat@[k as int]);
            return false;
        }
        k = k + 1;
    }
    assert(s@.skip(i as int).subrange(0, m as int) =~= pat@);
    true
}

/// `template` with every `%d` replaced by the decimal number `n`, as the
/// window writes the localized layer texts.
pub fn fill_number(template: &str, n: usize) -> (r: String)
    ensures
        r@ == replace_all(template@, "%d"@, decimal(n as nat)),
{
    proof {
        reveal_strlit("%d");
    }
    let number = usize_text(n);
    let len = template.unicode_len();
    let mut out = String::new();
    let mut i: usize = 0;
    assert(template@.skip(0) =~= template@);
    while i < len
        invariant
            len == template@.len(),
            i <= len,
            "%d"@.len() == 2,
            number@ == decimal(n as nat),
            replace_all(template@, "%d"@, number@) == out@ + replace_all(template@.skip(i as int), "%d"@, number@),
        decreases len - i,
    {
        let ghost rest = template@.skip(i as int);
        if occurs_at(template, "%d", i, len, 2) {
            push_str(&mut out, number.as_str());
            assert(rest.skip(2) =~= template@.skip(i + 2));
            i = i + 2;
        } else {
            push_char(&mut out, template.get_char(i));
            assert(rest.skip(1) =~= template@.skip(i + 1));
            assert(seq![rest[0]] =~= seq![template@[i as int]]);
            i = i + 1;
        }
    }
    assert(template@.skip(len as int).len() == 0);
    assert(out@ + seq![] =~= out@);
    out
}

/// The text of layer `n`, from the localized form of `Layer %d`.
pub fn layer_label(template: &str, n: usize) -> (r: String)
    ensures
        r@ == replace_all(template@, "%d"@, decimal(n as nat)),
{
    fill_number(template, n)
}

/// The current-layer text of layer `n`, from the localized form of `Current layer: %d`.
pub fn current_layer_label(template: &str, n: usize) -> (r: String)
    ensures
        r@ == replace_all(template@, "%d"@, decimal(n as nat)),
{
    fill_number(template, n)
}

/// The detail text of layer `n`, from the localized form of `Layer %d in the analysis chain.`.
pub fn layer_detail(template: &str, n: usize) -> (r: String)
    ensures
        r@ == replace_all(template@, "%d"@, decimal(n as nat)),
{
    fill_number(template, n)
}

/// The localized texts that the layers are written from.
pub struct LayerTexts {
    /// The localized form of `Layer %d`.
    pub label: String,
    /// The localized form of `Current layer: %d`.
    pub current_label: String,
    /// The localized form of `Layer %d in the analysis chain.`.
    pub detail: String,
}

/// The state of layer `index` of `count`: the last one has the terminal
/// state, the first two are done, the rest idle.
pub open spec fn demo_state(index: int, count: int, terminal: LayerState) -> LayerState {
    if index + 1 == count {
        terminal
    } else if index < 2 {
        LayerState::Done
    } else {
        LayerState::Idle
    }
}

/// The demonstration layers that the window shows while it reads a file:
/// numbered from one; the last layer takes the terminal state and texts,
/// every other one the numbered texts.
pub fn demo_layers(
    count: usize,
    terminal_state: LayerState,
    terminal_label: String,
    current_label: String,
    detail: String,
    texts: &LayerTexts,
) -> (r: Vec<LayerSpec>)
    ensures
        r@.len() == count,
        forall|i: int| 0 <= i < count ==> {
            let l = #[trigger] r@[i];
            &&& l.number == i + 1
            &&& l.state == demo_state(i, count as int, terminal_state)
            &&& i + 1 == count ==> l.label@ == terminal_label@ && l.current_label@ == current_label@
                && l.detail@ == detail@
            &&& i + 1 != count ==> {
                &&& l.label@ == replace_all(texts.label@, "%d"@, decimal((i + 1) as nat))
                &&& l.current_label@ == replace_all(texts.current_label@, "%d"@, decimal((i + 1) as nat))
                &&& l.detail@ == replace_all(texts.detail@, "%d"@, decimal((i + 1) as nat))
            }
        },
{
    let mut layers: Vec<LayerSpec> = Vec::new();
    let mut index: usize = 0;
    while index < count
        invariant
            index <= count,
            layers@.len() == index,
            forall|i: int| 0 <= i < index ==> {
                let l = #[trigger] layers@[i];
                &&& l.number == i + 1
                &&& l.state == demo_state(i, count as int, terminal_state)
                &&& i + 1 == count ==> l.label@ == terminal_label@ && l.current_label@ == current_label@
                    && l.detail@ == detail@
                &&& i + 1 != count ==> {
                    &&& l.label@ == replace_all(texts.label@, "%d"@, decimal((i + 1) as nat))
                    &&& l.current_label@ == replace_all(texts.current_label@, "%d"@, decimal((i + 1) as nat))
                    &&& l.detail@ == replace_all(texts.detail@, "%d"@, decimal((i + 1) as nat))
                }
            },
        decreases count - index,
    {
        let number = index + 1;
        let state = if index + 1 == count {
            terminal_state
        } else if index < 2 {
            LayerState::Done
        } else {
            LayerState::Idle
        };
        let label = if index + 1 == count {
            terminal_label.clone()
        } else {
            layer_label(texts.label.as_str(), number)
        };
        let current = if index + 1 == count {
            current_label.clone()
        } else {
            current_layer_label(texts.current_label.as_str(), number)
        };
        let detail_text = if index + 1 == count {
            detail.clone()
        } else {
            layer_detail(texts.detail.as_str(), number)
        };
        layers.push(LayerSpec { number, label, current_label: current, detail: detail_text, state });
        index = index + 1;
    }
    layers
}

// ---------------------------------------------------------------------------
// The reading status.

/// The content of a [`TreeItem`]: its prefix, fallback icon and name.
pub open spec fn tree_item_view(t: TreeItem) -> (Seq<char>, Seq<char>, Seq<char>) {
    (t.branch@, t.icon@, t.name@)
}

/// The tree entry with the given prefix, fallback icon and name.
fn tree_item(branch: &'static str, icon: &'static str, name: &str) -> (r: TreeItem)
    ensures
        tree_item_view(r) == (branch@, icon@, name@),
{
    TreeItem { branch, icon, name: owned(name) }
}

/// The tree shown while there is no project: one notice, in its localized form.
pub fn empty_tree_items(no_project_yet: String) -> (r: Vec<TreeItem>)
    ensures
        r@.map_values(|t: TreeItem| tree_item_view(t)) == seq![(""@, "dialog-information-symbolic"@, no_project_yet@)],
{
    let mut r: Vec<TreeItem> = Vec::new();
    r.push(TreeItem { branch: "", icon: "dialog-information-symbolic", name: no_project_yet });
    assert(r@.map_values(|t: TreeItem| tree_item_view(t)) =~= seq![(""@, "dialog-information-symbolic"@, r@[0].name@)]);
    r
}

/// The tree shown while a file is read.
pub open spec fn spec_reading_tree() -> Seq<(Seq<char>, Seq<char>, Seq<char>)> {
    seq![("└──"@, "text-x-generic-symbolic"@, "/home/john/project/src/main.rs"@)]
}

/// The tree shown while a file is read.
pub fn reading_tree_items() -> (r: Vec<TreeItem>)
    ensures
        r@.map_values(|t: TreeItem| tree_item_view(t)) == spec_reading_tree(),
{
    let mut r: Vec<TreeItem> = Vec::new();
    r.push(tree_item("└──", "text-x-generic-symbolic", "/home/john/project/src/main.rs"));
    assert(r@.map_values(|t: TreeItem| tree_item_view(t)) =~= spec_reading_tree());
    r
}

/// The project tree shown once a file is read.
pub open spec fn spec_project_tree() -> Seq<(Seq<char>, Seq<char>, Seq<char>)> {
    seq![
        ("├──"@, "folder-symbolic"@, "builddir"@),
        ("│   ├──"@, "text-x-generic-symbolic"@, "build.ninja"@),
        ("│   ├──"@, "folder-symbolic"@, "cargo-home"@),
        ("│   │   └──"@, "folder-symbolic"@, "registry"@),
        ("│   │       └──"@, "text-x-generic-symbolic"@, "CACHEDIR.TAG"@),
        ("│   ├──"@, "text-x-generic-symbolic"@, "compile_commands.json"@),
        ("│   ├──"@, "folder-symbolic"@, "data"@),
        ("│   │   ├──"@, "folder-symbolic"@, "icons"@),
        ("│   │   ├──"@, "text-x-generic-symbolic"@, "io.github.johnpetersa.Drill.desktop"@),
        ("│   │   ├──"@, "text-x-generic-symbolic"@, "io.github.johnpetersa.Drill.metainfo.xml"@),
        ("│   │   └──"@, "text-x-generic-symbolic"@, "io.github.johnpetersa.Drill.service"@),
        ("│   ├──"@, "folder-symbolic"@, "meson-info"@),
        ("│   │   ├──"@, "text-x-generic-symbolic"@, "intro-benchmarks.json"@),
        ("│   │   ├──"@, "text-x-generic-symbolic"@, "intro-buildoptions.json"@),
        ("│   │   ├──"@, "text-x-generic-symbolic"@, "intro-buildsystem_files.json"@),
        ("│   │   ├──"@, "text-x-generic-symbolic"@, "intro-compilers.json"@),
        ("│   │   ├──"@, "text-x-generic-symbolic"@, "intro-dependencies.json"@),
        ("│   │   ├──"@, "text-x-generic-symbolic"@, "intro-installed.json"@),
        ("│   │   ├──"@, "text-x-generic-symbolic"@, "intro-install_plan.json"@),
        ("│   │   ├──"@, "text-x-generic-symbolic"@, "intro-machines.json"@),
        ("│   │   ├──"@, "text-x-generic-symbolic"@, "intro-projectinfo.json"@),
        ("│   │   ├──"@, "text-x-generic-symbolic"@, "intro-targets.json"@),
        ("│   │   ├──"@, "text-x-generic-symbolic"@, "intro-tests.json"@),
        ("│   │   └──"@, "text-x-generic-symbolic"@, "meson-info.json"@)
    ]
}

/// The project tree shown once a file is read.
pub fn project_tree_items() -> (r: Vec<TreeItem>)
    ensures
        r@.map_values(|t: TreeItem| tree_item_view(t)) == spec_project_tree(),
{
    let mut r: Vec<TreeItem> = Vec::new();
    r.push(tree_item("├──", "folder-symbolic", "builddir"));
    r.push(tree_item("│   ├──", "text-x-generic-symbolic", "build.ninja"));
    r.push(tree_item("│   ├──", "folder-symbolic", "cargo-home"));
    r.push(tree_item("│   │   └──", "folder-symbolic", "registry"));
    r.push(tree_item("│   │       └──", "text-x-generic-symbolic", "CACHEDIR.TAG"));
    r.push(tree_item("│   ├──", "text-x-generic-symbolic", "compile_commands.json"));
    r.push(tree_item("│   ├──", "folder-symbolic", "data"));
    r.push(tree_item("│   │   ├──", "folder-symbolic", "icons"));
    r.push(tree_item("│   │   ├──", "text-x-generic-symbolic", "io.github.johnpetersa.Drill.desktop"));
    r.push(tree_item("│   │   ├──", "text-x-generic-symbolic", "io.github.johnpetersa.Drill.metainfo.xml"));
    r.push(tree_item("│   │   └──", "text-x-generic-symbolic", "io.github.johnpetersa.Drill.service"));
    r.push(tree_item("│   ├──", "folder-symbolic", "meson-info"));
    r.push(tree_item("│   │   ├──", "text-x-generic-symbolic", "intro-benchmarks.json"));
    r.push(tree_item("│   │   ├──", "text-x-generic-symbolic", "intro-buildoptions.json"));
    r.push(tree_item("│   │   ├──", "text-x-generic-symbolic", "intro-buildsystem_files.json"));
    r.push(tree_item("│   │   ├──", "text-x-generic-symbolic", "intro-compilers.json"));
    r.push(tree_item("│   │   ├──", "text-x-generic-symbolic", "intro-dependencies.json"));
    r.push(tree_item("│   │   ├──", "text-x-generic-symbolic", "intro-installed.json"));
    r.push(tree_item("│   │   ├──", "text-x-generic-symbolic", "intro-install_plan.json"));
    r.push(tree_item("│   │   ├──", "text-x-generic-symbolic", "intro-machines.json"));
    r.push(tree_item("│   │   ├──", "text-x-generic-symbolic", "intro-projectinfo.json"));
    r.push(tree_item("│   │   ├──", "text-x-generic-symbolic", "intro-targets.json"));
    r.push(tree_item("│   │   ├──", "text-x-generic-symbolic", "intro-tests.json"));
    r.push(tree_item("│   │   └──", "text-x-generic-symbolic", "meson-info.json"));
    assert(r@.map_values(|t: TreeItem| tree_item_view(t)) =~= spec_project_tree());
    r
}


/// Where the reading of a file stands.
#[derive(Debug, Clone, Copy, PartialEq, Eq, Structural)]
pub enum ReadStatus {
    Idle,
    Reading,
    Done,
    Error,
}

/// Which tree the tree panel shows.
#[derive(Debug, Clone, Copy, PartialEq, Eq, Structural)]
pub enum TreeContent {
    /// [`empty_tree_items`], with the localized form of `No project tree yet.`.
    NoProject,
    /// [`reading_tree_items`].
    Reading,
    /// [`project_tree_items`].
    Project,
    /// The tree as it was.
    Unchanged,
}

/// What becomes of the onion layers.
#[derive(Debug, Clone, Copy, PartialEq, Eq)]
pub enum LayerPlan {
    /// No layers; the window back at the first layer and both zoom controls off.
    Reset,
    /// The [`demo_layers`] of `count` layers, the last one with the given
    /// state and the localized forms of the given texts.
    Demo {
        count: usize,
        terminal_state: LayerState,
        terminal_label: &'static str,
        current_label: &'static str,
        detail: &'static str,
    },
    /// The layers as they were.
    Unchanged,
}

/// What the window shows for a reading status. The texts are message ids,
/// to be localized before they are shown; the style classes replace those of
/// the status dot and of the onion core.
#[derive(Debug, Clone, Copy, PartialEq, Eq)]
pub struct ReadStatusView {
    pub dot_class: &'static str,
    pub core_class: Option<&'static str>,
    pub status: &'static str,
    pub summary: &'static str,
    pub current_layer: &'static str,
    pub layer_detail: &'static str,
    pub tree: TreeContent,
    pub layers: LayerPlan,
}

/// How many layers the finished reading shows: one per entry of the project
/// tree, and at least as many as the onion can show at once.
pub open spec fn done_layer_count() -> int {
    if spec_project_tree().len() > MAX_VISIBLE_LAYERS { spec_project_tree().len() as int } else { MAX_VISIBLE_LAYERS as int }
}

/// What the window shows for each reading status.
pub open spec fn read_status_view_for(status: ReadStatus) -> ReadStatusView {
    match status {
        ReadStatus::Idle => ReadStatusView {
            dot_class: "read-dot-idle",
            core_class: Some("onion-core-idle"),
            status: "Waiting for file",
            summary: "Waiting for analysis.",
            current_layer: "Current layer: waiting",
            layer_detail: "Select a layer to inspect it.",
            tree: TreeContent::NoProject,
            layers: LayerPlan::Reset,
        },
        ReadStatus::Reading => ReadStatusView {
            dot_class: "read-dot-reading",
            core_class: Some("onion-core-reading"),
            status: "Reading file...",
            summary: "Building the first tree level...",
            current_layer: "Current layer: file",
            layer_detail: "Layer 1: file under reading.",
            tree: TreeContent::Reading,
            layers: LayerPlan::Demo {
                count: 1,
                terminal_state: LayerState::Active,
                terminal_label: "Layer 1",
                current_label: "Current layer: file",
                detail: "Layer 1: file under reading.",
            },
        },
        ReadStatus::Done => ReadStatusView {
            dot_class: "read-dot-done",
            core_class: Some("onion-core-done"),
            status: "File read",
            summary: "Project tree ready: build files, generated metadata and resources.",
            current_layer: "Current layer: first level",
            layer_detail: "Layer 3: first data detected during reading.",
            tree: TreeContent::Project,
            layers: LayerPlan::Demo {
                count: done_layer_count() as usize,
                terminal_state: LayerState::Done,
                terminal_label: "Core",
                current_label: "Current layer: first level",
                detail: "Layer 3: first data detected during reading.",
            },
        },
        ReadStatus::Error => ReadStatusView {
            dot_class: "read-dot-error",
            core_class: None,
            status: "Error reading file",
            summary: "The project tree could not be generated.",
            current_layer: "Current layer: error",
            layer_detail: "The selected layer could not be read.",
            tree: TreeContent::Unchanged,
            layers: LayerPlan::Unchanged,
        },
    }
}

/// What the window shows for a reading status.
pub fn read_status_view(status: ReadStatus) -> (r: ReadStatusView)
    ensures
        r == read_status_view_for(status),
{
    match status {
        ReadStatus::Idle => ReadStatusView {
            dot_class: "read-dot-idle",
            core_class: Some("onion-core-idle"),
            status: "Waiting for file",
            summary: "Waiting for analysis.",
            current_layer: "Current layer: waiting",
            layer_detail: "Select a layer to inspect it.",
            tree: TreeContent::NoProject,
            layers: LayerPlan::Reset,
        },
        ReadStatus::Reading => ReadStatusView {
            dot_class: "read-dot-reading",
            core_class: Some("onion-core-reading"),
            status: "Reading file...",
            summary: "Building the first tree level...",
            current_layer: "Current layer: file",
            layer_detail: "Layer 1: file under reading.",
            tree: TreeContent::Reading,
            layers: LayerPlan::Demo {
                count: 1,
                terminal_state: LayerState::Active,
                terminal_label: "Layer 1",
                current_label: "Current layer: file",
                detail: "Layer 1: file under reading.",
            },
        },
        ReadStatus::Done => {
            let entries = project_tree_items().len();
            let count = if entries > MAX_VISIBLE_LAYERS { entries } else { MAX_VISIBLE_LAYERS };
            ReadStatusView {
                dot_class: "read-dot-done",
                core_class: Some("onion-core-done"),
                status: "File read",
                summary: "Project tree ready: build files, generated metadata and resources.",
                current_layer: "Current layer: first level",
                layer_detail: "Layer 3: first data detected during reading.",
                tree: TreeContent::Project,
                layers: LayerPlan::Demo {
                    count,
                    terminal_state: LayerState::Done,
                    terminal_label: "Core",
                    current_label: "Current layer: first level",
                    detail: "Layer 3: first data detected during reading.",
                },
            }
        },
        ReadStatus::Error => ReadStatusView {
            dot_class: "read-dot-error",
            core_class: None,
            status: "Error reading file",
            summary: "The project tree could not be generated.",
            current_layer: "Current layer: error",
            layer_detail: "The selected layer could not be read.",
            tree: TreeContent::Unchanged,
            layers: LayerPlan::Unchanged,
        },
    }
}

} // verus!
