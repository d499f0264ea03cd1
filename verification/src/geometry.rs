//! Screen geometry for the candidate window: validating caret rectangles the
//! host reports, carving the touch keyboard out of the work area, placing the
//! popup, and mapping clicks on the panel.
use vstd::prelude::*;

verus! {

/// A rectangle in screen coordinates; `right` and `bottom` are exclusive.
#[derive(Clone, Copy, Debug, PartialEq, Eq, Structural)]
pub struct Rect {
    pub left: i32,
    pub top: i32,
    pub right: i32,
    pub bottom: i32,
}

/// A point in screen coordinates.
#[derive(Clone, Copy, Debug, PartialEq, Eq, Structural)]
pub struct Point {
    pub x: i32,
    pub y: i32,
}

/// The caret rectangle an accessibility provider reports, if it is usable:
/// the call confirmed it, the extent is sane and does not overflow, and it
/// lies inside the virtual screen. Zero-width carets and negative
/// coordinates on secondary monitors are kept.
pub open spec fn spec_location(screen: Rect, confirmed: bool, left: i32, top: i32, width: i32, height: i32) -> Option<Rect> {
    if !confirmed || width < 0 || height <= 0 || screen.right <= screen.left || screen.bottom <= screen.top
        || left + width > i32::MAX || top + height > i32::MAX {
        None
    } else {
        let rect = Rect { left, top, right: (left + width) as i32, bottom: (top + height) as i32 };
        if rect.left >= screen.left && rect.top >= screen.top && rect.right <= screen.right
            && rect.bottom <= screen.bottom {
            Some(rect)
        } else {
            None
        }
    }
}

/// `confirmed` is whether the location call returned `S_OK`.
pub fn location_from_query(screen: &Rect, confirmed: bool, left: i32, top: i32, width: i32, height: i32) -> (r: Option<Rect>)
    ensures
        r == spec_location(*screen, confirmed, left, top, width, height),
{
    if !confirmed || width < 0 || height <= 0 || screen.right <= screen.left || screen.bottom <= screen.top {
        return None;
    }
    let right = match left.checked_add(width) {
        Some(v) => v,
        None => return None,
    };
    let bottom = match top.checked_add(height) {
        Some(v) => v,
        None => return None,
    };
    let rect = Rect { left, top, right, bottom };
    if rect.left >= screen.left && rect.top >= screen.top && rect.right <= screen.right
        && rect.bottom <= screen.bottom {
        Some(rect)
    } else {
        None
    }
}

/// The virtual screen from its metrics: a positive size that does not overflow.
pub fn virtual_screen_from_metrics(left: i32, top: i32, width: i32, height: i32) -> (r: Option<Rect>)
    ensures
        r == (if width <= 0 || height <= 0 || left + width > i32::MAX || top + height > i32::MAX {
            None
        } else {
            Some(Rect { left, top, right: (left + width) as i32, bottom: (top + height) as i32 })
        }),
{
    if width <= 0 || height <= 0 {
        return None;
    }
    let right = match left.checked_add(width) {
        Some(v) => v,
        None => return None,
    };
    let bottom = match top.checked_add(height) {
        Some(v) => v,
        None => return None,
    };
    Some(Rect { left, top, right, bottom })
}

/// A usable location always lies inside the screen and keeps its extent.
pub proof fn lemma_location_inside_screen(screen: Rect, confirmed: bool, left: i32, top: i32, width: i32, height: i32)
    ensures
        spec_location(screen, confirmed, left, top, width, height) matches Some(r) ==> {
            &&& confirmed
            &&& screen.left <= r.left && r.right <= screen.right
            &&& screen.top <= r.top && r.bottom <= screen.bottom
            &&& r.left <= r.right && r.top < r.bottom
            &&& r.right - r.left == width && r.bottom - r.top == height
        },
{
}

/// Marks that a caret query is running on this thread; a query that re-enters
/// from a callback of the host is refused.
#[derive(Debug)]
pub struct QueryGate {
    active: bool,
}

/// Held while a caret query runs; the query ends with `leave`.
#[must_use]
#[derive(Debug)]
pub struct QueryGuard {
    _private: (),
}

impl QueryGate {
    pub closed spec fn spec_active(self) -> bool {
        self.active
    }

    pub fn new() -> (gate: Self)
        ensures
            !gate.spec_active(),
    {
        QueryGate { active: false }
    }
}

impl QueryGuard {
    /// Start a query, unless one is already running.
    pub fn enter(gate: &mut QueryGate) -> (guard: Option<Self>)
        ensures
            final(gate).spec_active(),
            guard is Some <==> !old(gate).spec_active(),
    {
        if gate.active {
            None
        } else {
            gate.active = true;
            Some(QueryGuard { _private: () })
        }
    }

    /// The query returned.
    pub fn leave(self, gate: &mut QueryGate)
        ensures
            !final(gate).spec_active(),
    {
        gate.active = false;
    }
}

/// Whether a caret position lies on the given monitor, edges included.
pub fn caret_is_inside_monitor(x: i32, y: i32, monitor: &Rect) -> (b: bool)
    ensures
        b == (x >= monitor.left && x <= monitor.right && y >= monitor.top && y <= monitor.bottom),
{
    x >= monitor.left && x <= monitor.right && y >= monitor.top && y <= monitor.bottom
}

/// Which character next to the caret a text extent describes.
#[derive(Clone, Copy, Debug, PartialEq, Eq, Structural)]
pub enum AdjacentChar {
    Before,
    After,
}

impl AdjacentChar {
    /// The caret sits at the trailing edge of the character before it and at
    /// the leading edge of the character after it, on the baseline.
    pub fn caret_position(self, rect: &Rect) -> (pos: (i32, i32))
        ensures
            pos == (match self {
                AdjacentChar::Before => (rect.right, rect.bottom),
                AdjacentChar::After => (rect.left, rect.bottom),
            }),
    {
        let x = match self {
            AdjacentChar::Before => rect.right,
            AdjacentChar::After => rect.left,
        };
        (x, rect.bottom)
    }
}

/// Where the last caret position came from.
#[derive(Clone, Copy, Debug, PartialEq, Eq, Structural)]
pub enum CaretSource {
    Probe,
    Cache,
    System,
}

/// Only a fresh probe makes another caret probe unnecessary.
pub fn should_arm_caret_reprobe(source: Option<CaretSource>) -> (b: bool)
    ensures
        b == (source != Some(CaretSource::Probe)),
{
    match source {
        Some(CaretSource::Probe) => false,
        _ => true,
    }
}

/// The work area without a bottom-docked touch keyboard that overlaps it.
pub open spec fn spec_subtract_touch_keyboard(work: Rect, pane: Rect) -> Rect {
    let overlaps_horizontally = pane.left < work.right && pane.right > work.left;
    let overlaps_vertically = pane.top < work.bottom && pane.bottom > work.top;
    if !overlaps_horizontally || !overlaps_vertically || pane.top <= work.top {
        work
    } else {
        Rect { bottom: pane.top, ..work }
    }
}

pub fn subtract_touch_keyboard(work: Rect, pane: Rect) -> (r: Rect)
    ensures
        r == spec_subtract_touch_keyboard(work, pane),
{
    let overlaps_horizontally = pane.left < work.right && pane.right > work.left;
    let overlaps_vertically = pane.top < work.bottom && pane.bottom > work.top;
    if !overlaps_horizontally || !overlaps_vertically || pane.top <= work.top {
        return work;
    }
    Rect { bottom: pane.top, ..work }
}

/// Carving never grows the work area, and what is left never reaches into a
/// keyboard that was carved out.
pub proof fn lemma_carved_area_stays_inside(work: Rect, pane: Rect)
    requires
        work.top <= work.bottom,
    ensures
        spec_subtract_touch_keyboard(work, pane).left == work.left,
        spec_subtract_touch_keyboard(work, pane).right == work.right,
        spec_subtract_touch_keyboard(work, pane).top == work.top,
        work.top < spec_subtract_touch_keyboard(work, pane).bottom <= work.bottom
            || spec_subtract_touch_keyboard(work, pane) == work,
        spec_subtract_touch_keyboard(work, pane) != work ==> spec_subtract_touch_keyboard(work, pane).bottom == pane.top,
{
}

pub open spec fn clamp_int(v: int, lo: int, hi: int) -> int {
    if v < lo { lo } else if v > hi { hi } else { v }
}

pub open spec fn max_int(a: int, b: int) -> int {
    if a > b { a } else { b }
}

/// Where the popup goes: below the caret when it fits, above it otherwise,
/// kept inside the work area as far as its size allows.
pub open spec fn spec_popup_position(work: Rect, caret_x: i32, caret_y: i32, width: u32, height: u32, gap: i32) -> Point {
    let max_x = max_int(work.right - width, work.left as int);
    let below = caret_y + gap;
    let above = caret_y - height - gap;
    let wanted = if below + height <= work.bottom { below } else { above };
    Point {
        x: clamp_int(caret_x as int, work.left as int, max_x) as i32,
        y: clamp_int(wanted, work.top as int, max_int(work.bottom - height, work.top as int)) as i32,
    }
}

pub fn popup_position_in(work: Rect, caret_x: i32, caret_y: i32, width: u32, height: u32, gap: i32) -> (p: Point)
    requires
        width <= i32::MAX,
        height <= i32::MAX,
        i32::MIN <= work.right - width,
        i32::MIN <= work.bottom - height,
        i32::MIN <= caret_y + gap <= i32::MAX,
        i32::MIN <= caret_y - height,
        i32::MIN <= caret_y - height - gap <= i32::MAX,
        caret_y + gap + height <= i32::MAX,
    ensures
        p == spec_popup_position(work, caret_x, caret_y, width, height, gap),
{
    let w = width as i32;
    let h = height as i32;
    let max_x = if work.right - w > work.left { work.right - w } else { work.left };
    let x = if caret_x < work.left { work.left } else if caret_x > max_x { max_x } else { caret_x };
    let below = caret_y + gap;
    let above = caret_y - h - gap;
    let wanted = if below + h <= work.bottom { below } else { above };
    let max_y = if work.bottom - h > work.top { work.bottom - h } else { work.top };
    let y = if wanted < work.top { work.top } else if wanted > max_y { max_y } else { wanted };
    Point { x, y }
}

/// A popup that fits inside the work area is placed entirely inside it.
pub proof fn lemma_popup_fits_inside(work: Rect, caret_x: i32, caret_y: i32, width: u32, height: u32, gap: i32)
    requires
        work.left + width <= work.right,
        work.top + height <= work.bottom,
    ensures
        work.left <= spec_popup_position(work, caret_x, caret_y, width, height, gap).x,
        spec_popup_position(work, caret_x, caret_y, width, height, gap).x + width <= work.right,
        work.top <= spec_popup_position(work, caret_x, caret_y, width, height, gap).y,
        spec_popup_position(work, caret_x, caret_y, width, height, gap).y + height <= work.bottom,
{
}

/// When the popup fits between the caret line and the bottom of the work
/// area it goes right below the caret, `gap` under it.
pub proof fn lemma_popup_below_when_it_fits(work: Rect, caret_x: i32, caret_y: i32, width: u32, height: u32, gap: i32)
    requires
        work.top <= caret_y + gap,
        caret_y + gap + height <= work.bottom,
    ensures
        spec_popup_position(work, caret_x, caret_y, width, height, gap).y == caret_y + gap,
{
}

/// When it does not fit below but fits above (inside the work area), it goes
/// right above the caret, `gap` over it.
pub proof fn lemma_popup_above_when_below_overflows(work: Rect, caret_x: i32, caret_y: i32, width: u32, height: u32, gap: i32)
    requires
        caret_y + gap + height > work.bottom,
        work.top <= caret_y - height - gap,
        caret_y - gap <= work.bottom,
    ensures
        spec_popup_position(work, caret_x, caret_y, width, height, gap).y == caret_y - height - gap,
{
}

/// A caret whose popup fits horizontally at its own column keeps that column.
pub proof fn lemma_popup_follows_the_caret_column(work: Rect, caret_x: i32, caret_y: i32, width: u32, height: u32, gap: i32)
    requires
        work.left <= caret_x,
        caret_x + width <= work.right,
    ensures
        spec_popup_position(work, caret_x, caret_y, width, height, gap).x == caret_x,
{
}

/// A rectangle of the panel, relative to the panel window.
#[derive(Clone, Copy, Debug, PartialEq, Eq, Structural)]
pub struct PanelRect {
    pub x: i32,
    pub y: i32,
    pub width: i32,
    pub height: i32,
}

impl PanelRect {
    pub open spec fn spec_contains(self, px: i32, py: i32) -> bool {
        self.x <= px && px < self.x + self.width && self.y <= py && py < self.y + self.height
    }

    /// The left and top edges belong to the rectangle, the right and bottom
    /// ones do not.
    pub fn contains(&self, px: i32, py: i32) -> (b: bool)
        ensures
            b == self.spec_contains(px, py),
    {
        self.x as i64 <= px as i64 && (px as i64) < self.x as i64 + self.width as i64 && self.y as i64 <= py as i64
            && (py as i64) < self.y as i64 + self.height as i64
    }
}

/// Where the candidates and the paging buttons were drawn.
#[derive(Clone, Debug)]
pub struct PanelHitAreas {
    pub candidates: Vec<PanelRect>,
    pub previous_page: Option<PanelRect>,
    pub next_page: Option<PanelRect>,
}

/// What a click on the candidate panel maps to.
#[derive(Clone, Copy, Debug, PartialEq, Eq, Structural)]
pub enum PanelClick {
    Candidate(usize),
    PreviousPage,
    NextPage,
}

/// The paging buttons first, then the first candidate under the point.
pub fn click_at(hit_areas: &PanelHitAreas, x: i32, y: i32) -> (click: Option<PanelClick>)
    ensures
        match click {
            Some(PanelClick::PreviousPage) => hit_areas.previous_page matches Some(r) && r.spec_contains(x, y),
            Some(PanelClick::NextPage) => !(hit_areas.previous_page matches Some(r) && r.spec_contains(x, y))
                && (hit_areas.next_page matches Some(r) && r.spec_contains(x, y)),
            Some(PanelClick::Candidate(i)) => !(hit_areas.previous_page matches Some(r) && r.spec_contains(x, y))
                && !(hit_areas.next_page matches Some(r) && r.spec_contains(x, y))
                && i < hit_areas.candidates@.len() && hit_areas.candidates@[i as int].spec_contains(x, y)
                && forall|j: int| 0 <= j < i ==> !(#[trigger] hit_areas.candidates@[j]).spec_contains(x, y),
            None => !(hit_areas.previous_page matches Some(r) && r.spec_contains(x, y))
                && !(hit_areas.next_page matches Some(r) && r.spec_contains(x, y))
                && forall|j: int| 0 <= j < hit_areas.candidates@.len() ==> !(#[trigger] hit_areas.candidates@[j]).spec_contains(x, y),
        },
{
    match &hit_areas.previous_page {
        Some(rect) => {
            if rect.contains(x, y) {
                return Some(PanelClick::PreviousPage);
            }
        },
        None => {},
    }
    match &hit_areas.next_page {
        Some(rect) => {
            if rect.contains(x, y) {
                return Some(PanelClick::NextPage);
            }
        },
        None => {},
    }
    let mut i: usize = 0;
    while i < hit_areas.candidates.len()
        invariant
            i <= hit_areas.candidates@.len(),
            !(hit_areas.previous_page matches Some(r) && r.spec_contains(x, y)),
            !(hit_areas.next_page matches Some(r) && r.spec_contains(x, y)),
            forall|j: int| 0 <= j < i ==> !(#[trigger] hit_areas.candidates@[j]).spec_contains(x, y),
        decreases hit_areas.candidates@.len() - i,
    {
        if hit_areas.candidates[i].contains(x, y) {
            return Some(PanelClick::Candidate(i));
        }
        i = i + 1;
    }
    None
}

} // verus!
