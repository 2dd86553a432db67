use vstd::prelude::*;

use crate::geometry::{Client, Monitor};

verus! {

// The client-edge predicates that involve an effective dimension compare the
// rational `dim * scale_den / scale_num` against integer coordinates. Each
// such comparison is stated and computed in cross-multiplied form: with
// `scale_num >= 1`, the equality `eff/num + a == b` holds exactly when
// `eff_num + a * num == b * num`, which keeps everything in integers.

/// The window's left edge, minus the gap, sits exactly on the monitor's left
/// edge.
pub open spec fn spec_is_leftmost_client(c: Client, m: Monitor, gaps: int) -> bool {
    c.x - gaps == m.x
}

/// The window's right edge, plus the gap, sits exactly on the monitor's
/// right edge: `effective_width + m.x - gaps == c.width + c.x`.
pub open spec fn spec_is_rightmost_client(c: Client, m: Monitor, gaps: int) -> bool {
    m.effective_width_num() + (m.x - gaps) * m.scale_num == (c.width + c.x) * m.scale_num
}

/// The window's top edge sits exactly below the monitor's top edge, the gap
/// and the reserved top margin.
pub open spec fn spec_is_top_client(c: Client, m: Monitor, gaps: int) -> bool {
    m.y + gaps + m.reserved_top == c.y
}

/// The bottom-edge comparison: `effective_height + m.y - gaps -
/// reserved_bottom == c.height + gaps`. Unlike the top case this compares
/// against the gap constant, not the window's y coordinate; the asymmetry
/// with the top case is deliberate.
pub open spec fn spec_is_bottom_client(c: Client, m: Monitor, gaps: int) -> bool {
    m.effective_height_num() + (m.y - gaps - m.reserved_bottom) * m.scale_num == (c.height + gaps)
        * m.scale_num
}

/// The monitor's x coordinate is the minimum over the whole layout.
pub open spec fn spec_is_leftmost_monitor(m: Monitor, ms: Seq<Monitor>) -> bool {
    &&& forall|i: int| 0 <= i < ms.len() ==> m.x <= #[trigger] ms[i].x
    &&& exists|i: int| 0 <= i < ms.len() && #[trigger] ms[i].x == m.x
}

/// The monitor's x coordinate is the maximum over the whole layout.
pub open spec fn spec_is_rightmost_monitor(m: Monitor, ms: Seq<Monitor>) -> bool {
    &&& forall|i: int| 0 <= i < ms.len() ==> m.x >= #[trigger] ms[i].x
    &&& exists|i: int| 0 <= i < ms.len() && #[trigger] ms[i].x == m.x
}

/// The monitor's y coordinate is the minimum over the whole layout.
pub open spec fn spec_is_top_monitor(m: Monitor, ms: Seq<Monitor>) -> bool {
    &&& forall|i: int| 0 <= i < ms.len() ==> m.y <= #[trigger] ms[i].y
    &&& exists|i: int| 0 <= i < ms.len() && #[trigger] ms[i].y == m.y
}

/// The monitor's y coordinate is the maximum over the whole layout.
pub open spec fn spec_is_bottom_monitor(m: Monitor, ms: Seq<Monitor>) -> bool {
    &&& forall|i: int| 0 <= i < ms.len() ==> m.y >= #[trigger] ms[i].y
    &&& exists|i: int| 0 <= i < ms.len() && #[trigger] ms[i].y == m.y
}

/// A factor of magnitude at most 2^34 times a non-negative factor below
/// 2^64 yields a product of magnitude at most 2^98, well within 128 bits.
proof fn lemma_mul_fits(a: int, b: int)
    requires
        -0x400000000 <= a,
        a <= 0x400000000,
        0 <= b,
        b < 0x10000000000000000,
    ensures
        -0x4000000000000000000000000 <= a * b,
        a * b <= 0x4000000000000000000000000,
{
    assert(-0x4000000000000000000000000 <= a * b && a * b <= 0x4000000000000000000000000)
        by (nonlinear_arith)
        requires
            -0x400000000 <= a,
            a <= 0x400000000,
            0 <= b,
            b < 0x10000000000000000,
    ;
}

/// Is the window at the left edge of its monitor, up to the gap?
pub fn is_leftmost_client(aw: &Client, mon: &Monitor, gaps: i32) -> (r: bool)
    ensures
        r == spec_is_leftmost_client(*aw, *mon, gaps as int),
{
    (aw.x as i64) - (gaps as i64) == (mon.x as i64)
}

/// Is the window at the right edge of its monitor, up to the gap?
pub fn is_rightmost_client(aw: &Client, mon: &Monitor, gaps: i32) -> (r: bool)
    ensures
        r == spec_is_rightmost_client(*aw, *mon, gaps as int),
{
    let w = mon.real_width();
    proof {
        mon.lemma_effective_dims_bound();
        lemma_mul_fits((mon.x as int) - (gaps as int), mon.scale_num as int);
        lemma_mul_fits((aw.width as int) + (aw.x as int), mon.scale_num as int);
    }
    let lhs: i128 = (w.num as i128) + ((mon.x as i128) - (gaps as i128)) * (mon.scale_num as i128);
    let rhs: i128 = ((aw.width as i128) + (aw.x as i128)) * (mon.scale_num as i128);
    lhs == rhs
}

/// Is the window at the top edge of its monitor, below the gap and the
/// reserved top margin?
pub fn is_top_client(aw: &Client, mon: &Monitor, gaps: i32) -> (r: bool)
    ensures
        r == spec_is_top_client(*aw, *mon, gaps as int),
{
    (mon.y as i64) + (gaps as i64) + (mon.reserved_top as i64) == (aw.y as i64)
}

/// Is the window at the bottom edge of its monitor, by the preserved
/// gap-against-height comparison?
pub fn is_bottom_client(aw: &Client, mon: &Monitor, gaps: i32) -> (r: bool)
    ensures
        r == spec_is_bottom_client(*aw, *mon, gaps as int),
{
    let h = mon.real_height();
    proof {
        mon.lemma_effective_dims_bound();
        lemma_mul_fits((mon.y as int) - (gaps as int) - (mon.reserved_bottom as int),
            mon.scale_num as int);
        lemma_mul_fits((aw.height as int) + (gaps as int), mon.scale_num as int);
    }
    let lhs: i128 = (h.num as i128) + ((mon.y as i128) - (gaps as i128) - (mon.reserved_bottom
        as i128)) * (mon.scale_num as i128);
    let rhs: i128 = ((aw.height as i128) + (gaps as i128)) * (mon.scale_num as i128);
    lhs == rhs
}

/// Is this monitor at the left edge of the whole layout?
pub fn is_leftmost_monitor(mon: &Monitor, monitors: &Vec<Monitor>) -> (r: bool)
    requires
        monitors@.len() > 0,
    ensures
        r == spec_is_leftmost_monitor(*mon, monitors@),
{
    let mut low: i32 = monitors[0].x;
    let mut i: usize = 1;
    while i < monitors.len()
        invariant
            1 <= i <= monitors@.len(),
            forall|j: int| 0 <= j < i ==> low <= #[trigger] monitors@[j].x,
            exists|j: int| 0 <= j < i && #[trigger] monitors@[j].x == low,
        decreases monitors@.len() - i,
    {
        if monitors[i].x < low {
            low = monitors[i].x;
        }
        i += 1;
    }
    low == mon.x
}

/// Is this monitor at the right edge of the whole layout?
pub fn is_rightmost_monitor(mon: &Monitor, monitors: &Vec<Monitor>) -> (r: bool)
    requires
        monitors@.len() > 0,
    ensures
        r == spec_is_rightmost_monitor(*mon, monitors@),
{
    let mut high: i32 = monitors[0].x;
    let mut i: usize = 1;
    while i < monitors.len()
        invariant
            1 <= i <= monitors@.len(),
            forall|j: int| 0 <= j < i ==> high >= #[trigger] monitors@[j].x,
            exists|j: int| 0 <= j < i && #[trigger] monitors@[j].x == high,
        decreases monitors@.len() - i,
    {
        if monitors[i].x > high {
            high = monitors[i].x;
        }
        i += 1;
    }
    high == mon.x
}

/// Is this monitor at the top edge of the whole layout?
pub fn is_top_monitor(mon: &Monitor, monitors: &Vec<Monitor>) -> (r: bool)
    requires
        monitors@.len() > 0,
    ensures
        r == spec_is_top_monitor(*mon, monitors@),
{
    let mut low: i32 = monitors[0].y;
    let mut i: usize = 1;
    while i < monitors.len()
        invariant
            1 <= i <= monitors@.len(),
            forall|j: int| 0 <= j < i ==> low <= #[trigger] monitors@[j].y,
            exists|j: int| 0 <= j < i && #[trigger] monitors@[j].y == low,
        decreases monitors@.len() - i,
    {
        if monitors[i].y < low {
            low = monitors[i].y;
        }
        i += 1;
    }
    low == mon.y
}

/// Is this monitor at the bottom edge of the whole layout?
pub fn is_bottom_monitor(mon: &Monitor, monitors: &Vec<Monitor>) -> (r: bool)
    requires
        monitors@.len() > 0,
    ensures
        r == spec_is_bottom_monitor(*mon, monitors@),
{
    let mut high: i32 = monitors[0].y;
    let mut i: usize = 1;
    while i < monitors.len()
        invariant
            1 <= i <= monitors@.len(),
            forall|j: int| 0 <= j < i ==> high >= #[trigger] monitors@[j].y,
            exists|j: int| 0 <= j < i && #[trigger] monitors@[j].y == high,
        decreases monitors@.len() - i,
    {
        if monitors[i].y > high {
            high = monitors[i].y;
        }
        i += 1;
    }
    high == mon.y
}

/// The leftmost-client test is an exact boundary comparison: a window whose
/// left edge is exactly `m.x + gaps` is leftmost, and moving it one unit
/// further right makes it not leftmost.
pub proof fn lemma_leftmost_client_boundary(c: Client, d: Client, m: Monitor, gaps: int)
    requires
        c.x == m.x + gaps,
        d.x == m.x + gaps + 1,
    ensures
        spec_is_leftmost_client(c, m, gaps),
        !spec_is_leftmost_client(d, m, gaps),
{
}

} // verus!
