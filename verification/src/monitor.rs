//! Monitor enumeration and normalization.
//!
//! A per-backend adapter performs the native listing call and hands
//! over one [`RawDisplay`] per native display handle, with every field
//! already decoded to a plain value; a query that failed natively is
//! recorded as `None`. This module turns those records into normalized
//! [`Monitor`]s: it maps the orientation code to a rotation in
//! {0, 90, 180, 270}, resolves the scale factor (DPI-aware query first,
//! device-context ratio as fallback), skips any display whose metadata
//! cannot be fully resolved, and guarantees that a non-empty result
//! carries exactly one primary monitor, synthesizing the flag on the
//! first record when the platform reported none.

use vstd::prelude::*;

use crate::error::CaptureError;
use crate::geometry::Rect;

verus! {

/// Physical-to-logical pixel ratio, kept as the exact fraction the
/// native queries produce (DPI over the 96-DPI baseline, or physical
/// over logical device width).
#[derive(Clone, Copy, Debug, PartialEq, Eq, Structural)]
pub struct ScaleFactor {
    pub num: u32,
    pub den: u32,
}

impl ScaleFactor {
    /// A scale factor is positive: both terms of the ratio are nonzero.
    pub open spec fn valid(self) -> bool {
        self.num > 0 && self.den > 0
    }
}

/// The display-mode block reported by the OS for one display.
#[derive(Clone, Copy, Debug, PartialEq, Eq, Structural)]
pub struct RawDisplayMode {
    /// Position of the display in virtual-desktop coordinates.
    pub x: i32,
    pub y: i32,
    /// Size in logical pixels.
    pub width: u32,
    pub height: u32,
    /// Native orientation code: 0, 1, 2, 3 for the four quarter turns.
    pub orientation: u32,
    /// Refresh rate in hertz.
    pub frequency: u32,
}

/// One native display handle's metadata, decoded by the adapter.
/// A `None` field records a native query that failed for this display.
pub struct RawDisplay {
    /// Session-stable identifier derived from the native handle.
    pub id: u32,
    /// Human-readable device name (adapters synthesize one when the
    /// native name query fails, so it is always present).
    pub name: String,
    /// Whether the OS flagged this display as the primary one.
    pub is_primary: bool,
    /// Geometry and orientation, `None` when the mode query failed.
    pub mode: Option<RawDisplayMode>,
    /// Result of the DPI-aware per-monitor query, `None` when the
    /// process is not DPI-aware or the query failed.
    pub dpi: Option<u32>,
    /// Physical device-pixel width from the scoped device-context
    /// query, used as the scale fallback.
    pub physical_width: u32,
    /// Logical device-pixel width from the same query.
    pub logical_width: u32,
}

/// A normalized display record. Recomputed fully on every enumeration;
/// never mutated in place.
pub struct Monitor {
    pub id: u32,
    pub name: String,
    /// Position in virtual-desktop coordinates.
    pub x: i32,
    pub y: i32,
    /// Size in logical pixels.
    pub width: u32,
    pub height: u32,
    /// Rotation in degrees: 0, 90, 180 or 270.
    pub rotation: u32,
    pub scale_factor: ScaleFactor,
    /// Refresh rate in hertz.
    pub frequency: u32,
    pub is_primary: bool,
}

impl Monitor {
    /// What enumeration guarantees of every record it returns.
    pub open spec fn valid(self) -> bool {
        &&& self.width > 0
        &&& self.height > 0
        &&& self.scale_factor.valid()
        &&& (self.rotation == 0 || self.rotation == 90 || self.rotation == 180
            || self.rotation == 270)
    }

    pub open spec fn spec_bounds(self) -> Rect {
        Rect { x: self.x, y: self.y, width: self.width, height: self.height }
    }

    /// The monitor's rectangle in virtual-desktop coordinates.
    pub fn bounds(&self) -> (r: Rect)
        ensures
            r == self.spec_bounds(),
    {
        Rect { x: self.x, y: self.y, width: self.width, height: self.height }
    }
}

/// Rotation in degrees for a native orientation code; codes outside
/// the four known quarter turns map to 0.
pub open spec fn spec_rotation(orientation: u32) -> u32 {
    if orientation == 1 {
        90
    } else if orientation == 2 {
        180
    } else if orientation == 3 {
        270
    } else {
        0
    }
}

pub fn rotation_from_orientation(orientation: u32) -> (r: u32)
    ensures
        r == spec_rotation(orientation),
{
    if orientation == 1 {
        90
    } else if orientation == 2 {
        180
    } else if orientation == 3 {
        270
    } else {
        0
    }
}

/// Scale resolution: the DPI-aware query result over the 96-DPI
/// baseline when it is present and positive; otherwise the ratio of
/// physical to logical device width, which resolves only when both
/// are positive.
pub open spec fn spec_resolve_scale(
    dpi: Option<u32>,
    physical_width: u32,
    logical_width: u32,
) -> Option<ScaleFactor> {
    match dpi {
        Some(d) => if d > 0 {
            Some(ScaleFactor { num: d, den: 96 })
        } else {
            spec_fallback_scale(physical_width, logical_width)
        },
        None => spec_fallback_scale(physical_width, logical_width),
    }
}

pub open spec fn spec_fallback_scale(physical_width: u32, logical_width: u32) -> Option<
    ScaleFactor,
> {
    if physical_width > 0 && logical_width > 0 {
        Some(ScaleFactor { num: physical_width, den: logical_width })
    } else {
        None
    }
}

pub fn resolve_scale_factor(dpi: Option<u32>, physical_width: u32, logical_width: u32) -> (r:
    Option<ScaleFactor>)
    ensures
        r == spec_resolve_scale(dpi, physical_width, logical_width),
{
    match dpi {
        Some(d) => {
            if d > 0 {
                Some(ScaleFactor { num: d, den: 96 })
            } else if physical_width > 0 && logical_width > 0 {
                Some(ScaleFactor { num: physical_width, den: logical_width })
            } else {
                None
            }
        },
        None => {
            if physical_width > 0 && logical_width > 0 {
                Some(ScaleFactor { num: physical_width, den: logical_width })
            } else {
                None
            }
        },
    }
}

/// What normalizing one raw record yields: the record, or the error
/// class of the first field that does not resolve. A missing mode
/// block or an unresolvable scale factor is a field-decode failure; a
/// zero-sized mode is a geometry failure.
pub open spec fn spec_new_monitor(raw: RawDisplay) -> Result<Monitor, CaptureError> {
    if raw.mode is None {
        Err(CaptureError::FieldDecodeFailure)
    } else if raw.mode.unwrap().width == 0 || raw.mode.unwrap().height == 0 {
        Err(CaptureError::GeometryFailure)
    } else if spec_resolve_scale(raw.dpi, raw.physical_width, raw.logical_width) is None {
        Err(CaptureError::FieldDecodeFailure)
    } else {
        Ok(spec_monitor_of(raw))
    }
}

/// The raw record resolves fully.
pub open spec fn spec_decodes(raw: RawDisplay) -> bool {
    spec_new_monitor(raw) is Ok
}

/// The normalized record for a raw record that resolves fully.
pub open spec fn spec_monitor_of(raw: RawDisplay) -> Monitor {
    let mode = raw.mode.unwrap();
    Monitor {
        id: raw.id,
        name: raw.name,
        x: mode.x,
        y: mode.y,
        width: mode.width,
        height: mode.height,
        rotation: spec_rotation(mode.orientation),
        scale_factor: spec_resolve_scale(raw.dpi, raw.physical_width, raw.logical_width).unwrap(),
        frequency: mode.frequency,
        is_primary: raw.is_primary,
    }
}

impl Monitor {
    /// Normalizes one raw display record.
    pub fn new(raw: &RawDisplay) -> (r: Result<Monitor, CaptureError>)
        ensures
            r == spec_new_monitor(*raw),
            r matches Ok(m) ==> m.valid(),
    {
        let mode = match raw.mode {
            Some(mode) => mode,
            None => {
                return Err(CaptureError::FieldDecodeFailure);
            },
        };
        if mode.width == 0 || mode.height == 0 {
            return Err(CaptureError::GeometryFailure);
        }
        let scale_factor = match resolve_scale_factor(
            raw.dpi,
            raw.physical_width,
            raw.logical_width,
        ) {
            Some(scale_factor) => scale_factor,
            None => {
                return Err(CaptureError::FieldDecodeFailure);
            },
        };
        Ok(
            Monitor {
                id: raw.id,
                name: raw.name.clone(),
                x: mode.x,
                y: mode.y,
                width: mode.width,
                height: mode.height,
                rotation: rotation_from_orientation(mode.orientation),
                scale_factor,
                frequency: mode.frequency,
                is_primary: raw.is_primary,
            },
        )
    }
}

/// The records that resolve, in enumeration order, before the primary
/// flag is normalized.
pub open spec fn spec_decoded_monitors(raws: Seq<RawDisplay>) -> Seq<Monitor>
    decreases raws.len(),
{
    if raws.len() == 0 {
        Seq::empty()
    } else {
        let prefix = spec_decoded_monitors(raws.drop_last());
        if spec_decodes(raws.last()) {
            prefix.push(spec_monitor_of(raws.last()))
        } else {
            prefix
        }
    }
}

/// Index of the first record the OS flagged primary, or `ms.len()`
/// when it flagged none.
pub open spec fn spec_first_primary_index(ms: Seq<Monitor>) -> int
    decreases ms.len(),
{
    if ms.len() == 0 {
        0
    } else if ms[0].is_primary {
        0
    } else {
        1 + spec_first_primary_index(ms.drop_first())
    }
}

/// A copy of `m` with the primary flag set to `p`.
pub open spec fn spec_with_primary(m: Monitor, p: bool) -> Monitor {
    Monitor { is_primary: p, ..m }
}

/// Primary normalization: the first OS-flagged primary keeps the flag
/// and every other record loses it; when the OS flagged none, the
/// first record is synthesized as primary.
pub open spec fn spec_normalize_primary(ms: Seq<Monitor>) -> Seq<Monitor> {
    if ms.len() == 0 {
        ms
    } else {
        let k = if spec_first_primary_index(ms) < ms.len() {
            spec_first_primary_index(ms)
        } else {
            0
        };
        Seq::new(ms.len(), |j: int| spec_with_primary(ms[j], j == k))
    }
}

/// What a full enumeration returns for the raw records `raws`.
pub open spec fn spec_list_monitors(raws: Seq<RawDisplay>) -> Seq<Monitor> {
    spec_normalize_primary(spec_decoded_monitors(raws))
}

pub open spec fn spec_count_primary(ms: Seq<Monitor>) -> int
    decreases ms.len(),
{
    if ms.len() == 0 {
        0int
    } else {
        spec_count_primary(ms.drop_last()) + if ms.last().is_primary {
            1int
        } else {
            0int
        }
    }
}

proof fn lemma_count_primary_zero(ms: Seq<Monitor>)
    requires
        forall|j: int| 0 <= j < ms.len() ==> !ms[j].is_primary,
    ensures
        spec_count_primary(ms) == 0,
    decreases ms.len(),
{
    if ms.len() > 0 {
        lemma_count_primary_zero(ms.drop_last());
    }
}

proof fn lemma_count_primary_one_hot(ms: Seq<Monitor>, k: int)
    requires
        0 <= k < ms.len(),
        forall|j: int| 0 <= j < ms.len() ==> (ms[j].is_primary <==> j == k),
    ensures
        spec_count_primary(ms) == 1,
    decreases ms.len(),
{
    if k == ms.len() - 1 {
        lemma_count_primary_zero(ms.drop_last());
    } else {
        lemma_count_primary_one_hot(ms.drop_last(), k);
    }
}

/// `spec_first_primary_index` is the first flagged index: any `k`
/// below which no record is flagged, and which is flagged itself or
/// equal to the length, is that index.
pub proof fn lemma_first_primary_index_char(ms: Seq<Monitor>, k: int)
    requires
        0 <= k <= ms.len(),
        forall|j: int| 0 <= j < k ==> !ms[j].is_primary,
        k < ms.len() ==> ms[k].is_primary,
    ensures
        spec_first_primary_index(ms) == k,
    decreases ms.len(),
{
    if ms.len() == 0 {
    } else if ms[0].is_primary {
        assert(k == 0);
    } else {
        assert(k >= 1);
        let tail = ms.drop_first();
        assert(forall|j: int| 0 <= j < k - 1 ==> tail[j] == ms[j + 1] && !tail[j].is_primary);
        assert(k - 1 < tail.len() ==> tail[k - 1] == ms[k]);
        lemma_first_primary_index_char(tail, k - 1);
    }
}

/// Every monitor that enumeration keeps satisfies the record
/// invariant: positive size, positive scale factor, quarter-turn
/// rotation.
proof fn lemma_decoded_monitors_valid(raws: Seq<RawDisplay>)
    ensures
        forall|j: int|
            0 <= j < spec_decoded_monitors(raws).len() ==> (#[trigger] spec_decoded_monitors(
                raws,
            )[j]).valid(),
    decreases raws.len(),
{
    if raws.len() > 0 {
        lemma_decoded_monitors_valid(raws.drop_last());
        let prefix = spec_decoded_monitors(raws.drop_last());
        let last = raws.last();
        if spec_decodes(last) {
            assert(spec_monitor_of(last).scale_factor == spec_resolve_scale(
                last.dpi,
                last.physical_width,
                last.logical_width,
            ).unwrap());
            assert(spec_monitor_of(last).valid());
            assert(forall|j: int|
                0 <= j < prefix.len() ==> prefix.push(spec_monitor_of(last))[j] == prefix[j]);
        }
    }
}

/// Enumerates and normalizes the monitor set: each raw record that
/// resolves yields one monitor in enumeration order, records that do
/// not resolve are skipped, and a non-empty result carries exactly one
/// primary monitor.
pub fn list_monitors(raws: &Vec<RawDisplay>) -> (ms: Vec<Monitor>)
    ensures
        ms@ == spec_list_monitors(raws@),
        forall|j: int| 0 <= j < ms@.len() ==> (#[trigger] ms@[j]).valid(),
        ms@.len() > 0 ==> spec_count_primary(ms@) == 1,
{
    let mut decoded: Vec<Monitor> = Vec::new();
    let mut i: usize = 0;
    while i < raws.len()
        invariant
            i <= raws@.len(),
            decoded@ == spec_decoded_monitors(raws@.take(i as int)),
        decreases raws@.len() - i,
    {
        proof {
            assert(raws@.take(i + 1).drop_last() =~= raws@.take(i as int));
            assert(raws@.take(i + 1).last() == raws@[i as int]);
        }
        match Monitor::new(&raws[i]) {
            Ok(m) => decoded.push(m),
            Err(_) => (),
        }
        i += 1;
    }
    proof {
        assert(raws@.take(raws@.len() as int) =~= raws@);
    }
    if decoded.len() == 0 {
        proof {
            assert(decoded@ =~= spec_list_monitors(raws@));
        }
        return decoded;
    }
    // Find the first record the OS flagged primary.
    let mut k: usize = 0;
    let mut found = false;
    let mut j: usize = 0;
    while j < decoded.len()
        invariant
            j <= decoded@.len(),
            !found ==> forall|t: int| 0 <= t < j ==> !decoded@[t].is_primary,
            found ==> k < j <= decoded@.len() && decoded@[k as int].is_primary && forall|t: int|
                0 <= t < k ==> !decoded@[t].is_primary,
        decreases decoded@.len() - j,
    {
        if !found && decoded[j].is_primary {
            k = j;
            found = true;
        }
        j += 1;
    }
    proof {
        if found {
            lemma_first_primary_index_char(decoded@, k as int);
        } else {
            lemma_first_primary_index_char(decoded@, decoded@.len() as int);
        }
    }
    let target: usize = if found {
        k
    } else {
        0
    };
    let ghost norm = spec_normalize_primary(decoded@);
    let mut ms: Vec<Monitor> = Vec::new();
    let mut t: usize = 0;
    while t < decoded.len()
        invariant
            t <= decoded@.len(),
            norm == spec_normalize_primary(decoded@),
            decoded@.len() > 0,
            target < decoded@.len(),
            norm.len() == decoded@.len(),
            (target as int) == (if spec_first_primary_index(decoded@) < decoded@.len() {
                spec_first_primary_index(decoded@)
            } else {
                0int
            }),
            forall|u: int| 0 <= u < norm.len() ==> norm[u] == spec_with_primary(
                decoded@[u],
                u == target,
            ),
            ms@.len() == t,
            forall|u: int| 0 <= u < t ==> ms@[u] == norm[u],
        decreases decoded@.len() - t,
    {
        let m = &decoded[t];
        ms.push(
            Monitor {
                id: m.id,
                name: m.name.clone(),
                x: m.x,
                y: m.y,
                width: m.width,
                height: m.height,
                rotation: m.rotation,
                scale_factor: m.scale_factor,
                frequency: m.frequency,
                is_primary: t == target,
            },
        );
        t += 1;
    }
    proof {
        assert(ms@ =~= norm);
        lemma_decoded_monitors_valid(raws@);
        assert(forall|u: int| 0 <= u < ms@.len() ==> (#[trigger] ms@[u]).valid());
        assert(forall|u: int| 0 <= u < ms@.len() ==> (ms@[u].is_primary <==> u == target));
        lemma_count_primary_one_hot(ms@, target as int);
    }
    ms
}

/// First monitor whose bounds contain the point, scanning in
/// enumeration order; `None` when no monitor contains it.
pub fn monitor_from_point(monitors: &Vec<Monitor>, x: i32, y: i32) -> (r: Option<usize>)
    ensures
        match r {
            Some(i) => {
                &&& i < monitors@.len()
                &&& monitors@[i as int].spec_bounds().spec_contains_point(x as int, y as int)
                &&& forall|j: int|
                    0 <= j < i ==> !monitors@[j].spec_bounds().spec_contains_point(
                        x as int,
                        y as int,
                    )
            },
            None => forall|j: int|
                0 <= j < monitors@.len() ==> !monitors@[j].spec_bounds().spec_contains_point(
                    x as int,
                    y as int,
                ),
        },
{
    let mut i: usize = 0;
    while i < monitors.len()
        invariant
            i <= monitors@.len(),
            forall|j: int|
                0 <= j < i ==> !monitors@[j].spec_bounds().spec_contains_point(x as int, y as int),
        decreases monitors@.len() - i,
    {
        if monitors[i].bounds().contains_point(x as i64, y as i64) {
            return Some(i);
        }
        i += 1;
    }
    None
}

/// First monitor with the given identifier; `None` when the identifier
/// does not name a monitor of the set.
pub fn find_monitor(monitors: &Vec<Monitor>, id: u32) -> (r: Option<usize>)
    ensures
        match r {
            Some(i) => {
                &&& i < monitors@.len()
                &&& monitors@[i as int].id == id
                &&& forall|j: int| 0 <= j < i ==> monitors@[j].id != id
            },
            None => forall|j: int| 0 <= j < monitors@.len() ==> monitors@[j].id != id,
        },
{
    let mut i: usize = 0;
    while i < monitors.len()
        invariant
            i <= monitors@.len(),
            forall|j: int| 0 <= j < i ==> monitors@[j].id != id,
        decreases monitors@.len() - i,
    {
        if monitors[i].id == id {
            return Some(i);
        }
        i += 1;
    }
    None
}

/// Leftmost edge of the virtual desktop: the least monitor `x`.
pub open spec fn spec_vd_left(ms: Seq<Monitor>) -> int
    recommends
        ms.len() > 0,
    decreases ms.len(),
{
    if ms.len() <= 1 {
        if ms.len() == 1 {
            ms[0].x as int
        } else {
            0
        }
    } else {
        vstd::math::min(spec_vd_left(ms.drop_last()), ms.last().x as int)
    }
}

/// Topmost edge of the virtual desktop: the least monitor `y`.
pub open spec fn spec_vd_top(ms: Seq<Monitor>) -> int
    recommends
        ms.len() > 0,
    decreases ms.len(),
{
    if ms.len() <= 1 {
        if ms.len() == 1 {
            ms[0].y as int
        } else {
            0
        }
    } else {
        vstd::math::min(spec_vd_top(ms.drop_last()), ms.last().y as int)
    }
}

/// Exclusive right edge of the virtual desktop: the greatest monitor
/// right edge.
pub open spec fn spec_vd_right(ms: Seq<Monitor>) -> int
    recommends
        ms.len() > 0,
    decreases ms.len(),
{
    if ms.len() <= 1 {
        if ms.len() == 1 {
            ms[0].spec_bounds().spec_right()
        } else {
            0
        }
    } else {
        vstd::math::max(spec_vd_right(ms.drop_last()), ms.last().spec_bounds().spec_right())
    }
}

/// Exclusive bottom edge of the virtual desktop: the greatest monitor
/// bottom edge.
pub open spec fn spec_vd_bottom(ms: Seq<Monitor>) -> int
    recommends
        ms.len() > 0,
    decreases ms.len(),
{
    if ms.len() <= 1 {
        if ms.len() == 1 {
            ms[0].spec_bounds().spec_bottom()
        } else {
            0
        }
    } else {
        vstd::math::max(spec_vd_bottom(ms.drop_last()), ms.last().spec_bounds().spec_bottom())
    }
}

/// The rectangle lies fully inside the extents of the virtual desktop
/// spanned by the monitor set; false for an empty set.
pub open spec fn spec_region_in_extents(ms: Seq<Monitor>, r: Rect) -> bool {
    &&& ms.len() > 0
    &&& spec_vd_left(ms) <= r.x
    &&& spec_vd_top(ms) <= r.y
    &&& r.spec_right() <= spec_vd_right(ms)
    &&& r.spec_bottom() <= spec_vd_bottom(ms)
}

/// Decides whether `r` lies fully inside the virtual-desktop extents
/// of the monitor set; false when the set is empty.
pub fn region_in_extents(monitors: &Vec<Monitor>, r: &Rect) -> (res: bool)
    ensures
        res == spec_region_in_extents(monitors@, *r),
{
    let n = monitors.len();
    if n == 0 {
        return false;
    }
    let mut left: i64 = monitors[0].x as i64;
    let mut top: i64 = monitors[0].y as i64;
    let mut right: i64 = monitors[0].bounds().right();
    let mut bottom: i64 = monitors[0].bounds().bottom();
    let mut i: usize = 1;
    while i < n
        invariant
            n == monitors@.len(),
            1 <= i <= n,
            left == spec_vd_left(monitors@.take(i as int)),
            top == spec_vd_top(monitors@.take(i as int)),
            right == spec_vd_right(monitors@.take(i as int)),
            bottom == spec_vd_bottom(monitors@.take(i as int)),
        decreases n - i,
    {
        proof {
            assert(monitors@.take(i + 1).drop_last() =~= monitors@.take(i as int));
            assert(monitors@.take(i + 1).last() == monitors@[i as int]);
        }
        let m = &monitors[i];
        if (m.x as i64) < left {
            left = m.x as i64;
        }
        if (m.y as i64) < top {
            top = m.y as i64;
        }
        if m.bounds().right() > right {
            right = m.bounds().right();
        }
        if m.bounds().bottom() > bottom {
            bottom = m.bounds().bottom();
        }
        i += 1;
    }
    proof {
        assert(monitors@.take(n as int) =~= monitors@);
    }
    left <= (r.x as i64) && top <= (r.y as i64) && r.right() <= right && r.bottom() <= bottom
}

/// Skipping a record that does not resolve leaves the enumeration of
/// the remaining records unchanged: the result over `raws` equals the
/// result over `raws` with the unresolvable record removed.
pub proof fn lemma_skip_undecodable_monitor(raws: Seq<RawDisplay>, i: int)
    requires
        0 <= i < raws.len(),
        !spec_decodes(raws[i]),
    ensures
        spec_decoded_monitors(raws) == spec_decoded_monitors(raws.remove(i)),
    decreases raws.len(),
{
    if raws.len() > 0 {
        if i == raws.len() - 1 {
            assert(raws.remove(i) =~= raws.drop_last());
        } else {
            let shorter = raws.drop_last();
            lemma_skip_undecodable_monitor(shorter, i);
            assert(raws.remove(i).drop_last() =~= shorter.remove(i));
            assert(raws.remove(i).last() == raws.last());
        }
    }
}

} // verus!
