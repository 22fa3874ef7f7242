//! Window enumeration and normalization.
//!
//! The adapter requests the OS's on-screen, non-desktop-element window
//! list, which arrives in front-to-back native order (frontmost
//! first), and hands over one [`RawWindowEntry`] per list entry with
//! every field already decoded; a field whose native decode failed is
//! `None`. This module filters and normalizes those entries:
//!
//! - entries missing a required field are skipped, the rest of the
//!   enumeration continues;
//! - the OS's own status-indicator pseudo-window and entries whose
//!   sharing state excludes them from capture are skipped;
//! - each kept window is associated with the monitor containing its
//!   center point, failing that the monitor with the largest geometric
//!   intersection, failing that the primary monitor;
//! - `is_maximized` is the documented heuristic: the window covers its
//!   monitor in both dimensions; `is_minimized` holds when the OS
//!   reports the window off-screen and it is not judged maximized, so
//!   the two flags are mutually exclusive by construction;
//! - the `j`-th of `m` kept entries receives z-index `m - 1 - j`, so
//!   the frontmost kept entry gets the highest z-index and the kept
//!   z-indices are a permutation of `0 .. m-1`.

use vstd::prelude::*;

use crate::error::CaptureError;
use crate::geometry::Rect;
use crate::monitor::Monitor;
use crate::monitor::lemma_first_primary_index_char;
use crate::monitor::spec_first_primary_index;

verus! {

/// One entry of the native window list, decoded by the adapter.
/// `None` records a field whose native decode failed.
pub struct RawWindowEntry {
    /// Numeric window identifier.
    pub id: Option<u32>,
    /// Owning process identifier.
    pub pid: Option<u32>,
    /// Window title.
    pub title: Option<String>,
    /// Owning application name.
    pub app_name: Option<String>,
    /// Native sharing state; zero marks a window excluded from capture.
    pub sharing_state: Option<u32>,
    /// Whether the OS reports the window as on-screen.
    pub is_onscreen: Option<bool>,
    /// Bounding rectangle in virtual-desktop coordinates.
    pub bounds: Option<Rect>,
}

/// A normalized window record: a snapshot taken at enumeration time.
pub struct Window {
    pub id: u32,
    pub title: String,
    pub app_name: String,
    pub pid: u32,
    /// Identifier of the monitor judged to contain this window.
    pub monitor_id: u32,
    /// Position in virtual-desktop coordinates.
    pub x: i32,
    pub y: i32,
    /// Back-to-front stacking rank: 0 is bottommost.
    pub z: usize,
    pub width: u32,
    pub height: u32,
    pub is_minimized: bool,
    pub is_maximized: bool,
}

/// Horizontal coordinate of the window's center point.
pub open spec fn spec_center_x(r: Rect) -> int {
    r.x + r.width / 2
}

/// Vertical coordinate of the window's center point.
pub open spec fn spec_center_y(r: Rect) -> int {
    r.y + r.height / 2
}

/// First monitor whose bounds contain the center of `r`, or `None`.
pub open spec fn spec_center_match(ms: Seq<Monitor>, r: Rect) -> Option<int>
    decreases ms.len(),
{
    if ms.len() == 0 {
        None
    } else {
        let prefix = spec_center_match(ms.drop_last(), r);
        if prefix is Some {
            prefix
        } else if ms.last().spec_bounds().spec_contains_point(spec_center_x(r), spec_center_y(r)) {
            Some(ms.len() - 1)
        } else {
            None
        }
    }
}

/// First monitor whose intersection with `r` has maximal positive
/// area, or `None` when no monitor intersects `r`.
pub open spec fn spec_best_intersection(ms: Seq<Monitor>, r: Rect) -> Option<int>
    decreases ms.len(),
{
    if ms.len() == 0 {
        None
    } else {
        let prefix = spec_best_intersection(ms.drop_last(), r);
        let last_area = ms.last().spec_bounds().spec_intersection_area(r);
        match prefix {
            Some(i) => if last_area > ms[i].spec_bounds().spec_intersection_area(r) {
                Some(ms.len() - 1)
            } else {
                Some(i)
            },
            None => if last_area > 0 {
                Some(ms.len() - 1)
            } else {
                None
            },
        }
    }
}

/// The monitor judged to contain the window with bounds `r`: first by
/// center containment, then by largest intersection, then the primary
/// monitor as last resort; `None` only when `ms` has no primary
/// monitor either (an empty enumeration).
pub open spec fn spec_associated_monitor(ms: Seq<Monitor>, r: Rect) -> Option<int> {
    if spec_center_match(ms, r) is Some {
        spec_center_match(ms, r)
    } else if spec_best_intersection(ms, r) is Some {
        spec_best_intersection(ms, r)
    } else if spec_first_primary_index(ms) < ms.len() {
        Some(spec_first_primary_index(ms))
    } else {
        None
    }
}

/// The window record built from a resolved entry, its associated
/// monitor, and its stacking rank.
pub open spec fn spec_window_of(
    entry: RawWindowEntry,
    ms: Seq<Monitor>,
    mi: int,
    z: usize,
) -> Window {
    let b = entry.bounds.unwrap();
    let mon = ms[mi];
    let maximized = b.width >= mon.width && b.height >= mon.height;
    Window {
        id: entry.id.unwrap(),
        title: entry.title.unwrap(),
        app_name: entry.app_name.unwrap(),
        pid: entry.pid.unwrap(),
        monitor_id: mon.id,
        x: b.x,
        y: b.y,
        z,
        width: b.width,
        height: b.height,
        is_minimized: !entry.is_onscreen.unwrap() && !maximized,
        is_maximized: maximized,
    }
}

/// Every required field of the entry is present and the monitor
/// reference resolves.
pub open spec fn spec_entry_decodes(entry: RawWindowEntry, ms: Seq<Monitor>) -> bool {
    &&& entry.id is Some
    &&& entry.pid is Some
    &&& entry.title is Some
    &&& entry.app_name is Some
    &&& entry.is_onscreen is Some
    &&& entry.bounds is Some
    &&& spec_associated_monitor(ms, entry.bounds.unwrap()) is Some
}

/// What normalizing one entry yields: the record, or the error class
/// of the first field that does not resolve. A missing bounding
/// rectangle is a geometry failure; every other missing field, and an
/// unresolvable monitor reference, is a field-decode failure.
pub open spec fn spec_new_window(entry: RawWindowEntry, ms: Seq<Monitor>, z: usize) -> Result<
    Window,
    CaptureError,
> {
    if entry.id is None || entry.pid is None || entry.title is None || entry.app_name is None
        || entry.is_onscreen is None {
        Err(CaptureError::FieldDecodeFailure)
    } else if entry.bounds is None {
        Err(CaptureError::GeometryFailure)
    } else {
        match spec_associated_monitor(ms, entry.bounds.unwrap()) {
            Some(mi) => Ok(spec_window_of(entry, ms, mi, z)),
            None => Err(CaptureError::FieldDecodeFailure),
        }
    }
}

/// The OS's own status-indicator pseudo-window, which enumeration
/// always skips.
pub open spec fn spec_status_indicator(entry: RawWindowEntry) -> bool {
    &&& entry.title is Some
    &&& entry.app_name is Some
    &&& entry.title.unwrap()@ == "StatusIndicator"@
    &&& entry.app_name.unwrap()@ == "Window Server"@
}

/// The enumerator keeps the entry: it is not the status-indicator
/// pseudo-window, its sharing state does not exclude it from capture,
/// and all its required fields resolve.
pub open spec fn spec_admitted(entry: RawWindowEntry, ms: Seq<Monitor>) -> bool {
    &&& !spec_status_indicator(entry)
    &&& entry.sharing_state matches Some(s) && s != 0
    &&& spec_entry_decodes(entry, ms)
}

/// The kept entries, in native (front-to-back) order.
pub open spec fn spec_kept_entries(entries: Seq<RawWindowEntry>, ms: Seq<Monitor>) -> Seq<
    RawWindowEntry,
>
    decreases entries.len(),
{
    if entries.len() == 0 {
        Seq::empty()
    } else {
        let prefix = spec_kept_entries(entries.drop_last(), ms);
        if spec_admitted(entries.last(), ms) {
            prefix.push(entries.last())
        } else {
            prefix
        }
    }
}

/// What a full enumeration returns: the kept entries in native order,
/// the `j`-th of `m` receiving z-index `m - 1 - j`.
pub open spec fn spec_list_windows(entries: Seq<RawWindowEntry>, ms: Seq<Monitor>) -> Seq<Window> {
    let kept = spec_kept_entries(entries, ms);
    Seq::new(
        kept.len(),
        |j: int|
            spec_window_of(
                kept[j],
                ms,
                spec_associated_monitor(ms, kept[j].bounds.unwrap()).unwrap(),
                (kept.len() - 1 - j) as usize,
            ),
    )
}

/// Resolves the monitor judged to contain a window with bounds `r`:
/// first monitor containing the center point; failing that, the first
/// monitor with the largest positive intersection; failing that, the
/// primary monitor; `None` only when no monitor is primary.
pub fn associate_monitor(monitors: &Vec<Monitor>, r: &Rect) -> (res: Option<usize>)
    ensures
        match res {
            Some(i) => i < monitors@.len() && spec_associated_monitor(monitors@, *r) == Some(
                i as int,
            ),
            None => spec_associated_monitor(monitors@, *r) is None,
        },
{
    let n = monitors.len();
    // Pass one: first monitor containing the center point.
    let cx = if r.width == 0 {
        r.x as i64
    } else {
        (r.x as i64) + ((r.width / 2) as i64)
    };
    let cy = if r.height == 0 {
        r.y as i64
    } else {
        (r.y as i64) + ((r.height / 2) as i64)
    };
    assert(cx == spec_center_x(*r) && cy == spec_center_y(*r));
    let mut center: Option<usize> = None;
    let mut i: usize = 0;
    while i < n
        invariant
            n == monitors@.len(),
            i <= n,
            cx == spec_center_x(*r),
            cy == spec_center_y(*r),
            match center {
                Some(c) => c < i && spec_center_match(monitors@.take(i as int), *r) == Some(
                    c as int,
                ),
                None => spec_center_match(monitors@.take(i as int), *r) is None,
            },
        decreases n - i,
    {
        proof {
            assert(monitors@.take(i + 1).drop_last() =~= monitors@.take(i as int));
            assert(monitors@.take(i + 1).last() == monitors@[i as int]);
        }
        if center.is_none() && monitors[i].bounds().contains_point(cx, cy) {
            center = Some(i);
        }
        i += 1;
    }
    proof {
        assert(monitors@.take(n as int) =~= monitors@);
    }
    if let Some(c) = center {
        return Some(c);
    }
    // Pass two: first monitor with the largest positive intersection.
    let mut best: Option<usize> = None;
    let mut best_area: u64 = 0;
    let mut i: usize = 0;
    while i < n
        invariant
            n == monitors@.len(),
            i <= n,
            match best {
                Some(b) => b < i && spec_best_intersection(monitors@.take(i as int), *r) == Some(
                    b as int,
                ) && best_area == monitors@[b as int].spec_bounds().spec_intersection_area(*r)
                    && best_area > 0,
                None => spec_best_intersection(monitors@.take(i as int), *r) is None,
            },
        decreases n - i,
    {
        proof {
            assert(monitors@.take(i + 1).drop_last() =~= monitors@.take(i as int));
            assert(monitors@.take(i + 1).last() == monitors@[i as int]);
            assert(forall|t: int|
                0 <= t < i ==> monitors@.take(i + 1)[t] == monitors@[t]);
        }
        let area = monitors[i].bounds().intersection_area(r);
        match best {
            Some(_) => {
                if area > best_area {
                    best = Some(i);
                    best_area = area;
                }
            },
            None => {
                if area > 0 {
                    best = Some(i);
                    best_area = area;
                }
            },
        }
        i += 1;
    }
    proof {
        assert(monitors@.take(n as int) =~= monitors@);
    }
    if let Some(b) = best {
        return Some(b);
    }
    // Last resort: the primary monitor.
    let mut i: usize = 0;
    while i < n
        invariant
            n == monitors@.len(),
            i <= n,
            spec_center_match(monitors@, *r) is None,
            spec_best_intersection(monitors@, *r) is None,
            forall|t: int| 0 <= t < i ==> !monitors@[t].is_primary,
        decreases n - i,
    {
        if monitors[i].is_primary {
            proof {
                lemma_first_primary_index_char(monitors@, i as int);
            }
            return Some(i);
        }
        i += 1;
    }
    proof {
        lemma_first_primary_index_char(monitors@, n as int);
    }
    None
}

impl Window {
    /// Normalizes one window-list entry, given the monitor set and the
    /// stacking rank the enumerator assigns.
    pub fn new(entry: &RawWindowEntry, monitors: &Vec<Monitor>, z: usize) -> (r: Result<
        Window,
        CaptureError,
    >)
        ensures
            r == spec_new_window(*entry, monitors@, z),
    {
        let id = match entry.id {
            Some(id) => id,
            None => {
                return Err(CaptureError::FieldDecodeFailure);
            },
        };
        let pid = match entry.pid {
            Some(pid) => pid,
            None => {
                return Err(CaptureError::FieldDecodeFailure);
            },
        };
        let title = match &entry.title {
            Some(t) => t.clone(),
            None => {
                return Err(CaptureError::FieldDecodeFailure);
            },
        };
        let app_name = match &entry.app_name {
            Some(a) => a.clone(),
            None => {
                return Err(CaptureError::FieldDecodeFailure);
            },
        };
        let is_onscreen = match entry.is_onscreen {
            Some(o) => o,
            None => {
                return Err(CaptureError::FieldDecodeFailure);
            },
        };
        let b = match entry.bounds {
            Some(b) => b,
            None => {
                return Err(CaptureError::GeometryFailure);
            },
        };
        let mi = match associate_monitor(monitors, &b) {
            Some(mi) => mi,
            None => {
                return Err(CaptureError::FieldDecodeFailure);
            },
        };
        let mon = &monitors[mi];
        let is_maximized = b.width >= mon.width && b.height >= mon.height;
        Ok(
            Window {
                id,
                title,
                app_name,
                pid,
                monitor_id: mon.id,
                x: b.x,
                y: b.y,
                z,
                width: b.width,
                height: b.height,
                is_minimized: !is_onscreen && !is_maximized,
                is_maximized,
            },
        )
    }
}

/// The kept prefix grows monotonically: the entries kept from a
/// prefix of the list are a prefix of the entries kept from the whole
/// list.
proof fn lemma_kept_prefix(entries: Seq<RawWindowEntry>, ms: Seq<Monitor>, i: int)
    requires
        0 <= i <= entries.len(),
    ensures
        spec_kept_entries(entries.take(i), ms) == spec_kept_entries(entries, ms).take(
            spec_kept_entries(entries.take(i), ms).len() as int,
        ),
        spec_kept_entries(entries.take(i), ms).len() <= spec_kept_entries(entries, ms).len(),
    decreases entries.len() - i,
{
    if i == entries.len() {
        assert(entries.take(i) =~= entries);
        assert(spec_kept_entries(entries, ms).take(spec_kept_entries(entries, ms).len() as int)
            =~= spec_kept_entries(entries, ms));
    } else {
        lemma_kept_prefix(entries, ms, i + 1);
        let longer = spec_kept_entries(entries.take(i + 1), ms);
        let shorter = spec_kept_entries(entries.take(i), ms);
        assert(entries.take(i + 1).drop_last() =~= entries.take(i));
        assert(entries.take(i + 1).last() == entries[i]);
        if spec_admitted(entries[i], ms) {
            assert(longer == shorter.push(entries[i]));
            assert(shorter =~= longer.take(shorter.len() as int));
            assert(longer.take(shorter.len() as int) =~= spec_kept_entries(entries, ms).take(
                shorter.len() as int,
            ));
        } else {
            assert(longer == shorter);
        }
    }
}

/// Enumerates and normalizes the window set. Entries that do not
/// resolve, the status-indicator pseudo-window, and entries excluded
/// from capture by their sharing state are skipped without aborting
/// the rest of the enumeration. The result is in native front-to-back
/// order; the `j`-th of `m` kept windows carries z-index `m - 1 - j`,
/// and no window is judged both minimized and maximized.
pub fn list_windows(entries: &Vec<RawWindowEntry>, monitors: &Vec<Monitor>) -> (ws: Vec<Window>)
    ensures
        ws@ == spec_list_windows(entries@, monitors@),
        forall|j: int| 0 <= j < ws@.len() ==> (#[trigger] ws@[j]).z == ws@.len() - 1 - j,
        forall|j: int|
            0 <= j < ws@.len() ==> !((#[trigger] ws@[j]).is_minimized && ws@[j].is_maximized),
{
    let ghost kept_full = spec_kept_entries(entries@, monitors@);
    let n = entries.len();
    // Pass one: count the entries the enumerator keeps.
    let mut m: usize = 0;
    let mut i: usize = 0;
    while i < n
        invariant
            n == entries@.len(),
            i <= n,
            m == spec_kept_entries(entries@.take(i as int), monitors@).len(),
            m <= i,
        decreases n - i,
    {
        proof {
            assert(entries@.take(i + 1).drop_last() =~= entries@.take(i as int));
            assert(entries@.take(i + 1).last() == entries@[i as int]);
        }
        if admit_entry(&entries[i], monitors) {
            m += 1;
        }
        i += 1;
    }
    proof {
        assert(entries@.take(n as int) =~= entries@);
    }
    // Pass two: build the kept windows, assigning z-indices downward
    // from the front.
    let mut ws: Vec<Window> = Vec::new();
    let mut j: usize = 0;
    let mut i: usize = 0;
    while i < n
        invariant
            n == entries@.len(),
            i <= n,
            kept_full == spec_kept_entries(entries@, monitors@),
            m == kept_full.len(),
            j == spec_kept_entries(entries@.take(i as int), monitors@).len(),
            j <= m,
            ws@.len() == j,
            forall|t: int| 0 <= t < j ==> ws@[t] == spec_list_windows(entries@, monitors@)[t],
        decreases n - i,
    {
        proof {
            assert(entries@.take(i + 1).drop_last() =~= entries@.take(i as int));
            assert(entries@.take(i + 1).last() == entries@[i as int]);
            lemma_kept_prefix(entries@, monitors@, i as int);
            lemma_kept_prefix(entries@, monitors@, i + 1);
        }
        if admit_entry(&entries[i], monitors) {
            proof {
                let shorter = spec_kept_entries(entries@.take(i as int), monitors@);
                let longer = spec_kept_entries(entries@.take(i + 1), monitors@);
                assert(longer == shorter.push(entries@[i as int]));
                assert(longer[j as int] == entries@[i as int]);
                assert(longer == kept_full.take(longer.len() as int));
                assert(kept_full[j as int] == entries@[i as int]);
            }
            let w = match Window::new(&entries[i], monitors, m - 1 - j) {
                Ok(w) => w,
                Err(_) => {
                    proof {
                        assert(spec_entry_decodes(entries@[i as int], monitors@));
                        assert(false);
                    }
                    return ws;
                },
            };
            ws.push(w);
            j += 1;
        }
        i += 1;
    }
    proof {
        assert(entries@.take(n as int) =~= entries@);
        assert(ws@ =~= spec_list_windows(entries@, monitors@));
    }
    ws
}

/// The enumerator's admission test for one entry.
fn admit_entry(entry: &RawWindowEntry, monitors: &Vec<Monitor>) -> (r: bool)
    ensures
        r == spec_admitted(*entry, monitors@),
{
    let title = match &entry.title {
        Some(t) => t,
        None => {
            return false;
        },
    };
    let app_name = match &entry.app_name {
        Some(a) => a,
        None => {
            return false;
        },
    };
    let status_title = "StatusIndicator".to_owned();
    let server_name = "Window Server".to_owned();
    if title.eq(&status_title) && app_name.eq(&server_name) {
        return false;
    }
    match entry.sharing_state {
        Some(s) => {
            if s == 0 {
                return false;
            }
        },
        None => {
            return false;
        },
    }
    if entry.id.is_none() || entry.pid.is_none() || entry.is_onscreen.is_none() {
        return false;
    }
    let b = match entry.bounds {
        Some(b) => b,
        None => {
            return false;
        },
    };
    associate_monitor(monitors, &b).is_some()
}

/// Some window of the enumeration carries stacking rank `k`.
pub open spec fn spec_has_z(ws: Seq<Window>, k: int) -> bool {
    exists|j: int| 0 <= j < ws.len() && (#[trigger] ws[j]).z == k
}

/// The z-indices of an enumeration are a permutation of `0 .. m-1`:
/// every rank below the window count is carried by some window.
pub proof fn lemma_z_permutation(ws: Seq<Window>)
    requires
        forall|j: int| 0 <= j < ws.len() ==> (#[trigger] ws[j]).z == ws.len() - 1 - j,
    ensures
        forall|k: int| 0 <= k < ws.len() ==> #[trigger] spec_has_z(ws, k),
{
    assert forall|k: int| 0 <= k < ws.len() implies #[trigger] spec_has_z(ws, k) by {
        let j = ws.len() - 1 - k;
        assert(ws[j].z == k);
    }
}

/// Skipping an entry the enumerator does not admit leaves the
/// enumeration of the remaining entries unchanged.
pub proof fn lemma_skip_unadmitted_window(
    entries: Seq<RawWindowEntry>,
    ms: Seq<Monitor>,
    i: int,
)
    requires
        0 <= i < entries.len(),
        !spec_admitted(entries[i], ms),
    ensures
        spec_kept_entries(entries, ms) == spec_kept_entries(entries.remove(i), ms),
    decreases entries.len(),
{
    if entries.len() > 0 {
        if i == entries.len() - 1 {
            assert(entries.remove(i) =~= entries.drop_last());
        } else {
            let shorter = entries.drop_last();
            lemma_skip_unadmitted_window(shorter, ms, i);
            assert(entries.remove(i).drop_last() =~= shorter.remove(i));
            assert(entries.remove(i).last() == entries.last());
        }
    }
}

} // verus!
