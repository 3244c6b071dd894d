use vstd::prelude::*;
use crate::geometry::Rect;

verus! {

/// The least width and height a candidate must strictly exceed: windows at or
/// under this in either dimension are tooltips, tray icons and other
/// non-primary surfaces, and are never selected.
pub const MIN_DIMENSION: i64 = 100;

/// What one scan of the desktop reports about a single top-level window: an
/// opaque handle, the identifier of the process the window belongs to,
/// whether it is currently visible, whether it has an owner window (an owned
/// window is usually a dialog, not a primary surface), and its rectangle.
#[derive(Clone, Copy, PartialEq, Eq, Structural, Debug)]
pub struct WindowInfo {
    pub handle: usize,
    pub pid: u32,
    pub visible: bool,
    pub owned: bool,
    pub rect: Rect,
}

/// A window passes the fixed filters: it belongs to the target process, is
/// visible, and is strictly larger than MIN_DIMENSION in both dimensions.
pub open spec fn qualifies(target_pid: u32, w: WindowInfo) -> bool {
    &&& w.pid == target_pid
    &&& w.visible
    &&& w.rect.spec_width() > MIN_DIMENSION
    &&& w.rect.spec_height() > MIN_DIMENSION
}

/// A window displaces the best candidate found so far (whose area is
/// max_area) exactly when it qualifies, its own area strictly beats max_area,
/// and it is either unowned or more than twice as large as max_area: an owned
/// window has to win by a wide margin to override an accepted candidate.
pub open spec fn accepts(target_pid: u32, max_area: int, w: WindowInfo) -> bool {
    &&& qualifies(target_pid, w)
    &&& w.rect.area() > max_area
    &&& (!w.owned || w.rect.area() > 2 * max_area)
}

/// The outcome of scanning a whole list of windows in order: the index of the
/// last window accepted as best candidate (None when none was), and the
/// greatest area accepted so far (0 until a first candidate is accepted).
pub open spec fn search(target_pid: u32, ws: Seq<WindowInfo>) -> (Option<int>, int)
    decreases ws.len(),
{
    if ws.len() == 0 {
        (None, 0)
    } else {
        let prev = search(target_pid, ws.drop_last());
        if accepts(target_pid, prev.1, ws.last()) {
            (Some(ws.len() - 1), ws.last().rect.area())
        } else {
            prev
        }
    }
}

/// Transient state of one search attempt: the process searched for, the index
/// of the best candidate found so far in this attempt's scan, and the
/// greatest area accepted so far. Created fresh per attempt, discarded after.
pub struct CandidateSearchState {
    pub target_pid: u32,
    pub best: Option<usize>,
    pub max_area: i128,
}

impl CandidateSearchState {
    /// max_area is 0 until a candidate is accepted, and afterwards is the
    /// accepted window's area, positive and below 2^64 (its factors are
    /// differences of 32-bit edges).
    pub open spec fn wf(self) -> bool {
        match self.best {
            Some(_) => 0 < self.max_area < 0x1_0000_0000_0000_0000,
            None => self.max_area == 0,
        }
    }

    pub fn new(target_pid: u32) -> (s: Self)
        ensures
            s.wf(),
            s == (CandidateSearchState { target_pid, best: None, max_area: 0 as i128 }),
    {
        CandidateSearchState { target_pid, best: None, max_area: 0 }
    }

    /// One enumeration step: window w, standing at the given index of this
    /// attempt's scan, becomes the best candidate exactly when the acceptance
    /// rule says so; otherwise nothing changes. max_area thus strictly
    /// increases exactly when a strictly better candidate is accepted, and
    /// best always points at the last accepted candidate.
    pub fn consider(&mut self, index: usize, w: &WindowInfo)
        requires
            old(self).wf(),
        ensures
            final(self).wf(),
            final(self).target_pid == old(self).target_pid,
            accepts(old(self).target_pid, old(self).max_area as int, *w) ==> final(self).best
                == Some(index) && final(self).max_area as int == w.rect.area(),
            !accepts(old(self).target_pid, old(self).max_area as int, *w) ==> *final(self) == *old(
                self,
            ),
    {
        let w_width: i64 = w.rect.width();
        let w_height: i64 = w.rect.height();
        if w.pid == self.target_pid && w.visible && w_width > MIN_DIMENSION && w_height
            > MIN_DIMENSION {
            proof {
                assert(0 < w_width * w_height < 0x1_0000_0000_0000_0000) by (nonlinear_arith)
                    requires
                        100 < w_width < 0x1_0000_0000,
                        100 < w_height < 0x1_0000_0000,
                ;
            }
            let area: i128 = (w_width as i128) * (w_height as i128);
            if area > self.max_area && (!w.owned || area > 2 * self.max_area) {
                self.best = Some(index);
                self.max_area = area;
            }
        }
    }
}

/// Scans every window of one attempt exactly once, in the order given, and
/// returns the index of the window judged most likely to be the target
/// process's main window, or None when no window qualifies. Enumeration never
/// stops early: a larger later candidate may still displace an earlier one.
pub fn select_candidate(target_pid: u32, windows: &Vec<WindowInfo>) -> (r: Option<usize>)
    ensures
        ({
            let best = search(target_pid, windows@).0;
            match r {
                Some(i) => best == Some(i as int) && i < windows.len() && qualifies(
                    target_pid,
                    windows@[i as int],
                ),
                None => best is None,
            }
        }),
{
    let mut state = CandidateSearchState::new(target_pid);
    let mut i: usize = 0;
    while i < windows.len()
        invariant
            i <= windows.len(),
            state.wf(),
            state.target_pid == target_pid,
            ({
                let p = search(target_pid, windows@.take(i as int));
                &&& state.max_area as int == p.1
                &&& match state.best {
                    Some(b) => p.0 == Some(b as int) && b < i,
                    None => p.0 is None,
                }
            }),
        decreases windows.len() - i,
    {
        let w = windows[i];
        state.consider(i, &w);
        proof {
            assert(windows@.take(i + 1).drop_last() =~= windows@.take(i as int));
            assert(windows@.take(i + 1).last() == windows@[i as int]);
        }
        i = i + 1;
    }
    proof {
        assert(windows@.take(windows.len() as int) =~= windows@);
        if state.best is Some {
            lemma_search_sound(target_pid, windows@);
        }
    }
    state.best
}

/// Every unowned qualifying window in the scan has area at most a.
pub open spec fn dominates_unowned(target_pid: u32, ws: Seq<WindowInfo>, a: int) -> bool {
    forall|j: int|
        0 <= j < ws.len() && qualifies(target_pid, ws[j]) && !ws[j].owned ==> ws[j].rect.area() <= a
}

/// The window at index i has more than twice the area of every unowned
/// qualifying window that stands before it in the scan.
pub open spec fn doubles_unowned_before(target_pid: u32, ws: Seq<WindowInfo>, i: int) -> bool {
    forall|j: int|
        0 <= j < i && qualifies(target_pid, ws[j]) && !ws[j].owned ==> 2 * ws[j].rect.area()
            < ws[i].rect.area()
}

/// The facts the fold maintains: the running maximum is the area of the
/// current best candidate (0 without one), it dominates every unowned
/// qualifying window seen, an owned best had to beat twice the maximum that
/// stood when it was accepted, and a scan that contains an unowned qualifying
/// window never comes back empty-handed.
proof fn lemma_search_sound(target_pid: u32, ws: Seq<WindowInfo>)
    ensures
        ({
            let p = search(target_pid, ws);
            &&& 0 <= p.1 < 0x1_0000_0000_0000_0000
            &&& p.0 is None ==> p.1 == 0
            &&& (p.0 matches Some(i) ==> 0 <= i < ws.len() && qualifies(target_pid, ws[i]) && p.1
                == ws[i].rect.area() && p.1 > 0)
            &&& dominates_unowned(target_pid, ws, p.1)
            &&& (p.0 is None ==> forall|j: int|
                0 <= j < ws.len() ==> !(qualifies(target_pid, ws[j]) && !ws[j].owned))
            &&& (p.0 matches Some(i) ==> (ws[i].owned ==> doubles_unowned_before(
                target_pid,
                ws,
                i,
            )))
        }),
    decreases ws.len(),
{
    if ws.len() == 0 {
    } else {
        lemma_search_sound(target_pid, ws.drop_last());
        let prev = search(target_pid, ws.drop_last());
        let w = ws.last();
        assert(forall|j: int| 0 <= j < ws.len() - 1 ==> ws[j] == ws.drop_last()[j]);
        if qualifies(target_pid, w) {
            assert(0 < w.rect.spec_width() < 0x1_0000_0000);
            assert(0 < w.rect.spec_height() < 0x1_0000_0000);
            assert(0 < w.rect.area() < 0x1_0000_0000_0000_0000) by (nonlinear_arith)
                requires
                    0 < w.rect.spec_width() < 0x1_0000_0000,
                    0 < w.rect.spec_height() < 0x1_0000_0000,
                    w.rect.area() == w.rect.spec_width() * w.rect.spec_height(),
            ;
        }
    }
}

/// The selection never loses to an available unowned qualifying window: when
/// any unowned qualifying window is in the scan something is selected, the
/// selected window's area is at least every unowned qualifying window's area,
/// and a selected owned window beat more than twice the area of every unowned
/// qualifying window scanned before it.
pub proof fn lemma_selection_favors_unowned(target_pid: u32, ws: Seq<WindowInfo>)
    ensures
        (exists|j: int| 0 <= j < ws.len() && qualifies(target_pid, ws[j]) && !ws[j].owned)
            ==> search(target_pid, ws).0 is Some,
        search(target_pid, ws).0 matches Some(i) ==> dominates_unowned(
            target_pid,
            ws,
            ws[i].rect.area(),
        ),
        search(target_pid, ws).0 matches Some(i) ==> (ws[i].owned ==> doubles_unowned_before(
            target_pid,
            ws,
            i,
        )),
{
    lemma_search_sound(target_pid, ws);
}

/// Whatever the scan held, a selected window always passed every filter: it
/// belongs to the target process, is visible, and strictly exceeds
/// MIN_DIMENSION in width and in height. Windows of another process,
/// invisible windows, and windows small in either dimension are never
/// selected, regardless of area.
pub proof fn lemma_selected_window_qualifies(target_pid: u32, ws: Seq<WindowInfo>)
    ensures
        search(target_pid, ws).0 matches Some(i) ==> {
            &&& 0 <= i < ws.len()
            &&& ws[i].pid == target_pid
            &&& ws[i].visible
            &&& ws[i].rect.spec_width() > MIN_DIMENSION
            &&& ws[i].rect.spec_height() > MIN_DIMENSION
        },
{
    lemma_search_sound(target_pid, ws);
}

} // verus!
