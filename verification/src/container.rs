//! Desktop container discovery: the accumulator threaded through the
//! operating system's top-level window enumeration. For each enumerated
//! window the embedding program reports whether it has a direct child of the
//! icon-view class and which sibling of the worker class follows it; the
//! accumulator records the first qualifying match and never overwrites it.

use vstd::prelude::*;
use crate::handles::WindowHandle;

verus! {

/// What one enumerated top-level window looks like: whether it has a direct
/// child of the icon-view class, and the worker-class sibling found next
/// after it (the null handle when there is none).
#[derive(Clone, Copy, PartialEq, Eq, Structural, Debug)]
pub struct EnumReport {
    pub has_icon_view_child: bool,
    pub sibling_worker: WindowHandle,
}

impl EnumReport {
    /// A top-level window qualifies when it anchors the icon view and a
    /// valid worker-class sibling stands beside it: that sibling is the
    /// wallpaper container.
    pub open spec fn qualifies(&self) -> bool {
        self.has_icon_view_child && self.sibling_worker.spec_is_valid()
    }
}

/// The accumulator threaded through window enumeration. It holds at most one
/// discovered container handle and is written at most once.
#[derive(Clone, Copy, PartialEq, Eq, Structural, Debug)]
pub struct ContainerSearch {
    pub found: Option<WindowHandle>,
}

impl ContainerSearch {
    /// Whatever the accumulator holds is a valid handle.
    pub open spec fn wf(&self) -> bool {
        self.found is Some ==> self.found->0.spec_is_valid()
    }

    /// A fresh accumulator holding no match.
    pub fn new() -> (s: ContainerSearch)
        ensures
            s.found is None,
            s.wf(),
    {
        ContainerSearch { found: None }
    }

    /// The accumulator after seeing one enumerated window, as a value: the
    /// first qualifying window's sibling is kept, everything later ignored.
    pub open spec fn spec_on_window(self, report: EnumReport) -> ContainerSearch {
        if self.found is Some {
            self
        } else if report.qualifies() {
            ContainerSearch { found: Some(report.sibling_worker) }
        } else {
            self
        }
    }

    /// Record one enumerated window. The write happens at most once: once a
    /// match is held, later qualifying windows do not overwrite it. Returns
    /// whether enumeration should continue, which it always does, as the
    /// enumeration callback contract does not let a match short-circuit it.
    pub fn on_window(&mut self, report: EnumReport) -> (proceed: bool)
        requires
            old(self).wf(),
        ensures
            *final(self) == old(self).spec_on_window(report),
            final(self).wf(),
            old(self).found is Some ==> final(self).found == old(self).found,
            old(self).found is None && report.qualifies()
                ==> final(self).found == Some(report.sibling_worker),
            old(self).found is None && !report.qualifies()
                ==> final(self).found is None,
            proceed,
    {
        if self.found.is_none() && report.has_icon_view_child && report.sibling_worker.is_valid() {
            self.found = Some(report.sibling_worker);
        }
        true
    }
}

/// What a whole enumeration discovers, as a value: the worker sibling of the
/// first qualifying window in the order the reports arrive, if any.
pub open spec fn discover_spec(reports: Seq<EnumReport>) -> Option<WindowHandle>
    decreases reports.len(),
{
    if reports.len() == 0 {
        None
    } else if reports[0].qualifies() {
        Some(reports[0].sibling_worker)
    } else {
        discover_spec(reports.drop_first())
    }
}

/// Run the whole enumeration against a pre-recorded sequence of reports, one
/// per enumerated top-level window, visiting every report as the operating
/// system's enumeration would.
pub fn discover_from_reports(reports: &Vec<EnumReport>) -> (found: Option<WindowHandle>)
    ensures
        found == discover_spec(reports@),
{
    let mut search = ContainerSearch::new();
    proof {
        assert(reports@.skip(0) =~= reports@);
    }
    let mut i: usize = 0;
    while i < reports.len()
        invariant
            i <= reports.len(),
            search.wf(),
            discover_spec(reports@) == match search.found {
                Some(h) => Some(h),
                None => discover_spec(reports@.skip(i as int)),
            },
        decreases reports.len() - i,
    {
        proof {
            assert(reports@.skip(i as int)[0] == reports@[i as int]);
            assert(reports@.skip(i as int).drop_first() =~= reports@.skip(i + 1));
        }
        let _proceed = search.on_window(reports[i]);
        i = i + 1;
    }
    search.found
}

/// The accumulator is written at most once: after any sequence of reports in
/// which some window qualifies, the accumulator holds the sibling of the
/// first qualifying window, whatever qualifying windows follow it.
pub proof fn lemma_first_match_wins(reports: Seq<EnumReport>, i: int)
    requires
        0 <= i < reports.len(),
        reports[i].qualifies(),
        forall|j: int| 0 <= j < i ==> !reports[j].qualifies(),
    ensures
        discover_spec(reports) == Some(reports[i].sibling_worker),
    decreases i,
{
    if i > 0 {
        lemma_first_match_wins(reports.drop_first(), i - 1);
    }
}

/// Enumeration that never sees a qualifying window discovers nothing.
pub proof fn lemma_no_match_no_container(reports: Seq<EnumReport>)
    requires
        forall|i: int| 0 <= i < reports.len() ==> !reports[i].qualifies(),
    ensures
        discover_spec(reports) is None,
    decreases reports.len(),
{
    if reports.len() > 0 {
        lemma_no_match_no_container(reports.drop_first());
    }
}

} // verus!
