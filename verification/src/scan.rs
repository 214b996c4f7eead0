//! The enumeration scanner: a bounded pagination scan over issues that
//! aggregates the distinct status, priority and tracker id-to-name pairs.
//!
//! The scan fetches pages of a fixed size and stops at the first empty page,
//! when the running offset reaches the reported total count, or after a hard
//! cap of pages — whichever comes first.  The cap bounds the worst case and
//! is a documented completeness gap: a larger upstream data set yields an
//! incomplete enumeration without an error signal.  Names are assumed stable
//! per id, so which occurrence of an id supplies the name is immaterial;
//! later occurrences overwrite earlier ones.

use vstd::prelude::*;
use crate::models::{EnumerationValue, Issue, IssuesResponse, IssueEnumerationsResponse};
use crate::ops::ListIssuesParams;

verus! {

broadcast use vstd::std_specs::vec::group_vec_axioms, vstd::seq::group_seq_axioms;

/// The page size each scan request asks for.
pub const SCAN_PAGE_SIZE: u32 = 100;

/// The hard cap on scanned pages.
pub const SCAN_MAX_PAGES: u32 = 20;

/// Looks an id up in an aggregation list.
pub open spec fn ev_lookup(s: Seq<EnumerationValue>, id: i32) -> Option<Seq<char>>
    decreases s.len(),
{
    if s.len() == 0 {
        None
    } else if s[0].id == id {
        Some(s[0].name@)
    } else {
        ev_lookup(s.subrange(1, s.len() as int), id)
    }
}

/// Strictly ascending ids: sorted output and no duplicate ids.
pub open spec fn ev_sorted(s: Seq<EnumerationValue>) -> bool {
    forall|i: int, j: int| 0 <= i < j < s.len() ==> (#[trigger] s[i].id) < (#[trigger] s[j].id)
}

/// The running state of one enumeration scan.
pub struct ScanState {
    pub statuses: Vec<EnumerationValue>,
    pub priorities: Vec<EnumerationValue>,
    pub trackers: Vec<EnumerationValue>,
    pub offset: u32,
    pub iteration: u32,
}

impl ScanState {
    /// All three aggregation lists are sorted with distinct ids.
    pub open spec fn wf(self) -> bool {
        &&& ev_sorted(self.statuses@)
        &&& ev_sorted(self.priorities@)
        &&& ev_sorted(self.trackers@)
    }
}

/// A fresh scan: nothing aggregated, offset zero, no pages fetched.
pub fn scan_begin() -> (r: ScanState)
    ensures
        r.wf(),
        r.offset == 0,
        r.iteration == 0,
        r.statuses@.len() == 0,
        r.priorities@.len() == 0,
        r.trackers@.len() == 0,
{
    ScanState {
        statuses: Vec::new(),
        priorities: Vec::new(),
        trackers: Vec::new(),
        offset: 0,
        iteration: 0,
    }
}

/// Whether the hard page cap stops the scan before another fetch.
pub fn scan_at_cap(state: &ScanState) -> (r: bool)
    ensures
        r == (state.iteration >= SCAN_MAX_PAGES),
{
    state.iteration >= SCAN_MAX_PAGES
}

/// The issue list parameters for the next page of this scan.
pub fn scan_request(project_id: Option<i32>, state: &ScanState) -> (p: ListIssuesParams)
    ensures
        p.project_id == project_id,
        p.limit == Some(SCAN_PAGE_SIZE),
        p.offset == Some(state.offset),
        p.includes is None && p.easy_query_q is None && p.set_filter is None && p.sort is None
            && p.assigned_to_id is None && p.status_id is None && p.tracker_id is None
            && p.priority_id is None,
{
    ListIssuesParams {
        project_id,
        limit: Some(SCAN_PAGE_SIZE),
        offset: Some(state.offset),
        includes: None,
        easy_query_q: None,
        set_filter: None,
        sort: None,
        assigned_to_id: None,
        status_id: None,
        tracker_id: None,
        priority_id: None,
    }
}

fn ev_upsert(s: &mut Vec<EnumerationValue>, id: i32, name: &String)
    requires
        ev_sorted(old(s)@),
    ensures
        ev_sorted(final(s)@),
        ev_lookup(final(s)@, id) == Some(name@),
        forall|id2: i32| id2 != id ==> #[trigger] ev_lookup(final(s)@, id2) == ev_lookup(
            old(s)@,
            id2,
        ),
    decreases old(s)@.len(),
{
    // Find the insertion point by id.
    let mut i: usize = 0;
    while i < s.len() && s[i].id < id
        invariant
            i <= s@.len(),
            s@ == old(s)@,
            forall|j: int| 0 <= j < i ==> (#[trigger] s@[j].id) < id,
        decreases s@.len() - i,
    {
        i = i + 1;
    }
    let ghost pre = s@;
    if i < s.len() && s[i].id == id {
        // Overwrite: a later occurrence wins; names are stable per id.
        let replacement = EnumerationValue { id, name: name.clone() };
        s.set(i, replacement);
        proof {
            assert forall|a: int, b: int| 0 <= a < b < s@.len() implies (#[trigger] s@[a].id) < (
            #[trigger] s@[b].id) by {
                assert(pre[a].id < pre[b].id);
            }
            lemma_ev_lookup_at(s@, i as int);
            lemma_ev_lookup_frame(pre, s@, i as int);
        }
    } else {
        let inserted = EnumerationValue { id, name: name.clone() };
        s.insert(i, inserted);
        proof {
            assert forall|a: int, b: int| 0 <= a < b < s@.len() implies (#[trigger] s@[a].id) < (
            #[trigger] s@[b].id) by {
                let pa: int = if a < i {
                    a
                } else {
                    a - 1
                };
                let pb: int = if b < i {
                    b
                } else {
                    b - 1
                };
                if a != i && b != i {
                    assert(s@[a] == pre[pa] && s@[b] == pre[pb]);
                } else if a == i {
                    assert(s@[b] == pre[pb]);
                    assert(pre[pb].id >= id);
                    assert(pre[pb].id != id);
                } else {
                    assert(s@[a] == pre[pa]);
                }
            }
            lemma_ev_lookup_at(s@, i as int);
            lemma_ev_lookup_frame_insert(pre, s@, i as int);
        }
    }
}

/// In a sorted list, lookup of the id at a position finds that entry.
proof fn lemma_ev_lookup_at(s: Seq<EnumerationValue>, i: int)
    requires
        ev_sorted(s),
        0 <= i < s.len(),
    ensures
        ev_lookup(s, s[i].id) == Some(s[i].name@),
    decreases s.len(),
{
    if i > 0 {
        assert(s[0].id < s[i].id);
        let rest = s.subrange(1, s.len() as int);
        assert(rest[i - 1] == s[i]);
        assert forall|a: int, b: int| 0 <= a < b < rest.len() implies (#[trigger] rest[a].id) < (
        #[trigger] rest[b].id) by {
            assert(rest[a] == s[a + 1] && rest[b] == s[b + 1]);
        }
        lemma_ev_lookup_at(rest, i - 1);
    }
}

/// Replacing the entry at one position leaves every other id's lookup alone.
proof fn lemma_ev_lookup_frame(pre: Seq<EnumerationValue>, post: Seq<EnumerationValue>, i: int)
    requires
        0 <= i < pre.len(),
        post.len() == pre.len(),
        post[i].id == pre[i].id,
        forall|j: int| 0 <= j < pre.len() && j != i ==> #[trigger] post[j] == pre[j],
    ensures
        forall|id2: i32| id2 != pre[i].id ==> #[trigger] ev_lookup(post, id2) == ev_lookup(
            pre,
            id2,
        ),
    decreases pre.len(),
{
    assert forall|id2: i32| id2 != pre[i].id implies #[trigger] ev_lookup(post, id2) == ev_lookup(
        pre,
        id2,
    ) by {
        if i == 0 {
            assert(post.subrange(1, post.len() as int) =~= pre.subrange(1, pre.len() as int));
        } else {
            assert(post[0] == pre[0]);
            let prer = pre.subrange(1, pre.len() as int);
            let postr = post.subrange(1, post.len() as int);
            assert(postr[i - 1].id == prer[i - 1].id);
            assert forall|j: int| 0 <= j < prer.len() && j != i - 1 implies #[trigger] postr[j]
                == prer[j] by {
                assert(postr[j] == post[j + 1]);
                assert(prer[j] == pre[j + 1]);
            }
            lemma_ev_lookup_frame(prer, postr, i - 1);
            assert(ev_lookup(post, id2) == ev_lookup(postr, id2) || (post[0].id == id2
                && ev_lookup(post, id2) == Some(post[0].name@)));
            assert(ev_lookup(pre, id2) == ev_lookup(prer, id2) || (pre[0].id == id2 && ev_lookup(
                pre,
                id2,
            ) == Some(pre[0].name@)));
        }
    }
}

/// Inserting an entry with a new id leaves every other id's lookup alone.
proof fn lemma_ev_lookup_frame_insert(
    pre: Seq<EnumerationValue>,
    post: Seq<EnumerationValue>,
    i: int,
)
    requires
        0 <= i <= pre.len(),
        post.len() == pre.len() + 1,
        forall|j: int| 0 <= j < i ==> #[trigger] post[j] == pre[j],
        forall|j: int| i <= j < pre.len() ==> #[trigger] post[j + 1] == pre[j],
    ensures
        forall|id2: i32| id2 != post[i].id ==> #[trigger] ev_lookup(post, id2) == ev_lookup(
            pre,
            id2,
        ),
    decreases pre.len(),
{
    assert forall|id2: i32| id2 != post[i].id implies #[trigger] ev_lookup(post, id2) == ev_lookup(
        pre,
        id2,
    ) by {
        if i == 0 {
            assert(post.subrange(1, post.len() as int) =~= pre);
        } else {
            assert(post[0] == pre[0]);
            let prer = pre.subrange(1, pre.len() as int);
            let postr = post.subrange(1, post.len() as int);
            assert(postr[i - 1] == post[i]);
            assert forall|j: int| 0 <= j < i - 1 implies #[trigger] postr[j] == prer[j] by {
                assert(postr[j] == post[j + 1]);
                assert(prer[j] == pre[j + 1]);
            }
            assert forall|j: int| i - 1 <= j < prer.len() implies #[trigger] postr[j + 1]
                == prer[j] by {
                assert(postr[j + 1] == post[j + 2]);
                assert(prer[j] == pre[j + 1]);
            }
            lemma_ev_lookup_frame_insert(prer, postr, i - 1);
            assert(ev_lookup(post, id2) == ev_lookup(postr, id2) || (post[0].id == id2
                && ev_lookup(post, id2) == Some(post[0].name@)));
            assert(ev_lookup(pre, id2) == ev_lookup(prer, id2) || (pre[0].id == id2 && ev_lookup(
                pre,
                id2,
            ) == Some(pre[0].name@)));
        }
    }
}

/// The status name the last issue in `s` carrying status `id` gives it.
pub open spec fn last_status_name(s: Seq<Issue>, id: i32) -> Option<Seq<char>>
    decreases s.len(),
{
    if s.len() == 0 {
        None
    } else if s.last().status.id == id {
        Some(s.last().status.name@)
    } else {
        last_status_name(s.drop_last(), id)
    }
}

/// The priority name the last issue in `s` carrying priority `id` gives it.
pub open spec fn last_priority_name(s: Seq<Issue>, id: i32) -> Option<Seq<char>>
    decreases s.len(),
{
    if s.len() == 0 {
        None
    } else if s.last().priority.id == id {
        Some(s.last().priority.name@)
    } else {
        last_priority_name(s.drop_last(), id)
    }
}

/// The tracker name the last issue in `s` carrying tracker `id` gives it.
pub open spec fn last_tracker_name(s: Seq<Issue>, id: i32) -> Option<Seq<char>>
    decreases s.len(),
{
    if s.len() == 0 {
        None
    } else if s.last().tracker.id == id {
        Some(s.last().tracker.name@)
    } else {
        last_tracker_name(s.drop_last(), id)
    }
}

/// What one absorbed page leaves an aggregation list serving for each id:
/// the name the page's last carrier of that id gives it, or what the list
/// already served.
pub open spec fn absorbed(
    observed: Option<Seq<char>>,
    before: Option<Seq<char>>,
) -> Option<Seq<char>> {
    match observed {
        Some(nm) => Some(nm),
        None => before,
    }
}

/// Absorbs one fetched page and decides whether the scan is finished.
///
/// The returned flag is true exactly when this page was empty or the
/// running offset has reached the reported total count (or, without a
/// reported total, this page's length).  The page counter always advances
/// by one; the offset advances by the page size on a non-empty page.  Each
/// aggregation list afterwards serves, for every id, exactly the name the
/// page's last carrier of that id gave it — later observations win — and,
/// for ids the page never carried, exactly what it served before.
pub fn scan_absorb(state: &mut ScanState, resp: &IssuesResponse) -> (stop: bool)
    requires
        old(state).wf(),
        old(state).iteration < SCAN_MAX_PAGES,
        old(state).offset <= 0x7FFFFF00u32,
    ensures
        final(state).wf(),
        final(state).iteration == old(state).iteration + 1,
        resp.issues@.len() == 0 ==> stop && *final(state) == (ScanState {
            iteration: (old(state).iteration + 1) as u32,
            ..*old(state)
        }),
        resp.issues@.len() > 0 ==> ({
            &&& final(state).offset == old(state).offset + SCAN_PAGE_SIZE
            &&& stop == (final(state).offset >= (match resp.total_count {
                Some(t) => t,
                None => resp.issues@.len() as i32,
            }))
            &&& forall|id2: i32|
                #[trigger] ev_lookup(final(state).statuses@, id2) == absorbed(
                    last_status_name(resp.issues@, id2),
                    ev_lookup(old(state).statuses@, id2),
                )
            &&& forall|id2: i32|
                #[trigger] ev_lookup(final(state).priorities@, id2) == absorbed(
                    last_priority_name(resp.issues@, id2),
                    ev_lookup(old(state).priorities@, id2),
                )
            &&& forall|id2: i32|
                #[trigger] ev_lookup(final(state).trackers@, id2) == absorbed(
                    last_tracker_name(resp.issues@, id2),
                    ev_lookup(old(state).trackers@, id2),
                )
        }),
{
    state.iteration = state.iteration + 1;
    if resp.issues.len() == 0 {
        return true;
    }
    let mut j: usize = 0;
    while j < resp.issues.len()
        invariant
            j <= resp.issues@.len(),
            state.wf(),
            state.offset == old(state).offset,
            state.iteration == old(state).iteration + 1,
            forall|id2: i32|
                #[trigger] ev_lookup(state.statuses@, id2) == absorbed(
                    last_status_name(resp.issues@.subrange(0, j as int), id2),
                    ev_lookup(old(state).statuses@, id2),
                ),
            forall|id2: i32|
                #[trigger] ev_lookup(state.priorities@, id2) == absorbed(
                    last_priority_name(resp.issues@.subrange(0, j as int), id2),
                    ev_lookup(old(state).priorities@, id2),
                ),
            forall|id2: i32|
                #[trigger] ev_lookup(state.trackers@, id2) == absorbed(
                    last_tracker_name(resp.issues@.subrange(0, j as int), id2),
                    ev_lookup(old(state).trackers@, id2),
                ),
        decreases resp.issues@.len() - j,
    {
        let ghost pre_statuses = state.statuses@;
        let ghost pre_priorities = state.priorities@;
        let ghost pre_trackers = state.trackers@;
        let issue = &resp.issues[j];
        ev_upsert(&mut state.statuses, issue.status.id, &issue.status.name);
        ev_upsert(&mut state.priorities, issue.priority.id, &issue.priority.name);
        ev_upsert(&mut state.trackers, issue.tracker.id, &issue.tracker.name);
        proof {
            let pre = resp.issues@.subrange(0, j as int);
            let post = resp.issues@.subrange(0, j + 1 as int);
            assert(post.drop_last() =~= pre);
            assert(post.last() == resp.issues@[j as int]);
            assert forall|id2: i32| #[trigger] ev_lookup(state.statuses@, id2) == absorbed(
                last_status_name(post, id2),
                ev_lookup(old(state).statuses@, id2),
            ) by {
                if id2 != resp.issues@[j as int].status.id {
                    assert(ev_lookup(state.statuses@, id2) == ev_lookup(pre_statuses, id2));
                }
            }
            assert forall|id2: i32| #[trigger] ev_lookup(state.priorities@, id2) == absorbed(
                last_priority_name(post, id2),
                ev_lookup(old(state).priorities@, id2),
            ) by {
                if id2 != resp.issues@[j as int].priority.id {
                    assert(ev_lookup(state.priorities@, id2) == ev_lookup(pre_priorities, id2));
                }
            }
            assert forall|id2: i32| #[trigger] ev_lookup(state.trackers@, id2) == absorbed(
                last_tracker_name(post, id2),
                ev_lookup(old(state).trackers@, id2),
            ) by {
                if id2 != resp.issues@[j as int].tracker.id {
                    assert(ev_lookup(state.trackers@, id2) == ev_lookup(pre_trackers, id2));
                }
            }
        }
        j = j + 1;
    }
    proof {
        assert(resp.issues@.subrange(0, resp.issues@.len() as int) =~= resp.issues@);
    }
    let total: i32 = match resp.total_count {
        Some(t) => t,
        None => resp.issues.len() as i32,
    };
    state.offset = state.offset + SCAN_PAGE_SIZE;
    if total <= 0 {
        return true;
    }
    state.offset >= total as u32
}

/// Ends the scan, handing the three sorted enumeration lists out.
pub fn scan_finish(state: ScanState) -> (r: IssueEnumerationsResponse)
    requires
        state.wf(),
    ensures
        ev_sorted(r.statuses@),
        ev_sorted(r.priorities@),
        ev_sorted(r.trackers@),
        r.statuses@ == state.statuses@,
        r.priorities@ == state.priorities@,
        r.trackers@ == state.trackers@,
{
    IssueEnumerationsResponse {
        statuses: state.statuses,
        priorities: state.priorities,
        trackers: state.trackers,
    }
}

} // verus!
