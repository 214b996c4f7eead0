//! Integer statistics over fetched issues: completion counts, the rounded
//! completion rate, overdue counts, and the issues assigned to one user.
//! Fractional-hour sums stay outside the library, with the tool bodies.

use vstd::prelude::*;
use crate::models::Issue;
use crate::dates::{Date, date_valid, day_number, spec_parse_ymd};

verus! {

broadcast use vstd::std_specs::vec::group_vec_axioms, vstd::seq::group_seq_axioms;

/// An issue's completion ratio, with the upstream's default of zero.
pub open spec fn ratio_of(issue: Issue) -> int {
    match issue.done_ratio {
        Some(r) => r as int,
        None => 0,
    }
}

/// How many of the issues are complete (ratio one hundred).
pub open spec fn count_completed(s: Seq<Issue>) -> int
    decreases s.len(),
{
    if s.len() == 0 {
        0
    } else {
        (if ratio_of(s.last()) == 100 {
            1int
        } else {
            0int
        }) + count_completed(s.drop_last())
    }
}

/// How many of the issues are started but not complete.
pub open spec fn count_in_progress(s: Seq<Issue>) -> int
    decreases s.len(),
{
    if s.len() == 0 {
        0
    } else {
        (if 0 < ratio_of(s.last()) < 100 {
            1int
        } else {
            0int
        }) + count_in_progress(s.drop_last())
    }
}

/// The counts a project report and the dashboard summarize.
pub struct IssueStats {
    pub total: usize,
    pub completed: usize,
    pub in_progress: usize,
    pub pending: usize,
}

/// Counts the issues by completion: complete, started, untouched.  The
/// three groups partition the issues.
pub fn issue_stats(issues: &Vec<Issue>) -> (r: IssueStats)
    ensures
        r.total == issues@.len(),
        r.completed as int == count_completed(issues@),
        r.in_progress as int == count_in_progress(issues@),
        r.pending as int == r.total - r.completed - r.in_progress,
{
    let mut completed: usize = 0;
    let mut in_progress: usize = 0;
    let mut i: usize = 0;
    while i < issues.len()
        invariant
            i <= issues@.len(),
            completed as int == count_completed(issues@.subrange(0, i as int)),
            in_progress as int == count_in_progress(issues@.subrange(0, i as int)),
            completed + in_progress <= i,
        decreases issues@.len() - i,
    {
        proof {
            assert(issues@.subrange(0, i + 1 as int).drop_last() =~= issues@.subrange(0, i as int));
            assert(issues@.subrange(0, i + 1 as int).last() == issues@[i as int]);
        }
        let ratio = match issues[i].done_ratio {
            Some(r) => r,
            None => 0,
        };
        if ratio == 100 {
            completed = completed + 1;
        } else if ratio > 0 && ratio < 100 {
            in_progress = in_progress + 1;
        }
        i = i + 1;
    }
    proof {
        assert(issues@.subrange(0, issues@.len() as int) =~= issues@);
        lemma_counts_bounded(issues@);
    }
    IssueStats {
        total: issues.len(),
        completed,
        in_progress,
        pending: issues.len() - completed - in_progress,
    }
}

/// The two counted groups never outnumber the issues.
proof fn lemma_counts_bounded(s: Seq<Issue>)
    ensures
        0 <= count_completed(s),
        0 <= count_in_progress(s),
        count_completed(s) + count_in_progress(s) <= s.len(),
    decreases s.len(),
{
    if s.len() > 0 {
        lemma_counts_bounded(s.drop_last());
    }
}

/// The completion rate as a percentage, rounded to the nearest whole
/// number; zero when there is nothing to complete.
pub fn completion_rate_percent(completed: usize, total: usize) -> (r: u32)
    requires
        completed <= total,
    ensures
        total == 0 ==> r == 0,
        total > 0 ==> r as int == (completed * 200 + total) / (2 * total),
        r <= 100,
    {
    if total == 0 {
        return 0;
    }
    proof {
        assert(completed * 200 + total <= total * 201) by (nonlinear_arith)
            requires
                completed <= total,
        ;
        assert((completed * 200 + total) / (2 * total) <= 100) by (nonlinear_arith)
            requires
                completed <= total,
                total > 0,
        ;
    }
    (((completed as u128) * 200 + (total as u128)) / (2 * (total as u128))) as u32
}

/// Whether an issue is overdue on `today`: its due date is past and it is
/// not complete.
pub open spec fn spec_overdue(issue: Issue, today: Date) -> bool {
    match crate::ops::ostr(issue.due_date) {
        Some(text) => match spec_parse_ymd(text, '-') {
            Some(due) => day_number(due) < day_number(today) && ratio_of(issue) < 100,
            None => false,
        },
        None => false,
    }
}

/// How many of the issues are overdue on `today`.
pub open spec fn count_overdue(s: Seq<Issue>, today: Date) -> int
    decreases s.len(),
{
    if s.len() == 0 {
        0
    } else {
        (if spec_overdue(s.last(), today) {
            1int
        } else {
            0int
        }) + count_overdue(s.drop_last(), today)
    }
}

/// Counts the issues whose due date is past and whose work is not done.
pub fn overdue_count(issues: &Vec<Issue>, today: Date) -> (r: usize)
    requires
        date_valid(today),
    ensures
        r as int == count_overdue(issues@, today),
{
    let mut count: usize = 0;
    let mut i: usize = 0;
    while i < issues.len()
        invariant
            i <= issues@.len(),
            date_valid(today),
            count as int == count_overdue(issues@.subrange(0, i as int), today),
            count <= i,
        decreases issues@.len() - i,
    {
        proof {
            assert(issues@.subrange(0, i + 1 as int).drop_last() =~= issues@.subrange(0, i as int));
            assert(issues@.subrange(0, i + 1 as int).last() == issues@[i as int]);
            lemma_count_overdue_nonneg(issues@.subrange(0, i as int), today);
        }
        let overdue = match &issues[i].due_date {
            Some(text) => match crate::dates::parse_date(text.as_str()) {
                Ok(due) => {
                    let past = crate::dates::day_number_exec(due) < crate::dates::day_number_exec(
                        today,
                    );
                    let ratio = match issues[i].done_ratio {
                        Some(r) => r,
                        None => 0,
                    };
                    past && ratio < 100
                },
                Err(_) => false,
            },
            None => false,
        };
        if overdue {
            count = count + 1;
        }
        i = i + 1;
    }
    proof {
        assert(issues@.subrange(0, issues@.len() as int) =~= issues@);
    }
    count
}

/// An overdue count never outnumbers the issues.
proof fn lemma_count_overdue_nonneg(s: Seq<Issue>, today: Date)
    ensures
        0 <= count_overdue(s, today) <= s.len(),
    decreases s.len(),
{
    if s.len() > 0 {
        lemma_count_overdue_nonneg(s.drop_last(), today);
    }
}

/// Whether an issue is assigned to the user.
pub open spec fn spec_assigned_to(issue: Issue, user_id: i32) -> bool {
    match issue.assigned_to {
        Some(u) => u.id == user_id,
        None => false,
    }
}

/// The issues assigned to one user, in their order.
pub fn assigned_issues(issues: Vec<Issue>, user_id: i32) -> (r: Vec<Issue>)
    ensures
        forall|j: int| 0 <= j < r@.len() ==> spec_assigned_to(#[trigger] r@[j], user_id),
        r@.len() <= issues@.len(),
{
    let n = issues.len();
    let mut rest = issues;
    let mut taken: Vec<Issue> = Vec::new();
    // Move matching issues over one by one, preserving order.
    while rest.len() > 0
        invariant
            taken@.len() + rest@.len() <= n,
            forall|j: int| 0 <= j < taken@.len() ==> spec_assigned_to(#[trigger] taken@[j], user_id),
        decreases rest@.len(),
    {
        let issue = rest.remove(0);
        let matches_user = match &issue.assigned_to {
            Some(u) => u.id == user_id,
            None => false,
        };
        if matches_user {
            taken.push(issue);
        }
    }
    taken
}

} // verus!
