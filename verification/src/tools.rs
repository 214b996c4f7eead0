//! The tool layer's argument handling: decoding call arguments into
//! operation parameters, applying the documented defaults, and merging a
//! partial issue update over the issue's current state.

use vstd::prelude::*;
use crate::json::JsonValue;
use crate::models::{Issue, CreateIssue, CreateIssueRequest, jget_i32, jopt_i32, jopt_str};
use crate::ops::{ListProjectsParams, ostr};

verus! {

broadcast use vstd::std_specs::vec::group_vec_axioms, vstd::seq::group_seq_axioms;

/// The completion ratio a task is marked with when none is given.
pub fn default_done_ratio() -> (r: i32)
    ensures
        r == 100,
{
    100
}

/// The page size used when a caller names none.
pub const DEFAULT_PAGE_LIMIT: u32 = 25;

/// Decodes the project list tool's arguments; decoding never fails.  The
/// default page size is applied here, by the tool layer, never by the
/// operation layer: absent or negative limits mean twenty-five, and every
/// other field is carried over exactly (an unusable value counts as absent).
pub fn list_projects_args(arguments: Option<&JsonValue>) -> (r: Result<ListProjectsParams, String>)
    ensures
        r matches Ok(p) && (match arguments {
            None => p.limit == Some(DEFAULT_PAGE_LIMIT) && p.offset is None && p.include_archived
                is None && p.easy_query_q is None && p.set_filter is None && p.sort is None,
            Some(v) => {
                &&& p.limit == (match jopt_i32(v.jm(), "limit"@) {
                    Some(Some(n)) => if n >= 0 {
                        Some(n as u32)
                    } else {
                        Some(DEFAULT_PAGE_LIMIT)
                    },
                    _ => Some(DEFAULT_PAGE_LIMIT),
                })
                &&& p.offset == (match jopt_i32(v.jm(), "offset"@) {
                    Some(Some(n)) => if n >= 0 {
                        Some(n as u32)
                    } else {
                        None
                    },
                    _ => None,
                })
                &&& p.include_archived == (match crate::models::jopt_bool(
                    v.jm(),
                    "include_archived"@,
                ) {
                    Some(b) => b,
                    None => None,
                })
                &&& ostr(p.easy_query_q) == (match jopt_str(v.jm(), "search"@) {
                    Some(q) => q,
                    None => None,
                })
                &&& p.set_filter is None
                &&& ostr(p.sort) == (match jopt_str(v.jm(), "sort"@) {
                    Some(q) => q,
                    None => None,
                })
            },
        }),
{
    match arguments {
        None => Ok(
            ListProjectsParams {
                limit: Some(DEFAULT_PAGE_LIMIT),
                offset: None,
                include_archived: None,
                easy_query_q: None,
                set_filter: None,
                sort: None,
            },
        ),
        Some(v) => {
            let limit: Option<u32> = match crate::models::opt_i32(v, "limit") {
                Some(Some(n)) => {
                    if n >= 0 {
                        Some(n as u32)
                    } else {
                        Some(DEFAULT_PAGE_LIMIT)
                    }
                },
                _ => Some(DEFAULT_PAGE_LIMIT),
            };
            let offset: Option<u32> = match crate::models::opt_i32(v, "offset") {
                Some(Some(n)) => {
                    if n >= 0 {
                        Some(n as u32)
                    } else {
                        None
                    }
                },
                _ => None,
            };
            let include_archived = match crate::models::opt_bool(v, "include_archived") {
                Some(b) => b,
                None => None,
            };
            let easy_query_q = match crate::models::opt_str(v, "search") {
                Some(q) => q,
                None => None,
            };
            let sort = match crate::models::opt_str(v, "sort") {
                Some(q) => q,
                None => None,
            };
            Ok(
                ListProjectsParams {
                    limit,
                    offset,
                    include_archived,
                    easy_query_q,
                    set_filter: None,
                    sort,
                },
            )
        },
    }
}

/// Decodes a required entity id argument.
pub fn id_arg(arguments: Option<&JsonValue>) -> (r: Result<i32, String>)
    ensures
        match r {
            Ok(id) => (match arguments {
                Some(v) => jget_i32(v.jm(), "id"@) == Some(id),
                None => false,
            }),
            Err(_) => (match arguments {
                Some(v) => jget_i32(v.jm(), "id"@) is None,
                None => true,
            }),
    },
{
    match arguments {
        None => Err("Chybí povinný parametr 'id'".to_owned()),
        Some(v) => match crate::models::get_i32(v, "id") {
            Some(id) => Ok(id),
            None => Err("Chybí povinný parametr 'id'".to_owned()),
        },
    }
}

/// A partial issue update, as a tool receives it.
pub struct UpdateIssueArgs {
    pub id: i32,
    pub subject: Option<String>,
    pub description: Option<String>,
    pub status_id: Option<i32>,
    pub priority_id: Option<i32>,
    pub assigned_to_id: Option<i32>,
    pub done_ratio: Option<i32>,
    pub estimated_hours: Option<String>,
    pub start_date: Option<String>,
    pub due_date: Option<String>,
}

/// Merges a partial update over the issue's current state: every named field
/// replaces the current value, every unnamed field keeps it, and the fields
/// no update can touch (project, tracker, category, version, parent) are
/// carried through from the current state.
pub fn merge_issue_update(current: &Issue, args: &UpdateIssueArgs) -> (r: CreateIssueRequest)
    ensures
        r.issue.project_id == current.project.id,
        r.issue.tracker_id == current.tracker.id,
        r.issue.status_id == (match args.status_id {
            Some(v) => v,
            None => current.status.id,
        }),
        r.issue.priority_id == (match args.priority_id {
            Some(v) => v,
            None => current.priority.id,
        }),
        r.issue.subject@ == (match ostr(args.subject) {
            Some(s) => s,
            None => current.subject@,
        }),
        ostr(r.issue.description) == (match ostr(args.description) {
            Some(s) => Some(s),
            None => ostr(current.description),
        }),
        r.issue.category_id == (match current.category {
            Some(c) => Some(c.id),
            None => None,
        }),
        r.issue.fixed_version_id == (match current.fixed_version {
            Some(v) => Some(v.id),
            None => None,
        }),
        r.issue.assigned_to_id == (match args.assigned_to_id {
            Some(v) => Some(v),
            None => match current.assigned_to {
                Some(u) => Some(u.id),
                None => None,
            },
        }),
        r.issue.parent_issue_id == (match current.parent {
            Some(p) => Some(p.id),
            None => None,
        }),
        ostr(r.issue.estimated_hours) == (match ostr(args.estimated_hours) {
            Some(s) => Some(s),
            None => ostr(current.estimated_hours),
        }),
        ostr(r.issue.start_date) == (match ostr(args.start_date) {
            Some(s) => Some(s),
            None => ostr(current.start_date),
        }),
        ostr(r.issue.due_date) == (match ostr(args.due_date) {
            Some(s) => Some(s),
            None => ostr(current.due_date),
        }),
        r.issue.done_ratio == (match args.done_ratio {
            Some(v) => Some(v),
            None => current.done_ratio,
        }),
{
    let subject = match &args.subject {
        Some(s) => s.clone(),
        None => current.subject.clone(),
    };
    let description = match &args.description {
        Some(s) => Some(s.clone()),
        None => match &current.description {
            Some(s) => Some(s.clone()),
            None => None,
        },
    };
    let estimated_hours = match &args.estimated_hours {
        Some(s) => Some(s.clone()),
        None => match &current.estimated_hours {
            Some(s) => Some(s.clone()),
            None => None,
        },
    };
    let start_date = match &args.start_date {
        Some(s) => Some(s.clone()),
        None => match &current.start_date {
            Some(s) => Some(s.clone()),
            None => None,
        },
    };
    let due_date = match &args.due_date {
        Some(s) => Some(s.clone()),
        None => match &current.due_date {
            Some(s) => Some(s.clone()),
            None => None,
        },
    };
    CreateIssueRequest {
        issue: CreateIssue {
            project_id: current.project.id,
            tracker_id: current.tracker.id,
            status_id: match args.status_id {
                Some(v) => v,
                None => current.status.id,
            },
            priority_id: match args.priority_id {
                Some(v) => v,
                None => current.priority.id,
            },
            subject,
            description,
            category_id: match &current.category {
                Some(c) => Some(c.id),
                None => None,
            },
            fixed_version_id: match &current.fixed_version {
                Some(v) => Some(v.id),
                None => None,
            },
            assigned_to_id: match args.assigned_to_id {
                Some(v) => Some(v),
                None => match &current.assigned_to {
                    Some(u) => Some(u.id),
                    None => None,
                },
            },
            parent_issue_id: match &current.parent {
                Some(p) => Some(p.id),
                None => None,
            },
            estimated_hours,
            start_date,
            due_date,
            done_ratio: match args.done_ratio {
                Some(v) => Some(v),
                None => current.done_ratio,
            },
        },
    }
}

} // verus!
