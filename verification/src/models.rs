//! The domain model: entities decoded from upstream response bodies, and the
//! request bodies sent on writes.
//!
//! Dates and datetimes travel as their upstream text; fractional amounts
//! (hours) travel as their numeric lexemes, so no floating point enters the
//! library.  Every decoder's result is pinned to a specification-level
//! reading of the JSON model.

use vstd::prelude::*;
use crate::json::{JsonValue, JsonModel, jm_get, lex_int};

verus! {

broadcast use vstd::std_specs::vec::group_vec_axioms, vstd::seq::group_seq_axioms;

// ===== field readers =====

/// A required signed integer field.
pub open spec fn jget_i32(m: JsonModel, key: Seq<char>) -> Option<i32> {
    match jm_get(m, key) {
        Some(JsonModel::Num(lex)) => match lex_int(lex) {
            Some(n) => if i32::MIN <= n <= i32::MAX {
                Some(n as i32)
            } else {
                None
            },
            None => None,
        },
        _ => None,
    }
}

/// A required string field.
pub open spec fn jget_str(m: JsonModel, key: Seq<char>) -> Option<Seq<char>> {
    match jm_get(m, key) {
        Some(JsonModel::Str(t)) => Some(t),
        _ => None,
    }
}

/// An optional signed integer field: absent and null decode to `None`; a
/// present non-integer is a shape error (outer `None`).
pub open spec fn jopt_i32(m: JsonModel, key: Seq<char>) -> Option<Option<i32>> {
    match jm_get(m, key) {
        None => Some(None),
        Some(JsonModel::Null) => Some(None),
        Some(JsonModel::Num(lex)) => match lex_int(lex) {
            Some(n) => if i32::MIN <= n <= i32::MAX {
                Some(Some(n as i32))
            } else {
                None
            },
            None => None,
        },
        _ => None,
    }
}

/// An optional string field.
pub open spec fn jopt_str(m: JsonModel, key: Seq<char>) -> Option<Option<Seq<char>>> {
    match jm_get(m, key) {
        None => Some(None),
        Some(JsonModel::Null) => Some(None),
        Some(JsonModel::Str(t)) => Some(Some(t)),
        _ => None,
    }
}

/// An optional boolean field.
pub open spec fn jopt_bool(m: JsonModel, key: Seq<char>) -> Option<Option<bool>> {
    match jm_get(m, key) {
        None => Some(None),
        Some(JsonModel::Null) => Some(None),
        Some(JsonModel::Bool(b)) => Some(Some(b)),
        _ => None,
    }
}

/// An optional numeric field kept as its lexeme (used for fractional hours).
pub open spec fn jopt_num(m: JsonModel, key: Seq<char>) -> Option<Option<Seq<char>>> {
    match jm_get(m, key) {
        None => Some(None),
        Some(JsonModel::Null) => Some(None),
        Some(JsonModel::Num(lex)) => Some(Some(lex)),
        _ => None,
    }
}

pub fn get_i32(v: &JsonValue, key: &str) -> (r: Option<i32>)
    ensures
        r == jget_i32(v.jm(), key@),
{
    match v.get(key) {
        Some(x) => match x.as_i64() {
            Some(n) => {
                if n >= i32::MIN as i64 && n <= i32::MAX as i64 {
                    Some(n as i32)
                } else {
                    None
                }
            },
            None => {
                proof {
                    if x.jm() matches JsonModel::Num(lex) && lex_int(lex) is Some {
                        let n = lex_int(x.jm()->Num_0)->0;
                        assert(!(i64::MIN <= n <= i64::MAX));
                    }
                }
                None
            },
        },
        None => None,
    }
}

pub fn get_str(v: &JsonValue, key: &str) -> (r: Option<String>)
    ensures
        crate::ops::ostr(r) == jget_str(v.jm(), key@),
{
    match v.get(key) {
        Some(x) => match x.as_str() {
            Some(t) => Some(t.clone()),
            None => None,
        },
        None => None,
    }
}

pub fn opt_i32(v: &JsonValue, key: &str) -> (r: Option<Option<i32>>)
    ensures
        r == jopt_i32(v.jm(), key@),
{
    match v.get(key) {
        None => Some(None),
        Some(x) => match x {
            JsonValue::Null => Some(None),
            JsonValue::Num(_) => match x.as_i64() {
                Some(n) => {
                    if n >= i32::MIN as i64 && n <= i32::MAX as i64 {
                        Some(Some(n as i32))
                    } else {
                        None
                    }
                },
                None => {
                    proof {
                        if x.jm() matches JsonModel::Num(lex) && lex_int(lex) is Some {
                            let n = lex_int(x.jm()->Num_0)->0;
                            assert(!(i64::MIN <= n <= i64::MAX));
                        }
                    }
                    None
                },
            },
            _ => None,
        },
    }
}

pub fn opt_str(v: &JsonValue, key: &str) -> (r: Option<Option<String>>)
    ensures
        r matches Some(inner) ==> jopt_str(v.jm(), key@) == Some(crate::ops::ostr(inner)),
        r is None ==> jopt_str(v.jm(), key@) is None,
{
    match v.get(key) {
        None => Some(None),
        Some(x) => match x {
            JsonValue::Null => Some(None),
            JsonValue::Str(t) => Some(Some(t.clone())),
            _ => None,
        },
    }
}

pub fn opt_bool(v: &JsonValue, key: &str) -> (r: Option<Option<bool>>)
    ensures
        r == jopt_bool(v.jm(), key@),
{
    match v.get(key) {
        None => Some(None),
        Some(x) => match x {
            JsonValue::Null => Some(None),
            JsonValue::Bool(b) => Some(Some(*b)),
            _ => None,
        },
    }
}

pub fn opt_num(v: &JsonValue, key: &str) -> (r: Option<Option<String>>)
    ensures
        r matches Some(inner) ==> jopt_num(v.jm(), key@) == Some(crate::ops::ostr(inner)),
        r is None ==> jopt_num(v.jm(), key@) is None,
{
    match v.get(key) {
        None => Some(None),
        Some(x) => match x {
            JsonValue::Null => Some(None),
            JsonValue::Num(t) => Some(Some(t.clone())),
            _ => None,
        },
    }
}

// ===== named references =====

/// A reference to a project: its id and display name.
pub struct ProjectReference {
    pub id: i32,
    pub name: String,
}

/// A tracker (issue type).
pub struct Tracker {
    pub id: i32,
    pub name: String,
}

/// An issue status.
pub struct IssueStatus {
    pub id: i32,
    pub name: String,
    pub is_closed: Option<bool>,
}

/// An issue priority.
pub struct Priority {
    pub id: i32,
    pub name: String,
}

/// An issue category.
pub struct IssueCategory {
    pub id: i32,
    pub name: String,
}

/// A reference to a user: id and display name.
pub struct UserReference {
    pub id: i32,
    pub name: String,
}

/// A time entry activity.
pub struct TimeEntryActivity {
    pub id: i32,
    pub name: String,
}

/// A reference to an issue by id.
pub struct IssueReference {
    pub id: i32,
}

/// One id-to-name pair of an enumeration (status, priority or tracker).
pub struct EnumerationValue {
    pub id: i32,
    pub name: String,
}

/// The model of a named reference: id and name.
pub struct RefM {
    pub id: i32,
    pub name: Seq<char>,
}

/// Reads `{id, name}` out of a JSON object.
pub open spec fn spec_ref(m: JsonModel) -> Option<RefM> {
    match (jget_i32(m, "id"@), jget_str(m, "name"@)) {
        (Some(id), Some(name)) => Some(RefM { id, name }),
        _ => None,
    }
}

fn decode_ref(v: &JsonValue) -> (r: Option<(i32, String)>)
    ensures
        r matches Some((id, name)) ==> spec_ref(v.jm()) == Some(RefM { id, name: name@ }),
        r is None ==> spec_ref(v.jm()) is None,
{
    let id = get_i32(v, "id");
    let name = get_str(v, "name");
    match (id, name) {
        (Some(id), Some(name)) => Some((id, name)),
        _ => None,
    }
}

/// Reads an optional `{id, name}` object field.
pub open spec fn jopt_ref(m: JsonModel, key: Seq<char>) -> Option<Option<RefM>> {
    match jm_get(m, key) {
        None => Some(None),
        Some(JsonModel::Null) => Some(None),
        Some(inner) => match spec_ref(inner) {
            Some(r) => Some(Some(r)),
            None => None,
        },
    }
}

fn opt_ref(v: &JsonValue, key: &str) -> (r: Option<Option<(i32, String)>>)
    ensures
        r matches Some(Some((id, name))) ==> jopt_ref(v.jm(), key@) == Some(
            Some(RefM { id, name: name@ }),
        ),
        r matches Some(None) ==> jopt_ref(v.jm(), key@) == Some(None::<RefM>),
        r is None ==> jopt_ref(v.jm(), key@) is None,
{
    match v.get(key) {
        None => Some(None),
        Some(x) => match x {
            JsonValue::Null => Some(None),
            _ => match decode_ref(x) {
                Some(p) => Some(Some(p)),
                None => None,
            },
        },
    }
}

} // verus!

// ===== issues =====

verus! {

/// The model of an issue status: a named reference plus the closed flag.
pub struct StatusM {
    pub id: i32,
    pub name: Seq<char>,
    pub is_closed: Option<bool>,
}

/// Reads an issue status object.
pub open spec fn spec_status(m: JsonModel) -> Option<StatusM> {
    match (jget_i32(m, "id"@), jget_str(m, "name"@), jopt_bool(m, "is_closed"@)) {
        (Some(id), Some(name), Some(is_closed)) => Some(StatusM { id, name, is_closed }),
        _ => None,
    }
}

/// Reads a required named-reference field.
pub open spec fn jreq_ref(m: JsonModel, key: Seq<char>) -> Option<RefM> {
    match jm_get(m, key) {
        Some(inner) => spec_ref(inner),
        None => None,
    }
}

/// Reads an optional issue-reference field (an object with an id).
pub open spec fn jopt_idref(m: JsonModel, key: Seq<char>) -> Option<Option<i32>> {
    match jm_get(m, key) {
        None => Some(None),
        Some(JsonModel::Null) => Some(None),
        Some(inner) => match jget_i32(inner, "id"@) {
            Some(id) => Some(Some(id)),
            None => None,
        },
    }
}

/// A version (milestone).
pub struct Version {
    pub id: i32,
    pub name: String,
    pub description: Option<String>,
    pub status: Option<String>,
    pub due_date: Option<String>,
}

/// The model of a version.
pub struct VersionM {
    pub id: i32,
    pub name: Seq<char>,
    pub description: Option<Seq<char>>,
    pub status: Option<Seq<char>>,
    pub due_date: Option<Seq<char>>,
}

impl Version {
    /// The mathematical view of this version.
    pub open spec fn vm(self) -> VersionM {
        VersionM {
            id: self.id,
            name: self.name@,
            description: crate::ops::ostr(self.description),
            status: crate::ops::ostr(self.status),
            due_date: crate::ops::ostr(self.due_date),
        }
    }
}

/// Reads a version object.
pub open spec fn spec_version(m: JsonModel) -> Option<VersionM> {
    match (jget_i32(m, "id"@), jget_str(m, "name"@)) {
        (Some(id), Some(name)) => match (
            jopt_str(m, "description"@),
            jopt_str(m, "status"@),
            jopt_str(m, "due_date"@),
        ) {
            (Some(description), Some(status), Some(due_date)) => Some(
                VersionM { id, name, description, status, due_date },
            ),
            _ => None,
        },
        _ => None,
    }
}

/// Decodes a version object.
pub fn decode_version(v: &JsonValue) -> (r: Option<Version>)
    ensures
        r matches Some(ver) ==> spec_version(v.jm()) == Some(ver.vm()),
        r is None ==> spec_version(v.jm()) is None,
{
    let id = get_i32(v, "id");
    let name = get_str(v, "name");
    match (id, name) {
        (Some(id), Some(name)) => {
            let description = opt_str(v, "description");
            let status = opt_str(v, "status");
            let due_date = opt_str(v, "due_date");
            match (description, status, due_date) {
                (Some(description), Some(status), Some(due_date)) => Some(
                    Version { id, name, description, status, due_date },
                ),
                _ => None,
            }
        },
        _ => None,
    }
}

/// Reads an optional version field.
pub open spec fn jopt_version(m: JsonModel, key: Seq<char>) -> Option<Option<VersionM>> {
    match jm_get(m, key) {
        None => Some(None),
        Some(JsonModel::Null) => Some(None),
        Some(inner) => match spec_version(inner) {
            Some(ver) => Some(Some(ver)),
            None => None,
        },
    }
}

/// An issue (task).
pub struct Issue {
    pub id: i32,
    pub subject: String,
    pub description: Option<String>,
    pub project: ProjectReference,
    pub tracker: Tracker,
    pub status: IssueStatus,
    pub priority: Priority,
    pub author: Option<UserReference>,
    pub assigned_to: Option<UserReference>,
    pub category: Option<IssueCategory>,
    pub fixed_version: Option<Version>,
    pub parent: Option<IssueReference>,
    pub estimated_hours: Option<String>,
    pub done_ratio: Option<i32>,
    pub start_date: Option<String>,
    pub due_date: Option<String>,
    pub created_on: Option<String>,
}

/// The model of an issue.
pub struct IssueM {
    pub id: i32,
    pub subject: Seq<char>,
    pub description: Option<Seq<char>>,
    pub project: RefM,
    pub tracker: RefM,
    pub status: StatusM,
    pub priority: RefM,
    pub author: Option<RefM>,
    pub assigned_to: Option<RefM>,
    pub category: Option<RefM>,
    pub fixed_version: Option<VersionM>,
    pub parent: Option<i32>,
    pub estimated_hours: Option<Seq<char>>,
    pub done_ratio: Option<i32>,
    pub start_date: Option<Seq<char>>,
    pub due_date: Option<Seq<char>>,
    pub created_on: Option<Seq<char>>,
}

/// The view of an optional named reference with the given projections.
pub open spec fn oref_m(id_name: Option<(i32, Seq<char>)>) -> Option<RefM> {
    match id_name {
        Some((id, name)) => Some(RefM { id, name }),
        None => None,
    }
}

impl Issue {
    /// The mathematical view of this issue.
    pub open spec fn vm(self) -> IssueM {
        IssueM {
            id: self.id,
            subject: self.subject@,
            description: crate::ops::ostr(self.description),
            project: RefM { id: self.project.id, name: self.project.name@ },
            tracker: RefM { id: self.tracker.id, name: self.tracker.name@ },
            status: StatusM {
                id: self.status.id,
                name: self.status.name@,
                is_closed: self.status.is_closed,
            },
            priority: RefM { id: self.priority.id, name: self.priority.name@ },
            author: match self.author {
                Some(u) => Some(RefM { id: u.id, name: u.name@ }),
                None => None,
            },
            assigned_to: match self.assigned_to {
                Some(u) => Some(RefM { id: u.id, name: u.name@ }),
                None => None,
            },
            category: match self.category {
                Some(c) => Some(RefM { id: c.id, name: c.name@ }),
                None => None,
            },
            fixed_version: match self.fixed_version {
                Some(ver) => Some(ver.vm()),
                None => None,
            },
            parent: match self.parent {
                Some(p) => Some(p.id),
                None => None,
            },
            estimated_hours: crate::ops::ostr(self.estimated_hours),
            done_ratio: self.done_ratio,
            start_date: crate::ops::ostr(self.start_date),
            due_date: crate::ops::ostr(self.due_date),
            created_on: crate::ops::ostr(self.created_on),
        }
    }
}

/// Reads one issue object.
pub open spec fn spec_issue(m: JsonModel) -> Option<IssueM> {
    if jget_i32(m, "id"@) is None || jget_str(m, "subject"@) is None || jopt_str(m, "description"@)
        is None || jreq_ref(m, "project"@) is None || jreq_ref(m, "tracker"@) is None || (match
    jm_get(m, "status"@) {
        Some(inner) => spec_status(inner),
        None => None,
    }) is None || jreq_ref(m, "priority"@) is None || jopt_ref(m, "author"@) is None || jopt_ref(
        m,
        "assigned_to"@,
    ) is None || jopt_ref(m, "category"@) is None || jopt_version(m, "fixed_version"@) is None
        || jopt_idref(m, "parent"@) is None || jopt_num(m, "estimated_hours"@) is None || jopt_i32(
        m,
        "done_ratio"@,
    ) is None || jopt_str(m, "start_date"@) is None || jopt_str(m, "due_date"@) is None || jopt_str(
        m,
        "created_on"@,
    ) is None {
        None
    } else {
        Some(
            IssueM {
                id: jget_i32(m, "id"@)->0,
                subject: jget_str(m, "subject"@)->0,
                description: jopt_str(m, "description"@)->0,
                project: jreq_ref(m, "project"@)->0,
                tracker: jreq_ref(m, "tracker"@)->0,
                status: (match jm_get(m, "status"@) {
                    Some(inner) => spec_status(inner),
                    None => None,
                })->0,
                priority: jreq_ref(m, "priority"@)->0,
                author: jopt_ref(m, "author"@)->0,
                assigned_to: jopt_ref(m, "assigned_to"@)->0,
                category: jopt_ref(m, "category"@)->0,
                fixed_version: jopt_version(m, "fixed_version"@)->0,
                parent: jopt_idref(m, "parent"@)->0,
                estimated_hours: jopt_num(m, "estimated_hours"@)->0,
                done_ratio: jopt_i32(m, "done_ratio"@)->0,
                start_date: jopt_str(m, "start_date"@)->0,
                due_date: jopt_str(m, "due_date"@)->0,
                created_on: jopt_str(m, "created_on"@)->0,
            },
        )
    }
}

/// Decodes one issue object.
pub fn decode_issue(v: &JsonValue) -> (r: Option<Issue>)
    ensures
        r matches Some(x) ==> spec_issue(v.jm()) == Some(x.vm()),
        r is None ==> spec_issue(v.jm()) is None,
{
    let id = match get_i32(v, "id") {
        Some(x) => x,
        None => {
            return None;
        },
    };
    let subject = match get_str(v, "subject") {
        Some(x) => x,
        None => {
            return None;
        },
    };
    let description = match opt_str(v, "description") {
        Some(x) => x,
        None => {
            return None;
        },
    };
    let project = match v.get("project") {
        Some(inner) => match decode_ref(inner) {
            Some((pid, pname)) => ProjectReference { id: pid, name: pname },
            None => {
                return None;
            },
        },
        None => {
            return None;
        },
    };
    let tracker = match v.get("tracker") {
        Some(inner) => match decode_ref(inner) {
            Some((tid, tname)) => Tracker { id: tid, name: tname },
            None => {
                return None;
            },
        },
        None => {
            return None;
        },
    };
    let status = match v.get("status") {
        Some(inner) => {
            let sid = get_i32(inner, "id");
            let sname = get_str(inner, "name");
            let sclosed = opt_bool(inner, "is_closed");
            match (sid, sname, sclosed) {
                (Some(sid), Some(sname), Some(sclosed)) => IssueStatus {
                    id: sid,
                    name: sname,
                    is_closed: sclosed,
                },
                _ => {
                    return None;
                },
            }
        },
        None => {
            return None;
        },
    };
    let priority = match v.get("priority") {
        Some(inner) => match decode_ref(inner) {
            Some((pid, pname)) => Priority { id: pid, name: pname },
            None => {
                return None;
            },
        },
        None => {
            return None;
        },
    };
    let author = match opt_ref(v, "author") {
        Some(Some((uid, uname))) => Some(UserReference { id: uid, name: uname }),
        Some(None) => None,
        None => {
            return None;
        },
    };
    let assigned_to = match opt_ref(v, "assigned_to") {
        Some(Some((uid, uname))) => Some(UserReference { id: uid, name: uname }),
        Some(None) => None,
        None => {
            return None;
        },
    };
    let category = match opt_ref(v, "category") {
        Some(Some((cid, cname))) => Some(IssueCategory { id: cid, name: cname }),
        Some(None) => None,
        None => {
            return None;
        },
    };
    let fixed_version = match v.get("fixed_version") {
        None => None,
        Some(inner) => match inner {
            JsonValue::Null => None,
            _ => match decode_version(inner) {
                Some(ver) => Some(ver),
                None => {
                    return None;
                },
            },
        },
    };
    let parent = match v.get("parent") {
        None => None,
        Some(inner) => match inner {
            JsonValue::Null => None,
            _ => match get_i32(inner, "id") {
                Some(pid) => Some(IssueReference { id: pid }),
                None => {
                    return None;
                },
            },
        },
    };
    let estimated_hours = match opt_num(v, "estimated_hours") {
        Some(x) => x,
        None => {
            return None;
        },
    };
    let done_ratio = match opt_i32(v, "done_ratio") {
        Some(x) => x,
        None => {
            return None;
        },
    };
    let start_date = match opt_str(v, "start_date") {
        Some(x) => x,
        None => {
            return None;
        },
    };
    let due_date = match opt_str(v, "due_date") {
        Some(x) => x,
        None => {
            return None;
        },
    };
    let created_on = match opt_str(v, "created_on") {
        Some(x) => x,
        None => {
            return None;
        },
    };
    Some(
        Issue {
            id,
            subject,
            description,
            project,
            tracker,
            status,
            priority,
            author,
            assigned_to,
            category,
            fixed_version,
            parent,
            estimated_hours,
            done_ratio,
            start_date,
            due_date,
            created_on,
        },
    )
}

} // verus!

// ===== projects, users, time entries =====

verus! {

/// The lifecycle status of a project, as the upstream numbers it.
pub enum ProjectStatus {
    Active,
    Closed,
    Archived,
    Planned,
    Deleted,
    Unknown(i32),
}

/// The status for an upstream status number.
pub open spec fn spec_status_of_id(id: i32) -> ProjectStatus {
    if id == 1 {
        ProjectStatus::Active
    } else if id == 5 {
        ProjectStatus::Closed
    } else if id == 9 {
        ProjectStatus::Archived
    } else if id == 15 {
        ProjectStatus::Planned
    } else if id == 19 {
        ProjectStatus::Deleted
    } else {
        ProjectStatus::Unknown(id)
    }
}

impl ProjectStatus {
    /// The status for an upstream status number.
    pub fn from_id(id: i32) -> (r: ProjectStatus)
        ensures
            r == spec_status_of_id(id),
    {
        match id {
            1 => ProjectStatus::Active,
            5 => ProjectStatus::Closed,
            9 => ProjectStatus::Archived,
            15 => ProjectStatus::Planned,
            19 => ProjectStatus::Deleted,
            other => ProjectStatus::Unknown(other),
        }
    }
}

/// A project.
pub struct Project {
    pub id: i32,
    pub name: String,
    pub description: Option<String>,
    pub identifier: Option<String>,
    pub homepage: Option<String>,
    pub status: ProjectStatus,
    pub is_public: Option<bool>,
    pub parent: Option<ProjectReference>,
    pub created_on: Option<String>,
    pub updated_on: Option<String>,
}

/// The model of a project.
pub struct ProjectM {
    pub id: i32,
    pub name: Seq<char>,
    pub description: Option<Seq<char>>,
    pub identifier: Option<Seq<char>>,
    pub homepage: Option<Seq<char>>,
    pub status: ProjectStatus,
    pub is_public: Option<bool>,
    pub parent: Option<RefM>,
    pub created_on: Option<Seq<char>>,
    pub updated_on: Option<Seq<char>>,
}

impl Project {
    /// The mathematical view of this project.
    pub open spec fn vm(self) -> ProjectM {
        ProjectM {
            id: self.id,
            name: self.name@,
            description: crate::ops::ostr(self.description),
            identifier: crate::ops::ostr(self.identifier),
            homepage: crate::ops::ostr(self.homepage),
            status: self.status,
            is_public: self.is_public,
            parent: match self.parent {
                Some(p) => Some(RefM { id: p.id, name: p.name@ }),
                None => None,
            },
            created_on: crate::ops::ostr(self.created_on),
            updated_on: crate::ops::ostr(self.updated_on),
        }
    }
}

/// Reads one project object: `status` is an upstream status number.
pub open spec fn spec_project(m: JsonModel) -> Option<ProjectM> {
    if jget_i32(m, "id"@) is None || jget_str(m, "name"@) is None || jopt_str(m, "description"@)
        is None || jopt_str(m, "identifier"@) is None || jopt_str(m, "homepage"@) is None
        || jget_i32(m, "status"@) is None || jopt_bool(m, "is_public"@) is None || jopt_ref(
        m,
        "parent"@,
    ) is None || jopt_str(m, "created_on"@) is None || jopt_str(m, "updated_on"@) is None {
        None
    } else {
        Some(
            ProjectM {
                id: jget_i32(m, "id"@)->0,
                name: jget_str(m, "name"@)->0,
                description: jopt_str(m, "description"@)->0,
                identifier: jopt_str(m, "identifier"@)->0,
                homepage: jopt_str(m, "homepage"@)->0,
                status: spec_status_of_id(jget_i32(m, "status"@)->0),
                is_public: jopt_bool(m, "is_public"@)->0,
                parent: jopt_ref(m, "parent"@)->0,
                created_on: jopt_str(m, "created_on"@)->0,
                updated_on: jopt_str(m, "updated_on"@)->0,
            },
        )
    }
}

/// Decodes one project object.
pub fn decode_project(v: &JsonValue) -> (r: Option<Project>)
    ensures
        r matches Some(x) ==> spec_project(v.jm()) == Some(x.vm()),
        r is None ==> spec_project(v.jm()) is None,
{
    let id = match get_i32(v, "id") {
        Some(x) => x,
        None => {
            return None;
        },
    };
    let name = match get_str(v, "name") {
        Some(x) => x,
        None => {
            return None;
        },
    };
    let description = match opt_str(v, "description") {
        Some(x) => x,
        None => {
            return None;
        },
    };
    let identifier = match opt_str(v, "identifier") {
        Some(x) => x,
        None => {
            return None;
        },
    };
    let homepage = match opt_str(v, "homepage") {
        Some(x) => x,
        None => {
            return None;
        },
    };
    let status_id = match get_i32(v, "status") {
        Some(x) => x,
        None => {
            return None;
        },
    };
    let is_public = match opt_bool(v, "is_public") {
        Some(x) => x,
        None => {
            return None;
        },
    };
    let parent = match opt_ref(v, "parent") {
        Some(Some((pid, pname))) => Some(ProjectReference { id: pid, name: pname }),
        Some(None) => None,
        None => {
            return None;
        },
    };
    let created_on = match opt_str(v, "created_on") {
        Some(x) => x,
        None => {
            return None;
        },
    };
    let updated_on = match opt_str(v, "updated_on") {
        Some(x) => x,
        None => {
            return None;
        },
    };
    Some(
        Project {
            id,
            name,
            description,
            identifier,
            homepage,
            status: ProjectStatus::from_id(status_id),
            is_public,
            parent,
            created_on,
            updated_on,
        },
    )
}

/// A user.
pub struct User {
    pub id: i32,
    pub login: Option<String>,
    pub admin: Option<bool>,
    pub firstname: Option<String>,
    pub lastname: Option<String>,
    pub mail: Option<String>,
    pub status: Option<i32>,
    pub created_on: Option<String>,
    pub last_login_on: Option<String>,
}

/// The model of a user.
pub struct UserM {
    pub id: i32,
    pub login: Option<Seq<char>>,
    pub admin: Option<bool>,
    pub firstname: Option<Seq<char>>,
    pub lastname: Option<Seq<char>>,
    pub mail: Option<Seq<char>>,
    pub status: Option<i32>,
    pub created_on: Option<Seq<char>>,
    pub last_login_on: Option<Seq<char>>,
}

impl User {
    /// The mathematical view of this user.
    pub open spec fn vm(self) -> UserM {
        UserM {
            id: self.id,
            login: crate::ops::ostr(self.login),
            admin: self.admin,
            firstname: crate::ops::ostr(self.firstname),
            lastname: crate::ops::ostr(self.lastname),
            mail: crate::ops::ostr(self.mail),
            status: self.status,
            created_on: crate::ops::ostr(self.created_on),
            last_login_on: crate::ops::ostr(self.last_login_on),
        }
    }
}

/// Reads one user object.
pub open spec fn spec_user(m: JsonModel) -> Option<UserM> {
    if jget_i32(m, "id"@) is None || jopt_str(m, "login"@) is None || jopt_bool(m, "admin"@)
        is None || jopt_str(m, "firstname"@) is None || jopt_str(m, "lastname"@) is None
        || jopt_str(m, "mail"@) is None || jopt_i32(m, "status"@) is None || jopt_str(
        m,
        "created_on"@,
    ) is None || jopt_str(m, "last_login_on"@) is None {
        None
    } else {
        Some(
            UserM {
                id: jget_i32(m, "id"@)->0,
                login: jopt_str(m, "login"@)->0,
                admin: jopt_bool(m, "admin"@)->0,
                firstname: jopt_str(m, "firstname"@)->0,
                lastname: jopt_str(m, "lastname"@)->0,
                mail: jopt_str(m, "mail"@)->0,
                status: jopt_i32(m, "status"@)->0,
                created_on: jopt_str(m, "created_on"@)->0,
                last_login_on: jopt_str(m, "last_login_on"@)->0,
            },
        )
    }
}

/// Decodes one user object.
pub fn decode_user(v: &JsonValue) -> (r: Option<User>)
    ensures
        r matches Some(x) ==> spec_user(v.jm()) == Some(x.vm()),
        r is None ==> spec_user(v.jm()) is None,
{
    let id = match get_i32(v, "id") {
        Some(x) => x,
        None => {
            return None;
        },
    };
    let login = match opt_str(v, "login") {
        Some(x) => x,
        None => {
            return None;
        },
    };
    let admin = match opt_bool(v, "admin") {
        Some(x) => x,
        None => {
            return None;
        },
    };
    let firstname = match opt_str(v, "firstname") {
        Some(x) => x,
        None => {
            return None;
        },
    };
    let lastname = match opt_str(v, "lastname") {
        Some(x) => x,
        None => {
            return None;
        },
    };
    let mail = match opt_str(v, "mail") {
        Some(x) => x,
        None => {
            return None;
        },
    };
    let status = match opt_i32(v, "status") {
        Some(x) => x,
        None => {
            return None;
        },
    };
    let created_on = match opt_str(v, "created_on") {
        Some(x) => x,
        None => {
            return None;
        },
    };
    let last_login_on = match opt_str(v, "last_login_on") {
        Some(x) => x,
        None => {
            return None;
        },
    };
    Some(User { id, login, admin, firstname, lastname, mail, status, created_on, last_login_on })
}

/// A time entry.
pub struct TimeEntry {
    pub id: i32,
    pub project: ProjectReference,
    pub issue: Option<IssueReference>,
    pub user: UserReference,
    pub activity: TimeEntryActivity,
    pub hours: String,
    pub comments: Option<String>,
    pub spent_on: String,
    pub created_on: Option<String>,
}

/// The model of a time entry; `hours` is the numeric lexeme.
pub struct TimeEntryM {
    pub id: i32,
    pub project: RefM,
    pub issue: Option<i32>,
    pub user: RefM,
    pub activity: RefM,
    pub hours: Seq<char>,
    pub comments: Option<Seq<char>>,
    pub spent_on: Seq<char>,
    pub created_on: Option<Seq<char>>,
}

impl TimeEntry {
    /// The mathematical view of this time entry.
    pub open spec fn vm(self) -> TimeEntryM {
        TimeEntryM {
            id: self.id,
            project: RefM { id: self.project.id, name: self.project.name@ },
            issue: match self.issue {
                Some(i) => Some(i.id),
                None => None,
            },
            user: RefM { id: self.user.id, name: self.user.name@ },
            activity: RefM { id: self.activity.id, name: self.activity.name@ },
            hours: self.hours@,
            comments: crate::ops::ostr(self.comments),
            spent_on: self.spent_on@,
            created_on: crate::ops::ostr(self.created_on),
        }
    }
}

/// Reads a required numeric field kept as its lexeme.
pub open spec fn jget_num(m: JsonModel, key: Seq<char>) -> Option<Seq<char>> {
    match jm_get(m, key) {
        Some(JsonModel::Num(lex)) => Some(lex),
        _ => None,
    }
}

/// Reads one time entry object.
pub open spec fn spec_time_entry(m: JsonModel) -> Option<TimeEntryM> {
    if jget_i32(m, "id"@) is None || jreq_ref(m, "project"@) is None || jopt_idref(m, "issue"@)
        is None || jreq_ref(m, "user"@) is None || jreq_ref(m, "activity"@) is None || jget_num(
        m,
        "hours"@,
    ) is None || jopt_str(m, "comments"@) is None || jget_str(m, "spent_on"@) is None || jopt_str(
        m,
        "created_on"@,
    ) is None {
        None
    } else {
        Some(
            TimeEntryM {
                id: jget_i32(m, "id"@)->0,
                project: jreq_ref(m, "project"@)->0,
                issue: jopt_idref(m, "issue"@)->0,
                user: jreq_ref(m, "user"@)->0,
                activity: jreq_ref(m, "activity"@)->0,
                hours: jget_num(m, "hours"@)->0,
                comments: jopt_str(m, "comments"@)->0,
                spent_on: jget_str(m, "spent_on"@)->0,
                created_on: jopt_str(m, "created_on"@)->0,
            },
        )
    }
}

pub fn get_num(v: &JsonValue, key: &str) -> (r: Option<String>)
    ensures
        crate::ops::ostr(r) == jget_num(v.jm(), key@),
{
    match v.get(key) {
        Some(x) => match x {
            JsonValue::Num(t) => Some(t.clone()),
            _ => None,
        },
        None => None,
    }
}

/// Decodes one time entry object.
pub fn decode_time_entry(v: &JsonValue) -> (r: Option<TimeEntry>)
    ensures
        r matches Some(x) ==> spec_time_entry(v.jm()) == Some(x.vm()),
        r is None ==> spec_time_entry(v.jm()) is None,
{
    let id = match get_i32(v, "id") {
        Some(x) => x,
        None => {
            return None;
        },
    };
    let project = match v.get("project") {
        Some(inner) => match decode_ref(inner) {
            Some((pid, pname)) => ProjectReference { id: pid, name: pname },
            None => {
                return None;
            },
        },
        None => {
            return None;
        },
    };
    let issue = match v.get("issue") {
        None => None,
        Some(inner) => match inner {
            JsonValue::Null => None,
            _ => match get_i32(inner, "id") {
                Some(iid) => Some(IssueReference { id: iid }),
                None => {
                    return None;
                },
            },
        },
    };
    let user = match v.get("user") {
        Some(inner) => match decode_ref(inner) {
            Some((uid, uname)) => UserReference { id: uid, name: uname },
            None => {
                return None;
            },
        },
        None => {
            return None;
        },
    };
    let activity = match v.get("activity") {
        Some(inner) => match decode_ref(inner) {
            Some((aid, aname)) => TimeEntryActivity { id: aid, name: aname },
            None => {
                return None;
            },
        },
        None => {
            return None;
        },
    };
    let hours = match get_num(v, "hours") {
        Some(x) => x,
        None => {
            return None;
        },
    };
    let comments = match opt_str(v, "comments") {
        Some(x) => x,
        None => {
            return None;
        },
    };
    let spent_on = match get_str(v, "spent_on") {
        Some(x) => x,
        None => {
            return None;
        },
    };
    let created_on = match opt_str(v, "created_on") {
        Some(x) => x,
        None => {
            return None;
        },
    };
    Some(TimeEntry { id, project, issue, user, activity, hours, comments, spent_on, created_on })
}

} // verus!

// ===== list decoding =====

verus! {

fn decode_version_opt(v: &JsonValue) -> (r: Option<Version>)
    ensures
        r matches Some(x) ==> spec_version(v.jm()) == Some(x.vm()),
        r is None ==> spec_version(v.jm()) is None,
{
    decode_version(v)
}

/// Reads the issues starting at index `i` of the array.
pub open spec fn spec_issue_list(items: Seq<JsonModel>, i: int) -> Option<Seq<IssueM>>
    decreases items.len() - i,
{
    if i >= items.len() {
        Some(Seq::empty())
    } else if i < 0 {
        None
    } else {
        match spec_issue(items[i]) {
            Some(x) => match spec_issue_list(items, i + 1) {
                Some(rest) => Some(seq![x] + rest),
                None => None,
            },
            None => None,
        }
    }
}

/// The views of a sequence of decoded issues.
pub open spec fn issue_vms(s: Seq<Issue>) -> Seq<IssueM> {
    s.map_values(|x: Issue| x.vm())
}

/// Decodes an array of issues; fails if any element fails.
pub fn decode_issue_list(items: &Vec<JsonValue>) -> (r: Option<Vec<Issue>>)
    ensures
        r matches Some(v) ==> spec_issue_list(crate::json::jm_seq(items@), 0) == Some(
            issue_vms(v@),
        ),
        r is None ==> spec_issue_list(crate::json::jm_seq(items@), 0) is None,
{
    let ghost s = crate::json::jm_seq(items@);
    proof {
        crate::json::lemma_jm_seq(items@);
    }
    let mut acc: Vec<Issue> = Vec::new();
    let mut i: usize = 0;
    while i < items.len()
        invariant
            i <= items@.len(),
            s == crate::json::jm_seq(items@),
            s.len() == items@.len(),
            forall|j: int| 0 <= j < items@.len() ==> s[j] == #[trigger] items@[j].jm(),
            match spec_issue_list(s, i as int) {
                Some(rest) => spec_issue_list(s, 0) == Some(issue_vms(acc@) + rest),
                None => spec_issue_list(s, 0) is None,
            },
        decreases items@.len() - i,
    {
        proof {
            if i == 0 {
                assert(spec_issue_list(s, 0) matches Some(rest) ==> issue_vms(acc@) + rest
                    =~= rest);
            }
        }
        match decode_issue(&items[i]) {
            Some(x) => {
                let ghost old_acc = acc@;
                acc.push(x);
                proof {
                    assert(spec_issue(s[i as int]) == Some(x.vm()));
                    match spec_issue_list(s, i + 1 as int) {
                        Some(rest2) => {
                            assert(spec_issue_list(s, i as int) == Some(seq![x.vm()] + rest2));
                            assert(issue_vms(old_acc) + (seq![x.vm()] + rest2) =~= issue_vms(
                                acc@,
                            ) + rest2) by {
                                assert(issue_vms(acc@) =~= issue_vms(old_acc).push(x.vm()));
                            }
                        },
                        None => {
                            assert(spec_issue_list(s, i as int) is None);
                        },
                    }
                }
                i = i + 1;
            },
            None => {
                proof {
                    assert(spec_issue(s[i as int]) is None);
                    assert(spec_issue_list(s, i as int) is None);
                }
                return None;
            },
        }
    }
    proof {
        assert(spec_issue_list(s, i as int) == Some(Seq::<IssueM>::empty()));
        assert(issue_vms(acc@) + Seq::<IssueM>::empty() =~= issue_vms(acc@));
    }
    Some(acc)
}

/// Reads the projects starting at index `i` of the array.
pub open spec fn spec_project_list(items: Seq<JsonModel>, i: int) -> Option<Seq<ProjectM>>
    decreases items.len() - i,
{
    if i >= items.len() {
        Some(Seq::empty())
    } else if i < 0 {
        None
    } else {
        match spec_project(items[i]) {
            Some(x) => match spec_project_list(items, i + 1) {
                Some(rest) => Some(seq![x] + rest),
                None => None,
            },
            None => None,
        }
    }
}

/// The views of a sequence of decoded projects.
pub open spec fn project_vms(s: Seq<Project>) -> Seq<ProjectM> {
    s.map_values(|x: Project| x.vm())
}

/// Decodes an array of projects; fails if any element fails.
pub fn decode_project_list(items: &Vec<JsonValue>) -> (r: Option<Vec<Project>>)
    ensures
        r matches Some(v) ==> spec_project_list(crate::json::jm_seq(items@), 0) == Some(
            project_vms(v@),
        ),
        r is None ==> spec_project_list(crate::json::jm_seq(items@), 0) is None,
{
    let ghost s = crate::json::jm_seq(items@);
    proof {
        crate::json::lemma_jm_seq(items@);
    }
    let mut acc: Vec<Project> = Vec::new();
    let mut i: usize = 0;
    while i < items.len()
        invariant
            i <= items@.len(),
            s == crate::json::jm_seq(items@),
            s.len() == items@.len(),
            forall|j: int| 0 <= j < items@.len() ==> s[j] == #[trigger] items@[j].jm(),
            match spec_project_list(s, i as int) {
                Some(rest) => spec_project_list(s, 0) == Some(project_vms(acc@) + rest),
                None => spec_project_list(s, 0) is None,
            },
        decreases items@.len() - i,
    {
        proof {
            if i == 0 {
                assert(spec_project_list(s, 0) matches Some(rest) ==> project_vms(acc@) + rest
                    =~= rest);
            }
        }
        match decode_project(&items[i]) {
            Some(x) => {
                let ghost old_acc = acc@;
                acc.push(x);
                proof {
                    assert(spec_project(s[i as int]) == Some(x.vm()));
                    match spec_project_list(s, i + 1 as int) {
                        Some(rest2) => {
                            assert(spec_project_list(s, i as int) == Some(seq![x.vm()] + rest2));
                            assert(project_vms(old_acc) + (seq![x.vm()] + rest2) =~= project_vms(
                                acc@,
                            ) + rest2) by {
                                assert(project_vms(acc@) =~= project_vms(old_acc).push(x.vm()));
                            }
                        },
                        None => {
                            assert(spec_project_list(s, i as int) is None);
                        },
                    }
                }
                i = i + 1;
            },
            None => {
                proof {
                    assert(spec_project(s[i as int]) is None);
                    assert(spec_project_list(s, i as int) is None);
                }
                return None;
            },
        }
    }
    proof {
        assert(spec_project_list(s, i as int) == Some(Seq::<ProjectM>::empty()));
        assert(project_vms(acc@) + Seq::<ProjectM>::empty() =~= project_vms(acc@));
    }
    Some(acc)
}

/// Reads the users starting at index `i` of the array.
pub open spec fn spec_user_list(items: Seq<JsonModel>, i: int) -> Option<Seq<UserM>>
    decreases items.len() - i,
{
    if i >= items.len() {
        Some(Seq::empty())
    } else if i < 0 {
        None
    } else {
        match spec_user(items[i]) {
            Some(x) => match spec_user_list(items, i + 1) {
                Some(rest) => Some(seq![x] + rest),
                None => None,
            },
            None => None,
        }
    }
}

/// The views of a sequence of decoded users.
pub open spec fn user_vms(s: Seq<User>) -> Seq<UserM> {
    s.map_values(|x: User| x.vm())
}

/// Decodes an array of users; fails if any element fails.
pub fn decode_user_list(items: &Vec<JsonValue>) -> (r: Option<Vec<User>>)
    ensures
        r matches Some(v) ==> spec_user_list(crate::json::jm_seq(items@), 0) == Some(
            user_vms(v@),
        ),
        r is None ==> spec_user_list(crate::json::jm_seq(items@), 0) is None,
{
    let ghost s = crate::json::jm_seq(items@);
    proof {
        crate::json::lemma_jm_seq(items@);
    }
    let mut acc: Vec<User> = Vec::new();
    let mut i: usize = 0;
    while i < items.len()
        invariant
            i <= items@.len(),
            s == crate::json::jm_seq(items@),
            s.len() == items@.len(),
            forall|j: int| 0 <= j < items@.len() ==> s[j] == #[trigger] items@[j].jm(),
            match spec_user_list(s, i as int) {
                Some(rest) => spec_user_list(s, 0) == Some(user_vms(acc@) + rest),
                None => spec_user_list(s, 0) is None,
            },
        decreases items@.len() - i,
    {
        proof {
            if i == 0 {
                assert(spec_user_list(s, 0) matches Some(rest) ==> user_vms(acc@) + rest
                    =~= rest);
            }
        }
        match decode_user(&items[i]) {
            Some(x) => {
                let ghost old_acc = acc@;
                acc.push(x);
                proof {
                    assert(spec_user(s[i as int]) == Some(x.vm()));
                    match spec_user_list(s, i + 1 as int) {
                        Some(rest2) => {
                            assert(spec_user_list(s, i as int) == Some(seq![x.vm()] + rest2));
                            assert(user_vms(old_acc) + (seq![x.vm()] + rest2) =~= user_vms(
                                acc@,
                            ) + rest2) by {
                                assert(user_vms(acc@) =~= user_vms(old_acc).push(x.vm()));
                            }
                        },
                        None => {
                            assert(spec_user_list(s, i as int) is None);
                        },
                    }
                }
                i = i + 1;
            },
            None => {
                proof {
                    assert(spec_user(s[i as int]) is None);
                    assert(spec_user_list(s, i as int) is None);
                }
                return None;
            },
        }
    }
    proof {
        assert(spec_user_list(s, i as int) == Some(Seq::<UserM>::empty()));
        assert(user_vms(acc@) + Seq::<UserM>::empty() =~= user_vms(acc@));
    }
    Some(acc)
}

/// Reads the time entries starting at index `i` of the array.
pub open spec fn spec_time_entry_list(items: Seq<JsonModel>, i: int) -> Option<Seq<TimeEntryM>>
    decreases items.len() - i,
{
    if i >= items.len() {
        Some(Seq::empty())
    } else if i < 0 {
        None
    } else {
        match spec_time_entry(items[i]) {
            Some(x) => match spec_time_entry_list(items, i + 1) {
                Some(rest) => Some(seq![x] + rest),
                None => None,
            },
            None => None,
        }
    }
}

/// The views of a sequence of decoded time entries.
pub open spec fn time_entry_vms(s: Seq<TimeEntry>) -> Seq<TimeEntryM> {
    s.map_values(|x: TimeEntry| x.vm())
}

/// Decodes an array of time entries; fails if any element fails.
pub fn decode_time_entry_list(items: &Vec<JsonValue>) -> (r: Option<Vec<TimeEntry>>)
    ensures
        r matches Some(v) ==> spec_time_entry_list(crate::json::jm_seq(items@), 0) == Some(
            time_entry_vms(v@),
        ),
        r is None ==> spec_time_entry_list(crate::json::jm_seq(items@), 0) is None,
{
    let ghost s = crate::json::jm_seq(items@);
    proof {
        crate::json::lemma_jm_seq(items@);
    }
    let mut acc: Vec<TimeEntry> = Vec::new();
    let mut i: usize = 0;
    while i < items.len()
        invariant
            i <= items@.len(),
            s == crate::json::jm_seq(items@),
            s.len() == items@.len(),
            forall|j: int| 0 <= j < items@.len() ==> s[j] == #[trigger] items@[j].jm(),
            match spec_time_entry_list(s, i as int) {
                Some(rest) => spec_time_entry_list(s, 0) == Some(time_entry_vms(acc@) + rest),
                None => spec_time_entry_list(s, 0) is None,
            },
        decreases items@.len() - i,
    {
        proof {
            if i == 0 {
                assert(spec_time_entry_list(s, 0) matches Some(rest) ==> time_entry_vms(acc@) + rest
                    =~= rest);
            }
        }
        match decode_time_entry(&items[i]) {
            Some(x) => {
                let ghost old_acc = acc@;
                acc.push(x);
                proof {
                    assert(spec_time_entry(s[i as int]) == Some(x.vm()));
                    match spec_time_entry_list(s, i + 1 as int) {
                        Some(rest2) => {
                            assert(spec_time_entry_list(s, i as int) == Some(seq![x.vm()] + rest2));
                            assert(time_entry_vms(old_acc) + (seq![x.vm()] + rest2) =~= time_entry_vms(
                                acc@,
                            ) + rest2) by {
                                assert(time_entry_vms(acc@) =~= time_entry_vms(old_acc).push(x.vm()));
                            }
                        },
                        None => {
                            assert(spec_time_entry_list(s, i as int) is None);
                        },
                    }
                }
                i = i + 1;
            },
            None => {
                proof {
                    assert(spec_time_entry(s[i as int]) is None);
                    assert(spec_time_entry_list(s, i as int) is None);
                }
                return None;
            },
        }
    }
    proof {
        assert(spec_time_entry_list(s, i as int) == Some(Seq::<TimeEntryM>::empty()));
        assert(time_entry_vms(acc@) + Seq::<TimeEntryM>::empty() =~= time_entry_vms(acc@));
    }
    Some(acc)
}

/// Reads the versions starting at index `i` of the array.
pub open spec fn spec_version_list(items: Seq<JsonModel>, i: int) -> Option<Seq<VersionM>>
    decreases items.len() - i,
{
    if i >= items.len() {
        Some(Seq::empty())
    } else if i < 0 {
        None
    } else {
        match spec_version(items[i]) {
            Some(x) => match spec_version_list(items, i + 1) {
                Some(rest) => Some(seq![x] + rest),
                None => None,
            },
            None => None,
        }
    }
}

/// The views of a sequence of decoded versions.
pub open spec fn version_vms(s: Seq<Version>) -> Seq<VersionM> {
    s.map_values(|x: Version| x.vm())
}

/// Decodes an array of versions; fails if any element fails.
pub fn decode_version_list(items: &Vec<JsonValue>) -> (r: Option<Vec<Version>>)
    ensures
        r matches Some(v) ==> spec_version_list(crate::json::jm_seq(items@), 0) == Some(
            version_vms(v@),
        ),
        r is None ==> spec_version_list(crate::json::jm_seq(items@), 0) is None,
{
    let ghost s = crate::json::jm_seq(items@);
    proof {
        crate::json::lemma_jm_seq(items@);
    }
    let mut acc: Vec<Version> = Vec::new();
    let mut i: usize = 0;
    while i < items.len()
        invariant
            i <= items@.len(),
            s == crate::json::jm_seq(items@),
            s.len() == items@.len(),
            forall|j: int| 0 <= j < items@.len() ==> s[j] == #[trigger] items@[j].jm(),
            match spec_version_list(s, i as int) {
                Some(rest) => spec_version_list(s, 0) == Some(version_vms(acc@) + rest),
                None => spec_version_list(s, 0) is None,
            },
        decreases items@.len() - i,
    {
        proof {
            if i == 0 {
                assert(spec_version_list(s, 0) matches Some(rest) ==> version_vms(acc@) + rest
                    =~= rest);
            }
        }
        match decode_version_opt(&items[i]) {
            Some(x) => {
                let ghost old_acc = acc@;
                acc.push(x);
                proof {
                    assert(spec_version(s[i as int]) == Some(x.vm()));
                    match spec_version_list(s, i + 1 as int) {
                        Some(rest2) => {
                            assert(spec_version_list(s, i as int) == Some(seq![x.vm()] + rest2));
                            assert(version_vms(old_acc) + (seq![x.vm()] + rest2) =~= version_vms(
                                acc@,
                            ) + rest2) by {
                                assert(version_vms(acc@) =~= version_vms(old_acc).push(x.vm()));
                            }
                        },
                        None => {
                            assert(spec_version_list(s, i as int) is None);
                        },
                    }
                }
                i = i + 1;
            },
            None => {
                proof {
                    assert(spec_version(s[i as int]) is None);
                    assert(spec_version_list(s, i as int) is None);
                }
                return None;
            },
        }
    }
    proof {
        assert(spec_version_list(s, i as int) == Some(Seq::<VersionM>::empty()));
        assert(version_vms(acc@) + Seq::<VersionM>::empty() =~= version_vms(acc@));
    }
    Some(acc)
}

} // verus!

// ===== response wrappers =====

verus! {

/// A page of projects: the items plus the upstream's pagination fields.
pub struct ProjectsResponse {
    pub projects: Vec<Project>,
    pub total_count: Option<i32>,
    pub offset: Option<i32>,
    pub limit: Option<i32>,
}

/// The model of a page of projects.
pub struct ProjectsResponseM {
    pub projects: Seq<ProjectM>,
    pub total_count: Option<i32>,
    pub offset: Option<i32>,
    pub limit: Option<i32>,
}

impl ProjectsResponse {
    /// The mathematical view of this page.
    pub open spec fn vm(self) -> ProjectsResponseM {
        ProjectsResponseM {
            projects: project_vms(self.projects@),
            total_count: self.total_count,
            offset: self.offset,
            limit: self.limit,
        }
    }
}

/// Reads a page of projects out of a response body.
pub open spec fn spec_projects_response(m: JsonModel) -> Option<ProjectsResponseM> {
    match jm_get(m, "projects"@) {
        Some(JsonModel::Arr(items)) => match (
            spec_project_list(items, 0),
            jopt_i32(m, "total_count"@),
            jopt_i32(m, "offset"@),
            jopt_i32(m, "limit"@),
        ) {
            (Some(list), Some(total_count), Some(offset), Some(limit)) => Some(
                ProjectsResponseM { projects: list, total_count, offset, limit },
            ),
            _ => None,
        },
        _ => None,
    }
}

/// Decodes a page of projects.
pub fn decode_projects_response(v: &JsonValue) -> (r: Option<ProjectsResponse>)
    ensures
        r matches Some(x) ==> spec_projects_response(v.jm()) == Some(x.vm()),
        r is None ==> spec_projects_response(v.jm()) is None,
{
    let arr = match v.get("projects") {
        Some(inner) => match inner.as_array() {
            Some(items) => items,
            None => {
                return None;
            },
        },
        None => {
            return None;
        },
    };
    let list = match decode_project_list(arr) {
        Some(list) => list,
        None => {
            return None;
        },
    };
    let total_count = match opt_i32(v, "total_count") {
        Some(x) => x,
        None => {
            return None;
        },
    };
    let offset = match opt_i32(v, "offset") {
        Some(x) => x,
        None => {
            return None;
        },
    };
    let limit = match opt_i32(v, "limit") {
        Some(x) => x,
        None => {
            return None;
        },
    };
    Some(ProjectsResponse { projects: list, total_count, offset, limit })
}

/// A page of issues: the items plus the upstream's pagination fields.
pub struct IssuesResponse {
    pub issues: Vec<Issue>,
    pub total_count: Option<i32>,
    pub offset: Option<i32>,
    pub limit: Option<i32>,
}

/// The model of a page of issues.
pub struct IssuesResponseM {
    pub issues: Seq<IssueM>,
    pub total_count: Option<i32>,
    pub offset: Option<i32>,
    pub limit: Option<i32>,
}

impl IssuesResponse {
    /// The mathematical view of this page.
    pub open spec fn vm(self) -> IssuesResponseM {
        IssuesResponseM {
            issues: issue_vms(self.issues@),
            total_count: self.total_count,
            offset: self.offset,
            limit: self.limit,
        }
    }
}

/// Reads a page of issues out of a response body.
pub open spec fn spec_issues_response(m: JsonModel) -> Option<IssuesResponseM> {
    match jm_get(m, "issues"@) {
        Some(JsonModel::Arr(items)) => match (
            spec_issue_list(items, 0),
            jopt_i32(m, "total_count"@),
            jopt_i32(m, "offset"@),
            jopt_i32(m, "limit"@),
        ) {
            (Some(list), Some(total_count), Some(offset), Some(limit)) => Some(
                IssuesResponseM { issues: list, total_count, offset, limit },
            ),
            _ => None,
        },
        _ => None,
    }
}

/// Decodes a page of issues.
pub fn decode_issues_response(v: &JsonValue) -> (r: Option<IssuesResponse>)
    ensures
        r matches Some(x) ==> spec_issues_response(v.jm()) == Some(x.vm()),
        r is None ==> spec_issues_response(v.jm()) is None,
{
    let arr = match v.get("issues") {
        Some(inner) => match inner.as_array() {
            Some(items) => items,
            None => {
                return None;
            },
        },
        None => {
            return None;
        },
    };
    let list = match decode_issue_list(arr) {
        Some(list) => list,
        None => {
            return None;
        },
    };
    let total_count = match opt_i32(v, "total_count") {
        Some(x) => x,
        None => {
            return None;
        },
    };
    let offset = match opt_i32(v, "offset") {
        Some(x) => x,
        None => {
            return None;
        },
    };
    let limit = match opt_i32(v, "limit") {
        Some(x) => x,
        None => {
            return None;
        },
    };
    Some(IssuesResponse { issues: list, total_count, offset, limit })
}

/// A page of users: the items plus the upstream's pagination fields.
pub struct UsersResponse {
    pub users: Vec<User>,
    pub total_count: Option<i32>,
    pub offset: Option<i32>,
    pub limit: Option<i32>,
}

/// The model of a page of users.
pub struct UsersResponseM {
    pub users: Seq<UserM>,
    pub total_count: Option<i32>,
    pub offset: Option<i32>,
    pub limit: Option<i32>,
}

impl UsersResponse {
    /// The mathematical view of this page.
    pub open spec fn vm(self) -> UsersResponseM {
        UsersResponseM {
            users: user_vms(self.users@),
            total_count: self.total_count,
            offset: self.offset,
            limit: self.limit,
        }
    }
}

/// Reads a page of users out of a response body.
pub open spec fn spec_users_response(m: JsonModel) -> Option<UsersResponseM> {
    match jm_get(m, "users"@) {
        Some(JsonModel::Arr(items)) => match (
            spec_user_list(items, 0),
            jopt_i32(m, "total_count"@),
            jopt_i32(m, "offset"@),
            jopt_i32(m, "limit"@),
        ) {
            (Some(list), Some(total_count), Some(offset), Some(limit)) => Some(
                UsersResponseM { users: list, total_count, offset, limit },
            ),
            _ => None,
        },
        _ => None,
    }
}

/// Decodes a page of users.
pub fn decode_users_response(v: &JsonValue) -> (r: Option<UsersResponse>)
    ensures
        r matches Some(x) ==> spec_users_response(v.jm()) == Some(x.vm()),
        r is None ==> spec_users_response(v.jm()) is None,
{
    let arr = match v.get("users") {
        Some(inner) => match inner.as_array() {
            Some(items) => items,
            None => {
                return None;
            },
        },
        None => {
            return None;
        },
    };
    let list = match decode_user_list(arr) {
        Some(list) => list,
        None => {
            return None;
        },
    };
    let total_count = match opt_i32(v, "total_count") {
        Some(x) => x,
        None => {
            return None;
        },
    };
    let offset = match opt_i32(v, "offset") {
        Some(x) => x,
        None => {
            return None;
        },
    };
    let limit = match opt_i32(v, "limit") {
        Some(x) => x,
        None => {
            return None;
        },
    };
    Some(UsersResponse { users: list, total_count, offset, limit })
}

/// A page of time entries: the items plus the upstream's pagination fields.
pub struct TimeEntriesResponse {
    pub time_entries: Vec<TimeEntry>,
    pub total_count: Option<i32>,
    pub offset: Option<i32>,
    pub limit: Option<i32>,
}

/// The model of a page of time entries.
pub struct TimeEntriesResponseM {
    pub time_entries: Seq<TimeEntryM>,
    pub total_count: Option<i32>,
    pub offset: Option<i32>,
    pub limit: Option<i32>,
}

impl TimeEntriesResponse {
    /// The mathematical view of this page.
    pub open spec fn vm(self) -> TimeEntriesResponseM {
        TimeEntriesResponseM {
            time_entries: time_entry_vms(self.time_entries@),
            total_count: self.total_count,
            offset: self.offset,
            limit: self.limit,
        }
    }
}

/// Reads a page of time entries out of a response body.
pub open spec fn spec_time_entries_response(m: JsonModel) -> Option<TimeEntriesResponseM> {
    match jm_get(m, "time_entries"@) {
        Some(JsonModel::Arr(items)) => match (
            spec_time_entry_list(items, 0),
            jopt_i32(m, "total_count"@),
            jopt_i32(m, "offset"@),
            jopt_i32(m, "limit"@),
        ) {
            (Some(list), Some(total_count), Some(offset), Some(limit)) => Some(
                TimeEntriesResponseM { time_entries: list, total_count, offset, limit },
            ),
            _ => None,
        },
        _ => None,
    }
}

/// Decodes a page of time entries.
pub fn decode_time_entries_response(v: &JsonValue) -> (r: Option<TimeEntriesResponse>)
    ensures
        r matches Some(x) ==> spec_time_entries_response(v.jm()) == Some(x.vm()),
        r is None ==> spec_time_entries_response(v.jm()) is None,
{
    let arr = match v.get("time_entries") {
        Some(inner) => match inner.as_array() {
            Some(items) => items,
            None => {
                return None;
            },
        },
        None => {
            return None;
        },
    };
    let list = match decode_time_entry_list(arr) {
        Some(list) => list,
        None => {
            return None;
        },
    };
    let total_count = match opt_i32(v, "total_count") {
        Some(x) => x,
        None => {
            return None;
        },
    };
    let offset = match opt_i32(v, "offset") {
        Some(x) => x,
        None => {
            return None;
        },
    };
    let limit = match opt_i32(v, "limit") {
        Some(x) => x,
        None => {
            return None;
        },
    };
    Some(TimeEntriesResponse { time_entries: list, total_count, offset, limit })
}

/// A page of versions: the items plus the upstream's pagination fields.
pub struct VersionsResponse {
    pub versions: Vec<Version>,
    pub total_count: Option<i32>,
    pub offset: Option<i32>,
    pub limit: Option<i32>,
}

/// The model of a page of versions.
pub struct VersionsResponseM {
    pub versions: Seq<VersionM>,
    pub total_count: Option<i32>,
    pub offset: Option<i32>,
    pub limit: Option<i32>,
}

impl VersionsResponse {
    /// The mathematical view of this page.
    pub open spec fn vm(self) -> VersionsResponseM {
        VersionsResponseM {
            versions: version_vms(self.versions@),
            total_count: self.total_count,
            offset: self.offset,
            limit: self.limit,
        }
    }
}

/// Reads a page of versions out of a response body.
pub open spec fn spec_versions_response(m: JsonModel) -> Option<VersionsResponseM> {
    match jm_get(m, "versions"@) {
        Some(JsonModel::Arr(items)) => match (
            spec_version_list(items, 0),
            jopt_i32(m, "total_count"@),
            jopt_i32(m, "offset"@),
            jopt_i32(m, "limit"@),
        ) {
            (Some(list), Some(total_count), Some(offset), Some(limit)) => Some(
                VersionsResponseM { versions: list, total_count, offset, limit },
            ),
            _ => None,
        },
        _ => None,
    }
}

/// Decodes a page of versions.
pub fn decode_versions_response(v: &JsonValue) -> (r: Option<VersionsResponse>)
    ensures
        r matches Some(x) ==> spec_versions_response(v.jm()) == Some(x.vm()),
        r is None ==> spec_versions_response(v.jm()) is None,
{
    let arr = match v.get("versions") {
        Some(inner) => match inner.as_array() {
            Some(items) => items,
            None => {
                return None;
            },
        },
        None => {
            return None;
        },
    };
    let list = match decode_version_list(arr) {
        Some(list) => list,
        None => {
            return None;
        },
    };
    let total_count = match opt_i32(v, "total_count") {
        Some(x) => x,
        None => {
            return None;
        },
    };
    let offset = match opt_i32(v, "offset") {
        Some(x) => x,
        None => {
            return None;
        },
    };
    let limit = match opt_i32(v, "limit") {
        Some(x) => x,
        None => {
            return None;
        },
    };
    Some(VersionsResponse { versions: list, total_count, offset, limit })
}

/// A single project wrapped in its response body.
pub struct ProjectResponse {
    pub project: Project,
}

/// Reads a single project out of a response body.
pub open spec fn spec_project_response(m: JsonModel) -> Option<ProjectM> {
    match jm_get(m, "project"@) {
        Some(inner) => spec_project(inner),
        None => None,
    }
}

/// Decodes a single project response.
pub fn decode_project_response(v: &JsonValue) -> (r: Option<ProjectResponse>)
    ensures
        r matches Some(x) ==> spec_project_response(v.jm()) == Some(x.project.vm()),
        r is None ==> spec_project_response(v.jm()) is None,
{
    match v.get("project") {
        Some(inner) => match decode_project(inner) {
            Some(x) => Some(ProjectResponse { project: x }),
            None => None,
        },
        None => None,
    }
}

/// A single issue wrapped in its response body.
pub struct IssueResponse {
    pub issue: Issue,
}

/// Reads a single issue out of a response body.
pub open spec fn spec_issue_response(m: JsonModel) -> Option<IssueM> {
    match jm_get(m, "issue"@) {
        Some(inner) => spec_issue(inner),
        None => None,
    }
}

/// Decodes a single issue response.
pub fn decode_issue_response(v: &JsonValue) -> (r: Option<IssueResponse>)
    ensures
        r matches Some(x) ==> spec_issue_response(v.jm()) == Some(x.issue.vm()),
        r is None ==> spec_issue_response(v.jm()) is None,
{
    match v.get("issue") {
        Some(inner) => match decode_issue(inner) {
            Some(x) => Some(IssueResponse { issue: x }),
            None => None,
        },
        None => None,
    }
}

/// A single user wrapped in its response body.
pub struct UserResponse {
    pub user: User,
}

/// Reads a single user out of a response body.
pub open spec fn spec_user_response(m: JsonModel) -> Option<UserM> {
    match jm_get(m, "user"@) {
        Some(inner) => spec_user(inner),
        None => None,
    }
}

/// Decodes a single user response.
pub fn decode_user_response(v: &JsonValue) -> (r: Option<UserResponse>)
    ensures
        r matches Some(x) ==> spec_user_response(v.jm()) == Some(x.user.vm()),
        r is None ==> spec_user_response(v.jm()) is None,
{
    match v.get("user") {
        Some(inner) => match decode_user(inner) {
            Some(x) => Some(UserResponse { user: x }),
            None => None,
        },
        None => None,
    }
}

/// A single time_entry wrapped in its response body.
pub struct TimeEntryResponse {
    pub time_entry: TimeEntry,
}

/// Reads a single time_entry out of a response body.
pub open spec fn spec_time_entry_response(m: JsonModel) -> Option<TimeEntryM> {
    match jm_get(m, "time_entry"@) {
        Some(inner) => spec_time_entry(inner),
        None => None,
    }
}

/// Decodes a single time_entry response.
pub fn decode_time_entry_response(v: &JsonValue) -> (r: Option<TimeEntryResponse>)
    ensures
        r matches Some(x) ==> spec_time_entry_response(v.jm()) == Some(x.time_entry.vm()),
        r is None ==> spec_time_entry_response(v.jm()) is None,
{
    match v.get("time_entry") {
        Some(inner) => match decode_time_entry(inner) {
            Some(x) => Some(TimeEntryResponse { time_entry: x }),
            None => None,
        },
        None => None,
    }
}

/// A single version wrapped in its response body.
pub struct VersionResponse {
    pub version: Version,
}

/// Reads a single version out of a response body.
pub open spec fn spec_version_response(m: JsonModel) -> Option<VersionM> {
    match jm_get(m, "version"@) {
        Some(inner) => spec_version(inner),
        None => None,
    }
}

/// Decodes a single version response.
pub fn decode_version_response(v: &JsonValue) -> (r: Option<VersionResponse>)
    ensures
        r matches Some(x) ==> spec_version_response(v.jm()) == Some(x.version.vm()),
        r is None ==> spec_version_response(v.jm()) is None,
{
    match v.get("version") {
        Some(inner) => match decode_version(inner) {
            Some(x) => Some(VersionResponse { version: x }),
            None => None,
        },
        None => None,
    }
}

/// The distinct enumerations observed across scanned issues, each sorted by
/// ascending id.
pub struct IssueEnumerationsResponse {
    pub statuses: Vec<EnumerationValue>,
    pub priorities: Vec<EnumerationValue>,
    pub trackers: Vec<EnumerationValue>,
}

} // verus!

// ===== write request bodies =====

verus! {

use crate::json::jm_fields;

/// Appending one field appends one pair to the object's model.
pub proof fn lemma_jm_fields_snoc(v: Seq<(String, JsonValue)>, p: (String, JsonValue))
    ensures
        jm_fields(v.push(p)) == jm_fields(v).push((p.0@, p.1.jm())),
    decreases v.len(),
{
    if v.len() == 0 {
        assert(v.push(p)[0] == p);
        assert(v =~= Seq::<(String, JsonValue)>::empty());
        assert(v.push(p).drop_first() =~= Seq::<(String, JsonValue)>::empty());
        assert(jm_fields(Seq::<(String, JsonValue)>::empty()) == Seq::<
            (Seq<char>, JsonModel),
        >::empty());
        assert(jm_fields(v.push(p)) =~= jm_fields(v).push((p.0@, p.1.jm())));
    } else {
        lemma_jm_fields_snoc(v.drop_first(), p);
        assert(v.push(p)[0] == v[0]);
        assert(v.push(p).drop_first() =~= v.drop_first().push(p));
        let h = (v[0].0@, v[0].1.jm());
        let q = (p.0@, p.1.jm());
        let a = jm_fields(v.drop_first());
        assert(jm_fields(v.push(p)) == seq![h] + a.push(q));
        assert(jm_fields(v) == seq![h] + a);
        assert(seq![h] + a.push(q) =~= (seq![h] + a).push(q));
    }
}

pub(crate) fn push_field(fields: &mut Vec<(String, JsonValue)>, key: &str, val: JsonValue)
    ensures
        jm_fields(final(fields)@) == jm_fields(old(fields)@).push((key@, val.jm())),
{
    let ghost gv = val;
    fields.push((key.to_owned(), val));
    proof {
        assert(fields@.drop_last() =~= old(fields)@);
        assert(fields@ =~= old(fields)@.push(fields@.last()));
        lemma_jm_fields_snoc(old(fields)@, fields@.last());
    }
}

/// A field holding the given text, when present.
pub open spec fn fld_ostr(key: Seq<char>, o: Option<Seq<char>>) -> Seq<(Seq<char>, JsonModel)> {
    match o {
        Some(t) => seq![(key, JsonModel::Str(t))],
        None => Seq::empty(),
    }
}

/// A field holding the given integer, when present.
pub open spec fn fld_oi32(key: Seq<char>, o: Option<i32>) -> Seq<(Seq<char>, JsonModel)> {
    match o {
        Some(n) => seq![(key, JsonModel::Num(crate::text::dec_int(n as int)))],
        None => Seq::empty(),
    }
}

/// A field holding the given flag, when present.
pub open spec fn fld_obool(key: Seq<char>, o: Option<bool>) -> Seq<(Seq<char>, JsonModel)> {
    match o {
        Some(b) => seq![(key, JsonModel::Bool(b))],
        None => Seq::empty(),
    }
}

/// A field holding the given numeric lexeme, when present.
pub open spec fn fld_onum(key: Seq<char>, o: Option<Seq<char>>) -> Seq<(Seq<char>, JsonModel)> {
    match o {
        Some(t) => seq![(key, JsonModel::Num(t))],
        None => Seq::empty(),
    }
}

pub(crate) fn push_ostr_field(fields: &mut Vec<(String, JsonValue)>, key: &str, o: &Option<String>)
    ensures
        jm_fields(final(fields)@) == jm_fields(old(fields)@) + fld_ostr(
            key@,
            crate::ops::ostr(*o),
        ),
{
    match o {
        Some(t) => {
            push_field(fields, key, JsonValue::Str(t.clone()));
            proof {
                assert(jm_fields(fields@) =~= jm_fields(old(fields)@) + fld_ostr(
                    key@,
                    crate::ops::ostr(*o),
                ));
            }
        },
        None => {
            proof {
                assert(jm_fields(fields@) =~= jm_fields(old(fields)@) + fld_ostr(
                    key@,
                    crate::ops::ostr(*o),
                ));
            }
        },
    }
}

pub(crate) fn push_oi32_field(fields: &mut Vec<(String, JsonValue)>, key: &str, o: &Option<i32>)
    ensures
        jm_fields(final(fields)@) == jm_fields(old(fields)@) + fld_oi32(key@, *o),
{
    match o {
        Some(n) => {
            let lex = crate::text::i32_string(*n);
            push_field(fields, key, JsonValue::Num(lex));
            proof {
                assert(jm_fields(fields@) =~= jm_fields(old(fields)@) + fld_oi32(key@, *o));
            }
        },
        None => {
            proof {
                assert(jm_fields(fields@) =~= jm_fields(old(fields)@) + fld_oi32(key@, *o));
            }
        },
    }
}

pub(crate) fn push_obool_field(fields: &mut Vec<(String, JsonValue)>, key: &str, o: &Option<bool>)
    ensures
        jm_fields(final(fields)@) == jm_fields(old(fields)@) + fld_obool(key@, *o),
{
    match o {
        Some(b) => {
            push_field(fields, key, JsonValue::Bool(*b));
            proof {
                assert(jm_fields(fields@) =~= jm_fields(old(fields)@) + fld_obool(key@, *o));
            }
        },
        None => {
            proof {
                assert(jm_fields(fields@) =~= jm_fields(old(fields)@) + fld_obool(key@, *o));
            }
        },
    }
}

pub(crate) fn push_onum_field(fields: &mut Vec<(String, JsonValue)>, key: &str, o: &Option<String>)
    ensures
        jm_fields(final(fields)@) == jm_fields(old(fields)@) + fld_onum(
            key@,
            crate::ops::ostr(*o),
        ),
{
    match o {
        Some(t) => {
            push_field(fields, key, JsonValue::Num(t.clone()));
            proof {
                assert(jm_fields(fields@) =~= jm_fields(old(fields)@) + fld_onum(
                    key@,
                    crate::ops::ostr(*o),
                ));
            }
        },
        None => {
            proof {
                assert(jm_fields(fields@) =~= jm_fields(old(fields)@) + fld_onum(
                    key@,
                    crate::ops::ostr(*o),
                ));
            }
        },
    }
}

pub(crate) fn push_i32_field(fields: &mut Vec<(String, JsonValue)>, key: &str, n: i32)
    ensures
        jm_fields(final(fields)@) == jm_fields(old(fields)@).push(
            (key@, JsonModel::Num(crate::text::dec_int(n as int))),
        ),
{
    let lex = crate::text::i32_string(n);
    push_field(fields, key, JsonValue::Num(lex));
}

pub(crate) fn push_str_field(fields: &mut Vec<(String, JsonValue)>, key: &str, t: &String)
    ensures
        jm_fields(final(fields)@) == jm_fields(old(fields)@).push((key@, JsonModel::Str(t@))),
{
    push_field(fields, key, JsonValue::Str(t.clone()));
}

/// The body of a project create or update.
pub struct CreateProject {
    pub name: String,
    pub description: Option<String>,
    pub identifier: Option<String>,
    pub homepage: Option<String>,
    pub is_public: Option<bool>,
    pub parent_id: Option<i32>,
    pub inherit_members: Option<bool>,
}

/// The `{"project": {...}}` wrapper around a project write.
pub struct CreateProjectRequest {
    pub project: CreateProject,
}

impl CreateProject {
    /// The object this body serializes to: required fields first, optional
    /// fields only when present.
    pub open spec fn body_fields(self) -> Seq<(Seq<char>, JsonModel)> {
        seq![("name"@, JsonModel::Str(self.name@))] + fld_ostr(
            "description"@,
            crate::ops::ostr(self.description),
        ) + fld_ostr("identifier"@, crate::ops::ostr(self.identifier)) + fld_ostr(
            "homepage"@,
            crate::ops::ostr(self.homepage),
        ) + fld_obool("is_public"@, self.is_public) + fld_oi32("parent_id"@, self.parent_id)
            + fld_obool("inherit_members"@, self.inherit_members)
    }
}

impl CreateProjectRequest {
    /// The JSON body sent on the wire.
    pub fn to_body(&self) -> (r: JsonValue)
        ensures
            r.jm() == JsonModel::Obj(
                seq![("project"@, JsonModel::Obj(self.project.body_fields()))],
            ),
    {
        let mut fields: Vec<(String, JsonValue)> = Vec::new();
        push_str_field(&mut fields, "name", &self.project.name);
        push_ostr_field(&mut fields, "description", &self.project.description);
        push_ostr_field(&mut fields, "identifier", &self.project.identifier);
        push_ostr_field(&mut fields, "homepage", &self.project.homepage);
        push_obool_field(&mut fields, "is_public", &self.project.is_public);
        push_oi32_field(&mut fields, "parent_id", &self.project.parent_id);
        push_obool_field(&mut fields, "inherit_members", &self.project.inherit_members);
        proof {
            assert(jm_fields(fields@) =~= self.project.body_fields());
        }
        let mut outer: Vec<(String, JsonValue)> = Vec::new();
        push_field(&mut outer, "project", JsonValue::Obj(fields));
        proof {
            assert(jm_fields(outer@) =~= seq![
                ("project"@, JsonModel::Obj(self.project.body_fields())),
            ]);
        }
        JsonValue::Obj(outer)
    }
}

/// The body of an issue create or update.
pub struct CreateIssue {
    pub project_id: i32,
    pub tracker_id: i32,
    pub status_id: i32,
    pub priority_id: i32,
    pub subject: String,
    pub description: Option<String>,
    pub category_id: Option<i32>,
    pub fixed_version_id: Option<i32>,
    pub assigned_to_id: Option<i32>,
    pub parent_issue_id: Option<i32>,
    pub estimated_hours: Option<String>,
    pub start_date: Option<String>,
    pub due_date: Option<String>,
    pub done_ratio: Option<i32>,
}

/// The `{"issue": {...}}` wrapper around an issue write.
pub struct CreateIssueRequest {
    pub issue: CreateIssue,
}

impl CreateIssue {
    /// The object this body serializes to.
    pub open spec fn body_fields(self) -> Seq<(Seq<char>, JsonModel)> {
        seq![
            ("project_id"@, JsonModel::Num(crate::text::dec_int(self.project_id as int))),
            ("tracker_id"@, JsonModel::Num(crate::text::dec_int(self.tracker_id as int))),
            ("status_id"@, JsonModel::Num(crate::text::dec_int(self.status_id as int))),
            ("priority_id"@, JsonModel::Num(crate::text::dec_int(self.priority_id as int))),
            ("subject"@, JsonModel::Str(self.subject@)),
        ] + fld_ostr("description"@, crate::ops::ostr(self.description)) + fld_oi32(
            "category_id"@,
            self.category_id,
        ) + fld_oi32("fixed_version_id"@, self.fixed_version_id) + fld_oi32(
            "assigned_to_id"@,
            self.assigned_to_id,
        ) + fld_oi32("parent_issue_id"@, self.parent_issue_id) + fld_onum(
            "estimated_hours"@,
            crate::ops::ostr(self.estimated_hours),
        ) + fld_ostr("start_date"@, crate::ops::ostr(self.start_date)) + fld_ostr(
            "due_date"@,
            crate::ops::ostr(self.due_date),
        ) + fld_oi32("done_ratio"@, self.done_ratio)
    }
}

impl CreateIssueRequest {
    /// The JSON body sent on the wire.
    #[verifier::rlimit(60)]
    pub fn to_body(&self) -> (r: JsonValue)
        ensures
            r.jm() == JsonModel::Obj(seq![("issue"@, JsonModel::Obj(self.issue.body_fields()))]),
    {
        let mut fields: Vec<(String, JsonValue)> = Vec::new();
        push_i32_field(&mut fields, "project_id", self.issue.project_id);
        push_i32_field(&mut fields, "tracker_id", self.issue.tracker_id);
        push_i32_field(&mut fields, "status_id", self.issue.status_id);
        push_i32_field(&mut fields, "priority_id", self.issue.priority_id);
        push_str_field(&mut fields, "subject", &self.issue.subject);
        push_ostr_field(&mut fields, "description", &self.issue.description);
        push_oi32_field(&mut fields, "category_id", &self.issue.category_id);
        push_oi32_field(&mut fields, "fixed_version_id", &self.issue.fixed_version_id);
        push_oi32_field(&mut fields, "assigned_to_id", &self.issue.assigned_to_id);
        push_oi32_field(&mut fields, "parent_issue_id", &self.issue.parent_issue_id);
        push_onum_field(&mut fields, "estimated_hours", &self.issue.estimated_hours);
        push_ostr_field(&mut fields, "start_date", &self.issue.start_date);
        push_ostr_field(&mut fields, "due_date", &self.issue.due_date);
        push_oi32_field(&mut fields, "done_ratio", &self.issue.done_ratio);
        proof {
            assert(jm_fields(fields@) =~= self.issue.body_fields());
        }
        let mut outer: Vec<(String, JsonValue)> = Vec::new();
        push_field(&mut outer, "issue", JsonValue::Obj(fields));
        proof {
            assert(jm_fields(outer@) =~= seq![
                ("issue"@, JsonModel::Obj(self.issue.body_fields())),
            ]);
        }
        JsonValue::Obj(outer)
    }
}

/// The body of a time entry create.
pub struct CreateTimeEntry {
    pub issue_id: Option<i32>,
    pub project_id: Option<i32>,
    pub spent_on: String,
    pub hours: String,
    pub activity_id: i32,
    pub comments: Option<String>,
}

/// The `{"time_entry": {...}}` wrapper around a time entry write.
pub struct CreateTimeEntryRequest {
    pub time_entry: CreateTimeEntry,
}

impl CreateTimeEntry {
    /// The object this body serializes to.
    pub open spec fn body_fields(self) -> Seq<(Seq<char>, JsonModel)> {
        fld_oi32("issue_id"@, self.issue_id) + fld_oi32("project_id"@, self.project_id) + seq![
            ("spent_on"@, JsonModel::Str(self.spent_on@)),
            ("hours"@, JsonModel::Num(self.hours@)),
            ("activity_id"@, JsonModel::Num(crate::text::dec_int(self.activity_id as int))),
        ] + fld_ostr("comments"@, crate::ops::ostr(self.comments))
    }
}

impl CreateTimeEntryRequest {
    /// The JSON body sent on the wire.
    pub fn to_body(&self) -> (r: JsonValue)
        ensures
            r.jm() == JsonModel::Obj(
                seq![("time_entry"@, JsonModel::Obj(self.time_entry.body_fields()))],
            ),
    {
        let mut fields: Vec<(String, JsonValue)> = Vec::new();
        push_oi32_field(&mut fields, "issue_id", &self.time_entry.issue_id);
        push_oi32_field(&mut fields, "project_id", &self.time_entry.project_id);
        push_str_field(&mut fields, "spent_on", &self.time_entry.spent_on);
        push_field(&mut fields, "hours", JsonValue::Num(self.time_entry.hours.clone()));
        push_i32_field(&mut fields, "activity_id", self.time_entry.activity_id);
        push_ostr_field(&mut fields, "comments", &self.time_entry.comments);
        proof {
            assert(jm_fields(fields@) =~= self.time_entry.body_fields());
        }
        let mut outer: Vec<(String, JsonValue)> = Vec::new();
        push_field(&mut outer, "time_entry", JsonValue::Obj(fields));
        proof {
            assert(jm_fields(outer@) =~= seq![
                ("time_entry"@, JsonModel::Obj(self.time_entry.body_fields())),
            ]);
        }
        JsonValue::Obj(outer)
    }
}

/// The body of a milestone (version) create.
pub struct CreateVersion {
    pub name: String,
    pub description: Option<String>,
    pub effective_date: Option<String>,
    pub due_date: Option<String>,
    pub status: Option<String>,
    pub sharing: Option<String>,
    pub default_project_version: Option<bool>,
    pub easy_external_id: Option<String>,
}

/// The `{"version": {...}}` wrapper around a milestone create.
pub struct CreateVersionRequest {
    pub version: CreateVersion,
}

impl CreateVersion {
    /// The object this body serializes to.
    pub open spec fn body_fields(self) -> Seq<(Seq<char>, JsonModel)> {
        seq![("name"@, JsonModel::Str(self.name@))] + fld_ostr(
            "description"@,
            crate::ops::ostr(self.description),
        ) + fld_ostr("effective_date"@, crate::ops::ostr(self.effective_date)) + fld_ostr(
            "due_date"@,
            crate::ops::ostr(self.due_date),
        ) + fld_ostr("status"@, crate::ops::ostr(self.status)) + fld_ostr(
            "sharing"@,
            crate::ops::ostr(self.sharing),
        ) + fld_obool("default_project_version"@, self.default_project_version) + fld_ostr(
            "easy_external_id"@,
            crate::ops::ostr(self.easy_external_id),
        )
    }
}

impl CreateVersionRequest {
    /// The JSON body sent on the wire.
    pub fn to_body(&self) -> (r: JsonValue)
        ensures
            r.jm() == JsonModel::Obj(
                seq![("version"@, JsonModel::Obj(self.version.body_fields()))],
            ),
    {
        let mut fields: Vec<(String, JsonValue)> = Vec::new();
        push_str_field(&mut fields, "name", &self.version.name);
        push_ostr_field(&mut fields, "description", &self.version.description);
        push_ostr_field(&mut fields, "effective_date", &self.version.effective_date);
        push_ostr_field(&mut fields, "due_date", &self.version.due_date);
        push_ostr_field(&mut fields, "status", &self.version.status);
        push_ostr_field(&mut fields, "sharing", &self.version.sharing);
        push_obool_field(&mut fields, "default_project_version", &self.version.default_project_version);
        push_ostr_field(&mut fields, "easy_external_id", &self.version.easy_external_id);
        proof {
            assert(jm_fields(fields@) =~= self.version.body_fields());
        }
        let mut outer: Vec<(String, JsonValue)> = Vec::new();
        push_field(&mut outer, "version", JsonValue::Obj(fields));
        proof {
            assert(jm_fields(outer@) =~= seq![
                ("version"@, JsonModel::Obj(self.version.body_fields())),
            ]);
        }
        JsonValue::Obj(outer)
    }
}

/// The body of a milestone (version) update: every field optional.
pub struct UpdateVersion {
    pub name: Option<String>,
    pub description: Option<String>,
    pub effective_date: Option<String>,
    pub due_date: Option<String>,
    pub status: Option<String>,
    pub sharing: Option<String>,
    pub default_project_version: Option<bool>,
    pub easy_external_id: Option<String>,
}

/// The `{"version": {...}}` wrapper around a milestone update.
pub struct UpdateVersionRequest {
    pub version: UpdateVersion,
}

impl UpdateVersion {
    /// The object this body serializes to.
    pub open spec fn body_fields(self) -> Seq<(Seq<char>, JsonModel)> {
        fld_ostr("name"@, crate::ops::ostr(self.name)) + fld_ostr(
            "description"@,
            crate::ops::ostr(self.description),
        ) + fld_ostr("effective_date"@, crate::ops::ostr(self.effective_date)) + fld_ostr(
            "due_date"@,
            crate::ops::ostr(self.due_date),
        ) + fld_ostr("status"@, crate::ops::ostr(self.status)) + fld_ostr(
            "sharing"@,
            crate::ops::ostr(self.sharing),
        ) + fld_obool("default_project_version"@, self.default_project_version) + fld_ostr(
            "easy_external_id"@,
            crate::ops::ostr(self.easy_external_id),
        )
    }
}

impl UpdateVersionRequest {
    /// The JSON body sent on the wire.
    pub fn to_body(&self) -> (r: JsonValue)
        ensures
            r.jm() == JsonModel::Obj(
                seq![("version"@, JsonModel::Obj(self.version.body_fields()))],
            ),
    {
        let mut fields: Vec<(String, JsonValue)> = Vec::new();
        push_ostr_field(&mut fields, "name", &self.version.name);
        push_ostr_field(&mut fields, "description", &self.version.description);
        push_ostr_field(&mut fields, "effective_date", &self.version.effective_date);
        push_ostr_field(&mut fields, "due_date", &self.version.due_date);
        push_ostr_field(&mut fields, "status", &self.version.status);
        push_ostr_field(&mut fields, "sharing", &self.version.sharing);
        push_obool_field(&mut fields, "default_project_version", &self.version.default_project_version);
        push_ostr_field(&mut fields, "easy_external_id", &self.version.easy_external_id);
        proof {
            assert(jm_fields(fields@) =~= self.version.body_fields());
        }
        let mut outer: Vec<(String, JsonValue)> = Vec::new();
        push_field(&mut outer, "version", JsonValue::Obj(fields));
        proof {
            assert(jm_fields(outer@) =~= seq![
                ("version"@, JsonModel::Obj(self.version.body_fields())),
            ]);
        }
        JsonValue::Obj(outer)
    }
}

} // verus!
