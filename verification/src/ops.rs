//! Operation parameters and cache-key derivation.
//!
//! Every cached read operation derives a key from its complete, ordered
//! parameter set.  A key is a structured value: the operation tag plus one
//! atom per parameter, with a distinct atom for an absent parameter, so keys
//! are stable for identical parameter sets and provably distinct whenever any
//! parameter differs.

use vstd::prelude::*;

verus! {

broadcast use vstd::std_specs::vec::group_vec_axioms, vstd::seq::group_seq_axioms;

/// The cached read operations, used as cache-key tags.
#[derive(PartialEq, Eq, Structural, Clone, Copy, Debug)]
pub enum Op {
    ListProjects,
    GetProject,
    ListIssues,
    GetIssue,
    ListUsers,
    GetUser,
    ListTimeEntries,
    ListMilestones,
    GetMilestone,
}

/// One encoded parameter.  An absent optional parameter is `Missing`, which
/// no present value encodes to.
pub enum Atom {
    Missing,
    UInt(u32),
    Int(i32),
    Flag(bool),
    Text(String),
    TextList(Vec<String>),
}

/// The mathematical model of an atom.
pub enum AtomModel {
    Missing,
    UInt(u32),
    Int(i32),
    Flag(bool),
    Text(Seq<char>),
    TextList(Seq<Seq<char>>),
}

/// The views of a list of strings.
pub open spec fn texts_view(v: Seq<String>) -> Seq<Seq<char>> {
    v.map_values(|s: String| s@)
}

impl Atom {
    /// The model of this atom.
    pub open spec fn am(self) -> AtomModel {
        match self {
            Atom::Missing => AtomModel::Missing,
            Atom::UInt(v) => AtomModel::UInt(v),
            Atom::Int(v) => AtomModel::Int(v),
            Atom::Flag(v) => AtomModel::Flag(v),
            Atom::Text(s) => AtomModel::Text(s@),
            Atom::TextList(v) => AtomModel::TextList(texts_view(v@)),
        }
    }
}

/// A derived cache key: the operation tag and one atom per parameter, in a
/// fixed order.
pub struct CacheKey {
    pub op: Op,
    pub atoms: Vec<Atom>,
}

impl CacheKey {
    /// The model of this key.
    pub open spec fn km(self) -> (Op, Seq<AtomModel>) {
        (self.op, self.atoms@.map_values(|a: Atom| a.am()))
    }
}

fn texts_eq(a: &Vec<String>, b: &Vec<String>) -> (r: bool)
    ensures
        r == (texts_view(a@) == texts_view(b@)),
{
    if a.len() != b.len() {
        proof {
            assert(texts_view(a@).len() != texts_view(b@).len());
        }
        return false;
    }
    let mut i: usize = 0;
    while i < a.len()
        invariant
            i <= a@.len(),
            a@.len() == b@.len(),
            forall|j: int| 0 <= j < i ==> texts_view(a@)[j] == texts_view(b@)[j],
        decreases a@.len() - i,
    {
        if !(a[i] == b[i]) {
            proof {
                assert(texts_view(a@)[i as int] == a@[i as int]@);
                assert(texts_view(b@)[i as int] == b@[i as int]@);
            }
            return false;
        }
        i = i + 1;
    }
    proof {
        assert(texts_view(a@) =~= texts_view(b@));
    }
    true
}

fn atom_eq(a: &Atom, b: &Atom) -> (r: bool)
    ensures
        r == (a.am() == b.am()),
{
    match (a, b) {
        (Atom::Missing, Atom::Missing) => true,
        (Atom::UInt(x), Atom::UInt(y)) => *x == *y,
        (Atom::Int(x), Atom::Int(y)) => *x == *y,
        (Atom::Flag(x), Atom::Flag(y)) => *x == *y,
        (Atom::Text(x), Atom::Text(y)) => {
            let r = x.eq(y);
            r
        },
        (Atom::TextList(x), Atom::TextList(y)) => texts_eq(x, y),
        _ => false,
    }
}

/// Structural equality of two cache keys, decided exactly on their models.
pub fn key_eq(a: &CacheKey, b: &CacheKey) -> (r: bool)
    ensures
        r == (a.km() == b.km()),
{
    if !(a.op == b.op) {
        return false;
    }
    if a.atoms.len() != b.atoms.len() {
        proof {
            assert(a.km().1.len() != b.km().1.len());
        }
        return false;
    }
    let mut i: usize = 0;
    while i < a.atoms.len()
        invariant
            i <= a.atoms@.len(),
            a.atoms@.len() == b.atoms@.len(),
            a.op == b.op,
            forall|j: int| 0 <= j < i ==> a.km().1[j] == b.km().1[j],
        decreases a.atoms@.len() - i,
    {
        if !atom_eq(&a.atoms[i], &b.atoms[i]) {
            proof {
                assert(a.km().1[i as int] == a.atoms@[i as int].am());
                assert(b.km().1[i as int] == b.atoms@[i as int].am());
            }
            return false;
        }
        i = i + 1;
    }
    proof {
        assert(a.km().1 =~= b.km().1);
    }
    true
}

// ===== parameter encodings =====

/// The atom for an optional unsigned parameter.
pub open spec fn a_ou32(o: Option<u32>) -> AtomModel {
    match o {
        Some(v) => AtomModel::UInt(v),
        None => AtomModel::Missing,
    }
}

/// The atom for an optional signed parameter.
pub open spec fn a_oi32(o: Option<i32>) -> AtomModel {
    match o {
        Some(v) => AtomModel::Int(v),
        None => AtomModel::Missing,
    }
}

/// The atom for an optional boolean parameter.
pub open spec fn a_obool(o: Option<bool>) -> AtomModel {
    match o {
        Some(v) => AtomModel::Flag(v),
        None => AtomModel::Missing,
    }
}

/// The atom for an optional text parameter.
pub open spec fn a_otext(o: Option<Seq<char>>) -> AtomModel {
    match o {
        Some(v) => AtomModel::Text(v),
        None => AtomModel::Missing,
    }
}

/// The atom for an optional list-of-texts parameter.
pub open spec fn a_olist(o: Option<Seq<Seq<char>>>) -> AtomModel {
    match o {
        Some(v) => AtomModel::TextList(v),
        None => AtomModel::Missing,
    }
}

/// The view of an optional string.
pub open spec fn ostr(o: Option<String>) -> Option<Seq<char>> {
    match o {
        Some(s) => Some(s@),
        None => None,
    }
}

/// The view of an optional list of strings.
pub open spec fn olist(o: Option<Vec<String>>) -> Option<Seq<Seq<char>>> {
    match o {
        Some(v) => Some(texts_view(v@)),
        None => None,
    }
}

fn push_ou32(atoms: &mut Vec<Atom>, o: &Option<u32>)
    ensures
        final(atoms)@.len() == old(atoms)@.len() + 1,
        final(atoms)@.subrange(0, old(atoms)@.len() as int) == old(atoms)@,
        final(atoms)@.last().am() == a_ou32(*o),
{
    match o {
        Some(v) => atoms.push(Atom::UInt(*v)),
        None => atoms.push(Atom::Missing),
    }
    proof {
        assert(atoms@.subrange(0, old(atoms)@.len() as int) =~= old(atoms)@);
    }
}

fn push_oi32(atoms: &mut Vec<Atom>, o: &Option<i32>)
    ensures
        final(atoms)@.len() == old(atoms)@.len() + 1,
        final(atoms)@.subrange(0, old(atoms)@.len() as int) == old(atoms)@,
        final(atoms)@.last().am() == a_oi32(*o),
{
    match o {
        Some(v) => atoms.push(Atom::Int(*v)),
        None => atoms.push(Atom::Missing),
    }
    proof {
        assert(atoms@.subrange(0, old(atoms)@.len() as int) =~= old(atoms)@);
    }
}

fn push_obool(atoms: &mut Vec<Atom>, o: &Option<bool>)
    ensures
        final(atoms)@.len() == old(atoms)@.len() + 1,
        final(atoms)@.subrange(0, old(atoms)@.len() as int) == old(atoms)@,
        final(atoms)@.last().am() == a_obool(*o),
{
    match o {
        Some(v) => atoms.push(Atom::Flag(*v)),
        None => atoms.push(Atom::Missing),
    }
    proof {
        assert(atoms@.subrange(0, old(atoms)@.len() as int) =~= old(atoms)@);
    }
}

fn push_otext(atoms: &mut Vec<Atom>, o: &Option<String>)
    ensures
        final(atoms)@.len() == old(atoms)@.len() + 1,
        final(atoms)@.subrange(0, old(atoms)@.len() as int) == old(atoms)@,
        final(atoms)@.last().am() == a_otext(ostr(*o)),
{
    match o {
        Some(v) => {
            let c = v.clone();
            atoms.push(Atom::Text(c));
        },
        None => atoms.push(Atom::Missing),
    }
    proof {
        assert(atoms@.subrange(0, old(atoms)@.len() as int) =~= old(atoms)@);
    }
}

fn push_olist(atoms: &mut Vec<Atom>, o: &Option<Vec<String>>)
    ensures
        final(atoms)@.len() == old(atoms)@.len() + 1,
        final(atoms)@.subrange(0, old(atoms)@.len() as int) == old(atoms)@,
        final(atoms)@.last().am() == a_olist(olist(*o)),
{
    match o {
        Some(v) => {
            let mut copy: Vec<String> = Vec::new();
            let mut i: usize = 0;
            while i < v.len()
                invariant
                    i <= v@.len(),
                    copy@.len() == i,
                    forall|j: int| 0 <= j < i ==> texts_view(copy@)[j] == texts_view(v@)[j],
                decreases v@.len() - i,
            {
                copy.push(v[i].clone());
                i = i + 1;
            }
            proof {
                assert(texts_view(copy@) =~= texts_view(v@));
            }
            atoms.push(Atom::TextList(copy));
        },
        None => atoms.push(Atom::Missing),
    }
    proof {
        assert(atoms@.subrange(0, old(atoms)@.len() as int) =~= old(atoms)@);
    }
}

} // verus!

// ===== operation parameter sets =====

verus! {

/// Parameters of the project list operation.
pub struct ListProjectsParams {
    pub limit: Option<u32>,
    pub offset: Option<u32>,
    pub include_archived: Option<bool>,
    pub easy_query_q: Option<String>,
    pub set_filter: Option<bool>,
    pub sort: Option<String>,
}

impl ListProjectsParams {
    /// The mathematical view of this parameter set.
    pub open spec fn pm(self) -> (
        Option<u32>,
        Option<u32>,
        Option<bool>,
        Option<Seq<char>>,
        Option<bool>,
        Option<Seq<char>>,
    ) {
        (
            self.limit,
            self.offset,
            self.include_archived,
            ostr(self.easy_query_q),
            self.set_filter,
            ostr(self.sort),
        )
    }

    /// The key atoms derived from this parameter set.
    pub open spec fn key_atoms(self) -> Seq<AtomModel> {
        seq![
            a_ou32(self.limit),
            a_ou32(self.offset),
            a_obool(self.include_archived),
            a_otext(ostr(self.easy_query_q)),
            a_obool(self.set_filter),
            a_otext(ostr(self.sort)),
        ]
    }
}

/// The cache key of a project list request.
pub fn list_projects_key(p: &ListProjectsParams) -> (k: CacheKey)
    ensures
        k.km() == (Op::ListProjects, p.key_atoms()),
{
    let mut atoms: Vec<Atom> = Vec::new();
    push_ou32(&mut atoms, &p.limit);
    push_ou32(&mut atoms, &p.offset);
    push_obool(&mut atoms, &p.include_archived);
    push_otext(&mut atoms, &p.easy_query_q);
    push_obool(&mut atoms, &p.set_filter);
    push_otext(&mut atoms, &p.sort);
    let k = CacheKey { op: Op::ListProjects, atoms };
    proof {
        assert(k.km().1 =~= p.key_atoms());
    }
    k
}

/// Distinct project-list parameter sets derive distinct cache keys.
pub proof fn lemma_list_projects_key_injective(p1: ListProjectsParams, p2: ListProjectsParams)
    requires
        p1.pm() != p2.pm(),
    ensures
        (Op::ListProjects, p1.key_atoms()) != (Op::ListProjects, p2.key_atoms()),
{
    if p1.key_atoms() == p2.key_atoms() {
        assert(p1.key_atoms()[0] == p2.key_atoms()[0]);
        assert(p1.key_atoms()[1] == p2.key_atoms()[1]);
        assert(p1.key_atoms()[2] == p2.key_atoms()[2]);
        assert(p1.key_atoms()[3] == p2.key_atoms()[3]);
        assert(p1.key_atoms()[4] == p2.key_atoms()[4]);
        assert(p1.key_atoms()[5] == p2.key_atoms()[5]);
        assert(p1.pm() == p2.pm());
    }
}

/// Parameters of the issue list operation.
pub struct ListIssuesParams {
    pub project_id: Option<i32>,
    pub limit: Option<u32>,
    pub offset: Option<u32>,
    pub includes: Option<Vec<String>>,
    pub easy_query_q: Option<String>,
    pub set_filter: Option<bool>,
    pub sort: Option<String>,
    pub assigned_to_id: Option<i32>,
    pub status_id: Option<i32>,
    pub tracker_id: Option<i32>,
    pub priority_id: Option<i32>,
}

impl ListIssuesParams {
    /// The mathematical view of this parameter set.
    pub open spec fn pm(self) -> (
        Option<i32>,
        Option<u32>,
        Option<u32>,
        Option<Seq<Seq<char>>>,
        Option<Seq<char>>,
        Option<bool>,
        Option<Seq<char>>,
        Option<i32>,
        Option<i32>,
        Option<i32>,
        Option<i32>,
    ) {
        (
            self.project_id,
            self.limit,
            self.offset,
            olist(self.includes),
            ostr(self.easy_query_q),
            self.set_filter,
            ostr(self.sort),
            self.assigned_to_id,
            self.status_id,
            self.tracker_id,
            self.priority_id,
        )
    }

    /// The key atoms derived from this parameter set.
    pub open spec fn key_atoms(self) -> Seq<AtomModel> {
        seq![
            a_oi32(self.project_id),
            a_ou32(self.limit),
            a_ou32(self.offset),
            a_olist(olist(self.includes)),
            a_otext(ostr(self.easy_query_q)),
            a_obool(self.set_filter),
            a_otext(ostr(self.sort)),
            a_oi32(self.assigned_to_id),
            a_oi32(self.status_id),
            a_oi32(self.tracker_id),
            a_oi32(self.priority_id),
        ]
    }
}

/// The cache key of an issue list request.
pub fn list_issues_key(p: &ListIssuesParams) -> (k: CacheKey)
    ensures
        k.km() == (Op::ListIssues, p.key_atoms()),
{
    let mut atoms: Vec<Atom> = Vec::new();
    push_oi32(&mut atoms, &p.project_id);
    push_ou32(&mut atoms, &p.limit);
    push_ou32(&mut atoms, &p.offset);
    push_olist(&mut atoms, &p.includes);
    push_otext(&mut atoms, &p.easy_query_q);
    push_obool(&mut atoms, &p.set_filter);
    push_otext(&mut atoms, &p.sort);
    push_oi32(&mut atoms, &p.assigned_to_id);
    push_oi32(&mut atoms, &p.status_id);
    push_oi32(&mut atoms, &p.tracker_id);
    push_oi32(&mut atoms, &p.priority_id);
    let k = CacheKey { op: Op::ListIssues, atoms };
    proof {
        assert(k.km().1 =~= p.key_atoms());
    }
    k
}

/// Distinct issue-list parameter sets derive distinct cache keys.
pub proof fn lemma_list_issues_key_injective(p1: ListIssuesParams, p2: ListIssuesParams)
    requires
        p1.pm() != p2.pm(),
    ensures
        (Op::ListIssues, p1.key_atoms()) != (Op::ListIssues, p2.key_atoms()),
{
    if p1.key_atoms() == p2.key_atoms() {
        assert forall|i: int| 0 <= i < 11 implies p1.key_atoms()[i] == p2.key_atoms()[i] by {}
        assert(p1.key_atoms()[0] == p2.key_atoms()[0]);
        assert(p1.key_atoms()[1] == p2.key_atoms()[1]);
        assert(p1.key_atoms()[2] == p2.key_atoms()[2]);
        assert(p1.key_atoms()[3] == p2.key_atoms()[3]);
        assert(p1.key_atoms()[4] == p2.key_atoms()[4]);
        assert(p1.key_atoms()[5] == p2.key_atoms()[5]);
        assert(p1.key_atoms()[6] == p2.key_atoms()[6]);
        assert(p1.key_atoms()[7] == p2.key_atoms()[7]);
        assert(p1.key_atoms()[8] == p2.key_atoms()[8]);
        assert(p1.key_atoms()[9] == p2.key_atoms()[9]);
        assert(p1.key_atoms()[10] == p2.key_atoms()[10]);
        assert(p1.pm() == p2.pm());
    }
}

/// Parameters of the user list operation.
pub struct ListUsersParams {
    pub limit: Option<u32>,
    pub offset: Option<u32>,
    pub easy_query_q: Option<String>,
    pub set_filter: Option<bool>,
    pub sort: Option<String>,
    pub status: Option<String>,
}

impl ListUsersParams {
    /// The mathematical view of this parameter set.
    pub open spec fn pm(self) -> (
        Option<u32>,
        Option<u32>,
        Option<Seq<char>>,
        Option<bool>,
        Option<Seq<char>>,
        Option<Seq<char>>,
    ) {
        (
            self.limit,
            self.offset,
            ostr(self.easy_query_q),
            self.set_filter,
            ostr(self.sort),
            ostr(self.status),
        )
    }

    /// The key atoms derived from this parameter set.
    pub open spec fn key_atoms(self) -> Seq<AtomModel> {
        seq![
            a_ou32(self.limit),
            a_ou32(self.offset),
            a_otext(ostr(self.easy_query_q)),
            a_obool(self.set_filter),
            a_otext(ostr(self.sort)),
            a_otext(ostr(self.status)),
        ]
    }
}

/// The cache key of a user list request.
pub fn list_users_key(p: &ListUsersParams) -> (k: CacheKey)
    ensures
        k.km() == (Op::ListUsers, p.key_atoms()),
{
    let mut atoms: Vec<Atom> = Vec::new();
    push_ou32(&mut atoms, &p.limit);
    push_ou32(&mut atoms, &p.offset);
    push_otext(&mut atoms, &p.easy_query_q);
    push_obool(&mut atoms, &p.set_filter);
    push_otext(&mut atoms, &p.sort);
    push_otext(&mut atoms, &p.status);
    let k = CacheKey { op: Op::ListUsers, atoms };
    proof {
        assert(k.km().1 =~= p.key_atoms());
    }
    k
}

/// Distinct user-list parameter sets derive distinct cache keys.
pub proof fn lemma_list_users_key_injective(p1: ListUsersParams, p2: ListUsersParams)
    requires
        p1.pm() != p2.pm(),
    ensures
        (Op::ListUsers, p1.key_atoms()) != (Op::ListUsers, p2.key_atoms()),
{
    if p1.key_atoms() == p2.key_atoms() {
        assert(p1.key_atoms()[0] == p2.key_atoms()[0]);
        assert(p1.key_atoms()[1] == p2.key_atoms()[1]);
        assert(p1.key_atoms()[2] == p2.key_atoms()[2]);
        assert(p1.key_atoms()[3] == p2.key_atoms()[3]);
        assert(p1.key_atoms()[4] == p2.key_atoms()[4]);
        assert(p1.key_atoms()[5] == p2.key_atoms()[5]);
        assert(p1.pm() == p2.pm());
    }
}

/// Parameters of the time entry list operation.
pub struct ListTimeEntriesParams {
    pub project_id: Option<i32>,
    pub user_id: Option<i32>,
    pub limit: Option<u32>,
    pub offset: Option<u32>,
    pub from_date: Option<String>,
    pub to_date: Option<String>,
}

impl ListTimeEntriesParams {
    /// The mathematical view of this parameter set.
    pub open spec fn pm(self) -> (
        Option<i32>,
        Option<i32>,
        Option<u32>,
        Option<u32>,
        Option<Seq<char>>,
        Option<Seq<char>>,
    ) {
        (
            self.project_id,
            self.user_id,
            self.limit,
            self.offset,
            ostr(self.from_date),
            ostr(self.to_date),
        )
    }

    /// The key atoms derived from this parameter set.
    pub open spec fn key_atoms(self) -> Seq<AtomModel> {
        seq![
            a_oi32(self.project_id),
            a_oi32(self.user_id),
            a_ou32(self.limit),
            a_ou32(self.offset),
            a_otext(ostr(self.from_date)),
            a_otext(ostr(self.to_date)),
        ]
    }
}

/// The cache key of a time entry list request.
pub fn list_time_entries_key(p: &ListTimeEntriesParams) -> (k: CacheKey)
    ensures
        k.km() == (Op::ListTimeEntries, p.key_atoms()),
{
    let mut atoms: Vec<Atom> = Vec::new();
    push_oi32(&mut atoms, &p.project_id);
    push_oi32(&mut atoms, &p.user_id);
    push_ou32(&mut atoms, &p.limit);
    push_ou32(&mut atoms, &p.offset);
    push_otext(&mut atoms, &p.from_date);
    push_otext(&mut atoms, &p.to_date);
    let k = CacheKey { op: Op::ListTimeEntries, atoms };
    proof {
        assert(k.km().1 =~= p.key_atoms());
    }
    k
}

/// Distinct time-entry-list parameter sets derive distinct cache keys.
pub proof fn lemma_list_time_entries_key_injective(
    p1: ListTimeEntriesParams,
    p2: ListTimeEntriesParams,
)
    requires
        p1.pm() != p2.pm(),
    ensures
        (Op::ListTimeEntries, p1.key_atoms()) != (Op::ListTimeEntries, p2.key_atoms()),
{
    if p1.key_atoms() == p2.key_atoms() {
        assert(p1.key_atoms()[0] == p2.key_atoms()[0]);
        assert(p1.key_atoms()[1] == p2.key_atoms()[1]);
        assert(p1.key_atoms()[2] == p2.key_atoms()[2]);
        assert(p1.key_atoms()[3] == p2.key_atoms()[3]);
        assert(p1.key_atoms()[4] == p2.key_atoms()[4]);
        assert(p1.key_atoms()[5] == p2.key_atoms()[5]);
        assert(p1.pm() == p2.pm());
    }
}

/// Parameters of the milestone list operation.
pub struct ListMilestonesParams {
    pub limit: Option<u32>,
    pub offset: Option<u32>,
    pub project_id: Option<i32>,
    pub status: Option<String>,
    pub easy_query_q: Option<String>,
}

impl ListMilestonesParams {
    /// The mathematical view of this parameter set.
    pub open spec fn pm(self) -> (
        Option<u32>,
        Option<u32>,
        Option<i32>,
        Option<Seq<char>>,
        Option<Seq<char>>,
    ) {
        (self.limit, self.offset, self.project_id, ostr(self.status), ostr(self.easy_query_q))
    }

    /// The key atoms derived from this parameter set.
    pub open spec fn key_atoms(self) -> Seq<AtomModel> {
        seq![
            a_ou32(self.limit),
            a_ou32(self.offset),
            a_oi32(self.project_id),
            a_otext(ostr(self.status)),
            a_otext(ostr(self.easy_query_q)),
        ]
    }
}

/// The cache key of a milestone list request.
pub fn list_milestones_key(p: &ListMilestonesParams) -> (k: CacheKey)
    ensures
        k.km() == (Op::ListMilestones, p.key_atoms()),
{
    let mut atoms: Vec<Atom> = Vec::new();
    push_ou32(&mut atoms, &p.limit);
    push_ou32(&mut atoms, &p.offset);
    push_oi32(&mut atoms, &p.project_id);
    push_otext(&mut atoms, &p.status);
    push_otext(&mut atoms, &p.easy_query_q);
    let k = CacheKey { op: Op::ListMilestones, atoms };
    proof {
        assert(k.km().1 =~= p.key_atoms());
    }
    k
}

/// Distinct milestone-list parameter sets derive distinct cache keys.
pub proof fn lemma_list_milestones_key_injective(
    p1: ListMilestonesParams,
    p2: ListMilestonesParams,
)
    requires
        p1.pm() != p2.pm(),
    ensures
        (Op::ListMilestones, p1.key_atoms()) != (Op::ListMilestones, p2.key_atoms()),
{
    if p1.key_atoms() == p2.key_atoms() {
        assert(p1.key_atoms()[0] == p2.key_atoms()[0]);
        assert(p1.key_atoms()[1] == p2.key_atoms()[1]);
        assert(p1.key_atoms()[2] == p2.key_atoms()[2]);
        assert(p1.key_atoms()[3] == p2.key_atoms()[3]);
        assert(p1.key_atoms()[4] == p2.key_atoms()[4]);
        assert(p1.pm() == p2.pm());
    }
}

/// The key atoms of a single-entity read: the identifier and the requested
/// includes list.
pub open spec fn entity_key_atoms(id: i32, includes: Option<Seq<Seq<char>>>) -> Seq<AtomModel> {
    seq![AtomModel::Int(id), a_olist(includes)]
}

/// The cache key of a single-entity read.
pub fn entity_key(op: Op, id: i32, includes: &Option<Vec<String>>) -> (k: CacheKey)
    ensures
        k.km() == (op, entity_key_atoms(id, olist(*includes))),
{
    let mut atoms: Vec<Atom> = Vec::new();
    atoms.push(Atom::Int(id));
    push_olist(&mut atoms, includes);
    let k = CacheKey { op, atoms };
    proof {
        assert(atoms@.subrange(0, 1)[0] == atoms@[0]);
        assert(atoms@[0] == Atom::Int(id));
        assert(k.km().1 =~= entity_key_atoms(id, olist(*includes)));
    }
    k
}

/// Distinct single-entity reads derive distinct cache keys.
pub proof fn lemma_entity_key_injective(
    id1: i32,
    inc1: Option<Seq<Seq<char>>>,
    id2: i32,
    inc2: Option<Seq<Seq<char>>>,
)
    requires
        id1 != id2 || inc1 != inc2,
    ensures
        entity_key_atoms(id1, inc1) != entity_key_atoms(id2, inc2),
{
    if entity_key_atoms(id1, inc1) == entity_key_atoms(id2, inc2) {
        assert(entity_key_atoms(id1, inc1)[0] == entity_key_atoms(id2, inc2)[0]);
        assert(entity_key_atoms(id1, inc1)[1] == entity_key_atoms(id2, inc2)[1]);
    }
}

} // verus!
