//! The cache-aware operation layer.
//!
//! Each read operation comes in two halves.  The first (named after the
//! operation) derives the cache key from the full parameter set and consults
//! the cache: on a fresh hit it returns the decoded result with no request
//! and no admission token spent; on a miss it returns the exact request to
//! issue.  The second half (`*_fetched`) classifies the HTTP outcome,
//! decodes the body, and stores the raw decoded body in the cache.  Write
//! operations build their request directly and, where they carry an
//! invalidation scope, clear the whole cache on success — the deliberate,
//! coarse invalidation this design documents.
//!
//! The driving loop owns the actual I/O: it calls `acquire_token` until granted,
//! issues the request, and hands back the status and body text.

use vstd::prelude::*;
use crate::cache::{ResponseCache, KeyModel};
use crate::limiter::{TokenBucket, Admission};
use crate::json::{JsonValue, JsonModel};
use crate::error::ApiError;
use crate::ops::{
    Op, ListProjectsParams, ListIssuesParams, ListUsersParams, ListTimeEntriesParams,
    ListMilestonesParams, list_projects_key, list_issues_key, list_users_key,
    list_time_entries_key, list_milestones_key, entity_key, entity_key_atoms, ostr, olist,
};
use crate::request::{
    RequestSpec, ReqM, HttpMethod, pairs_view, spec_classify, classify_http, qry_ou32, qry_oi32,
    qry_otext, qry_olist, qry_filter, push_qry_ou32, push_qry_oi32, push_qry_otext,
    push_qry_olist, push_qry_filter, entity_path, make_entity_path, empty_obj, extras_key,
    extras_key_string, push_qry_extras,
};
use crate::models::{
    ProjectsResponse, ProjectResponse, IssuesResponse, IssueResponse, UsersResponse, UserResponse,
    TimeEntriesResponse, TimeEntryResponse, VersionsResponse, VersionResponse,
    spec_projects_response, spec_project_response, spec_issues_response, spec_issue_response,
    spec_users_response, spec_user_response, spec_time_entries_response,
    spec_time_entry_response, spec_versions_response, spec_version_response,
    decode_projects_response, decode_project_response, decode_issues_response,
    decode_issue_response, decode_users_response, decode_user_response,
    decode_time_entries_response, decode_time_entry_response, decode_versions_response,
    decode_version_response, CreateProjectRequest, CreateIssueRequest, CreateTimeEntryRequest,
    CreateVersionRequest, UpdateVersionRequest,
};

verus! {

broadcast use vstd::std_specs::vec::group_vec_axioms, vstd::seq::group_seq_axioms;

/// What a read operation decided: a result served from cache, or the request
/// that must be issued.
pub enum Step<T> {
    Ready(T),
    Fetch(RequestSpec),
}

/// The client: credential, optional response cache, optional rate limiter.
pub struct EasyProjectClient {
    pub api_key: String,
    pub cache: Option<ResponseCache>,
    pub limiter: Option<TokenBucket>,
}

impl EasyProjectClient {
    /// Internal consistency of cache and limiter.
    pub open spec fn wf(self) -> bool {
        &&& match self.cache {
            Some(c) => c.wf(),
            None => true,
        }
        &&& match self.limiter {
            Some(b) => b.wf(),
            None => true,
        }
    }

    /// Whether responses are cached at all.
    pub open spec fn has_cache(self) -> bool {
        self.cache is Some
    }

    /// What the cache serves for a key at a time: nothing when caching is
    /// off.
    pub open spec fn cached(self, k: KeyModel, now: u64) -> Option<JsonModel> {
        match self.cache {
            Some(c) => c.lookup(k, now),
            None => None,
        }
    }

    /// The cache's time to live, where one exists.
    pub open spec fn cache_ttl(self) -> u64 {
        match self.cache {
            Some(c) => c.spec_ttl(),
            None => 0,
        }
    }

    /// The configuration (credential, cache shape, limiter) of two states
    /// agrees; only cache contents and bucket fill may differ.
    pub open spec fn same_shape(self, other: EasyProjectClient) -> bool {
        &&& self.api_key == other.api_key
        &&& self.has_cache() == other.has_cache()
        &&& self.cache_ttl() == other.cache_ttl()
        &&& self.limiter is Some <==> other.limiter is Some
    }

    /// A client from its parts.
    pub fn from_parts(api_key: String, cache: Option<ResponseCache>, limiter: Option<TokenBucket>)
        -> (r: EasyProjectClient)
        requires
            cache matches Some(c) ==> c.wf(),
            limiter matches Some(b) ==> b.wf(),
        ensures
            r.wf(),
            r.api_key == api_key,
            r.cache == cache,
            r.limiter == limiter,
    {
        EasyProjectClient { api_key, cache, limiter }
    }

    /// The authentication headers attached to every request.
    pub open spec fn auth_m(self) -> Seq<(Seq<char>, Seq<char>)> {
        seq![("X-Redmine-API-Key"@, self.api_key@)]
    }

    fn auth_headers(&self) -> (r: Vec<(String, String)>)
        ensures
            pairs_view(r@) == self.auth_m(),
    {
        let mut headers: Vec<(String, String)> = Vec::new();
        headers.push(("X-Redmine-API-Key".to_owned(), self.api_key.clone()));
        proof {
            assert(pairs_view(headers@) =~= self.auth_m());
        }
        headers
    }

    /// Asks the rate limiter for one admission token; a client without a
    /// limiter grants every call at once.
    pub fn acquire_token(&mut self, now: u64) -> (r: Admission)
        requires
            old(self).wf(),
        ensures
            final(self).wf(),
            final(self).same_shape(*old(self)),
            final(self).cache == old(self).cache,
            old(self).limiter is None ==> r == Admission::Granted && *final(self) == *old(self),
            old(self).limiter matches Some(b) ==> (r == Admission::Granted <==> b.fill_at(now)
                >= crate::limiter::UNITS_PER_TOKEN),
    {
        match &mut self.limiter {
            Some(b) => b.acquire(now),
            None => Admission::Granted,
        }
    }

    /// Clears the whole cache.  This is the only invalidation primitive:
    /// the scope only names what the caller mutated, the clearing is always
    /// total.
    pub fn invalidate_cache(&mut self, _scope: &str)
        requires
            old(self).wf(),
        ensures
            final(self).wf(),
            final(self).same_shape(*old(self)),
            final(self).limiter == old(self).limiter,
            forall|k: KeyModel, t: u64| #[trigger] final(self).cached(k, t) is None,
    {
        match &mut self.cache {
            Some(c) => c.invalidate_all(),
            None => {},
        }
    }

    /// The project list request for a parameter set.
    pub open spec fn list_projects_request_m(self, p: ListProjectsParams) -> ReqM {
        ReqM {
            method: HttpMethod::Get,
            path: "/projects.json"@,
            query: qry_ou32("limit"@, p.limit) + qry_ou32("offset"@, p.offset) + qry_filter(
                ostr(p.easy_query_q),
                p.set_filter,
            ) + qry_otext("sort"@, ostr(p.sort)),
            headers: self.auth_m(),
            body: None,
        }
    }

    /// Lists projects: serves a fresh cache entry without any request, or
    /// names the exact request to issue.  A hit that no longer decodes is a
    /// cache error, never a silent refetch.
    pub fn list_projects(&self, p: &ListProjectsParams, now: u64) -> (r: Result<
        Step<ProjectsResponse>,
        ApiError,
    >)
        requires
            self.wf(),
        ensures
            match r {
                Ok(Step::Ready(resp)) => self.cached((Op::ListProjects, p.key_atoms()), now)
                    matches Some(m) && spec_projects_response(m) == Some(resp.vm()),
                Ok(Step::Fetch(req)) => self.cached((Op::ListProjects, p.key_atoms()), now) is None
                    && req.vm() == self.list_projects_request_m(*p),
                Err(e) => e matches ApiError::Cache(_) && self.cached(
                    (Op::ListProjects, p.key_atoms()),
                    now,
                ) matches Some(m) && spec_projects_response(m) is None,
            },
    {
        let key = list_projects_key(p);
        match &self.cache {
            Some(c) => {
                match c.get(&key, now) {
                    Some(v) => {
                        match decode_projects_response(v) {
                            Some(resp) => Ok(Step::Ready(resp)),
                            None => Err(ApiError::Cache("Chyba deserializace z cache".to_owned())),
                        }
                    },
                    None => Ok(Step::Fetch(self.list_projects_request(p))),
                }
            },
            None => Ok(Step::Fetch(self.list_projects_request(p))),
        }
    }

    fn list_projects_request(&self, p: &ListProjectsParams) -> (req: RequestSpec)
        ensures
            req.vm() == self.list_projects_request_m(*p),
    {
        let mut query: Vec<(String, String)> = Vec::new();
        push_qry_ou32(&mut query, "limit", &p.limit);
        push_qry_ou32(&mut query, "offset", &p.offset);
        push_qry_filter(&mut query, &p.easy_query_q, &p.set_filter);
        push_qry_otext(&mut query, "sort", &p.sort);
        let req = RequestSpec {
            method: HttpMethod::Get,
            path: "/projects.json".to_owned(),
            query,
            headers: self.auth_headers(),
            body: None,
        };
        proof {
            assert(req.vm().query =~= self.list_projects_request_m(*p).query);
            assert(req.vm() =~= self.list_projects_request_m(*p));
        }
        req
    }

    /// Completes a project list fetch: classifies the outcome, decodes the
    /// page, and caches the raw decoded body on success.
    pub fn list_projects_fetched(
        &mut self,
        p: &ListProjectsParams,
        now: u64,
        status: u16,
        body: &str,
    ) -> (r: Result<ProjectsResponse, ApiError>)
        requires
            old(self).wf(),
        ensures
            final(self).wf(),
            final(self).same_shape(*old(self)),
            final(self).limiter == old(self).limiter,
            match spec_classify(status, body@) {
                Err((s, msg)) => r matches Err(ApiError::Api { status: s2, message }) && s2 == s
                    && message@ == msg && *final(self) == *old(self),
                Ok(m) => match spec_projects_response(m) {
                    Some(vmresp) => {
                        &&& r matches Ok(resp) && resp.vm() == vmresp
                        &&& old(self).has_cache() ==> forall|t: u64|
                            t < now + old(self).cache_ttl()
                                ==> #[trigger] final(self).cached((Op::ListProjects, p.key_atoms()), t)
                                == Some(m)
                        &&& !old(self).has_cache() ==> *final(self) == *old(self)
                        &&& forall|k2: KeyModel, t: u64|
                            k2 != (Op::ListProjects, p.key_atoms())
                                && #[trigger] final(self).cached(k2, t) is Some
                                ==> old(self).cached(k2, t) == final(self).cached(k2, t)
                    },
                    None => r matches Err(ApiError::Api { status: 500u16, .. }) && *final(self)
                        == *old(self),
                },
            },
    {
        let decoded = match classify_http(status, body) {
            Ok(v) => v,
            Err(e) => {
                return Err(e);
            },
        };
        let resp = match decode_projects_response(&decoded) {
            Some(resp) => resp,
            None => {
                return Err(
                    ApiError::Api { status: 500, message: "Chyba parsování JSON".to_owned() },
                );
            },
        };
        let key = list_projects_key(p);
        match &mut self.cache {
            Some(c) => {
                c.put(key, decoded, now);
            },
            None => {},
        }
        Ok(resp)
    }
}

} // verus!

// ===== further read operations =====

verus! {

impl EasyProjectClient {

    /// The issue list request for a parameter set.
    pub open spec fn list_issues_request_m(self, p: ListIssuesParams) -> ReqM {
        ReqM {
            method: HttpMethod::Get,
            path: "/issues.json"@,
            query: qry_oi32("project_id"@, p.project_id) + qry_ou32("limit"@, p.limit) + qry_ou32(
                "offset"@,
                p.offset,
            ) + qry_olist(extras_key(), olist(p.includes)) + qry_filter(
                ostr(p.easy_query_q),
                p.set_filter,
            ) + qry_otext("sort"@, ostr(p.sort)) + qry_oi32("assigned_to_id"@, p.assigned_to_id)
                + qry_oi32("status_id"@, p.status_id) + qry_oi32("tracker_id"@, p.tracker_id)
                + qry_oi32("priority_id"@, p.priority_id),
            headers: self.auth_m(),
            body: None,
        }
    }

    /// Lists issues: serves a fresh cache entry without any request, or
    /// names the exact request to issue.  A hit that no longer decodes is a
    /// cache error, never a silent refetch.
    pub fn list_issues(&self, p: &ListIssuesParams, now: u64) -> (r: Result<Step<IssuesResponse>, ApiError>)
        requires
            self.wf(),
        ensures
            match r {
                Ok(Step::Ready(resp)) => self.cached((Op::ListIssues, p.key_atoms()), now)
                    matches Some(m) && spec_issues_response(m) == Some(resp.vm()),
                Ok(Step::Fetch(req)) => self.cached((Op::ListIssues, p.key_atoms()), now) is None
                    && req.vm() == self.list_issues_request_m(*p),
                Err(e) => e matches ApiError::Cache(_) && self.cached(
                    (Op::ListIssues, p.key_atoms()),
                    now,
                ) matches Some(m) && spec_issues_response(m) is None,
            },
    {
        let key = list_issues_key(p);
        match &self.cache {
            Some(c) => {
                match c.get(&key, now) {
                    Some(v) => {
                        match decode_issues_response(v) {
                            Some(resp) => Ok(Step::Ready(resp)),
                            None => Err(ApiError::Cache("Chyba deserializace z cache".to_owned())),
                        }
                    },
                    None => Ok(Step::Fetch(self.list_issues_request(p))),
                }
            },
            None => Ok(Step::Fetch(self.list_issues_request(p))),
        }
    }

    fn list_issues_request(&self, p: &ListIssuesParams) -> (req: RequestSpec)
        ensures
            req.vm() == self.list_issues_request_m(*p),
    {
        let mut query: Vec<(String, String)> = Vec::new();
        push_qry_oi32(&mut query, "project_id", &p.project_id);
        push_qry_ou32(&mut query, "limit", &p.limit);
        push_qry_ou32(&mut query, "offset", &p.offset);
        push_qry_extras(&mut query, &p.includes);
        push_qry_filter(&mut query, &p.easy_query_q, &p.set_filter);
        push_qry_otext(&mut query, "sort", &p.sort);
        push_qry_oi32(&mut query, "assigned_to_id", &p.assigned_to_id);
        push_qry_oi32(&mut query, "status_id", &p.status_id);
        push_qry_oi32(&mut query, "tracker_id", &p.tracker_id);
        push_qry_oi32(&mut query, "priority_id", &p.priority_id);
        let req = RequestSpec {
            method: HttpMethod::Get,
            path: "/issues.json".to_owned(),
            query,
            headers: self.auth_headers(),
            body: None,
        };
        proof {
            assert(req.vm().query =~= self.list_issues_request_m(*p).query);
            assert(req.vm() =~= self.list_issues_request_m(*p));
        }
        req
    }

    /// Completes a issue list fetch: classifies the outcome, decodes the page,
    /// and caches the raw decoded body on success.
    pub fn list_issues_fetched(&mut self, p: &ListIssuesParams, now: u64, status: u16, body: &str) -> (r: Result<
        IssuesResponse,
        ApiError,
    >)
        requires
            old(self).wf(),
        ensures
            final(self).wf(),
            final(self).same_shape(*old(self)),
            final(self).limiter == old(self).limiter,
            match spec_classify(status, body@) {
                Err((s, msg)) => r matches Err(ApiError::Api { status: s2, message }) && s2 == s
                    && message@ == msg && *final(self) == *old(self),
                Ok(m) => match spec_issues_response(m) {
                    Some(vmresp) => {
                        &&& r matches Ok(resp) && resp.vm() == vmresp
                        &&& old(self).has_cache() ==> forall|t: u64|
                            t < now + old(self).cache_ttl()
                                ==> #[trigger] final(self).cached((Op::ListIssues, p.key_atoms()), t)
                                == Some(m)
                        &&& !old(self).has_cache() ==> *final(self) == *old(self)
                        &&& forall|k2: KeyModel, t: u64|
                            k2 != (Op::ListIssues, p.key_atoms())
                                && #[trigger] final(self).cached(k2, t) is Some
                                ==> old(self).cached(k2, t) == final(self).cached(k2, t)
                    },
                    None => r matches Err(ApiError::Api { status: 500u16, .. }) && *final(self)
                        == *old(self),
                },
            },
    {
        let decoded = match classify_http(status, body) {
            Ok(v) => v,
            Err(e) => {
                return Err(e);
            },
        };
        let resp = match decode_issues_response(&decoded) {
            Some(resp) => resp,
            None => {
                return Err(
                    ApiError::Api { status: 500, message: "Chyba parsování JSON".to_owned() },
                );
            },
        };
        let key = list_issues_key(p);
        match &mut self.cache {
            Some(c) => {
                c.put(key, decoded, now);
            },
            None => {},
        }
        Ok(resp)
    }

    /// The user list request for a parameter set.
    pub open spec fn list_users_request_m(self, p: ListUsersParams) -> ReqM {
        ReqM {
            method: HttpMethod::Get,
            path: "/users.json"@,
            query: qry_ou32("limit"@, p.limit) + qry_ou32("offset"@, p.offset) + qry_filter(
                ostr(p.easy_query_q),
                p.set_filter,
            ) + qry_otext("sort"@, ostr(p.sort)) + qry_otext("status"@, ostr(p.status)),
            headers: self.auth_m(),
            body: None,
        }
    }

    /// Lists users: serves a fresh cache entry without any request, or
    /// names the exact request to issue.  A hit that no longer decodes is a
    /// cache error, never a silent refetch.
    pub fn list_users(&self, p: &ListUsersParams, now: u64) -> (r: Result<Step<UsersResponse>, ApiError>)
        requires
            self.wf(),
        ensures
            match r {
                Ok(Step::Ready(resp)) => self.cached((Op::ListUsers, p.key_atoms()), now)
                    matches Some(m) && spec_users_response(m) == Some(resp.vm()),
                Ok(Step::Fetch(req)) => self.cached((Op::ListUsers, p.key_atoms()), now) is None
                    && req.vm() == self.list_users_request_m(*p),
                Err(e) => e matches ApiError::Cache(_) && self.cached(
                    (Op::ListUsers, p.key_atoms()),
                    now,
                ) matches Some(m) && spec_users_response(m) is None,
            },
    {
        let key = list_users_key(p);
        match &self.cache {
            Some(c) => {
                match c.get(&key, now) {
                    Some(v) => {
                        match decode_users_response(v) {
                            Some(resp) => Ok(Step::Ready(resp)),
                            None => Err(ApiError::Cache("Chyba deserializace z cache".to_owned())),
                        }
                    },
                    None => Ok(Step::Fetch(self.list_users_request(p))),
                }
            },
            None => Ok(Step::Fetch(self.list_users_request(p))),
        }
    }

    fn list_users_request(&self, p: &ListUsersParams) -> (req: RequestSpec)
        ensures
            req.vm() == self.list_users_request_m(*p),
    {
        let mut query: Vec<(String, String)> = Vec::new();
        push_qry_ou32(&mut query, "limit", &p.limit);
        push_qry_ou32(&mut query, "offset", &p.offset);
        push_qry_filter(&mut query, &p.easy_query_q, &p.set_filter);
        push_qry_otext(&mut query, "sort", &p.sort);
        push_qry_otext(&mut query, "status", &p.status);
        let req = RequestSpec {
            method: HttpMethod::Get,
            path: "/users.json".to_owned(),
            query,
            headers: self.auth_headers(),
            body: None,
        };
        proof {
            assert(req.vm().query =~= self.list_users_request_m(*p).query);
            assert(req.vm() =~= self.list_users_request_m(*p));
        }
        req
    }

    /// Completes a user list fetch: classifies the outcome, decodes the page,
    /// and caches the raw decoded body on success.
    pub fn list_users_fetched(&mut self, p: &ListUsersParams, now: u64, status: u16, body: &str) -> (r: Result<
        UsersResponse,
        ApiError,
    >)
        requires
            old(self).wf(),
        ensures
            final(self).wf(),
            final(self).same_shape(*old(self)),
            final(self).limiter == old(self).limiter,
            match spec_classify(status, body@) {
                Err((s, msg)) => r matches Err(ApiError::Api { status: s2, message }) && s2 == s
                    && message@ == msg && *final(self) == *old(self),
                Ok(m) => match spec_users_response(m) {
                    Some(vmresp) => {
                        &&& r matches Ok(resp) && resp.vm() == vmresp
                        &&& old(self).has_cache() ==> forall|t: u64|
                            t < now + old(self).cache_ttl()
                                ==> #[trigger] final(self).cached((Op::ListUsers, p.key_atoms()), t)
                                == Some(m)
                        &&& !old(self).has_cache() ==> *final(self) == *old(self)
                        &&& forall|k2: KeyModel, t: u64|
                            k2 != (Op::ListUsers, p.key_atoms())
                                && #[trigger] final(self).cached(k2, t) is Some
                                ==> old(self).cached(k2, t) == final(self).cached(k2, t)
                    },
                    None => r matches Err(ApiError::Api { status: 500u16, .. }) && *final(self)
                        == *old(self),
                },
            },
    {
        let decoded = match classify_http(status, body) {
            Ok(v) => v,
            Err(e) => {
                return Err(e);
            },
        };
        let resp = match decode_users_response(&decoded) {
            Some(resp) => resp,
            None => {
                return Err(
                    ApiError::Api { status: 500, message: "Chyba parsování JSON".to_owned() },
                );
            },
        };
        let key = list_users_key(p);
        match &mut self.cache {
            Some(c) => {
                c.put(key, decoded, now);
            },
            None => {},
        }
        Ok(resp)
    }

    /// The time entry list request for a parameter set.
    pub open spec fn list_time_entries_request_m(self, p: ListTimeEntriesParams) -> ReqM {
        ReqM {
            method: HttpMethod::Get,
            path: "/time_entries.json"@,
            query: qry_oi32("project_id"@, p.project_id) + qry_oi32("user_id"@, p.user_id)
                + qry_ou32("limit"@, p.limit) + qry_ou32("offset"@, p.offset) + qry_otext(
                "from"@,
                ostr(p.from_date),
            ) + qry_otext("to"@, ostr(p.to_date)),
            headers: self.auth_m(),
            body: None,
        }
    }

    /// Lists time entries: serves a fresh cache entry without any request, or
    /// names the exact request to issue.  A hit that no longer decodes is a
    /// cache error, never a silent refetch.
    pub fn list_time_entries(&self, p: &ListTimeEntriesParams, now: u64) -> (r: Result<Step<TimeEntriesResponse>, ApiError>)
        requires
            self.wf(),
        ensures
            match r {
                Ok(Step::Ready(resp)) => self.cached((Op::ListTimeEntries, p.key_atoms()), now)
                    matches Some(m) && spec_time_entries_response(m) == Some(resp.vm()),
                Ok(Step::Fetch(req)) => self.cached((Op::ListTimeEntries, p.key_atoms()), now) is None
                    && req.vm() == self.list_time_entries_request_m(*p),
                Err(e) => e matches ApiError::Cache(_) && self.cached(
                    (Op::ListTimeEntries, p.key_atoms()),
                    now,
                ) matches Some(m) && spec_time_entries_response(m) is None,
            },
    {
        let key = list_time_entries_key(p);
        match &self.cache {
            Some(c) => {
                match c.get(&key, now) {
                    Some(v) => {
                        match decode_time_entries_response(v) {
                            Some(resp) => Ok(Step::Ready(resp)),
                            None => Err(ApiError::Cache("Chyba deserializace z cache".to_owned())),
                        }
                    },
                    None => Ok(Step::Fetch(self.list_time_entries_request(p))),
                }
            },
            None => Ok(Step::Fetch(self.list_time_entries_request(p))),
        }
    }

    fn list_time_entries_request(&self, p: &ListTimeEntriesParams) -> (req: RequestSpec)
        ensures
            req.vm() == self.list_time_entries_request_m(*p),
    {
        let mut query: Vec<(String, String)> = Vec::new();
        push_qry_oi32(&mut query, "project_id", &p.project_id);
        push_qry_oi32(&mut query, "user_id", &p.user_id);
        push_qry_ou32(&mut query, "limit", &p.limit);
        push_qry_ou32(&mut query, "offset", &p.offset);
        push_qry_otext(&mut query, "from", &p.from_date);
        push_qry_otext(&mut query, "to", &p.to_date);
        let req = RequestSpec {
            method: HttpMethod::Get,
            path: "/time_entries.json".to_owned(),
            query,
            headers: self.auth_headers(),
            body: None,
        };
        proof {
            assert(req.vm().query =~= self.list_time_entries_request_m(*p).query);
            assert(req.vm() =~= self.list_time_entries_request_m(*p));
        }
        req
    }

    /// Completes a time entry list fetch: classifies the outcome, decodes the page,
    /// and caches the raw decoded body on success.
    pub fn list_time_entries_fetched(&mut self, p: &ListTimeEntriesParams, now: u64, status: u16, body: &str) -> (r: Result<
        TimeEntriesResponse,
        ApiError,
    >)
        requires
            old(self).wf(),
        ensures
            final(self).wf(),
            final(self).same_shape(*old(self)),
            final(self).limiter == old(self).limiter,
            match spec_classify(status, body@) {
                Err((s, msg)) => r matches Err(ApiError::Api { status: s2, message }) && s2 == s
                    && message@ == msg && *final(self) == *old(self),
                Ok(m) => match spec_time_entries_response(m) {
                    Some(vmresp) => {
                        &&& r matches Ok(resp) && resp.vm() == vmresp
                        &&& old(self).has_cache() ==> forall|t: u64|
                            t < now + old(self).cache_ttl()
                                ==> #[trigger] final(self).cached((Op::ListTimeEntries, p.key_atoms()), t)
                                == Some(m)
                        &&& !old(self).has_cache() ==> *final(self) == *old(self)
                        &&& forall|k2: KeyModel, t: u64|
                            k2 != (Op::ListTimeEntries, p.key_atoms())
                                && #[trigger] final(self).cached(k2, t) is Some
                                ==> old(self).cached(k2, t) == final(self).cached(k2, t)
                    },
                    None => r matches Err(ApiError::Api { status: 500u16, .. }) && *final(self)
                        == *old(self),
                },
            },
    {
        let decoded = match classify_http(status, body) {
            Ok(v) => v,
            Err(e) => {
                return Err(e);
            },
        };
        let resp = match decode_time_entries_response(&decoded) {
            Some(resp) => resp,
            None => {
                return Err(
                    ApiError::Api { status: 500, message: "Chyba parsování JSON".to_owned() },
                );
            },
        };
        let key = list_time_entries_key(p);
        match &mut self.cache {
            Some(c) => {
                c.put(key, decoded, now);
            },
            None => {},
        }
        Ok(resp)
    }

    /// The milestone list request for a parameter set.
    pub open spec fn list_milestones_request_m(self, p: ListMilestonesParams) -> ReqM {
        ReqM {
            method: HttpMethod::Get,
            path: "/versions.json"@,
            query: qry_ou32("limit"@, p.limit) + qry_ou32("offset"@, p.offset) + qry_otext(
                "status"@,
                ostr(p.status),
            ) + qry_otext("easy_query_q"@, ostr(p.easy_query_q)),
            headers: self.auth_m(),
            body: None,
        }
    }

    /// Lists milestones: serves a fresh cache entry without any request, or
    /// names the exact request to issue.  A hit that no longer decodes is a
    /// cache error, never a silent refetch.
    pub fn list_milestones(&self, p: &ListMilestonesParams, now: u64) -> (r: Result<Step<VersionsResponse>, ApiError>)
        requires
            self.wf(),
        ensures
            match r {
                Ok(Step::Ready(resp)) => self.cached((Op::ListMilestones, p.key_atoms()), now)
                    matches Some(m) && spec_versions_response(m) == Some(resp.vm()),
                Ok(Step::Fetch(req)) => self.cached((Op::ListMilestones, p.key_atoms()), now) is None
                    && req.vm() == self.list_milestones_request_m(*p),
                Err(e) => e matches ApiError::Cache(_) && self.cached(
                    (Op::ListMilestones, p.key_atoms()),
                    now,
                ) matches Some(m) && spec_versions_response(m) is None,
            },
    {
        let key = list_milestones_key(p);
        match &self.cache {
            Some(c) => {
                match c.get(&key, now) {
                    Some(v) => {
                        match decode_versions_response(v) {
                            Some(resp) => Ok(Step::Ready(resp)),
                            None => Err(ApiError::Cache("Chyba deserializace z cache".to_owned())),
                        }
                    },
                    None => Ok(Step::Fetch(self.list_milestones_request(p))),
                }
            },
            None => Ok(Step::Fetch(self.list_milestones_request(p))),
        }
    }

    fn list_milestones_request(&self, p: &ListMilestonesParams) -> (req: RequestSpec)
        ensures
            req.vm() == self.list_milestones_request_m(*p),
    {
        let mut query: Vec<(String, String)> = Vec::new();
        push_qry_ou32(&mut query, "limit", &p.limit);
        push_qry_ou32(&mut query, "offset", &p.offset);
        push_qry_otext(&mut query, "status", &p.status);
        push_qry_otext(&mut query, "easy_query_q", &p.easy_query_q);
        let req = RequestSpec {
            method: HttpMethod::Get,
            path: "/versions.json".to_owned(),
            query,
            headers: self.auth_headers(),
            body: None,
        };
        proof {
            assert(req.vm().query =~= self.list_milestones_request_m(*p).query);
            assert(req.vm() =~= self.list_milestones_request_m(*p));
        }
        req
    }

    /// Completes a milestone list fetch: classifies the outcome, decodes the page,
    /// and caches the raw decoded body on success.
    pub fn list_milestones_fetched(&mut self, p: &ListMilestonesParams, now: u64, status: u16, body: &str) -> (r: Result<
        VersionsResponse,
        ApiError,
    >)
        requires
            old(self).wf(),
        ensures
            final(self).wf(),
            final(self).same_shape(*old(self)),
            final(self).limiter == old(self).limiter,
            match spec_classify(status, body@) {
                Err((s, msg)) => r matches Err(ApiError::Api { status: s2, message }) && s2 == s
                    && message@ == msg && *final(self) == *old(self),
                Ok(m) => match spec_versions_response(m) {
                    Some(vmresp) => {
                        &&& r matches Ok(resp) && resp.vm() == vmresp
                        &&& old(self).has_cache() ==> forall|t: u64|
                            t < now + old(self).cache_ttl()
                                ==> #[trigger] final(self).cached((Op::ListMilestones, p.key_atoms()), t)
                                == Some(m)
                        &&& !old(self).has_cache() ==> *final(self) == *old(self)
                        &&& forall|k2: KeyModel, t: u64|
                            k2 != (Op::ListMilestones, p.key_atoms())
                                && #[trigger] final(self).cached(k2, t) is Some
                                ==> old(self).cached(k2, t) == final(self).cached(k2, t)
                    },
                    None => r matches Err(ApiError::Api { status: 500u16, .. }) && *final(self)
                        == *old(self),
                },
            },
    {
        let decoded = match classify_http(status, body) {
            Ok(v) => v,
            Err(e) => {
                return Err(e);
            },
        };
        let resp = match decode_versions_response(&decoded) {
            Some(resp) => resp,
            None => {
                return Err(
                    ApiError::Api { status: 500, message: "Chyba parsování JSON".to_owned() },
                );
            },
        };
        let key = list_milestones_key(p);
        match &mut self.cache {
            Some(c) => {
                c.put(key, decoded, now);
            },
            None => {},
        }
        Ok(resp)
    }

    /// The single-project request.
    pub open spec fn get_project_request_m(self, id: i32, includes: Option<Seq<Seq<char>>>) -> ReqM {
        ReqM {
            method: HttpMethod::Get,
            path: entity_path("/projects/"@, id),
            query: qry_olist(extras_key(), includes),
            headers: self.auth_m(),
            body: None,
        }
    }

    /// Reads one project by id: serves a fresh cache entry without any
    /// request, or names the exact request to issue.
    pub fn get_project(&self, id: i32, includes: &Option<Vec<String>>, now: u64) -> (r: Result<Step<ProjectResponse>, ApiError>)
        requires
            self.wf(),
        ensures
            match r {
                Ok(Step::Ready(resp)) => self.cached(
                    (Op::GetProject, entity_key_atoms(id, olist(*includes))),
                    now,
                ) matches Some(m) && spec_project_response(m) == Some(resp.project.vm()),
                Ok(Step::Fetch(req)) => self.cached((Op::GetProject, entity_key_atoms(id, olist(*includes))), now)
                    is None && req.vm() == self.get_project_request_m(id, olist(*includes)),
                Err(e) => e matches ApiError::Cache(_) && self.cached(
                    (Op::GetProject, entity_key_atoms(id, olist(*includes))),
                    now,
                ) matches Some(m) && spec_project_response(m) is None,
            },
    {
        let key = entity_key(Op::GetProject, id, includes);
        match &self.cache {
            Some(c) => {
                match c.get(&key, now) {
                    Some(v) => {
                        match decode_project_response(v) {
                            Some(resp) => Ok(Step::Ready(resp)),
                            None => Err(ApiError::Cache("Chyba deserializace z cache".to_owned())),
                        }
                    },
                    None => Ok(Step::Fetch(self.get_project_request(id, includes))),
                }
            },
            None => Ok(Step::Fetch(self.get_project_request(id, includes))),
        }
    }

    fn get_project_request(&self, id: i32, includes: &Option<Vec<String>>) -> (req: RequestSpec)
        ensures
            req.vm() == self.get_project_request_m(id, olist(*includes)),
    {
        let mut query: Vec<(String, String)> = Vec::new();
        push_qry_extras(&mut query, includes);
        let req = RequestSpec {
            method: HttpMethod::Get,
            path: make_entity_path("/projects/", id),
            query,
            headers: self.auth_headers(),
            body: None,
        };
        proof {
            assert(req.vm().query =~= self.get_project_request_m(id, olist(*includes)).query);
            assert(req.vm() =~= self.get_project_request_m(id, olist(*includes)));
        }
        req
    }

    /// Completes a single-project fetch: classifies, decodes, caches.
    pub fn get_project_fetched(&mut self, id: i32, includes: &Option<Vec<String>>, now: u64, status: u16, body: &str) -> (r:
        Result<ProjectResponse, ApiError>)
        requires
            old(self).wf(),
        ensures
            final(self).wf(),
            final(self).same_shape(*old(self)),
            final(self).limiter == old(self).limiter,
            match spec_classify(status, body@) {
                Err((s, msg)) => r matches Err(ApiError::Api { status: s2, message }) && s2 == s
                    && message@ == msg && *final(self) == *old(self),
                Ok(m) => match spec_project_response(m) {
                    Some(vmresp) => {
                        &&& r matches Ok(resp) && resp.project.vm() == vmresp
                        &&& old(self).has_cache() ==> forall|t: u64|
                            t < now + old(self).cache_ttl()
                                ==> #[trigger] final(self).cached(
                                (Op::GetProject, entity_key_atoms(id, olist(*includes))),
                                t,
                            ) == Some(m)
                        &&& !old(self).has_cache() ==> *final(self) == *old(self)
                        &&& forall|k2: KeyModel, t: u64|
                            k2 != (Op::GetProject, entity_key_atoms(id, olist(*includes)))
                                && #[trigger] final(self).cached(k2, t) is Some
                                ==> old(self).cached(k2, t) == final(self).cached(k2, t)
                    },
                    None => r matches Err(ApiError::Api { status: 500u16, .. }) && *final(self)
                        == *old(self),
                },
            },
    {
        let decoded = match classify_http(status, body) {
            Ok(v) => v,
            Err(e) => {
                return Err(e);
            },
        };
        let resp = match decode_project_response(&decoded) {
            Some(resp) => resp,
            None => {
                return Err(
                    ApiError::Api { status: 500, message: "Chyba parsování JSON".to_owned() },
                );
            },
        };
        let key = entity_key(Op::GetProject, id, includes);
        match &mut self.cache {
            Some(c) => {
                c.put(key, decoded, now);
            },
            None => {},
        }
        Ok(resp)
    }

    /// The single-issue request.
    pub open spec fn get_issue_request_m(self, id: i32, includes: Option<Seq<Seq<char>>>) -> ReqM {
        ReqM {
            method: HttpMethod::Get,
            path: entity_path("/issues/"@, id),
            query: qry_olist(extras_key(), includes),
            headers: self.auth_m(),
            body: None,
        }
    }

    /// Reads one issue by id: serves a fresh cache entry without any
    /// request, or names the exact request to issue.
    pub fn get_issue(&self, id: i32, includes: &Option<Vec<String>>, now: u64) -> (r: Result<Step<IssueResponse>, ApiError>)
        requires
            self.wf(),
        ensures
            match r {
                Ok(Step::Ready(resp)) => self.cached(
                    (Op::GetIssue, entity_key_atoms(id, olist(*includes))),
                    now,
                ) matches Some(m) && spec_issue_response(m) == Some(resp.issue.vm()),
                Ok(Step::Fetch(req)) => self.cached((Op::GetIssue, entity_key_atoms(id, olist(*includes))), now)
                    is None && req.vm() == self.get_issue_request_m(id, olist(*includes)),
                Err(e) => e matches ApiError::Cache(_) && self.cached(
                    (Op::GetIssue, entity_key_atoms(id, olist(*includes))),
                    now,
                ) matches Some(m) && spec_issue_response(m) is None,
            },
    {
        let key = entity_key(Op::GetIssue, id, includes);
        match &self.cache {
            Some(c) => {
                match c.get(&key, now) {
                    Some(v) => {
                        match decode_issue_response(v) {
                            Some(resp) => Ok(Step::Ready(resp)),
                            None => Err(ApiError::Cache("Chyba deserializace z cache".to_owned())),
                        }
                    },
                    None => Ok(Step::Fetch(self.get_issue_request(id, includes))),
                }
            },
            None => Ok(Step::Fetch(self.get_issue_request(id, includes))),
        }
    }

    fn get_issue_request(&self, id: i32, includes: &Option<Vec<String>>) -> (req: RequestSpec)
        ensures
            req.vm() == self.get_issue_request_m(id, olist(*includes)),
    {
        let mut query: Vec<(String, String)> = Vec::new();
        push_qry_extras(&mut query, includes);
        let req = RequestSpec {
            method: HttpMethod::Get,
            path: make_entity_path("/issues/", id),
            query,
            headers: self.auth_headers(),
            body: None,
        };
        proof {
            assert(req.vm().query =~= self.get_issue_request_m(id, olist(*includes)).query);
            assert(req.vm() =~= self.get_issue_request_m(id, olist(*includes)));
        }
        req
    }

    /// Completes a single-issue fetch: classifies, decodes, caches.
    pub fn get_issue_fetched(&mut self, id: i32, includes: &Option<Vec<String>>, now: u64, status: u16, body: &str) -> (r:
        Result<IssueResponse, ApiError>)
        requires
            old(self).wf(),
        ensures
            final(self).wf(),
            final(self).same_shape(*old(self)),
            final(self).limiter == old(self).limiter,
            match spec_classify(status, body@) {
                Err((s, msg)) => r matches Err(ApiError::Api { status: s2, message }) && s2 == s
                    && message@ == msg && *final(self) == *old(self),
                Ok(m) => match spec_issue_response(m) {
                    Some(vmresp) => {
                        &&& r matches Ok(resp) && resp.issue.vm() == vmresp
                        &&& old(self).has_cache() ==> forall|t: u64|
                            t < now + old(self).cache_ttl()
                                ==> #[trigger] final(self).cached(
                                (Op::GetIssue, entity_key_atoms(id, olist(*includes))),
                                t,
                            ) == Some(m)
                        &&& !old(self).has_cache() ==> *final(self) == *old(self)
                        &&& forall|k2: KeyModel, t: u64|
                            k2 != (Op::GetIssue, entity_key_atoms(id, olist(*includes)))
                                && #[trigger] final(self).cached(k2, t) is Some
                                ==> old(self).cached(k2, t) == final(self).cached(k2, t)
                    },
                    None => r matches Err(ApiError::Api { status: 500u16, .. }) && *final(self)
                        == *old(self),
                },
            },
    {
        let decoded = match classify_http(status, body) {
            Ok(v) => v,
            Err(e) => {
                return Err(e);
            },
        };
        let resp = match decode_issue_response(&decoded) {
            Some(resp) => resp,
            None => {
                return Err(
                    ApiError::Api { status: 500, message: "Chyba parsování JSON".to_owned() },
                );
            },
        };
        let key = entity_key(Op::GetIssue, id, includes);
        match &mut self.cache {
            Some(c) => {
                c.put(key, decoded, now);
            },
            None => {},
        }
        Ok(resp)
    }

    /// The single-user request.
    pub open spec fn get_user_request_m(self, id: i32) -> ReqM {
        ReqM {
            method: HttpMethod::Get,
            path: entity_path("/users/"@, id),
            query: Seq::<(Seq<char>, Seq<char>)>::empty(),
            headers: self.auth_m(),
            body: None,
        }
    }

    /// Reads one user by id: serves a fresh cache entry without any
    /// request, or names the exact request to issue.
    pub fn get_user(&self, id: i32, now: u64) -> (r: Result<Step<UserResponse>, ApiError>)
        requires
            self.wf(),
        ensures
            match r {
                Ok(Step::Ready(resp)) => self.cached(
                    (Op::GetUser, entity_key_atoms(id, None::<Seq<Seq<char>>>)),
                    now,
                ) matches Some(m) && spec_user_response(m) == Some(resp.user.vm()),
                Ok(Step::Fetch(req)) => self.cached((Op::GetUser, entity_key_atoms(id, None::<Seq<Seq<char>>>)), now)
                    is None && req.vm() == self.get_user_request_m(id),
                Err(e) => e matches ApiError::Cache(_) && self.cached(
                    (Op::GetUser, entity_key_atoms(id, None::<Seq<Seq<char>>>)),
                    now,
                ) matches Some(m) && spec_user_response(m) is None,
            },
    {
        let key = entity_key(Op::GetUser, id, &None);
        match &self.cache {
            Some(c) => {
                match c.get(&key, now) {
                    Some(v) => {
                        match decode_user_response(v) {
                            Some(resp) => Ok(Step::Ready(resp)),
                            None => Err(ApiError::Cache("Chyba deserializace z cache".to_owned())),
                        }
                    },
                    None => Ok(Step::Fetch(self.get_user_request(id))),
                }
            },
            None => Ok(Step::Fetch(self.get_user_request(id))),
        }
    }

    fn get_user_request(&self, id: i32) -> (req: RequestSpec)
        ensures
            req.vm() == self.get_user_request_m(id),
    {
        let mut query: Vec<(String, String)> = Vec::new();

        let req = RequestSpec {
            method: HttpMethod::Get,
            path: make_entity_path("/users/", id),
            query,
            headers: self.auth_headers(),
            body: None,
        };
        proof {
            assert(req.vm().query =~= self.get_user_request_m(id).query);
            assert(req.vm() =~= self.get_user_request_m(id));
        }
        req
    }

    /// Completes a single-user fetch: classifies, decodes, caches.
    pub fn get_user_fetched(&mut self, id: i32, now: u64, status: u16, body: &str) -> (r:
        Result<UserResponse, ApiError>)
        requires
            old(self).wf(),
        ensures
            final(self).wf(),
            final(self).same_shape(*old(self)),
            final(self).limiter == old(self).limiter,
            match spec_classify(status, body@) {
                Err((s, msg)) => r matches Err(ApiError::Api { status: s2, message }) && s2 == s
                    && message@ == msg && *final(self) == *old(self),
                Ok(m) => match spec_user_response(m) {
                    Some(vmresp) => {
                        &&& r matches Ok(resp) && resp.user.vm() == vmresp
                        &&& old(self).has_cache() ==> forall|t: u64|
                            t < now + old(self).cache_ttl()
                                ==> #[trigger] final(self).cached(
                                (Op::GetUser, entity_key_atoms(id, None::<Seq<Seq<char>>>)),
                                t,
                            ) == Some(m)
                        &&& !old(self).has_cache() ==> *final(self) == *old(self)
                        &&& forall|k2: KeyModel, t: u64|
                            k2 != (Op::GetUser, entity_key_atoms(id, None::<Seq<Seq<char>>>))
                                && #[trigger] final(self).cached(k2, t) is Some
                                ==> old(self).cached(k2, t) == final(self).cached(k2, t)
                    },
                    None => r matches Err(ApiError::Api { status: 500u16, .. }) && *final(self)
                        == *old(self),
                },
            },
    {
        let decoded = match classify_http(status, body) {
            Ok(v) => v,
            Err(e) => {
                return Err(e);
            },
        };
        let resp = match decode_user_response(&decoded) {
            Some(resp) => resp,
            None => {
                return Err(
                    ApiError::Api { status: 500, message: "Chyba parsování JSON".to_owned() },
                );
            },
        };
        let key = entity_key(Op::GetUser, id, &None);
        match &mut self.cache {
            Some(c) => {
                c.put(key, decoded, now);
            },
            None => {},
        }
        Ok(resp)
    }

    /// The single-milestone request.
    pub open spec fn get_milestone_request_m(self, id: i32) -> ReqM {
        ReqM {
            method: HttpMethod::Get,
            path: entity_path("/versions/"@, id),
            query: Seq::<(Seq<char>, Seq<char>)>::empty(),
            headers: self.auth_m(),
            body: None,
        }
    }

    /// Reads one milestone by id: serves a fresh cache entry without any
    /// request, or names the exact request to issue.
    pub fn get_milestone(&self, id: i32, now: u64) -> (r: Result<Step<VersionResponse>, ApiError>)
        requires
            self.wf(),
        ensures
            match r {
                Ok(Step::Ready(resp)) => self.cached(
                    (Op::GetMilestone, entity_key_atoms(id, None::<Seq<Seq<char>>>)),
                    now,
                ) matches Some(m) && spec_version_response(m) == Some(resp.version.vm()),
                Ok(Step::Fetch(req)) => self.cached((Op::GetMilestone, entity_key_atoms(id, None::<Seq<Seq<char>>>)), now)
                    is None && req.vm() == self.get_milestone_request_m(id),
                Err(e) => e matches ApiError::Cache(_) && self.cached(
                    (Op::GetMilestone, entity_key_atoms(id, None::<Seq<Seq<char>>>)),
                    now,
                ) matches Some(m) && spec_version_response(m) is None,
            },
    {
        let key = entity_key(Op::GetMilestone, id, &None);
        match &self.cache {
            Some(c) => {
                match c.get(&key, now) {
                    Some(v) => {
                        match decode_version_response(v) {
                            Some(resp) => Ok(Step::Ready(resp)),
                            None => Err(ApiError::Cache("Chyba deserializace z cache".to_owned())),
                        }
                    },
                    None => Ok(Step::Fetch(self.get_milestone_request(id))),
                }
            },
            None => Ok(Step::Fetch(self.get_milestone_request(id))),
        }
    }

    fn get_milestone_request(&self, id: i32) -> (req: RequestSpec)
        ensures
            req.vm() == self.get_milestone_request_m(id),
    {
        let mut query: Vec<(String, String)> = Vec::new();

        let req = RequestSpec {
            method: HttpMethod::Get,
            path: make_entity_path("/versions/", id),
            query,
            headers: self.auth_headers(),
            body: None,
        };
        proof {
            assert(req.vm().query =~= self.get_milestone_request_m(id).query);
            assert(req.vm() =~= self.get_milestone_request_m(id));
        }
        req
    }

    /// Completes a single-milestone fetch: classifies, decodes, caches.
    pub fn get_milestone_fetched(&mut self, id: i32, now: u64, status: u16, body: &str) -> (r:
        Result<VersionResponse, ApiError>)
        requires
            old(self).wf(),
        ensures
            final(self).wf(),
            final(self).same_shape(*old(self)),
            final(self).limiter == old(self).limiter,
            match spec_classify(status, body@) {
                Err((s, msg)) => r matches Err(ApiError::Api { status: s2, message }) && s2 == s
                    && message@ == msg && *final(self) == *old(self),
                Ok(m) => match spec_version_response(m) {
                    Some(vmresp) => {
                        &&& r matches Ok(resp) && resp.version.vm() == vmresp
                        &&& old(self).has_cache() ==> forall|t: u64|
                            t < now + old(self).cache_ttl()
                                ==> #[trigger] final(self).cached(
                                (Op::GetMilestone, entity_key_atoms(id, None::<Seq<Seq<char>>>)),
                                t,
                            ) == Some(m)
                        &&& !old(self).has_cache() ==> *final(self) == *old(self)
                        &&& forall|k2: KeyModel, t: u64|
                            k2 != (Op::GetMilestone, entity_key_atoms(id, None::<Seq<Seq<char>>>))
                                && #[trigger] final(self).cached(k2, t) is Some
                                ==> old(self).cached(k2, t) == final(self).cached(k2, t)
                    },
                    None => r matches Err(ApiError::Api { status: 500u16, .. }) && *final(self)
                        == *old(self),
                },
            },
    {
        let decoded = match classify_http(status, body) {
            Ok(v) => v,
            Err(e) => {
                return Err(e);
            },
        };
        let resp = match decode_version_response(&decoded) {
            Some(resp) => resp,
            None => {
                return Err(
                    ApiError::Api { status: 500, message: "Chyba parsování JSON".to_owned() },
                );
            },
        };
        let key = entity_key(Op::GetMilestone, id, &None);
        match &mut self.cache {
            Some(c) => {
                c.put(key, decoded, now);
            },
            None => {},
        }
        Ok(resp)
    }

}

} // verus!

// ===== write operations =====

verus! {

/// The path for creating a version under a project.
pub open spec fn project_versions_path(project_id: i32) -> Seq<char> {
    "/projects/"@ + crate::text::dec_int(project_id as int) + "/versions.json"@
}

/// Renders the project-versions path.
pub fn make_project_versions_path(project_id: i32) -> (r: String)
    ensures
        r@ == project_versions_path(project_id),
{
    let mut out = "/projects/".to_owned();
    crate::text::append_i64(&mut out, project_id as i64);
    out.append("/versions.json");
    out
}

impl EasyProjectClient {

    /// The project create request.
    pub open spec fn create_project_request_m(self, data: CreateProjectRequest) -> ReqM {
        ReqM {
            method: HttpMethod::Post,
            path: "/projects.json"@,
            query: Seq::empty(),
            headers: self.auth_m(),
            body: Some(JsonModel::Obj(seq![("project"@, JsonModel::Obj(data.project.body_fields()))])),
        }
    }

    /// Builds the project create request; the write always bypasses the cache.
    pub fn create_project(&self, data: &CreateProjectRequest) -> (req: RequestSpec)
        ensures
            req.vm() == self.create_project_request_m(*data),
    {
        let body = data.to_body();
        let req = RequestSpec {
            method: HttpMethod::Post,
            path: "/projects.json".to_owned(),
            query: Vec::new(),
            headers: self.auth_headers(),
            body: Some(body),
        };
        proof {
            assert(req.vm().query =~= Seq::<(Seq<char>, Seq<char>)>::empty());
            assert(req.vm() =~= self.create_project_request_m(*data));
        }
        req
    }

    /// Completes a project create: classifies the outcome and decodes the entity.
    pub fn create_project_fetched(&mut self, status: u16, body: &str) -> (r: Result<ProjectResponse, ApiError>)
        requires
            old(self).wf(),
        ensures
            final(self).wf(),
            final(self).same_shape(*old(self)),
            final(self).limiter == old(self).limiter,
            match spec_classify(status, body@) {
                Err((s, msg)) => r matches Err(ApiError::Api { status: s2, message }) && s2 == s
                    && message@ == msg && *final(self) == *old(self),
                Ok(m) => {
                    &&& (*final(self) == *old(self))
                    &&& match spec_project_response(m) {
                        Some(vmresp) => r matches Ok(resp) && resp.project.vm() == vmresp,
                        None => r matches Err(ApiError::Api { status: 500u16, .. }),
                    }
                },
            },
    {
        let decoded = match classify_http(status, body) {
            Ok(v) => v,
            Err(e) => {
                return Err(e);
            },
        };

        match decode_project_response(&decoded) {
            Some(resp) => Ok(resp),
            None => Err(ApiError::Api { status: 500, message: "Chyba parsování JSON".to_owned() }),
        }
    }

    /// The project update request.
    pub open spec fn update_project_request_m(self, id: i32, data: CreateProjectRequest) -> ReqM {
        ReqM {
            method: HttpMethod::Put,
            path: entity_path("/projects/"@, id),
            query: Seq::empty(),
            headers: self.auth_m(),
            body: Some(JsonModel::Obj(seq![("project"@, JsonModel::Obj(data.project.body_fields()))])),
        }
    }

    /// Builds the project update request; the write always bypasses the cache.
    pub fn update_project(&self, id: i32, data: &CreateProjectRequest) -> (req: RequestSpec)
        ensures
            req.vm() == self.update_project_request_m(id, *data),
    {
        let body = data.to_body();
        let req = RequestSpec {
            method: HttpMethod::Put,
            path: make_entity_path("/projects/", id),
            query: Vec::new(),
            headers: self.auth_headers(),
            body: Some(body),
        };
        proof {
            assert(req.vm().query =~= Seq::<(Seq<char>, Seq<char>)>::empty());
            assert(req.vm() =~= self.update_project_request_m(id, *data));
        }
        req
    }

    /// Completes a project update: classifies the outcome and decodes the entity.
    pub fn update_project_fetched(&mut self, id: i32, status: u16, body: &str) -> (r: Result<ProjectResponse, ApiError>)
        requires
            old(self).wf(),
        ensures
            final(self).wf(),
            final(self).same_shape(*old(self)),
            final(self).limiter == old(self).limiter,
            match spec_classify(status, body@) {
                Err((s, msg)) => r matches Err(ApiError::Api { status: s2, message }) && s2 == s
                    && message@ == msg && *final(self) == *old(self),
                Ok(m) => {
                    &&& (*final(self) == *old(self))
                    &&& match spec_project_response(m) {
                        Some(vmresp) => r matches Ok(resp) && resp.project.vm() == vmresp,
                        None => r matches Err(ApiError::Api { status: 500u16, .. }),
                    }
                },
            },
    {
        let decoded = match classify_http(status, body) {
            Ok(v) => v,
            Err(e) => {
                return Err(e);
            },
        };

        match decode_project_response(&decoded) {
            Some(resp) => Ok(resp),
            None => Err(ApiError::Api { status: 500, message: "Chyba parsování JSON".to_owned() }),
        }
    }

    /// The issue create request.
    pub open spec fn create_issue_request_m(self, data: CreateIssueRequest) -> ReqM {
        ReqM {
            method: HttpMethod::Post,
            path: "/issues.json"@,
            query: Seq::empty(),
            headers: self.auth_m(),
            body: Some(JsonModel::Obj(seq![("issue"@, JsonModel::Obj(data.issue.body_fields()))])),
        }
    }

    /// Builds the issue create request; the write always bypasses the cache.
    pub fn create_issue(&self, data: &CreateIssueRequest) -> (req: RequestSpec)
        ensures
            req.vm() == self.create_issue_request_m(*data),
    {
        let body = data.to_body();
        let req = RequestSpec {
            method: HttpMethod::Post,
            path: "/issues.json".to_owned(),
            query: Vec::new(),
            headers: self.auth_headers(),
            body: Some(body),
        };
        proof {
            assert(req.vm().query =~= Seq::<(Seq<char>, Seq<char>)>::empty());
            assert(req.vm() =~= self.create_issue_request_m(*data));
        }
        req
    }

    /// Completes a issue create: classifies the outcome and decodes the entity.
    pub fn create_issue_fetched(&mut self, status: u16, body: &str) -> (r: Result<IssueResponse, ApiError>)
        requires
            old(self).wf(),
        ensures
            final(self).wf(),
            final(self).same_shape(*old(self)),
            final(self).limiter == old(self).limiter,
            match spec_classify(status, body@) {
                Err((s, msg)) => r matches Err(ApiError::Api { status: s2, message }) && s2 == s
                    && message@ == msg && *final(self) == *old(self),
                Ok(m) => {
                    &&& (*final(self) == *old(self))
                    &&& match spec_issue_response(m) {
                        Some(vmresp) => r matches Ok(resp) && resp.issue.vm() == vmresp,
                        None => r matches Err(ApiError::Api { status: 500u16, .. }),
                    }
                },
            },
    {
        let decoded = match classify_http(status, body) {
            Ok(v) => v,
            Err(e) => {
                return Err(e);
            },
        };

        match decode_issue_response(&decoded) {
            Some(resp) => Ok(resp),
            None => Err(ApiError::Api { status: 500, message: "Chyba parsování JSON".to_owned() }),
        }
    }

    /// The time entry create request.
    pub open spec fn create_time_entry_request_m(self, data: CreateTimeEntryRequest) -> ReqM {
        ReqM {
            method: HttpMethod::Post,
            path: "/time_entries.json"@,
            query: Seq::empty(),
            headers: self.auth_m(),
            body: Some(JsonModel::Obj(seq![("time_entry"@, JsonModel::Obj(data.time_entry.body_fields()))])),
        }
    }

    /// Builds the time entry create request; the write always bypasses the cache.
    pub fn create_time_entry(&self, data: &CreateTimeEntryRequest) -> (req: RequestSpec)
        ensures
            req.vm() == self.create_time_entry_request_m(*data),
    {
        let body = data.to_body();
        let req = RequestSpec {
            method: HttpMethod::Post,
            path: "/time_entries.json".to_owned(),
            query: Vec::new(),
            headers: self.auth_headers(),
            body: Some(body),
        };
        proof {
            assert(req.vm().query =~= Seq::<(Seq<char>, Seq<char>)>::empty());
            assert(req.vm() =~= self.create_time_entry_request_m(*data));
        }
        req
    }

    /// Completes a time entry create: classifies the outcome and decodes the entity.
    pub fn create_time_entry_fetched(&mut self, status: u16, body: &str) -> (r: Result<TimeEntryResponse, ApiError>)
        requires
            old(self).wf(),
        ensures
            final(self).wf(),
            final(self).same_shape(*old(self)),
            final(self).limiter == old(self).limiter,
            match spec_classify(status, body@) {
                Err((s, msg)) => r matches Err(ApiError::Api { status: s2, message }) && s2 == s
                    && message@ == msg && *final(self) == *old(self),
                Ok(m) => {
                    &&& (*final(self) == *old(self))
                    &&& match spec_time_entry_response(m) {
                        Some(vmresp) => r matches Ok(resp) && resp.time_entry.vm() == vmresp,
                        None => r matches Err(ApiError::Api { status: 500u16, .. }),
                    }
                },
            },
    {
        let decoded = match classify_http(status, body) {
            Ok(v) => v,
            Err(e) => {
                return Err(e);
            },
        };

        match decode_time_entry_response(&decoded) {
            Some(resp) => Ok(resp),
            None => Err(ApiError::Api { status: 500, message: "Chyba parsování JSON".to_owned() }),
        }
    }

    /// The milestone create request.
    pub open spec fn create_milestone_request_m(self, project_id: i32, data: CreateVersionRequest) -> ReqM {
        ReqM {
            method: HttpMethod::Post,
            path: project_versions_path(project_id),
            query: Seq::empty(),
            headers: self.auth_m(),
            body: Some(JsonModel::Obj(seq![("version"@, JsonModel::Obj(data.version.body_fields()))])),
        }
    }

    /// Builds the milestone create request; the write always bypasses the cache.
    pub fn create_milestone(&self, project_id: i32, data: &CreateVersionRequest) -> (req: RequestSpec)
        ensures
            req.vm() == self.create_milestone_request_m(project_id, *data),
    {
        let body = data.to_body();
        let req = RequestSpec {
            method: HttpMethod::Post,
            path: make_project_versions_path(project_id),
            query: Vec::new(),
            headers: self.auth_headers(),
            body: Some(body),
        };
        proof {
            assert(req.vm().query =~= Seq::<(Seq<char>, Seq<char>)>::empty());
            assert(req.vm() =~= self.create_milestone_request_m(project_id, *data));
        }
        req
    }

    /// Completes a milestone create: classifies the outcome and decodes the entity.  A milestone
    /// write carries an invalidation scope: the whole cache is cleared before
    /// the body is decoded.
    pub fn create_milestone_fetched(&mut self, project_id: i32, status: u16, body: &str) -> (r: Result<VersionResponse, ApiError>)
        requires
            old(self).wf(),
        ensures
            final(self).wf(),
            final(self).same_shape(*old(self)),
            final(self).limiter == old(self).limiter,
            match spec_classify(status, body@) {
                Err((s, msg)) => r matches Err(ApiError::Api { status: s2, message }) && s2 == s
                    && message@ == msg && *final(self) == *old(self),
                Ok(m) => {
                    &&& (forall|k: KeyModel, t: u64| #[trigger] final(self).cached(k, t) is None)
                    &&& match spec_version_response(m) {
                        Some(vmresp) => r matches Ok(resp) && resp.version.vm() == vmresp,
                        None => r matches Err(ApiError::Api { status: 500u16, .. }),
                    }
                },
            },
    {
        let decoded = match classify_http(status, body) {
            Ok(v) => v,
            Err(e) => {
                return Err(e);
            },
        };
        self.invalidate_cache("milestone");

        match decode_version_response(&decoded) {
            Some(resp) => Ok(resp),
            None => Err(ApiError::Api { status: 500, message: "Chyba parsování JSON".to_owned() }),
        }
    }

    /// The milestone update request.
    pub open spec fn update_milestone_request_m(self, id: i32, data: UpdateVersionRequest) -> ReqM {
        ReqM {
            method: HttpMethod::Put,
            path: entity_path("/versions/"@, id),
            query: Seq::empty(),
            headers: self.auth_m(),
            body: Some(JsonModel::Obj(seq![("version"@, JsonModel::Obj(data.version.body_fields()))])),
        }
    }

    /// Builds the milestone update request; the write always bypasses the cache.
    pub fn update_milestone(&self, id: i32, data: &UpdateVersionRequest) -> (req: RequestSpec)
        ensures
            req.vm() == self.update_milestone_request_m(id, *data),
    {
        let body = data.to_body();
        let req = RequestSpec {
            method: HttpMethod::Put,
            path: make_entity_path("/versions/", id),
            query: Vec::new(),
            headers: self.auth_headers(),
            body: Some(body),
        };
        proof {
            assert(req.vm().query =~= Seq::<(Seq<char>, Seq<char>)>::empty());
            assert(req.vm() =~= self.update_milestone_request_m(id, *data));
        }
        req
    }

    /// Completes a milestone update: classifies the outcome and decodes the entity.  A milestone
    /// write carries an invalidation scope: the whole cache is cleared before
    /// the body is decoded.
    pub fn update_milestone_fetched(&mut self, id: i32, status: u16, body: &str) -> (r: Result<VersionResponse, ApiError>)
        requires
            old(self).wf(),
        ensures
            final(self).wf(),
            final(self).same_shape(*old(self)),
            final(self).limiter == old(self).limiter,
            match spec_classify(status, body@) {
                Err((s, msg)) => r matches Err(ApiError::Api { status: s2, message }) && s2 == s
                    && message@ == msg && *final(self) == *old(self),
                Ok(m) => {
                    &&& (forall|k: KeyModel, t: u64| #[trigger] final(self).cached(k, t) is None)
                    &&& match spec_version_response(m) {
                        Some(vmresp) => r matches Ok(resp) && resp.version.vm() == vmresp,
                        None => r matches Err(ApiError::Api { status: 500u16, .. }),
                    }
                },
            },
    {
        let decoded = match classify_http(status, body) {
            Ok(v) => v,
            Err(e) => {
                return Err(e);
            },
        };
        self.invalidate_cache("milestone");

        match decode_version_response(&decoded) {
            Some(resp) => Ok(resp),
            None => Err(ApiError::Api { status: 500, message: "Chyba parsování JSON".to_owned() }),
        }
    }

    /// The project delete request.
    pub open spec fn delete_project_request_m(self, id: i32) -> ReqM {
        ReqM {
            method: HttpMethod::Delete,
            path: entity_path("/projects/"@, id),
            query: Seq::empty(),
            headers: self.auth_m(),
            body: None,
        }
    }

    /// Builds the project delete request.
    pub fn delete_project(&self, id: i32) -> (req: RequestSpec)
        ensures
            req.vm() == self.delete_project_request_m(id),
    {
        let req = RequestSpec {
            method: HttpMethod::Delete,
            path: make_entity_path("/projects/", id),
            query: Vec::new(),
            headers: self.auth_headers(),
            body: None,
        };
        proof {
            assert(req.vm().query =~= Seq::<(Seq<char>, Seq<char>)>::empty());
            assert(req.vm() =~= self.delete_project_request_m(id));
        }
        req
    }

    /// Completes a project delete.  Deleting a project carries the widest
    /// invalidation scope: the whole cache is cleared on success.
    pub fn delete_project_fetched(&mut self, status: u16, body: &str) -> (r: Result<(), ApiError>)
        requires
            old(self).wf(),
        ensures
            final(self).wf(),
            final(self).same_shape(*old(self)),
            final(self).limiter == old(self).limiter,
            match spec_classify(status, body@) {
                Err((s, msg)) => r matches Err(ApiError::Api { status: s2, message }) && s2 == s
                    && message@ == msg && *final(self) == *old(self),
                Ok(m) => r is Ok && forall|k: KeyModel, t: u64|
                    #[trigger] final(self).cached(k, t) is None,
            },
    {
        match classify_http(status, body) {
            Ok(_v) => {},
            Err(e) => {
                return Err(e);
            },
        }
        self.invalidate_cache("projects");
        Ok(())
    }

    /// The milestone delete request.
    pub open spec fn delete_milestone_request_m(self, id: i32) -> ReqM {
        ReqM {
            method: HttpMethod::Delete,
            path: entity_path("/versions/"@, id),
            query: Seq::empty(),
            headers: self.auth_m(),
            body: None,
        }
    }

    /// Builds the milestone delete request.
    pub fn delete_milestone(&self, id: i32) -> (req: RequestSpec)
        ensures
            req.vm() == self.delete_milestone_request_m(id),
    {
        let req = RequestSpec {
            method: HttpMethod::Delete,
            path: make_entity_path("/versions/", id),
            query: Vec::new(),
            headers: self.auth_headers(),
            body: None,
        };
        proof {
            assert(req.vm().query =~= Seq::<(Seq<char>, Seq<char>)>::empty());
            assert(req.vm() =~= self.delete_milestone_request_m(id));
        }
        req
    }

    /// Completes a milestone delete: the whole cache is cleared on success.
    pub fn delete_milestone_fetched(&mut self, status: u16, body: &str) -> (r: Result<(), ApiError>)
        requires
            old(self).wf(),
        ensures
            final(self).wf(),
            final(self).same_shape(*old(self)),
            final(self).limiter == old(self).limiter,
            match spec_classify(status, body@) {
                Err((s, msg)) => r matches Err(ApiError::Api { status: s2, message }) && s2 == s
                    && message@ == msg && *final(self) == *old(self),
                Ok(m) => r is Ok && forall|k: KeyModel, t: u64|
                    #[trigger] final(self).cached(k, t) is None,
            },
    {
        match classify_http(status, body) {
            Ok(_v) => {},
            Err(e) => {
                return Err(e);
            },
        }
        self.invalidate_cache("milestone");
        Ok(())
    }

    /// The issue update request.
    pub open spec fn update_issue_request_m(self, id: i32, data: CreateIssueRequest) -> ReqM {
        ReqM {
            method: HttpMethod::Put,
            path: entity_path("/issues/"@, id),
            query: Seq::empty(),
            headers: self.auth_m(),
            body: Some(JsonModel::Obj(seq![("issue"@, JsonModel::Obj(data.issue.body_fields()))])),
        }
    }

    /// Builds the issue update request; the write always bypasses the cache.
    pub fn update_issue(&self, id: i32, data: &CreateIssueRequest) -> (req: RequestSpec)
        ensures
            req.vm() == self.update_issue_request_m(id, *data),
    {
        let body = data.to_body();
        let req = RequestSpec {
            method: HttpMethod::Put,
            path: make_entity_path("/issues/", id),
            query: Vec::new(),
            headers: self.auth_headers(),
            body: Some(body),
        };
        proof {
            assert(req.vm().query =~= Seq::<(Seq<char>, Seq<char>)>::empty());
            assert(req.vm() =~= self.update_issue_request_m(id, *data));
        }
        req
    }

    /// Completes an issue update.  The upstream intermittently answers a
    /// successful update with an empty body; in that case the caller is told
    /// to re-fetch the issue by id, so the full current state is returned,
    /// never an empty object.
    pub fn update_issue_fetched(&mut self, id: i32, status: u16, body: &str) -> (r: Result<
        Step<IssueResponse>,
        ApiError,
    >)
        requires
            old(self).wf(),
        ensures
            final(self).wf(),
            *final(self) == *old(self),
            match spec_classify(status, body@) {
                Err((s, msg)) => r matches Err(ApiError::Api { status: s2, message }) && s2 == s
                    && message@ == msg,
                Ok(m) => {
                    if m == empty_obj() {
                        r matches Ok(Step::Fetch(req)) && req.vm() == old(self).get_issue_request_m(
                            id,
                            None,
                        )
                    } else {
                        match spec_issue_response(m) {
                            Some(vmresp) => r matches Ok(Step::Ready(resp)) && resp.issue.vm()
                                == vmresp,
                            None => r matches Err(ApiError::Api { status: 500u16, .. }),
                        }
                    }
                },
            },
    {
        let decoded = match classify_http(status, body) {
            Ok(v) => v,
            Err(e) => {
                return Err(e);
            },
        };
        if decoded.is_empty_object() {
            proof {
                assert(decoded.jm() == empty_obj());
            }
            return Ok(Step::Fetch(self.get_issue_request(id, &None)));
        }
        match decode_issue_response(&decoded) {
            Some(resp) => Ok(Step::Ready(resp)),
            None => Err(ApiError::Api { status: 500, message: "Chyba parsování JSON".to_owned() }),
        }
    }

}

} // verus!

// ===== construction from configuration =====

verus! {

use crate::config::AppConfig;

impl EasyProjectClient {
    /// Builds the client from a validated configuration: the credential is
    /// required, the cache and the rate limiter exist exactly when enabled
    /// and take their shape from the configuration.
    pub fn new(config: &AppConfig, now_ms: u64) -> (r: Result<EasyProjectClient, ApiError>)
        requires
            config.cache.enabled ==> config.cache.max_entries >= 1,
            config.rate_limiting.enabled ==> config.rate_limiting.burst_size >= 1,
        ensures
            match r {
                Ok(c) => {
                    &&& c.wf()
                    &&& (match config.easyproject.api_key {
                        Some(k) => c.api_key@ == k@,
                        None => false,
                    })
                    &&& c.has_cache() == config.cache.enabled
                    &&& (config.cache.enabled ==> c.cache_ttl() == config.cache.ttl_seconds)
                    &&& (config.cache.enabled ==> (match c.cache {
                        Some(rc) => rc.spec_capacity() == (if config.cache.max_entries
                            > usize::MAX as u64 {
                            usize::MAX as usize
                        } else {
                            config.cache.max_entries as usize
                        }),
                        None => false,
                    }))
                    &&& (c.limiter is Some) == config.rate_limiting.enabled
                    &&& (match c.limiter {
                        Some(b) => b.spec_rpm() == config.rate_limiting.requests_per_minute
                            && b.spec_burst() == config.rate_limiting.burst_size
                            && b.spec_units() == b.spec_burst() * crate::limiter::UNITS_PER_TOKEN,
                        None => true,
                    })
                },
                Err(e) => e matches ApiError::Authentication(_)
                    && config.easyproject.api_key is None,
            },
    {
        let api_key = match &config.easyproject.api_key {
            Some(k) => k.clone(),
            None => {
                return Err(ApiError::Authentication("Chybí API klíč pro EasyProject".to_owned()));
            },
        };
        let cache = if config.cache.enabled {
            let capacity: usize = if config.cache.max_entries > usize::MAX as u64 {
                usize::MAX
            } else {
                config.cache.max_entries as usize
            };
            Some(ResponseCache::new(capacity, config.cache.ttl_seconds))
        } else {
            None
        };
        let limiter = if config.rate_limiting.enabled {
            Some(
                TokenBucket::new(
                    config.rate_limiting.requests_per_minute,
                    config.rate_limiting.burst_size,
                    now_ms,
                ),
            )
        } else {
            None
        };
        Ok(EasyProjectClient { api_key, cache, limiter })
    }
}

} // verus!
