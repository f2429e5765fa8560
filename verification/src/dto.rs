//! Wire shapes shared by the MCP tools and the REST API, so both faces of
//! `search_jobs` and `get_job` return the same rows.

use vstd::prelude::*;
use crate::store::{Criteria, Job};

verus! {

/// Default cap on returned rows. `total` always reflects the full match count.
pub const DEFAULT_LIMIT: usize = 50;

/// Hard ceiling on returned rows, so a client cannot request an unbounded
/// page. `total` is unaffected.
pub const MAX_LIMIT: usize = 500;

/// Hard search filters plus a row cap, mirroring [`Criteria`] on the wire.
pub struct SearchParams {
    /// Accepted job functions (exact match).
    pub functions: Vec<String>,
    /// Accepted seniority levels (exact match).
    pub levels: Vec<String>,
    /// Title terms; case-insensitive substrings, ORed together.
    pub titles: Vec<String>,
    /// Company terms matched across canonical and raw company names.
    pub companies: Vec<String>,
    /// City terms matched across city, region, and raw location.
    pub cities: Vec<String>,
    /// ISO alpha-2 country code; `US` also matches US-scoped remote roles.
    pub country: Option<String>,
    /// Minimum annual compensation in thousands, as `f64` bits (keeps unknown comp).
    pub min_comp: Option<u64>,
    /// Max rows to return (default 50). Does not affect `total`.
    pub limit: Option<usize>,
}

impl Default for SearchParams {
    fn default() -> (p: SearchParams)
        ensures
            p.functions@.len() == 0,
            p.levels@.len() == 0,
            p.titles@.len() == 0,
            p.companies@.len() == 0,
            p.cities@.len() == 0,
            p.country is None,
            p.min_comp is None,
            p.limit is None,
    {
        SearchParams {
            functions: Vec::new(),
            levels: Vec::new(),
            titles: Vec::new(),
            companies: Vec::new(),
            cities: Vec::new(),
            country: None,
            min_comp: None,
            limit: None,
        }
    }
}

/// The row cap for a requested `limit`: the request (or the default),
/// clamped to the ceiling.
pub open spec fn effective_limit_of(limit: Option<usize>) -> usize {
    let requested = match limit {
        Some(l) => l,
        None => DEFAULT_LIMIT,
    };
    if requested < MAX_LIMIT {
        requested
    } else {
        MAX_LIMIT
    }
}

fn clone_strings(v: &Vec<String>) -> (r: Vec<String>)
    ensures
        r@ == v@,
{
    let mut r: Vec<String> = Vec::new();
    let mut i: usize = 0;
    while i < v.len()
        invariant
            i <= v@.len(),
            r@ == v@.take(i as int),
        decreases v@.len() - i,
    {
        r.push(v[i].clone());
        proof {
            assert(v@.take(i + 1) =~= v@.take(i as int).push(v@[i as int]));
        }
        i = i + 1;
    }
    proof {
        assert(v@.take(i as int) =~= v@);
    }
    r
}

fn clone_option_string(v: &Option<String>) -> (r: Option<String>)
    ensures
        r == *v,
{
    match v {
        Some(s) => Some(s.clone()),
        None => None,
    }
}

impl SearchParams {
    /// The row cap to apply: the requested `limit` (or [`DEFAULT_LIMIT`]),
    /// clamped to [`MAX_LIMIT`] so a client cannot force an unbounded page.
    pub fn effective_limit(&self) -> (l: usize)
        ensures
            l == effective_limit_of(self.limit),
            l <= MAX_LIMIT,
            self.limit is None ==> l == 50,
            self.limit matches Some(x) ==> l == if x < 500 {
                x
            } else {
                500
            },
    {
        let requested = match self.limit {
            Some(l) => l,
            None => DEFAULT_LIMIT,
        };
        if requested < MAX_LIMIT {
            requested
        } else {
            MAX_LIMIT
        }
    }

    /// Projects the filter fields onto [`Criteria`] (drops `limit`).
    pub fn criteria(&self) -> (c: Criteria)
        ensures
            c.functions@ == self.functions@,
            c.levels@ == self.levels@,
            c.titles@ == self.titles@,
            c.companies@ == self.companies@,
            c.cities@ == self.cities@,
            c.country == self.country,
            c.min_comp == self.min_comp,
    {
        Criteria {
            functions: clone_strings(&self.functions),
            levels: clone_strings(&self.levels),
            titles: clone_strings(&self.titles),
            companies: clone_strings(&self.companies),
            cities: clone_strings(&self.cities),
            country: clone_option_string(&self.country),
            min_comp: self.min_comp,
        }
    }
}

/// Token-shaped search row: enough to triage, without the full description.
pub struct JobSummary {
    /// Dataset identifier; pass to `get_job` for the full record.
    pub id: String,
    /// Canonical company name.
    pub company: String,
    /// Posted job title.
    pub title: String,
    /// Raw location string.
    pub location: String,
    /// Extracted job function.
    pub function: String,
    /// Extracted seniority level.
    pub level: String,
    /// Extracted remote eligibility scope.
    pub remote_scope: String,
    /// Extracted minimum annual compensation in thousands (`f64` bits; -1 if unknown).
    pub salary_min_k_bits: u64,
    /// Extracted maximum annual compensation in thousands (`f64` bits; -1 if unknown).
    pub salary_max_k_bits: u64,
    /// One-line extracted role summary.
    pub role_summary: String,
    /// The only apply link, never fabricated.
    pub url: String,
}

/// The compact row for `job`: its triage fields, copied unchanged.
pub open spec fn summary_of(job: Job) -> JobSummary {
    JobSummary {
        id: job.id,
        company: job.company,
        title: job.title,
        location: job.location,
        function: job.function,
        level: job.level,
        remote_scope: job.remote_scope,
        salary_min_k_bits: job.salary_min_k_bits,
        salary_max_k_bits: job.salary_max_k_bits,
        role_summary: job.role_summary,
        url: job.url,
    }
}

/// Every field of a compact row is the same-named field of its job.
pub proof fn lemma_summary_copies_same_named_fields(job: Job)
    ensures
        summary_of(job).id == job.id,
        summary_of(job).company == job.company,
        summary_of(job).title == job.title,
        summary_of(job).location == job.location,
        summary_of(job).function == job.function,
        summary_of(job).level == job.level,
        summary_of(job).remote_scope == job.remote_scope,
        summary_of(job).role_summary == job.role_summary,
        summary_of(job).url == job.url,
        summary_of(job).salary_min_k_bits == job.salary_min_k_bits,
        summary_of(job).salary_max_k_bits == job.salary_max_k_bits,
{
}

impl JobSummary {
    /// The compact row for `job`.
    pub fn from_job(job: &Job) -> (s: JobSummary)
        ensures
            s == summary_of(*job),
            s.id == job.id,
            s.company == job.company,
            s.title == job.title,
            s.location == job.location,
            s.function == job.function,
            s.level == job.level,
            s.remote_scope == job.remote_scope,
            s.role_summary == job.role_summary,
            s.url == job.url,
            s.salary_min_k_bits == job.salary_min_k_bits,
            s.salary_max_k_bits == job.salary_max_k_bits,
    {
        JobSummary {
            id: job.id.clone(),
            company: job.company.clone(),
            title: job.title.clone(),
            location: job.location.clone(),
            function: job.function.clone(),
            level: job.level.clone(),
            remote_scope: job.remote_scope.clone(),
            salary_min_k_bits: job.salary_min_k_bits,
            salary_max_k_bits: job.salary_max_k_bits,
            role_summary: job.role_summary.clone(),
            url: job.url.clone(),
        }
    }
}

impl<'a> From<&'a Job> for JobSummary {
    fn from(job: &'a Job) -> (s: JobSummary) {
        JobSummary::from_job(job)
    }
}

impl<'a> vstd::std_specs::convert::FromSpecImpl<&'a Job> for JobSummary {
    open spec fn obeys_from_spec() -> bool {
        true
    }

    open spec fn from_spec(job: &'a Job) -> JobSummary {
        summary_of(*job)
    }
}

/// `search_jobs` result: the full match count plus a capped page of rows.
pub struct SearchResults {
    /// Total matching roles before `limit` is applied.
    pub total: usize,
    /// Compact rows, capped at `limit`. Call `get_job` for the full description.
    pub results: Vec<JobSummary>,
}

impl SearchResults {
    /// The result for one page of matching jobs and the full match count:
    /// one compact row per job, in order.
    pub fn from_page(jobs: &Vec<Job>, total: usize) -> (r: SearchResults)
        ensures
            r.total == total,
            r.results@.len() == jobs@.len(),
            forall|i: int| 0 <= i < jobs@.len() ==> r.results@[i] == summary_of(#[trigger] jobs@[i]),
    {
        let mut results: Vec<JobSummary> = Vec::new();
        let mut i: usize = 0;
        while i < jobs.len()
            invariant
                i <= jobs@.len(),
                results@.len() == i,
                forall|k: int| 0 <= k < i ==> results@[k] == summary_of(#[trigger] jobs@[k]),
            decreases jobs@.len() - i,
        {
            results.push(JobSummary::from_job(&jobs[i]));
            i = i + 1;
        }
        SearchResults { total, results }
    }
}

/// Identifies one role for `get_job`.
pub struct GetJobParams {
    /// Dataset identifier of the role to fetch.
    pub id: String,
}

} // verus!
