//! Search and retrieval over the open-jobs parquet dataset: the hard-filter
//! criteria, the job record, and the parameterized DuckDB queries that
//! implement search (filter, deduplicate, order, cap) and lookup by id.
//!
//! Floating-point values (the compensation floor and salaries) are carried as
//! their IEEE-754 `f64` bit patterns; this module only moves them around.

use vstd::prelude::*;
use vstd::string::*;
use crate::text::{
    decimal, decimal_text, join, join_strings, lemma_join_contains_part, lowercase_of, repeat,
    to_lowercase,
};

verus! {

/// The crate version.
pub fn version() -> (v: &'static str)
    ensures
        v@ == "0.1.0"@,
{
    "0.1.0"
}

/// Hard eligibility filters for a job search.
pub struct Criteria {
    /// Accepted job functions.
    pub functions: Vec<String>,
    /// Accepted seniority levels.
    pub levels: Vec<String>,
    /// Title terms matched as case-insensitive substrings.
    pub titles: Vec<String>,
    /// Company terms matched across canonical and raw company names.
    pub companies: Vec<String>,
    /// City terms matched across city, region, and raw location.
    pub cities: Vec<String>,
    /// Required ISO alpha-2 country code.
    pub country: Option<String>,
    /// Annual compensation floor in thousands, as the bit pattern of an `f64`.
    pub min_comp: Option<u64>,
}

/// The mathematical content of a [`Criteria`].
pub struct CriteriaView {
    pub functions: Seq<Seq<char>>,
    pub levels: Seq<Seq<char>>,
    pub titles: Seq<Seq<char>>,
    pub companies: Seq<Seq<char>>,
    pub cities: Seq<Seq<char>>,
    pub country: Option<Seq<char>>,
    pub min_comp: Option<u64>,
}

impl View for Criteria {
    type V = CriteriaView;

    open spec fn view(&self) -> CriteriaView {
        CriteriaView {
            functions: self.functions.deep_view(),
            levels: self.levels.deep_view(),
            titles: self.titles.deep_view(),
            companies: self.companies.deep_view(),
            cities: self.cities.deep_view(),
            country: self.country.deep_view(),
            min_comp: self.min_comp,
        }
    }
}

impl Criteria {
    /// Criteria that accept every job.
    pub fn empty() -> (c: Criteria)
        ensures
            c@.functions.len() == 0,
            c@.levels.len() == 0,
            c@.titles.len() == 0,
            c@.companies.len() == 0,
            c@.cities.len() == 0,
            c@.country is None,
            c@.min_comp is None,
    {
        Criteria {
            functions: Vec::new(),
            levels: Vec::new(),
            titles: Vec::new(),
            companies: Vec::new(),
            cities: Vec::new(),
            country: None,
            min_comp: None,
        }
    }
}

impl Default for Criteria {
    fn default() -> (c: Criteria)
        ensures
            c@.functions.len() == 0,
            c@.levels.len() == 0,
            c@.titles.len() == 0,
            c@.companies.len() == 0,
            c@.cities.len() == 0,
            c@.country is None,
            c@.min_comp is None,
    {
        Criteria::empty()
    }
}

/// A job record returned by search or retrieval.
pub struct Job {
    /// Dataset identifier.
    pub id: String,
    /// Canonical company name when available.
    pub company: String,
    /// Posted job title.
    pub title: String,
    /// Application URL.
    pub url: String,
    /// Extracted job function.
    pub function: String,
    /// Extracted job sub-function.
    pub sub_function: String,
    /// Extracted seniority level.
    pub level: String,
    /// Extracted work mode.
    pub work_mode: String,
    /// Extracted remote eligibility scope.
    pub remote_scope: String,
    /// Extracted ISO alpha-2 country code.
    pub country_code: String,
    /// Extracted minimum annual compensation in thousands (`f64` bits; -1 if unknown).
    pub salary_min_k_bits: u64,
    /// Extracted maximum annual compensation in thousands (`f64` bits; -1 if unknown).
    pub salary_max_k_bits: u64,
    /// Raw location string.
    pub location: String,
    /// Extracted city.
    pub city: String,
    /// Extracted region.
    pub region: String,
    /// One-line extracted role summary.
    pub role_summary: String,
    /// Full job description as Markdown.
    pub jd_markdown: String,
}

/// One positional query parameter.
pub enum SqlValue {
    /// A text value.
    Text(String),
    /// A double, as its `f64` bit pattern.
    Double(u64),
}

/// The mathematical content of a [`SqlValue`].
pub enum SqlParam {
    Text(Seq<char>),
    Double(u64),
}

impl DeepView for SqlValue {
    type V = SqlParam;

    open spec fn deep_view(&self) -> SqlParam {
        match self {
            SqlValue::Text(s) => SqlParam::Text(s@),
            SqlValue::Double(b) => SqlParam::Double(*b),
        }
    }
}

/// A SQL statement with its positional (`?`) parameters, in order.
pub struct SqlQuery {
    pub sql: String,
    pub parameters: Vec<SqlValue>,
}

/// The column an exact function filter compares against.
pub const FUNCTION_COLUMN: &'static str = "coalesce(\"function\", '')";

/// The column an exact level filter compares against.
pub const LEVEL_COLUMN: &'static str = "coalesce(level, '')";

/// The expression title terms are searched in.
pub const TITLE_EXPRESSION: &'static str = "coalesce(title, '')";

/// The expression company terms are searched in: canonical and raw name.
pub const COMPANY_EXPRESSION: &'static str = "concat_ws(' ', company_name, company)";

/// The expression city terms are searched in: city, region and raw location.
pub const CITY_EXPRESSION: &'static str = "concat_ws(' ', city, region, location)";

/// The country filter; `US` also admits US-scoped remote roles. Takes the
/// country twice.
pub const COUNTRY_CLAUSE: &'static str = "(upper(coalesce(country_code, '')) = upper(?) OR (upper(?) = 'US' AND lower(coalesce(remote_scope, '')) IN ('us-only', 'us-canada')))";

/// The compensation floor; jobs with unknown compensation (-1) are kept.
pub const COMP_CLAUSE: &'static str = "(coalesce(salary_max_k, -1) = -1 OR salary_max_k >= ?)";

/// The search statement up to its `WHERE` clause: deduplicate by
/// case-insensitive (company, title), keeping the lowest id.
pub const SEARCH_HEAD: &'static str = "\n            WITH filtered AS (\n                SELECT\n                    *,\n                    coalesce(nullif(company_name, ''), company, '') AS display_company,\n                    row_number() OVER (\n                        PARTITION BY\n                            lower(coalesce(nullif(company_name, ''), company, '')),\n                            lower(coalesce(title, ''))\n                        ORDER BY cast(id AS VARCHAR)\n                    ) AS duplicate_rank\n                FROM read_parquet(?)\n                ";

/// The search statement between its `WHERE` clause and its row cap: the
/// selected columns, the full match count, and the id order.
pub const SEARCH_MIDDLE: &'static str = "\n            ),\n            deduplicated AS (\n                SELECT * FROM filtered WHERE duplicate_rank = 1\n            )\n            SELECT\n                cast(id AS VARCHAR),\n                display_company,\n                coalesce(title, ''),\n                coalesce(url, ''),\n                coalesce(\"function\", ''),\n                coalesce(sub_function, ''),\n                coalesce(level, ''),\n                coalesce(work_mode, ''),\n                coalesce(remote_scope, ''),\n                coalesce(country_code, ''),\n                coalesce(salary_min_k, -1),\n                coalesce(salary_max_k, -1),\n                coalesce(location, ''),\n                coalesce(city, ''),\n                coalesce(region, ''),\n                coalesce(role_summary, ''),\n                coalesce(jd_markdown, ''),\n                count(*) OVER ()\n            FROM deduplicated\n            ORDER BY cast(id AS VARCHAR)\n            LIMIT ";

/// The end of the search statement.
pub const SEARCH_TAIL: &'static str = "\n            ";

/// The lookup of one job by id; takes the dataset path and the id.
pub const GET_JOB_SQL: &'static str = "\n            SELECT\n                cast(id AS VARCHAR),\n                coalesce(nullif(company_name, ''), company, ''),\n                coalesce(title, ''),\n                coalesce(url, ''),\n                coalesce(\"function\", ''),\n                coalesce(sub_function, ''),\n                coalesce(level, ''),\n                coalesce(work_mode, ''),\n                coalesce(remote_scope, ''),\n                coalesce(country_code, ''),\n                coalesce(salary_min_k, -1),\n                coalesce(salary_max_k, -1),\n                coalesce(location, ''),\n                coalesce(city, ''),\n                coalesce(region, ''),\n                coalesce(role_summary, ''),\n                coalesce(jd_markdown, '')\n            FROM read_parquet(?)\n            WHERE cast(id AS VARCHAR) = ?\n            LIMIT 1\n            ";

/// `column IN (?, ..., ?)` with one placeholder per accepted value.
pub open spec fn exact_clause(column: Seq<char>, n: nat) -> Seq<char> {
    column + " IN ("@ + join(repeat("?"@, n), ", "@) + ")"@
}

/// One case-insensitive substring test against `expression`.
pub open spec fn substring_term(expression: Seq<char>) -> Seq<char> {
    "contains(lower("@ + expression + "), ?)"@
}

/// `n` substring tests against `expression`, ORed together.
pub open spec fn substring_clause(expression: Seq<char>, n: nat) -> Seq<char> {
    "("@ + join(repeat(substring_term(expression), n), " OR "@) + ")"@
}

/// `clause` as a one-element list when `present`, else nothing.
pub open spec fn optional(present: bool, clause: Seq<char>) -> Seq<Seq<char>> {
    if present {
        seq![clause]
    } else {
        Seq::empty()
    }
}

/// The filters a search applies, in order; they are ANDed together. A field
/// with no terms adds no filter.
pub open spec fn search_filters(c: CriteriaView) -> Seq<Seq<char>> {
    optional(c.functions.len() > 0, exact_clause(FUNCTION_COLUMN@, c.functions.len()))
        + optional(c.levels.len() > 0, exact_clause(LEVEL_COLUMN@, c.levels.len()))
        + optional(c.titles.len() > 0, substring_clause(TITLE_EXPRESSION@, c.titles.len()))
        + optional(c.companies.len() > 0, substring_clause(COMPANY_EXPRESSION@, c.companies.len()))
        + optional(c.country is Some, COUNTRY_CLAUSE@)
        + optional(c.cities.len() > 0, substring_clause(CITY_EXPRESSION@, c.cities.len()))
        + optional(c.min_comp is Some, COMP_CLAUSE@)
}

/// Text parameters for `values`, unchanged.
pub open spec fn texts(values: Seq<Seq<char>>) -> Seq<SqlParam> {
    values.map_values(|v: Seq<char>| SqlParam::Text(v))
}

/// Text parameters for `values`, lowercased.
pub open spec fn lowered_texts(values: Seq<Seq<char>>) -> Seq<SqlParam> {
    values.map_values(|v: Seq<char>| SqlParam::Text(lowercase_of(v)))
}

/// The parameters of a search, in placeholder order: the dataset path, then
/// each filter's values.
pub open spec fn search_parameters(parquet: Seq<char>, c: CriteriaView) -> Seq<SqlParam> {
    seq![SqlParam::Text(parquet)] + texts(c.functions) + texts(c.levels) + lowered_texts(c.titles)
        + lowered_texts(c.companies) + match c.country {
        Some(country) => seq![SqlParam::Text(country), SqlParam::Text(country)],
        None => Seq::empty(),
    } + lowered_texts(c.cities) + match c.min_comp {
        Some(bits) => seq![SqlParam::Double(bits)],
        None => Seq::empty(),
    }
}

/// `WHERE` followed by the filters joined with `AND`, or nothing.
pub open spec fn where_clause(filters: Seq<Seq<char>>) -> Seq<char> {
    if filters.len() == 0 {
        Seq::empty()
    } else {
        "WHERE "@ + join(filters, " AND "@)
    }
}

/// The search statement for `c`, returning at most `limit` rows.
pub open spec fn search_sql(c: CriteriaView, limit: nat) -> Seq<char> {
    SEARCH_HEAD@ + where_clause(search_filters(c)) + SEARCH_MIDDLE@ + decimal_text(limit)
        + SEARCH_TAIL@
}

/// Search terms of one field are alternatives: with `n >= 1` title terms the
/// search filters hold, right after the function and level filters, exactly
/// `(` followed by `n` copies of `contains(lower(coalesce(title, '')), ?)`
/// separated by ` OR `, then `)`, so a job passes when its lowercased title
/// contains any one lowercased term. The same holds of company terms (after
/// the title filter) and of city terms (after the country filter), each in
/// its own expression, and each such group stands whole in the statement.
pub proof fn lemma_substring_terms_are_ored(c: CriteriaView, limit: nat)
    ensures
        ({
            let k = (if c.functions.len() > 0 { 1int } else { 0int }) + (if c.levels.len() > 0 {
                1int
            } else {
                0int
            });
            let group = "("@ + join(
                Seq::new(
                    c.titles.len(),
                    |i: int| "contains(lower("@ + "coalesce(title, '')"@ + "), ?)"@,
                ),
                " OR "@,
            ) + ")"@;
            c.titles.len() > 0 ==> search_filters(c)[k] == group && (exists|u: Seq<char>, v: Seq<char>|
                search_sql(c, limit) == u + group + v)
        }),
        ({
            let k = (if c.functions.len() > 0 { 1int } else { 0int }) + (if c.levels.len() > 0 {
                1int
            } else {
                0int
            }) + (if c.titles.len() > 0 { 1int } else { 0int });
            let group = "("@ + join(
                Seq::new(
                    c.companies.len(),
                    |i: int|
                        "contains(lower("@ + "concat_ws(' ', company_name, company)"@ + "), ?)"@,
                ),
                " OR "@,
            ) + ")"@;
            c.companies.len() > 0 ==> search_filters(c)[k] == group && (exists|
                u: Seq<char>,
                v: Seq<char>,
            | search_sql(c, limit) == u + group + v)
        }),
        ({
            let k = (if c.functions.len() > 0 { 1int } else { 0int }) + (if c.levels.len() > 0 {
                1int
            } else {
                0int
            }) + (if c.titles.len() > 0 { 1int } else { 0int }) + (if c.companies.len() > 0 {
                1int
            } else {
                0int
            }) + (if c.country is Some { 1int } else { 0int });
            let group = "("@ + join(
                Seq::new(
                    c.cities.len(),
                    |i: int| "contains(lower("@ + "concat_ws(' ', city, region, location)"@
                        + "), ?)"@,
                ),
                " OR "@,
            ) + ")"@;
            c.cities.len() > 0 ==> search_filters(c)[k] == group && (exists|u: Seq<char>, v: Seq<char>|
                search_sql(c, limit) == u + group + v)
        }),
{
    let f = search_filters(c);
    let kf = (if c.functions.len() > 0 { 1int } else { 0int }) + (if c.levels.len() > 0 {
        1int
    } else {
        0int
    });
    let kt = kf + (if c.titles.len() > 0 { 1int } else { 0int });
    let kc = kt + (if c.companies.len() > 0 { 1int } else { 0int }) + (if c.country is Some {
        1int
    } else {
        0int
    });
    assert(TITLE_EXPRESSION@ == "coalesce(title, '')"@);
    assert(COMPANY_EXPRESSION@ == "concat_ws(' ', company_name, company)"@);
    assert(CITY_EXPRESSION@ == "concat_ws(' ', city, region, location)"@);
    if c.titles.len() > 0 {
        assert(f[kf] == substring_clause(TITLE_EXPRESSION@, c.titles.len()));
        lemma_filter_in_statement(c, limit, kf);
    }
    if c.companies.len() > 0 {
        assert(f[kt] == substring_clause(COMPANY_EXPRESSION@, c.companies.len()));
        lemma_filter_in_statement(c, limit, kt);
    }
    if c.cities.len() > 0 {
        assert(f[kc] == substring_clause(CITY_EXPRESSION@, c.cities.len()));
        lemma_filter_in_statement(c, limit, kc);
    }
}

/// The search parameters come in placeholder order: the dataset path; each
/// function and each level as given; each title and each company term
/// lowercased; the country twice when set; each city term lowercased; the
/// compensation floor when set.
pub proof fn lemma_search_parameter_order(parquet: Seq<char>, c: CriteriaView)
    ensures
        ({
            let p = search_parameters(parquet, c);
            let nf = c.functions.len() as int;
            let nl = c.levels.len() as int;
            let nt = c.titles.len() as int;
            let nc = c.companies.len() as int;
            let ny: int = if c.country is Some { 2 } else { 0 };
            let ncity = c.cities.len() as int;
            let nm: int = if c.min_comp is Some { 1 } else { 0 };
            &&& p.len() == 1 + nf + nl + nt + nc + ny + ncity + nm
            &&& p[0] == SqlParam::Text(parquet)
            &&& forall|i: int| 0 <= i < nf ==> p[1 + i] == SqlParam::Text(#[trigger] c.functions[i])
            &&& forall|i: int| 0 <= i < nl ==> p[1 + nf + i] == SqlParam::Text(#[trigger] c.levels[i])
            &&& forall|i: int|
                0 <= i < nt ==> p[1 + nf + nl + i] == SqlParam::Text(
                    lowercase_of(#[trigger] c.titles[i]),
                )
            &&& forall|i: int|
                0 <= i < nc ==> p[1 + nf + nl + nt + i] == SqlParam::Text(
                    lowercase_of(#[trigger] c.companies[i]),
                )
            &&& c.country matches Some(k) ==> p[1 + nf + nl + nt + nc] == SqlParam::Text(k)
                && p[2 + nf + nl + nt + nc] == SqlParam::Text(k)
            &&& forall|i: int|
                0 <= i < ncity ==> p[1 + nf + nl + nt + nc + ny + i] == SqlParam::Text(
                    lowercase_of(#[trigger] c.cities[i]),
                )
            &&& c.min_comp matches Some(bits) ==> p[p.len() - 1] == SqlParam::Double(bits)
        }),
{
    let p = search_parameters(parquet, c);
    let nf = c.functions.len() as int;
    let nl = c.levels.len() as int;
    let nt = c.titles.len() as int;
    let nc = c.companies.len() as int;
    let country: Seq<SqlParam> = match c.country {
        Some(k) => seq![SqlParam::Text(k), SqlParam::Text(k)],
        None => Seq::empty(),
    };
    let comp: Seq<SqlParam> = match c.min_comp {
        Some(bits) => seq![SqlParam::Double(bits)],
        None => Seq::empty(),
    };
    let a = seq![SqlParam::Text(parquet)] + texts(c.functions);
    let b = a + texts(c.levels);
    let t = b + lowered_texts(c.titles);
    let co = t + lowered_texts(c.companies);
    let y = co + country;
    let ci = y + lowered_texts(c.cities);
    assert(p == ci + comp);
    assert forall|i: int| 0 <= i < nf implies p[1 + i] == SqlParam::Text(#[trigger] c.functions[i]) by {
        assert(a[1 + i] == texts(c.functions)[i]);
        assert(b[1 + i] == a[1 + i]);
        assert(t[1 + i] == b[1 + i]);
        assert(co[1 + i] == t[1 + i]);
        assert(y[1 + i] == co[1 + i]);
        assert(ci[1 + i] == y[1 + i]);
    }
    assert forall|i: int| 0 <= i < nl implies p[1 + nf + i] == SqlParam::Text(#[trigger] c.levels[i]) by {
        assert(b[1 + nf + i] == texts(c.levels)[i]);
        assert(t[1 + nf + i] == b[1 + nf + i]);
        assert(co[1 + nf + i] == t[1 + nf + i]);
        assert(y[1 + nf + i] == co[1 + nf + i]);
        assert(ci[1 + nf + i] == y[1 + nf + i]);
    }
    assert forall|i: int| 0 <= i < nt implies p[1 + nf + nl + i] == SqlParam::Text(
        lowercase_of(#[trigger] c.titles[i]),
    ) by {
        assert(t[1 + nf + nl + i] == lowered_texts(c.titles)[i]);
        assert(co[1 + nf + nl + i] == t[1 + nf + nl + i]);
        assert(y[1 + nf + nl + i] == co[1 + nf + nl + i]);
        assert(ci[1 + nf + nl + i] == y[1 + nf + nl + i]);
    }
    assert forall|i: int| 0 <= i < nc implies p[1 + nf + nl + nt + i] == SqlParam::Text(
        lowercase_of(#[trigger] c.companies[i]),
    ) by {
        assert(co[1 + nf + nl + nt + i] == lowered_texts(c.companies)[i]);
        assert(y[1 + nf + nl + nt + i] == co[1 + nf + nl + nt + i]);
        assert(ci[1 + nf + nl + nt + i] == y[1 + nf + nl + nt + i]);
    }
    if c.country is Some {
        assert(ci[1 + nf + nl + nt + nc] == y[1 + nf + nl + nt + nc]);
        assert(ci[2 + nf + nl + nt + nc] == y[2 + nf + nl + nt + nc]);
    }
    let ny: int = if c.country is Some { 2 } else { 0 };
    assert forall|i: int| 0 <= i < c.cities.len() implies p[1 + nf + nl + nt + nc + ny + i]
        == SqlParam::Text(lowercase_of(#[trigger] c.cities[i])) by {
        assert(ci[1 + nf + nl + nt + nc + ny + i] == lowered_texts(c.cities)[i]);
    }
}

/// The other filters, where their fields are set: functions and levels are
/// matched exactly, one `?` per accepted value (`coalesce("function", '') IN
/// (?, ?)` for two functions); the country filter compares upper-cased
/// country codes and lets `US` also admit roles whose remote scope is
/// `us-only` or `us-canada`; the compensation floor keeps roles whose maximum
/// is unknown (-1). The compensation floor, when set, is the last filter.
pub proof fn lemma_fixed_filters(c: CriteriaView)
    ensures
        ({
            let f = search_filters(c);
            let kl: int = if c.functions.len() > 0 { 1 } else { 0 };
            let ky: int = kl + (if c.levels.len() > 0 { 1int } else { 0int }) + (if c.titles.len()
                > 0 {
                1int
            } else {
                0int
            }) + (if c.companies.len() > 0 { 1int } else { 0int });
            &&& c.functions.len() > 0 ==> f[0] == "coalesce(\"function\", '')"@ + " IN ("@ + join(
                Seq::new(c.functions.len(), |i: int| "?"@),
                ", "@,
            ) + ")"@
            &&& c.levels.len() > 0 ==> f[kl] == "coalesce(level, '')"@ + " IN ("@ + join(
                Seq::new(c.levels.len(), |i: int| "?"@),
                ", "@,
            ) + ")"@
            &&& c.country is Some ==> f[ky]
                == "(upper(coalesce(country_code, '')) = upper(?) OR (upper(?) = 'US' AND lower(coalesce(remote_scope, '')) IN ('us-only', 'us-canada')))"@
            &&& c.min_comp is Some ==> f[f.len() - 1]
                == "(coalesce(salary_max_k, -1) = -1 OR salary_max_k >= ?)"@
        }),
{
    let f = search_filters(c);
    assert(FUNCTION_COLUMN@ == "coalesce(\"function\", '')"@);
    assert(LEVEL_COLUMN@ == "coalesce(level, '')"@);
    assert(COUNTRY_CLAUSE@
        == "(upper(coalesce(country_code, '')) = upper(?) OR (upper(?) = 'US' AND lower(coalesce(remote_scope, '')) IN ('us-only', 'us-canada')))"@);
    assert(COMP_CLAUSE@ == "(coalesce(salary_max_k, -1) = -1 OR salary_max_k >= ?)"@);
    let kl: int = if c.functions.len() > 0 { 1 } else { 0 };
    if c.functions.len() > 0 {
        assert(f[0] == exact_clause(FUNCTION_COLUMN@, c.functions.len()));
    }
    if c.levels.len() > 0 {
        assert(f[kl] == exact_clause(LEVEL_COLUMN@, c.levels.len()));
    }
}

/// Each search filter stands whole in the search statement.
proof fn lemma_filter_in_statement(c: CriteriaView, limit: nat, k: int)
    requires
        0 <= k < search_filters(c).len(),
    ensures
        exists|u: Seq<char>, v: Seq<char>| search_sql(c, limit) == u + search_filters(c)[k] + v,
{
    let f = search_filters(c);
    lemma_join_contains_part(f, " AND "@, k);
    let (u, v) = choose|u: Seq<char>, v: Seq<char>| join(f, " AND "@) == u + f[k] + v;
    let uu = SEARCH_HEAD@ + "WHERE "@ + u;
    let vv = v + SEARCH_MIDDLE@ + decimal_text(limit) + SEARCH_TAIL@;
    assert(search_sql(c, limit) =~= uu + f[k] + vv);
}

/// Adds an exact-match filter on `column` accepting any of `values`, with
/// one parameter per value. Adds nothing when `values` is empty.
pub fn add_exact_filter(
    filters: &mut Vec<String>,
    parameters: &mut Vec<SqlValue>,
    column: &str,
    values: &[String],
)
    ensures
        final(filters).deep_view() == old(filters).deep_view() + optional(
            values@.len() > 0,
            exact_clause(column@, values@.len()),
        ),
        final(parameters).deep_view() == old(parameters).deep_view() + texts(values.deep_view()),
{
    let ghost old_filters = filters.deep_view();
    let ghost old_parameters = parameters.deep_view();
    if values.len() == 0 {
        proof {
            assert(texts(values.deep_view()) =~= Seq::<SqlParam>::empty());
            assert(filters.deep_view() =~= old_filters + Seq::<Seq<char>>::empty());
            assert(parameters.deep_view() =~= old_parameters + Seq::<SqlParam>::empty());
        }
        return;
    }
    let mut marks: Vec<String> = Vec::new();
    let mut i: usize = 0;
    while i < values.len()
        invariant
            i <= values@.len(),
            marks.deep_view() =~= repeat("?"@, i as nat),
            parameters.deep_view() =~= old_parameters + texts(values.deep_view().take(i as int)),
        decreases values@.len() - i,
    {
        let ghost marks_before = marks.deep_view();
        let ghost parameters_before = parameters.deep_view();
        marks.push(String::from_str("?"));
        parameters.push(SqlValue::Text(values[i].clone()));
        proof {
            let taken = values.deep_view().take(i as int);
            assert(values.deep_view().take(i + 1) =~= taken.push(values@[i as int]@));
            assert(marks.deep_view() =~= marks_before.push("?"@));
            assert(repeat("?"@, (i + 1) as nat) =~= repeat("?"@, i as nat).push("?"@));
            assert(parameters.deep_view() =~= parameters_before.push(
                SqlParam::Text(values@[i as int]@),
            ));
            assert(texts(taken.push(values@[i as int]@)) =~= texts(taken).push(
                SqlParam::Text(values@[i as int]@),
            ));
        }
        i = i + 1;
    }
    proof {
        assert(values.deep_view().take(i as int) =~= values.deep_view());
    }
    let mut clause = String::from_str(column);
    clause.append(" IN (");
    let placeholders = join_strings(&marks, ", ");
    clause.append(placeholders.as_str());
    clause.append(")");
    filters.push(clause);
    proof {
        assert(filters.deep_view() =~= old_filters + optional(
            values@.len() > 0,
            exact_clause(column@, values@.len()),
        ));
    }
}

/// Adds a filter that `expression` contains, case-insensitively, any of
/// `values` (the tests ORed), with one lowercased parameter per value. Adds
/// nothing when `values` is empty.
pub fn add_substring_filter(
    filters: &mut Vec<String>,
    parameters: &mut Vec<SqlValue>,
    expression: &str,
    values: &[String],
)
    ensures
        final(filters).deep_view() == old(filters).deep_view() + optional(
            values@.len() > 0,
            substring_clause(expression@, values@.len()),
        ),
        final(parameters).deep_view() == old(parameters).deep_view() + lowered_texts(
            values.deep_view(),
        ),
{
    let ghost old_filters = filters.deep_view();
    let ghost old_parameters = parameters.deep_view();
    if values.len() == 0 {
        proof {
            assert(lowered_texts(values.deep_view()) =~= Seq::<SqlParam>::empty());
            assert(filters.deep_view() =~= old_filters + Seq::<Seq<char>>::empty());
            assert(parameters.deep_view() =~= old_parameters + Seq::<SqlParam>::empty());
        }
        return;
    }
    let mut term = String::from_str("contains(lower(");
    term.append(expression);
    term.append("), ?)");
    let mut terms: Vec<String> = Vec::new();
    let mut i: usize = 0;
    while i < values.len()
        invariant
            i <= values@.len(),
            term@ == substring_term(expression@),
            terms.deep_view() =~= repeat(substring_term(expression@), i as nat),
            parameters.deep_view() =~= old_parameters + lowered_texts(
                values.deep_view().take(i as int),
            ),
        decreases values@.len() - i,
    {
        let ghost terms_before = terms.deep_view();
        let ghost parameters_before = parameters.deep_view();
        let lowered = to_lowercase(values[i].as_str());
        parameters.push(SqlValue::Text(lowered));
        terms.push(term.clone());
        proof {
            let taken = values.deep_view().take(i as int);
            let t = substring_term(expression@);
            let p = SqlParam::Text(lowercase_of(values@[i as int]@));
            assert(values.deep_view().take(i + 1) =~= taken.push(values@[i as int]@));
            assert(terms.deep_view() =~= terms_before.push(t));
            assert(repeat(t, (i + 1) as nat) =~= repeat(t, i as nat).push(t));
            assert(parameters.deep_view() =~= parameters_before.push(p));
            assert(lowered_texts(taken.push(values@[i as int]@)) =~= lowered_texts(taken).push(p));
        }
        i = i + 1;
    }
    proof {
        assert(values.deep_view().take(i as int) =~= values.deep_view());
    }
    let mut clause = String::from_str("(");
    let joined = join_strings(&terms, " OR ");
    clause.append(joined.as_str());
    clause.append(")");
    filters.push(clause);
    proof {
        assert(filters.deep_view() =~= old_filters + optional(
            values@.len() > 0,
            substring_clause(expression@, values@.len()),
        ));
    }
}

/// The search statement and its parameters: jobs from `parquet` passing
/// every filter of `criteria`, deduplicated by case-insensitive (company,
/// title), ordered by id, at most `limit` rows, each row carrying the full
/// match count.
pub fn search_query(parquet: &str, criteria: &Criteria, limit: usize) -> (q: SqlQuery)
    ensures
        q.sql@ == search_sql(criteria@, limit as nat),
        q.parameters.deep_view() == search_parameters(parquet@, criteria@),
{
    let c = criteria;
    let mut filters: Vec<String> = Vec::new();
    let mut parameters: Vec<SqlValue> = Vec::new();
    parameters.push(SqlValue::Text(String::from_str(parquet)));
    proof {
        assert(filters.deep_view() =~= Seq::<Seq<char>>::empty());
        assert(parameters.deep_view() =~= seq![SqlParam::Text(parquet@)]);
    }
    add_exact_filter(&mut filters, &mut parameters, FUNCTION_COLUMN, &c.functions);
    add_exact_filter(&mut filters, &mut parameters, LEVEL_COLUMN, &c.levels);
    add_substring_filter(&mut filters, &mut parameters, TITLE_EXPRESSION, &c.titles);
    add_substring_filter(&mut filters, &mut parameters, COMPANY_EXPRESSION, &c.companies);
    let ghost filters_mid = filters.deep_view();
    let ghost parameters_mid = parameters.deep_view();
    match &c.country {
        Some(country) => {
            filters.push(String::from_str(COUNTRY_CLAUSE));
            parameters.push(SqlValue::Text(country.clone()));
            parameters.push(SqlValue::Text(country.clone()));
            proof {
                assert(filters.deep_view() =~= filters_mid + optional(true, COUNTRY_CLAUSE@));
                assert(parameters.deep_view() =~= parameters_mid + seq![
                    SqlParam::Text(country@),
                    SqlParam::Text(country@),
                ]);
            }
        },
        None => {
            proof {
                assert(filters.deep_view() =~= filters_mid + optional(false, COUNTRY_CLAUSE@));
                assert(parameters.deep_view() =~= parameters_mid + Seq::<SqlParam>::empty());
            }
        },
    }
    add_substring_filter(&mut filters, &mut parameters, CITY_EXPRESSION, &c.cities);
    let ghost filters_late = filters.deep_view();
    let ghost parameters_late = parameters.deep_view();
    match c.min_comp {
        Some(bits) => {
            filters.push(String::from_str(COMP_CLAUSE));
            parameters.push(SqlValue::Double(bits));
            proof {
                assert(filters.deep_view() =~= filters_late + optional(true, COMP_CLAUSE@));
                assert(parameters.deep_view() =~= parameters_late + seq![SqlParam::Double(bits)]);
            }
        },
        None => {
            proof {
                assert(filters.deep_view() =~= filters_late + optional(false, COMP_CLAUSE@));
                assert(parameters.deep_view() =~= parameters_late + Seq::<SqlParam>::empty());
            }
        },
    }
    proof {
        assert(filters.deep_view() =~= search_filters(c@));
        assert(parameters.deep_view() =~= search_parameters(parquet@, c@));
    }
    let mut sql = String::from_str(SEARCH_HEAD);
    if filters.len() > 0 {
        sql.append("WHERE ");
        let joined = join_strings(&filters, " AND ");
        sql.append(joined.as_str());
    }
    sql.append(SEARCH_MIDDLE);
    let rows = decimal(limit);
    sql.append(rows.as_str());
    sql.append(SEARCH_TAIL);
    proof {
        if filters.len() > 0 {
            assert(where_clause(search_filters(c@)) == "WHERE "@ + join(filters.deep_view(), " AND "@));
        } else {
            assert(where_clause(search_filters(c@)) =~= Seq::<char>::empty());
        }
        assert(sql@ =~= search_sql(c@, limit as nat));
    }
    SqlQuery { sql, parameters }
}

/// The lookup of the job with dataset identifier `id` in `parquet`.
pub fn get_job_query(parquet: &str, id: &str) -> (q: SqlQuery)
    ensures
        q.sql@ == GET_JOB_SQL@,
        q.parameters.deep_view() == seq![SqlParam::Text(parquet@), SqlParam::Text(id@)],
{
    let mut parameters: Vec<SqlValue> = Vec::new();
    parameters.push(SqlValue::Text(String::from_str(parquet)));
    parameters.push(SqlValue::Text(String::from_str(id)));
    proof {
        assert(parameters.deep_view() =~= seq![SqlParam::Text(parquet@), SqlParam::Text(id@)]);
    }
    SqlQuery { sql: String::from_str(GET_JOB_SQL), parameters }
}

} // verus!
