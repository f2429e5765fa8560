//! Every `?` placeholder of a query has exactly one parameter: the number
//! of placeholders in a statement the library builds equals the number of
//! parameters it binds, in every case.

use vstd::prelude::*;
use crate::store::{
    exact_clause, optional, search_filters, search_parameters, search_sql, substring_clause,
    substring_term, where_clause, CriteriaView, CITY_EXPRESSION,
    COMPANY_EXPRESSION, COMP_CLAUSE, COUNTRY_CLAUSE, FUNCTION_COLUMN, GET_JOB_SQL, LEVEL_COLUMN,
    SEARCH_HEAD, SEARCH_MIDDLE, SEARCH_TAIL, TITLE_EXPRESSION,
};
use crate::text::{decimal_text, digit_text, join, repeat};

verus! {

/// The number of `?` characters in `s` from position `i` on.
pub open spec fn placeholders_from(s: Seq<char>, i: int) -> nat
    decreases s.len() - i,
{
    if i < 0 || i >= s.len() {
        0
    } else {
        (if s[i] == '?' {
            1nat
        } else {
            0nat
        }) + placeholders_from(s, i + 1)
    }
}

/// The number of `?` placeholders in `s`.
pub open spec fn placeholders(s: Seq<char>) -> nat {
    placeholders_from(s, 0)
}

proof fn lemma_placeholders_shift(a: Seq<char>, b: Seq<char>, k: int)
    requires
        0 <= k <= b.len(),
    ensures
        placeholders_from(a + b, a.len() + k) == placeholders_from(b, k),
    decreases b.len() - k,
{
    if k < b.len() {
        lemma_placeholders_shift(a, b, k + 1);
        assert((a + b)[a.len() + k] == b[k]);
    }
}

proof fn lemma_placeholders_split(a: Seq<char>, b: Seq<char>, i: int)
    requires
        0 <= i <= a.len(),
    ensures
        placeholders_from(a + b, i) == placeholders_from(a, i) + placeholders(b),
    decreases a.len() - i,
{
    if i < a.len() {
        lemma_placeholders_split(a, b, i + 1);
        assert((a + b)[i] == a[i]);
    } else {
        lemma_placeholders_shift(a, b, 0);
    }
}

/// Placeholders of a concatenation add up.
pub proof fn lemma_placeholders_concat(a: Seq<char>, b: Seq<char>)
    ensures
        placeholders(a + b) == placeholders(a) + placeholders(b),
{
    lemma_placeholders_split(a, b, 0);
}

/// The placeholders of all `parts` together.
pub open spec fn total_placeholders(parts: Seq<Seq<char>>) -> nat
    decreases parts.len(),
{
    if parts.len() == 0 {
        0
    } else {
        total_placeholders(parts.drop_last()) + placeholders(parts.last())
    }
}

proof fn lemma_total_placeholders_concat(a: Seq<Seq<char>>, b: Seq<Seq<char>>)
    ensures
        total_placeholders(a + b) == total_placeholders(a) + total_placeholders(b),
    decreases b.len(),
{
    if b.len() > 0 {
        assert((a + b).drop_last() =~= a + b.drop_last());
        lemma_total_placeholders_concat(a, b.drop_last());
    } else {
        assert(a + b =~= a);
    }
}

proof fn lemma_join_placeholders(parts: Seq<Seq<char>>, sep: Seq<char>)
    requires
        placeholders(sep) == 0,
    ensures
        placeholders(join(parts, sep)) == total_placeholders(parts),
    decreases parts.len(),
{
    if parts.len() == 0 {
        assert(placeholders(join(parts, sep)) == 0);
    } else if parts.len() == 1 {
        assert(parts.drop_last() =~= Seq::<Seq<char>>::empty());
        assert(total_placeholders(parts.drop_last()) == 0);
        assert(join(parts, sep) == parts[0]);
    } else {
        lemma_join_placeholders(parts.drop_last(), sep);
        lemma_placeholders_concat(join(parts.drop_last(), sep), sep);
        lemma_placeholders_concat(join(parts.drop_last(), sep) + sep, parts.last());
    }
}

proof fn lemma_repeat_placeholders(x: Seq<char>, n: nat)
    requires
        placeholders(x) == 1,
    ensures
        total_placeholders(repeat(x, n)) == n,
    decreases n,
{
    if n > 0 {
        assert(repeat(x, n).drop_last() =~= repeat(x, (n - 1) as nat));
        lemma_repeat_placeholders(x, (n - 1) as nat);
    }
}

proof fn lemma_optional_placeholders(present: bool, clause: Seq<char>)
    ensures
        total_placeholders(optional(present, clause)) == if present {
            placeholders(clause)
        } else {
            0
        },
{
    if present {
        assert(optional(present, clause).drop_last() =~= Seq::<Seq<char>>::empty());
        assert(total_placeholders(optional(present, clause).drop_last()) == 0);
    } else {
        assert(total_placeholders(optional(present, clause)) == 0);
    }
}

proof fn lemma_decimal_placeholders(n: nat)
    ensures
        placeholders(decimal_text(n)) == 0,
    decreases n,
{
    reveal_strlit("0");
    reveal_strlit("1");
    reveal_strlit("2");
    reveal_strlit("3");
    reveal_strlit("4");
    reveal_strlit("5");
    reveal_strlit("6");
    reveal_strlit("7");
    reveal_strlit("8");
    reveal_strlit("9");
    reveal_with_fuel(placeholders_from, 2);
    if n >= 10 {
        lemma_decimal_placeholders(n / 10);
        lemma_placeholders_concat(decimal_text(n / 10), digit_text(n % 10));
    }
}

#[verifier::spinoff_prover]
#[verifier::rlimit(80)]
proof fn lemma_search_head()
    ensures
        placeholders(SEARCH_HEAD@) == 1,
{
    reveal_strlit("\n            WITH filtered AS (\n                SELECT\n                    *,\n                    coalesce(nullif(company_name, ''), company, '') AS display_company,\n                    row_number() OVER (\n                        PARTITION BY\n                            lower(coalesce(nullif(company_name, ''), company, '')),\n                            lower(coalesce(title, ''))\n                        ORDER BY cast(id AS VARCHAR)\n                    ) AS duplicate_rank\n                FROM read_parquet(?)\n                ");
    reveal_with_fuel(placeholders_from, 26);
    assert(placeholders_from(SEARCH_HEAD@, 525) == 0);
    assert(placeholders_from(SEARCH_HEAD@, 500) == 1);
    assert(placeholders_from(SEARCH_HEAD@, 475) == 1);
    assert(placeholders_from(SEARCH_HEAD@, 450) == 1);
    assert(placeholders_from(SEARCH_HEAD@, 425) == 1);
    assert(placeholders_from(SEARCH_HEAD@, 400) == 1);
    assert(placeholders_from(SEARCH_HEAD@, 375) == 1);
    assert(placeholders_from(SEARCH_HEAD@, 350) == 1);
    assert(placeholders_from(SEARCH_HEAD@, 325) == 1);
    assert(placeholders_from(SEARCH_HEAD@, 300) == 1);
    assert(placeholders_from(SEARCH_HEAD@, 275) == 1);
    assert(placeholders_from(SEARCH_HEAD@, 250) == 1);
    assert(placeholders_from(SEARCH_HEAD@, 225) == 1);
    assert(placeholders_from(SEARCH_HEAD@, 200) == 1);
    assert(placeholders_from(SEARCH_HEAD@, 175) == 1);
    assert(placeholders_from(SEARCH_HEAD@, 150) == 1);
    assert(placeholders_from(SEARCH_HEAD@, 125) == 1);
    assert(placeholders_from(SEARCH_HEAD@, 100) == 1);
    assert(placeholders_from(SEARCH_HEAD@, 75) == 1);
    assert(placeholders_from(SEARCH_HEAD@, 50) == 1);
    assert(placeholders_from(SEARCH_HEAD@, 25) == 1);
    assert(placeholders_from(SEARCH_HEAD@, 0) == 1);
}

#[verifier::spinoff_prover]
#[verifier::rlimit(80)]
proof fn lemma_search_middle()
    ensures
        placeholders(SEARCH_MIDDLE@) == 0,
{
    reveal_strlit("\n            ),\n            deduplicated AS (\n                SELECT * FROM filtered WHERE duplicate_rank = 1\n            )\n            SELECT\n                cast(id AS VARCHAR),\n                display_company,\n                coalesce(title, ''),\n                coalesce(url, ''),\n                coalesce(\"function\", ''),\n                coalesce(sub_function, ''),\n                coalesce(level, ''),\n                coalesce(work_mode, ''),\n                coalesce(remote_scope, ''),\n                coalesce(country_code, ''),\n                coalesce(salary_min_k, -1),\n                coalesce(salary_max_k, -1),\n                coalesce(location, ''),\n                coalesce(city, ''),\n                coalesce(region, ''),\n                coalesce(role_summary, ''),\n                coalesce(jd_markdown, ''),\n                count(*) OVER ()\n            FROM deduplicated\n            ORDER BY cast(id AS VARCHAR)\n            LIMIT ");
    reveal_with_fuel(placeholders_from, 26);
    assert(placeholders_from(SEARCH_MIDDLE@, 925) == 0);
    assert(placeholders_from(SEARCH_MIDDLE@, 900) == 0);
    assert(placeholders_from(SEARCH_MIDDLE@, 875) == 0);
    assert(placeholders_from(SEARCH_MIDDLE@, 850) == 0);
    assert(placeholders_from(SEARCH_MIDDLE@, 825) == 0);
    assert(placeholders_from(SEARCH_MIDDLE@, 800) == 0);
    assert(placeholders_from(SEARCH_MIDDLE@, 775) == 0);
    assert(placeholders_from(SEARCH_MIDDLE@, 750) == 0);
    assert(placeholders_from(SEARCH_MIDDLE@, 725) == 0);
    assert(placeholders_from(SEARCH_MIDDLE@, 700) == 0);
    assert(placeholders_from(SEARCH_MIDDLE@, 675) == 0);
    assert(placeholders_from(SEARCH_MIDDLE@, 650) == 0);
    assert(placeholders_from(SEARCH_MIDDLE@, 625) == 0);
    assert(placeholders_from(SEARCH_MIDDLE@, 600) == 0);
    assert(placeholders_from(SEARCH_MIDDLE@, 575) == 0);
    assert(placeholders_from(SEARCH_MIDDLE@, 550) == 0);
    assert(placeholders_from(SEARCH_MIDDLE@, 525) == 0);
    assert(placeholders_from(SEARCH_MIDDLE@, 500) == 0);
    assert(placeholders_from(SEARCH_MIDDLE@, 475) == 0);
    assert(placeholders_from(SEARCH_MIDDLE@, 450) == 0);
    assert(placeholders_from(SEARCH_MIDDLE@, 425) == 0);
    assert(placeholders_from(SEARCH_MIDDLE@, 400) == 0);
    assert(placeholders_from(SEARCH_MIDDLE@, 375) == 0);
    assert(placeholders_from(SEARCH_MIDDLE@, 350) == 0);
    assert(placeholders_from(SEARCH_MIDDLE@, 325) == 0);
    assert(placeholders_from(SEARCH_MIDDLE@, 300) == 0);
    assert(placeholders_from(SEARCH_MIDDLE@, 275) == 0);
    assert(placeholders_from(SEARCH_MIDDLE@, 250) == 0);
    assert(placeholders_from(SEARCH_MIDDLE@, 225) == 0);
    assert(placeholders_from(SEARCH_MIDDLE@, 200) == 0);
    assert(placeholders_from(SEARCH_MIDDLE@, 175) == 0);
    assert(placeholders_from(SEARCH_MIDDLE@, 150) == 0);
    assert(placeholders_from(SEARCH_MIDDLE@, 125) == 0);
    assert(placeholders_from(SEARCH_MIDDLE@, 100) == 0);
    assert(placeholders_from(SEARCH_MIDDLE@, 75) == 0);
    assert(placeholders_from(SEARCH_MIDDLE@, 50) == 0);
    assert(placeholders_from(SEARCH_MIDDLE@, 25) == 0);
    assert(placeholders_from(SEARCH_MIDDLE@, 0) == 0);
}

proof fn lemma_search_tail()
    ensures
        placeholders(SEARCH_TAIL@) == 0,
{
    reveal_strlit("\n            ");
    reveal_with_fuel(placeholders_from, 26);
    assert(placeholders_from(SEARCH_TAIL@, 0) == 0);
}

#[verifier::spinoff_prover]
#[verifier::rlimit(80)]
proof fn lemma_get_job_sql()
    ensures
        placeholders(GET_JOB_SQL@) == 2,
{
    reveal_strlit("\n            SELECT\n                cast(id AS VARCHAR),\n                coalesce(nullif(company_name, ''), company, ''),\n                coalesce(title, ''),\n                coalesce(url, ''),\n                coalesce(\"function\", ''),\n                coalesce(sub_function, ''),\n                coalesce(level, ''),\n                coalesce(work_mode, ''),\n                coalesce(remote_scope, ''),\n                coalesce(country_code, ''),\n                coalesce(salary_min_k, -1),\n                coalesce(salary_max_k, -1),\n                coalesce(location, ''),\n                coalesce(city, ''),\n                coalesce(region, ''),\n                coalesce(role_summary, ''),\n                coalesce(jd_markdown, '')\n            FROM read_parquet(?)\n            WHERE cast(id AS VARCHAR) = ?\n            LIMIT 1\n            ");
    reveal_with_fuel(placeholders_from, 26);
    assert(placeholders_from(GET_JOB_SQL@, 825) == 0);
    assert(placeholders_from(GET_JOB_SQL@, 800) == 1);
    assert(placeholders_from(GET_JOB_SQL@, 775) == 1);
    assert(placeholders_from(GET_JOB_SQL@, 750) == 2);
    assert(placeholders_from(GET_JOB_SQL@, 725) == 2);
    assert(placeholders_from(GET_JOB_SQL@, 700) == 2);
    assert(placeholders_from(GET_JOB_SQL@, 675) == 2);
    assert(placeholders_from(GET_JOB_SQL@, 650) == 2);
    assert(placeholders_from(GET_JOB_SQL@, 625) == 2);
    assert(placeholders_from(GET_JOB_SQL@, 600) == 2);
    assert(placeholders_from(GET_JOB_SQL@, 575) == 2);
    assert(placeholders_from(GET_JOB_SQL@, 550) == 2);
    assert(placeholders_from(GET_JOB_SQL@, 525) == 2);
    assert(placeholders_from(GET_JOB_SQL@, 500) == 2);
    assert(placeholders_from(GET_JOB_SQL@, 475) == 2);
    assert(placeholders_from(GET_JOB_SQL@, 450) == 2);
    assert(placeholders_from(GET_JOB_SQL@, 425) == 2);
    assert(placeholders_from(GET_JOB_SQL@, 400) == 2);
    assert(placeholders_from(GET_JOB_SQL@, 375) == 2);
    assert(placeholders_from(GET_JOB_SQL@, 350) == 2);
    assert(placeholders_from(GET_JOB_SQL@, 325) == 2);
    assert(placeholders_from(GET_JOB_SQL@, 300) == 2);
    assert(placeholders_from(GET_JOB_SQL@, 275) == 2);
    assert(placeholders_from(GET_JOB_SQL@, 250) == 2);
    assert(placeholders_from(GET_JOB_SQL@, 225) == 2);
    assert(placeholders_from(GET_JOB_SQL@, 200) == 2);
    assert(placeholders_from(GET_JOB_SQL@, 175) == 2);
    assert(placeholders_from(GET_JOB_SQL@, 150) == 2);
    assert(placeholders_from(GET_JOB_SQL@, 125) == 2);
    assert(placeholders_from(GET_JOB_SQL@, 100) == 2);
    assert(placeholders_from(GET_JOB_SQL@, 75) == 2);
    assert(placeholders_from(GET_JOB_SQL@, 50) == 2);
    assert(placeholders_from(GET_JOB_SQL@, 25) == 2);
    assert(placeholders_from(GET_JOB_SQL@, 0) == 2);
}

proof fn lemma_country_clause()
    ensures
        placeholders(COUNTRY_CLAUSE@) == 2,
{
    reveal_strlit("(upper(coalesce(country_code, '')) = upper(?) OR (upper(?) = 'US' AND lower(coalesce(remote_scope, '')) IN ('us-only', 'us-canada')))");
    reveal_with_fuel(placeholders_from, 26);
    assert(placeholders_from(COUNTRY_CLAUSE@, 125) == 0);
    assert(placeholders_from(COUNTRY_CLAUSE@, 100) == 0);
    assert(placeholders_from(COUNTRY_CLAUSE@, 75) == 0);
    assert(placeholders_from(COUNTRY_CLAUSE@, 50) == 1);
    assert(placeholders_from(COUNTRY_CLAUSE@, 25) == 2);
    assert(placeholders_from(COUNTRY_CLAUSE@, 0) == 2);
}

proof fn lemma_comp_clause()
    ensures
        placeholders(COMP_CLAUSE@) == 1,
{
    reveal_strlit("(coalesce(salary_max_k, -1) = -1 OR salary_max_k >= ?)");
    reveal_with_fuel(placeholders_from, 26);
    assert(placeholders_from(COMP_CLAUSE@, 50) == 1);
    assert(placeholders_from(COMP_CLAUSE@, 25) == 1);
    assert(placeholders_from(COMP_CLAUSE@, 0) == 1);
}

proof fn lemma_function_column()
    ensures
        placeholders(FUNCTION_COLUMN@) == 0,
{
    reveal_strlit("coalesce(\"function\", '')");
    reveal_with_fuel(placeholders_from, 26);
    assert(placeholders_from(FUNCTION_COLUMN@, 0) == 0);
}

proof fn lemma_level_column()
    ensures
        placeholders(LEVEL_COLUMN@) == 0,
{
    reveal_strlit("coalesce(level, '')");
    reveal_with_fuel(placeholders_from, 26);
    assert(placeholders_from(LEVEL_COLUMN@, 0) == 0);
}

proof fn lemma_title_expression()
    ensures
        placeholders(TITLE_EXPRESSION@) == 0,
{
    reveal_strlit("coalesce(title, '')");
    reveal_with_fuel(placeholders_from, 26);
    assert(placeholders_from(TITLE_EXPRESSION@, 0) == 0);
}

proof fn lemma_company_expression()
    ensures
        placeholders(COMPANY_EXPRESSION@) == 0,
{
    reveal_strlit("concat_ws(' ', company_name, company)");
    reveal_with_fuel(placeholders_from, 26);
    assert(placeholders_from(COMPANY_EXPRESSION@, 25) == 0);
    assert(placeholders_from(COMPANY_EXPRESSION@, 0) == 0);
}

proof fn lemma_city_expression()
    ensures
        placeholders(CITY_EXPRESSION@) == 0,
{
    reveal_strlit("concat_ws(' ', city, region, location)");
    reveal_with_fuel(placeholders_from, 26);
    assert(placeholders_from(CITY_EXPRESSION@, 25) == 0);
    assert(placeholders_from(CITY_EXPRESSION@, 0) == 0);
}

proof fn lemma_small_literals()
    ensures
        placeholders(" IN ("@) == 0,
        placeholders(", "@) == 0,
        placeholders(")"@) == 0,
        placeholders("?"@) == 1,
        placeholders("("@) == 0,
        placeholders(" OR "@) == 0,
        placeholders("contains(lower("@) == 0,
        placeholders("), ?)"@) == 1,
        placeholders("WHERE "@) == 0,
        placeholders(" AND "@) == 0,
{
    reveal_strlit(" IN (");
    reveal_strlit(", ");
    reveal_strlit(")");
    reveal_strlit("?");
    reveal_strlit("(");
    reveal_strlit(" OR ");
    reveal_strlit("contains(lower(");
    reveal_strlit("), ?)");
    reveal_strlit("WHERE ");
    reveal_strlit(" AND ");
    reveal_with_fuel(placeholders_from, 17);
}

proof fn lemma_exact_clause_placeholders(column: Seq<char>, n: nat)
    requires
        placeholders(column) == 0,
    ensures
        placeholders(exact_clause(column, n)) == n,
{
    lemma_small_literals();
    lemma_repeat_placeholders("?"@, n);
    lemma_join_placeholders(repeat("?"@, n), ", "@);
    let j = join(repeat("?"@, n), ", "@);
    lemma_placeholders_concat(column, " IN ("@);
    lemma_placeholders_concat(column + " IN ("@, j);
    lemma_placeholders_concat(column + " IN ("@ + j, ")"@);
}

proof fn lemma_substring_clause_placeholders(expression: Seq<char>, n: nat)
    requires
        placeholders(expression) == 0,
    ensures
        placeholders(substring_clause(expression, n)) == n,
{
    lemma_small_literals();
    let term = substring_term(expression);
    lemma_placeholders_concat("contains(lower("@, expression);
    lemma_placeholders_concat("contains(lower("@ + expression, "), ?)"@);
    lemma_repeat_placeholders(term, n);
    lemma_join_placeholders(repeat(term, n), " OR "@);
    let j = join(repeat(term, n), " OR "@);
    lemma_placeholders_concat("("@, j);
    lemma_placeholders_concat("("@ + j, ")"@);
}

/// The number of parameters a search binds besides the dataset path.
proof fn lemma_filter_placeholders(c: CriteriaView)
    ensures
        total_placeholders(search_filters(c)) + 1 == search_parameters(Seq::empty(), c).len(),
{
    lemma_function_column();
    lemma_level_column();
    lemma_title_expression();
    lemma_company_expression();
    lemma_city_expression();
    lemma_country_clause();
    lemma_comp_clause();
    let f1 = optional(c.functions.len() > 0, exact_clause(FUNCTION_COLUMN@, c.functions.len()));
    let f2 = optional(c.levels.len() > 0, exact_clause(LEVEL_COLUMN@, c.levels.len()));
    let f3 = optional(c.titles.len() > 0, substring_clause(TITLE_EXPRESSION@, c.titles.len()));
    let f4 = optional(
        c.companies.len() > 0,
        substring_clause(COMPANY_EXPRESSION@, c.companies.len()),
    );
    let f5 = optional(c.country is Some, COUNTRY_CLAUSE@);
    let f6 = optional(c.cities.len() > 0, substring_clause(CITY_EXPRESSION@, c.cities.len()));
    let f7 = optional(c.min_comp is Some, COMP_CLAUSE@);
    lemma_exact_clause_placeholders(FUNCTION_COLUMN@, c.functions.len());
    lemma_exact_clause_placeholders(LEVEL_COLUMN@, c.levels.len());
    lemma_substring_clause_placeholders(TITLE_EXPRESSION@, c.titles.len());
    lemma_substring_clause_placeholders(COMPANY_EXPRESSION@, c.companies.len());
    lemma_substring_clause_placeholders(CITY_EXPRESSION@, c.cities.len());
    lemma_optional_placeholders(c.functions.len() > 0, exact_clause(FUNCTION_COLUMN@, c.functions.len()));
    lemma_optional_placeholders(c.levels.len() > 0, exact_clause(LEVEL_COLUMN@, c.levels.len()));
    lemma_optional_placeholders(c.titles.len() > 0, substring_clause(TITLE_EXPRESSION@, c.titles.len()));
    lemma_optional_placeholders(
        c.companies.len() > 0,
        substring_clause(COMPANY_EXPRESSION@, c.companies.len()),
    );
    lemma_optional_placeholders(c.country is Some, COUNTRY_CLAUSE@);
    lemma_optional_placeholders(c.cities.len() > 0, substring_clause(CITY_EXPRESSION@, c.cities.len()));
    lemma_optional_placeholders(c.min_comp is Some, COMP_CLAUSE@);
    lemma_total_placeholders_concat(f1, f2);
    lemma_total_placeholders_concat(f1 + f2, f3);
    lemma_total_placeholders_concat(f1 + f2 + f3, f4);
    lemma_total_placeholders_concat(f1 + f2 + f3 + f4, f5);
    lemma_total_placeholders_concat(f1 + f2 + f3 + f4 + f5, f6);
    lemma_total_placeholders_concat(f1 + f2 + f3 + f4 + f5 + f6, f7);
}

/// A search statement holds exactly one `?` placeholder per parameter it
/// binds: the dataset path, every filter value (a country twice), and the
/// compensation floor.
pub proof fn lemma_search_placeholders_match_parameters(
    parquet: Seq<char>,
    c: CriteriaView,
    limit: nat,
)
    ensures
        placeholders(search_sql(c, limit)) == search_parameters(parquet, c).len(),
{
    lemma_search_head();
    lemma_search_middle();
    lemma_search_tail();
    lemma_small_literals();
    lemma_decimal_placeholders(limit);
    lemma_filter_placeholders(c);
    let filters = search_filters(c);
    if filters.len() > 0 {
        lemma_join_placeholders(filters, " AND "@);
        lemma_placeholders_concat("WHERE "@, join(filters, " AND "@));
    } else {
        assert(filters =~= Seq::<Seq<char>>::empty());
    }
    let w = where_clause(filters);
    lemma_placeholders_concat(SEARCH_HEAD@, w);
    lemma_placeholders_concat(SEARCH_HEAD@ + w, SEARCH_MIDDLE@);
    lemma_placeholders_concat(SEARCH_HEAD@ + w + SEARCH_MIDDLE@, decimal_text(limit));
    lemma_placeholders_concat(SEARCH_HEAD@ + w + SEARCH_MIDDLE@ + decimal_text(limit), SEARCH_TAIL@);
    assert(search_parameters(parquet, c).len() == search_parameters(Seq::empty(), c).len());
}

/// The lookup statement holds the two placeholders it binds: the dataset path
/// and the id.
pub proof fn lemma_get_job_placeholders()
    ensures
        placeholders(GET_JOB_SQL@) == 2,
{
    lemma_get_job_sql();
}

} // verus!
