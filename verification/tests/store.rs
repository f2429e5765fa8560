use joblode::store::{
    add_exact_filter, add_substring_filter, get_job_query, search_query, Criteria, SqlValue,
    COMP_CLAUSE, COUNTRY_CLAUSE, GET_JOB_SQL, SEARCH_HEAD, SEARCH_MIDDLE, SEARCH_TAIL,
};

fn texts(parameters: &[SqlValue]) -> Vec<String> {
    parameters
        .iter()
        .map(|p| match p {
            SqlValue::Text(t) => t.clone(),
            SqlValue::Double(bits) => format!("double:{}", f64::from_bits(*bits)),
        })
        .collect()
}

#[test]
fn exact_filter_lists_one_placeholder_per_value() {
    let mut filters = Vec::new();
    let mut parameters = Vec::new();
    add_exact_filter(
        &mut filters,
        &mut parameters,
        "coalesce(level, '')",
        &vec!["Mid".to_string(), "Staff".to_string()],
    );
    assert_eq!(filters, ["coalesce(level, '') IN (?, ?)"]);
    assert_eq!(texts(&parameters), ["Mid", "Staff"]);
}

#[test]
fn empty_filters_add_nothing() {
    let mut filters = vec!["x".to_string()];
    let mut parameters = Vec::new();
    add_exact_filter(&mut filters, &mut parameters, "c", &Vec::new());
    add_substring_filter(&mut filters, &mut parameters, "e", &Vec::new());
    assert_eq!(filters, ["x"]);
    assert!(parameters.is_empty());
}

#[test]
fn substring_filter_ors_lowercased_terms() {
    let mut filters = Vec::new();
    let mut parameters = Vec::new();
    add_substring_filter(
        &mut filters,
        &mut parameters,
        "coalesce(title, '')",
        &vec!["BACKEND".to_string(), "Product Manager".to_string()],
    );
    assert_eq!(
        filters,
        ["(contains(lower(coalesce(title, '')), ?) OR contains(lower(coalesce(title, '')), ?))"]
    );
    assert_eq!(texts(&parameters), ["backend", "product manager"]);
}

#[test]
fn unfiltered_search_has_no_where_clause() {
    let query = search_query("data.parquet", &Criteria::default(), 1000);
    assert_eq!(
        query.sql,
        format!("{SEARCH_HEAD}{SEARCH_MIDDLE}1000{SEARCH_TAIL}")
    );
    assert_eq!(texts(&query.parameters), ["data.parquet"]);
}

#[test]
fn search_ands_every_field_in_order() {
    let criteria = Criteria {
        functions: vec!["engineering".into(), "product".into()],
        levels: vec!["Staff".into()],
        titles: vec!["Engineer".into()],
        companies: vec!["RemoteCo".into()],
        cities: vec!["San Francisco".into(), "Remote".into()],
        country: Some("US".into()),
        min_comp: Some(150.0f64.to_bits()),
    };
    let query = search_query("f.parquet", &criteria, 0);
    let where_clause = format!(
        "WHERE coalesce(\"function\", '') IN (?, ?) AND coalesce(level, '') IN (?) AND \
         (contains(lower(coalesce(title, '')), ?)) AND \
         (contains(lower(concat_ws(' ', company_name, company)), ?)) AND {COUNTRY_CLAUSE} AND \
         (contains(lower(concat_ws(' ', city, region, location)), ?) OR \
         contains(lower(concat_ws(' ', city, region, location)), ?)) AND {COMP_CLAUSE}"
    );
    assert_eq!(
        query.sql,
        format!("{SEARCH_HEAD}{where_clause}{SEARCH_MIDDLE}0{SEARCH_TAIL}")
    );
    assert_eq!(
        texts(&query.parameters),
        [
            "f.parquet",
            "engineering",
            "product",
            "Staff",
            "engineer",
            "remoteco",
            "US",
            "US",
            "san francisco",
            "remote",
            "double:150",
        ]
    );
}

#[test]
fn placeholders_match_parameters() {
    let criteria = Criteria {
        titles: vec!["a".into(), "b".into()],
        cities: vec!["c".into()],
        country: Some("DE".into()),
        min_comp: Some(1.5f64.to_bits()),
        ..Criteria::default()
    };
    let query = search_query("p", &criteria, 25);
    assert_eq!(query.sql.matches('?').count(), query.parameters.len());
    assert!(query.sql.contains("LIMIT 25\n"));
}

#[test]
fn get_job_query_binds_path_then_id() {
    let query = get_job_query("fixture.parquet", "city-direct");
    assert_eq!(query.sql, GET_JOB_SQL);
    assert_eq!(texts(&query.parameters), ["fixture.parquet", "city-direct"]);
}
