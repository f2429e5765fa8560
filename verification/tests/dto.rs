use joblode::dto::{GetJobParams, JobSummary, SearchParams, SearchResults, DEFAULT_LIMIT, MAX_LIMIT};
use joblode::store::Job;

fn job(id: &str) -> Job {
    Job {
        id: id.into(),
        company: "Acme".into(),
        title: "Backend Engineer".into(),
        url: "https://acme.example/jobs/1".into(),
        function: "engineering".into(),
        sub_function: "backend".into(),
        level: "Senior".into(),
        work_mode: "onsite".into(),
        remote_scope: "".into(),
        country_code: "US".into(),
        salary_min_k_bits: 150.0f64.to_bits(),
        salary_max_k_bits: (-1.0f64).to_bits(),
        location: "San Francisco, CA".into(),
        city: "San Francisco".into(),
        region: "CA".into(),
        role_summary: "Builds APIs".into(),
        jd_markdown: "# Backend Engineer".into(),
    }
}

#[test]
fn effective_limit_defaults_then_clamps() {
    let mut params = SearchParams::default();
    assert_eq!(params.effective_limit(), DEFAULT_LIMIT);

    params.limit = Some(10);
    assert_eq!(params.effective_limit(), 10);

    params.limit = Some(MAX_LIMIT * 100);
    assert_eq!(params.effective_limit(), MAX_LIMIT);
}

#[test]
fn effective_limit_keeps_the_ceiling_and_zero() {
    let mut params = SearchParams::default();
    params.limit = Some(MAX_LIMIT);
    assert_eq!(params.effective_limit(), 500);
    params.limit = Some(0);
    assert_eq!(params.effective_limit(), 0);
}

#[test]
fn criteria_projects_the_filters() {
    let mut params = SearchParams::default();
    params.cities = vec!["san francisco".into()];
    params.titles = vec!["engineer".into(), "BACKEND".into()];
    params.country = Some("US".into());
    params.min_comp = Some(150.0f64.to_bits());
    params.limit = Some(3);

    let criteria = params.criteria();
    assert_eq!(criteria.cities, vec!["san francisco".to_string()]);
    assert_eq!(criteria.titles, vec!["engineer".to_string(), "BACKEND".to_string()]);
    assert!(criteria.functions.is_empty());
    assert_eq!(criteria.country.as_deref(), Some("US"));
    assert_eq!(criteria.min_comp.map(f64::from_bits), Some(150.0));
}

#[test]
fn summary_copies_the_triage_fields() {
    let full = job("city-direct");
    let summary = JobSummary::from(&full);
    assert_eq!(summary.id, "city-direct");
    assert_eq!(summary.company, "Acme");
    assert_eq!(summary.title, "Backend Engineer");
    assert_eq!(summary.location, "San Francisco, CA");
    assert_eq!(summary.url, "https://acme.example/jobs/1");
    assert_eq!(summary.role_summary, "Builds APIs");
    assert_eq!(f64::from_bits(summary.salary_min_k_bits), 150.0);
    assert_eq!(f64::from_bits(summary.salary_max_k_bits), -1.0);
}

#[test]
fn search_results_keep_the_full_total_and_one_row_per_job() {
    let page = vec![job("a"), job("b")];
    let results = SearchResults::from_page(&page, 7);
    assert_eq!(results.total, 7);
    let ids: Vec<&str> = results.results.iter().map(|r| r.id.as_str()).collect();
    assert_eq!(ids, ["a", "b"]);

    let empty = SearchResults::from_page(&Vec::new(), 0);
    assert_eq!(empty.total, 0);
    assert!(empty.results.is_empty());
}

#[test]
fn get_job_params_carry_an_id() {
    let params = GetJobParams { id: "city-direct".into() };
    assert_eq!(params.id, "city-direct");
}
