use joblode::{scout, store};

#[test]
fn reports_its_version() {
    assert_eq!(scout::version(), "0.1.0");
}

#[test]
fn search_core_reports_the_same_version() {
    assert_eq!(store::version(), "0.1.0");
}
