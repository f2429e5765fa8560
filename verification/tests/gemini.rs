use joblode::gemini::{
    base_url, compare_prompt, extract_json, match_prompt, verdict_of_trimmed, winner_verdict,
    DEFAULT_BASE_URL,
};
use joblode::pairwise::Verdict;
use joblode::rank::JobText;

fn job(title: &str, summary: &str) -> JobText {
    JobText {
        id: title.to_string(),
        title: title.to_string(),
        summary: summary.to_string(),
    }
}

#[test]
fn extracts_json_from_fenced_or_noisy_output() {
    assert_eq!(
        extract_json("```json\n{\"score\":80}\n```"),
        "{\"score\":80}"
    );
    assert_eq!(
        extract_json("here: {\"winner\":\"A\"} ok"),
        "{\"winner\":\"A\"}"
    );
    assert_eq!(extract_json("no json"), "no json");
}

#[test]
fn extract_json_keeps_input_when_braces_are_reversed() {
    assert_eq!(extract_json("} then {"), "} then {");
    assert_eq!(extract_json("only {"), "only {");
    assert_eq!(extract_json("{}"), "{}");
}

#[test]
fn extract_json_takes_the_outermost_braces() {
    assert_eq!(extract_json("a {x {y} z} b"), "{x {y} z}");
    assert_eq!(extract_json("é {\"why\":\"naïve\"} ü"), "{\"why\":\"naïve\"}");
}

#[test]
fn extract_json_is_idempotent() {
    for raw in ["```json\n{\"score\":80}\n```", "no json", "} {", "x{a}y{b}z"] {
        let once = extract_json(raw);
        assert_eq!(extract_json(once), once);
    }
}

#[test]
fn match_prompt_carries_resume_title_and_summary() {
    let prompt = match_prompt("Rust dev", &job("Backend Engineer", "Builds APIs"));
    assert_eq!(
        prompt,
        "Rate how well this candidate fits the role on a 0-100 scale.\n\
         Reply with ONLY JSON: {\"score\": <0-100>, \"why\": \"<one line>\"}.\n\n\
         RESUME:\nRust dev\n\nROLE:\nBackend Engineer — Builds APIs"
    );
}

#[test]
fn compare_prompt_labels_both_roles() {
    let prompt = compare_prompt("cv", &job("A1", "s1"), &job("B1", "s2"));
    assert_eq!(
        prompt,
        "Which role fits the resume better?\n\
         Reply with ONLY JSON: {\"winner\": \"A\" | \"B\" | \"tie\"}.\n\n\
         RESUME:\ncv\n\nROLE A:\nA1 — s1\n\nROLE B:\nB1 — s2"
    );
}

#[test]
fn winner_field_maps_to_a_verdict() {
    assert_eq!(winner_verdict("A"), Verdict::Greater);
    assert_eq!(winner_verdict(" a \n"), Verdict::Greater);
    assert_eq!(winner_verdict("B"), Verdict::Less);
    assert_eq!(winner_verdict("\tb"), Verdict::Less);
    assert_eq!(winner_verdict("tie"), Verdict::Equal);
    assert_eq!(winner_verdict("AB"), Verdict::Equal);
    assert_eq!(winner_verdict(""), Verdict::Equal);
}

#[test]
fn untrimmed_winner_is_a_tie_before_trimming() {
    assert_eq!(verdict_of_trimmed(" A"), Verdict::Equal);
    assert_eq!(verdict_of_trimmed("a"), Verdict::Greater);
}

#[test]
fn base_url_defaults_when_blank_and_drops_trailing_slashes() {
    assert_eq!(base_url(""), DEFAULT_BASE_URL);
    assert_eq!(base_url("   "), DEFAULT_BASE_URL);
    assert_eq!(base_url("http://localhost:9/v1//"), "http://localhost:9/v1");
    assert_eq!(base_url("http://x"), "http://x");
}
