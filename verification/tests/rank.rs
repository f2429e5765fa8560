use joblode::order::{best_first_top, order_desc};
use joblode::pairwise::{comparison_pairs, tally_wins, Verdict};
use joblode::rank::{refine_set, require, JobText, Method, RankError};
use joblode::taste::common_dimension;

fn job(id: &str) -> JobText {
    JobText {
        id: id.to_string(),
        title: id.to_string(),
        summary: String::new(),
    }
}

#[test]
fn orders_best_first_and_keeps_ties_in_order() {
    assert_eq!(order_desc(&vec![3, 9, 3, 7, 9]), [1, 4, 3, 0, 2]);
    assert_eq!(order_desc(&vec![]), Vec::<usize>::new());
    assert_eq!(order_desc(&vec![-5, i64::MIN, i64::MAX]), [2, 0, 1]);
}

#[test]
fn equal_keys_keep_the_search_order() {
    assert_eq!(order_desc(&vec![0, 0, 0]), [0, 1, 2]);
    assert_eq!(best_first_top(&vec![0, 0, 0], 2), [0, 1]);
}

#[test]
fn top_caps_the_shortlist() {
    let keys = vec![10, 30, 20];
    assert_eq!(best_first_top(&keys, 2), [1, 2]);
    assert_eq!(best_first_top(&keys, 0), Vec::<usize>::new());
    assert_eq!(best_first_top(&keys, 10), [1, 2, 0]);
}

#[test]
fn model_methods_need_a_client_first() {
    for method in ["match", "pairwise"] {
        let error = require::<u8>(None, Some("resume"), method).err().expect("must require a client");
        assert!(error.message().contains("requires a configured model"));
        assert_eq!(
            error.message(),
            format!("ranking method '{method}' requires a configured model; none is set")
        );
    }
}

#[test]
fn model_methods_need_a_non_blank_resume() {
    for resume in [None, Some(""), Some("  \n")] {
        match require(Some(7u8), resume, "match") {
            Err(RankError::MissingResume(method)) => assert_eq!(method, "match"),
            _ => panic!("expected a missing-resume error"),
        }
    }
    let error = require(Some(1u8), None, "pairwise").err().unwrap();
    assert_eq!(error.message(), "ranking method 'pairwise' requires a resume");
    assert_eq!(require(Some(3u8), Some("cv"), "match").ok(), Some((3u8, "cv")));
}

#[test]
fn refine_set_takes_the_head_of_the_order() {
    let ordered = vec![job("a"), job("mid"), job("b")];
    let head: Vec<String> = refine_set(&ordered, 2).into_iter().map(|j| j.id).collect();
    assert_eq!(head, ["a", "mid"]);
    assert_eq!(refine_set(&ordered, 9).len(), 3);
    assert!(refine_set(&ordered, 0).is_empty());
}

#[test]
fn methods_are_distinct() {
    assert_ne!(Method::Free, Method::Match);
    assert_ne!(Method::Match, Method::Pairwise);
    assert_eq!(Method::Pairwise, Method::Pairwise);
}

#[test]
fn schedules_each_pair_once() {
    assert_eq!(
        comparison_pairs(4),
        [(0, 1), (0, 2), (0, 3), (1, 2), (1, 3), (2, 3)]
    );
    assert!(comparison_pairs(1).is_empty());
    assert!(comparison_pairs(0).is_empty());
    assert_eq!(comparison_pairs(10).len(), 45);
}

#[test]
fn tallies_half_games() {
    // Pairs: (0,1) first wins, (0,2) tie, (1,2) second wins.
    let wins = tally_wins(3, &vec![Verdict::Greater, Verdict::Equal, Verdict::Less]);
    assert_eq!(wins, vec![vec![0, 2, 1], vec![0, 0, 0], vec![1, 2, 0]]);
    for i in 0..3 {
        for j in 0..3 {
            if i != j {
                assert_eq!(wins[i][j] + wins[j][i], 2);
            }
        }
    }
    assert_eq!(tally_wins(1, &Vec::new()), vec![vec![0]]);
}

#[test]
fn mean_needs_one_shared_non_zero_dimension() {
    assert_eq!(common_dimension(&vec![3, 3]), Some(3));
    assert_eq!(common_dimension(&vec![]), None);
    assert_eq!(common_dimension(&vec![3, 0]), None);
    assert_eq!(common_dimension(&vec![2, 1]), None);
    assert_eq!(common_dimension(&vec![0]), None);
}
