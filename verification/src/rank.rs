//! Ranking decisions. The free taste pass orders the whole candidate set by
//! an order-preserving integer key of each candidate's taste score; the
//! model-backed methods then refine the head of that order. This module holds
//! the choices those steps make: which method needs what, which candidates
//! reach the model, and how many rows come back.

use vstd::prelude::*;
use vstd::string::*;
use crate::text::{is_blank, trim_of};

verus! {

/// Which ranking method to apply on top of the free taste pre-rank.
#[derive(Debug, Clone, Copy, PartialEq, Eq, Structural)]
pub enum Method {
    /// Taste order only: no model calls.
    Free,
    /// Cheap-model absolute scoring of the top candidates.
    Match,
    /// Cheap-model pairwise comparison and Bradley–Terry over the top candidates.
    Pairwise,
}

/// The compact text a model needs to judge a role: title and one-line
/// summary, never the full description.
pub struct JobText {
    pub id: String,
    pub title: String,
    pub summary: String,
}

impl Clone for JobText {
    fn clone(&self) -> (r: JobText)
        ensures
            r == *self,
    {
        JobText { id: self.id.clone(), title: self.title.clone(), summary: self.summary.clone() }
    }
}

/// Why a model-backed ranking could not start.
pub enum RankError {
    /// The named method needs a configured model and none is set.
    MissingModel(String),
    /// The named method needs a non-blank resume.
    MissingResume(String),
}

/// The message for a missing model.
pub open spec fn missing_model_message(method: Seq<char>) -> Seq<char> {
    "ranking method '"@ + method + "' requires a configured model; none is set"@
}

/// The message for a missing resume.
pub open spec fn missing_resume_message(method: Seq<char>) -> Seq<char> {
    "ranking method '"@ + method + "' requires a resume"@
}

impl RankError {
    /// The human-readable message for this error.
    pub fn message(&self) -> (m: String)
        ensures
            m@ == match self {
                RankError::MissingModel(method) => missing_model_message(method@),
                RankError::MissingResume(method) => missing_resume_message(method@),
            },
    {
        match self {
            RankError::MissingModel(method) => {
                let mut m = String::from_str("ranking method '");
                m.append(method.as_str());
                m.append("' requires a configured model; none is set");
                m
            },
            RankError::MissingResume(method) => {
                let mut m = String::from_str("ranking method '");
                m.append(method.as_str());
                m.append("' requires a resume");
                m
            },
        }
    }
}

/// Whether a resume is usable by a model-backed method: present and not
/// blank.
pub open spec fn usable_resume(resume: Option<&str>) -> bool {
    match resume {
        Some(r) => trim_of(r@).len() > 0,
        None => false,
    }
}

/// Requires a configured client and a non-blank resume for a model-backed
/// method named `method`. A missing client is reported before a missing
/// resume.
pub fn require<'a, C>(client: Option<C>, resume: Option<&'a str>, method: &str) -> (r: Result<
    (C, &'a str),
    RankError,
>)
    ensures
        client is None ==> (r matches Err(RankError::MissingModel(m)) && m@ == method@),
        client is Some && !usable_resume(resume) ==> (r matches Err(RankError::MissingResume(m))
            && m@ == method@),
        client is Some && usable_resume(resume) ==> r == Ok::<(C, &'a str), RankError>(
            (client->0, resume->0),
        ),
        client is Some && resume is Some && trim_of(resume->0@).len() > 0 ==> r is Ok,
        client is Some && resume is Some && trim_of(resume->0@).len() == 0 ==> r is Err,
        client is Some && resume is None ==> r is Err,
{
    match client {
        None => Err(RankError::MissingModel(String::from_str(method))),
        Some(c) => match resume {
            Some(text) => {
                if is_blank(text) {
                    Err(RankError::MissingResume(String::from_str(method)))
                } else {
                    Ok((c, text))
                }
            },
            None => Err(RankError::MissingResume(String::from_str(method))),
        },
    }
}

/// A resume is usable exactly when it is present and its trimmed text is not
/// empty, whatever its length.
pub proof fn lemma_usable_resume_is_present_and_not_blank(resume: Option<&str>)
    ensures
        usable_resume(resume) <==> (resume is Some && trim_of(resume->0@).len() > 0),
        forall|r: &str| #[trigger] trim_of(r@).len() > 0 ==> usable_resume(Some(r)),
        !usable_resume(None),
{
}

/// The head of the taste order handed to a model pass: the first `refine_k`
/// entries (all of them when there are fewer).
pub fn refine_set(ordered: &Vec<JobText>, refine_k: usize) -> (head: Vec<JobText>)
    ensures
        head@ == ordered@.take(
            if refine_k < ordered@.len() {
                refine_k as int
            } else {
                ordered@.len() as int
            },
        ),
{
    let n = if refine_k < ordered.len() {
        refine_k
    } else {
        ordered.len()
    };
    let mut head: Vec<JobText> = Vec::new();
    let mut i: usize = 0;
    while i < n
        invariant
            n <= ordered@.len(),
            i <= n,
            head@ == ordered@.take(i as int),
        decreases n - i,
    {
        head.push(ordered[i].clone());
        proof {
            assert(ordered@.take(i + 1) =~= ordered@.take(i as int).push(ordered@[i as int]));
        }
        i = i + 1;
    }
    head
}

} // verus!
