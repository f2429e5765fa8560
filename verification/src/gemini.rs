//! The text side of the cheap-model client: the prompts it sends, how the
//! JSON reply is cut out of the model's output, how a pairwise reply becomes
//! a verdict, and how the endpoint is configured. The HTTP exchange and the
//! JSON decoding happen outside this library.

use vstd::prelude::*;
use vstd::string::*;
use crate::pairwise::Verdict;
use crate::rank::JobText;
use crate::text::{
    ascii_upper, ascii_upper_char, is_blank, lemma_strip_trailing_shape, strip_trailing, trim,
    trim_end_char, trim_of,
};

verus! {

/// Gemini's OpenAI-compatible base URL.
pub const DEFAULT_BASE_URL: &'static str = "https://generativelanguage.googleapis.com/v1beta/openai";

/// The instructions that open an absolute-fit prompt, up to the resume.
pub const MATCH_INTRO: &'static str = "Rate how well this candidate fits the role on a 0-100 scale.\nReply with ONLY JSON: {\"score\": <0-100>, \"why\": \"<one line>\"}.\n\nRESUME:\n";

/// The instructions that open a pairwise prompt, up to the resume.
pub const COMPARE_INTRO: &'static str = "Which role fits the resume better?\nReply with ONLY JSON: {\"winner\": \"A\" | \"B\" | \"tie\"}.\n\nRESUME:\n";

/// `i` is the first position of `c` in `s`.
pub open spec fn is_first_index(s: Seq<char>, c: char, i: int) -> bool {
    &&& 0 <= i < s.len()
    &&& s[i] == c
    &&& forall|k: int| 0 <= k < i ==> s[k] != c
}

/// `i` is the last position of `c` in `s`.
pub open spec fn is_last_index(s: Seq<char>, c: char, i: int) -> bool {
    &&& 0 <= i < s.len()
    &&& s[i] == c
    &&& forall|k: int| i < k < s.len() ==> s[k] != c
}

/// `s` holds a `{` before its last `}`.
pub open spec fn has_json_span(s: Seq<char>) -> bool {
    exists|a: int, b: int| is_first_index(s, '{', a) && is_last_index(s, '}', b) && a < b
}

/// The outermost `{...}` of `s`: from its first `{` through its last `}`
/// when the first comes before the last; otherwise `s` unchanged.
pub open spec fn json_span(s: Seq<char>) -> Seq<char> {
    if has_json_span(s) {
        let (a, b) = choose|a: int, b: int|
            is_first_index(s, '{', a) && is_last_index(s, '}', b) && a < b;
        s.subrange(a, b + 1)
    } else {
        s
    }
}

proof fn lemma_first_index_unique(s: Seq<char>, c: char, a: int, b: int)
    requires
        is_first_index(s, c, a),
        is_first_index(s, c, b),
    ensures
        a == b,
{
}

proof fn lemma_last_index_unique(s: Seq<char>, c: char, a: int, b: int)
    requires
        is_last_index(s, c, a),
        is_last_index(s, c, b),
    ensures
        a == b,
{
}

/// The span between the first `{` at `a` and the last `}` at `b`.
proof fn lemma_json_span_at(s: Seq<char>, a: int, b: int)
    requires
        is_first_index(s, '{', a),
        is_last_index(s, '}', b),
        a < b,
    ensures
        json_span(s) == s.subrange(a, b + 1),
{
    let (x, y) = choose|x: int, y: int|
        is_first_index(s, '{', x) && is_last_index(s, '}', y) && x < y;
    lemma_first_index_unique(s, '{', a, x);
    lemma_last_index_unique(s, '}', b, y);
}

/// Models sometimes wrap JSON in prose or fences; takes the outermost `{...}`.
pub fn extract_json(raw: &str) -> (r: &str)
    ensures
        r@ == json_span(raw@),
{
    let n = raw.unicode_len();
    let mut start: usize = 0;
    while start < n && raw.get_char(start) != '{'
        invariant
            n == raw@.len(),
            start <= n,
            forall|k: int| 0 <= k < start ==> raw@[k] != '{',
        decreases n - start,
    {
        start = start + 1;
    }
    let mut end: usize = n;
    while end > 0 && raw.get_char(end - 1) != '}'
        invariant
            n == raw@.len(),
            end <= n,
            forall|k: int| end <= k < n ==> raw@[k] != '}',
        decreases end,
    {
        end = end - 1;
    }
    if start < n && end > 0 && end - 1 > start {
        proof {
            lemma_json_span_at(raw@, start as int, end - 1);
        }
        raw.substring_char(start, end)
    } else {
        proof {
            if has_json_span(raw@) {
                let (a, b) = choose|a: int, b: int|
                    is_first_index(raw@, '{', a) && is_last_index(raw@, '}', b) && a < b;
                if start < n {
                    lemma_first_index_unique(raw@, '{', a, start as int);
                }
                if end > 0 {
                    lemma_last_index_unique(raw@, '}', b, end - 1);
                }
            }
        }
        raw
    }
}

/// Cutting out the JSON a second time changes nothing.
pub proof fn lemma_json_span_idempotent(s: Seq<char>)
    ensures
        json_span(json_span(s)) == json_span(s),
{
    if has_json_span(s) {
        let (a, b) = choose|a: int, b: int|
            is_first_index(s, '{', a) && is_last_index(s, '}', b) && a < b;
        let t = s.subrange(a, b + 1);
        assert(is_first_index(t, '{', 0));
        assert(is_last_index(t, '}', b - a));
        lemma_json_span_at(t, 0, b - a);
        assert(t.subrange(0, b - a + 1) =~= t);
    }
}

proof fn lemma_first_index_exists(s: Seq<char>, c: char, i: int)
    requires
        0 <= i < s.len(),
        s[i] == c,
    ensures
        exists|a: int| a <= i && is_first_index(s, c, a),
    decreases i,
{
    if exists|k: int| 0 <= k < i && s[k] == c {
        let k = choose|k: int| 0 <= k < i && s[k] == c;
        lemma_first_index_exists(s, c, k);
    } else {
        assert(is_first_index(s, c, i));
    }
}

proof fn lemma_last_index_exists(s: Seq<char>, c: char, i: int)
    requires
        0 <= i < s.len(),
        s[i] == c,
    ensures
        exists|b: int| i <= b && is_last_index(s, c, b),
    decreases s.len() - i,
{
    if exists|k: int| i < k < s.len() && s[k] == c {
        let k = choose|k: int| i < k < s.len() && s[k] == c;
        lemma_last_index_exists(s, c, k);
    } else {
        assert(is_last_index(s, c, i));
    }
}

/// When the text holds some `{` before some `}`, the JSON cut out of it runs
/// from its first `{` through its last `}`: no `{` stands before the cut and
/// no `}` after it. Text without a `{` before a `}` is kept whole.
pub proof fn lemma_json_span_shape(s: Seq<char>)
    ensures
        (exists|i: int, j: int| 0 <= i < j < s.len() && s[i] == '{' && s[j] == '}') ==> exists|
            a: int,
            b: int,
        |
            0 <= a < b < s.len() && json_span(s) == s.subrange(a, b + 1) && s[a] == '{' && s[b]
                == '}' && (forall|k: int| 0 <= k < a ==> s[k] != '{') && (forall|k: int|
                b < k < s.len() ==> s[k] != '}'),
        !(exists|i: int, j: int| 0 <= i < j < s.len() && s[i] == '{' && s[j] == '}')
            ==> json_span(s) == s,
{
    if exists|i: int, j: int| 0 <= i < j < s.len() && s[i] == '{' && s[j] == '}' {
        let (i, j) = choose|i: int, j: int| 0 <= i < j < s.len() && s[i] == '{' && s[j] == '}';
        lemma_first_index_exists(s, '{', i);
        lemma_last_index_exists(s, '}', j);
        let a = choose|a: int| a <= i && is_first_index(s, '{', a);
        let b = choose|b: int| j <= b && is_last_index(s, '}', b);
        lemma_json_span_at(s, a, b);
    } else {
        if has_json_span(s) {
            let (a, b) = choose|a: int, b: int|
                is_first_index(s, '{', a) && is_last_index(s, '}', b) && a < b;
            assert(0 <= a < b < s.len() && s[a] == '{' && s[b] == '}');
        }
    }
}

/// The absolute-fit prompt for one role.
pub open spec fn match_prompt_text(resume: Seq<char>, title: Seq<char>, summary: Seq<char>) -> Seq<
    char,
> {
    MATCH_INTRO@ + resume + "\n\nROLE:\n"@ + title + " — "@ + summary
}

/// The pairwise prompt for roles A and B.
pub open spec fn compare_prompt_text(
    resume: Seq<char>,
    a_title: Seq<char>,
    a_summary: Seq<char>,
    b_title: Seq<char>,
    b_summary: Seq<char>,
) -> Seq<char> {
    COMPARE_INTRO@ + resume + "\n\nROLE A:\n"@ + a_title + " — "@ + a_summary + "\n\nROLE B:\n"@
        + b_title + " — "@ + b_summary
}

/// Builds the prompt asking how well the resume fits `job` on a 0–100 scale.
pub fn match_prompt(resume: &str, job: &JobText) -> (p: String)
    ensures
        p@ == match_prompt_text(resume@, job.title@, job.summary@),
{
    let mut p = String::from_str(MATCH_INTRO);
    p.append(resume);
    p.append("\n\nROLE:\n");
    p.append(job.title.as_str());
    p.append(" — ");
    p.append(job.summary.as_str());
    p
}

/// Builds the prompt asking which of `a` and `b` fits the resume better.
pub fn compare_prompt(resume: &str, a: &JobText, b: &JobText) -> (p: String)
    ensures
        p@ == compare_prompt_text(resume@, a.title@, a.summary@, b.title@, b.summary@),
{
    let mut p = String::from_str(COMPARE_INTRO);
    p.append(resume);
    p.append("\n\nROLE A:\n");
    p.append(a.title.as_str());
    p.append(" — ");
    p.append(a.summary.as_str());
    p.append("\n\nROLE B:\n");
    p.append(b.title.as_str());
    p.append(" — ");
    p.append(b.summary.as_str());
    p
}

/// The verdict a trimmed `winner` field stands for: `A` (any ASCII case)
/// means the first role won, `B` the second, anything else a tie.
pub open spec fn verdict_of(winner: Seq<char>) -> Verdict {
    if ascii_upper(winner) == "A"@ {
        Verdict::Greater
    } else if ascii_upper(winner) == "B"@ {
        Verdict::Less
    } else {
        Verdict::Equal
    }
}

/// A winner field of `A` in either case means the first role won, `B` in
/// either case the second, and any other text is a tie.
pub proof fn lemma_verdict_letters(w: Seq<char>)
    ensures
        verdict_of(w) == Verdict::Greater <==> (w == "A"@ || w == "a"@),
        verdict_of(w) == Verdict::Less <==> (w == "B"@ || w == "b"@),
        verdict_of(w) == Verdict::Equal <==> !(w == "A"@ || w == "a"@ || w == "B"@ || w
            == "b"@),
{
    reveal_strlit("A");
    reveal_strlit("a");
    reveal_strlit("B");
    reveal_strlit("b");
    assert("A"@ != "B"@) by {
        assert("A"@[0] != "B"@[0]);
    }
    assert(w == "A"@ || w == "a"@ || w == "B"@ || w == "b"@ ==> w.len() == 1);
    if w.len() == 1 {
        let c = w[0];
        assert(ascii_upper(w) =~= seq![ascii_upper_char(c)]);
        if c == 'a' {
            assert(w =~= "a"@);
            assert(ascii_upper(w) =~= "A"@);
        } else if c == 'A' {
            assert(w =~= "A"@);
            assert(ascii_upper(w) =~= "A"@);
        } else if c == 'b' {
            assert(w =~= "b"@);
            assert(ascii_upper(w) =~= "B"@);
        } else if c == 'B' {
            assert(w =~= "B"@);
            assert(ascii_upper(w) =~= "B"@);
        } else {
            assert(ascii_upper_char(c) != 'A');
            assert(ascii_upper_char(c) != 'B');
            assert(ascii_upper(w)[0] != "A"@[0]);
            assert(ascii_upper(w)[0] != "B"@[0]);
            assert(w[0] != "A"@[0] && w[0] != "a"@[0] && w[0] != "B"@[0] && w[0] != "b"@[0]);
        }
    } else {
        assert(ascii_upper(w).len() != 1);
        assert(ascii_upper(w) != "A"@ && ascii_upper(w) != "B"@);
    }
}

/// The verdict for an already trimmed `winner` field.
pub fn verdict_of_trimmed(winner: &str) -> (v: Verdict)
    ensures
        v == verdict_of(winner@),
{
    proof {
        reveal_strlit("A");
        reveal_strlit("B");
    }
    let n = winner.unicode_len();
    if n != 1 {
        proof {
            assert(ascii_upper(winner@).len() != 1);
        }
        return Verdict::Equal;
    }
    let c = winner.get_char(0);
    proof {
        assert(ascii_upper(winner@) =~= seq![ascii_upper_char(c)]);
    }
    if c == 'A' || c == 'a' {
        proof {
            assert(ascii_upper(winner@) =~= "A"@);
        }
        Verdict::Greater
    } else if c == 'B' || c == 'b' {
        proof {
            assert(ascii_upper(winner@) =~= "B"@);
            assert("B"@[0] != "A"@[0]);
        }
        Verdict::Less
    } else {
        proof {
            assert(ascii_upper_char(c) != 'A');
            assert(ascii_upper_char(c) != 'B');
            assert(ascii_upper(winner@)[0] != "A"@[0]);
            assert(ascii_upper(winner@)[0] != "B"@[0]);
        }
        Verdict::Equal
    }
}

/// The verdict of a pairwise reply's `winner` field, after trimming it.
pub fn winner_verdict(winner: &str) -> (v: Verdict)
    ensures
        v == verdict_of(trim_of(winner@)),
{
    verdict_of_trimmed(trim(winner))
}

/// The endpoint base URL: the default when `base_url` is blank, otherwise
/// `base_url` without trailing slashes.
pub open spec fn base_url_text(base_url: Seq<char>, default: Seq<char>) -> Seq<char> {
    if trim_of(base_url).len() == 0 {
        default
    } else {
        strip_trailing(base_url, '/')
    }
}

/// A blank configured base URL gives the default; any other value is kept
/// with its trailing slashes removed and nothing else changed.
pub proof fn lemma_base_url_shape(configured: Seq<char>, default: Seq<char>)
    ensures
        trim_of(configured).len() == 0 ==> base_url_text(configured, default) == default,
        trim_of(configured).len() > 0 ==> {
            let r = base_url_text(configured, default);
            &&& r.len() == 0 || r.last() != '/'
            &&& r == configured.subrange(0, r.len() as int)
            &&& forall|i: int| r.len() <= i < configured.len() ==> #[trigger] configured[i] == '/'
        },
{
    lemma_strip_trailing_shape(configured, '/');
}

/// The base URL a client uses, given its configured value and a default.
pub fn configured_base_url(base_url: &str, default: &str) -> (r: String)
    ensures
        r@ == base_url_text(base_url@, default@),
{
    if is_blank(base_url) {
        String::from_str(default)
    } else {
        String::from_str(trim_end_char(base_url, '/'))
    }
}

/// The base URL of the Gemini client for a configured value.
pub fn base_url(configured: &str) -> (r: String)
    ensures
        r@ == base_url_text(configured@, DEFAULT_BASE_URL@),
{
    configured_base_url(configured, DEFAULT_BASE_URL)
}

} // verus!
