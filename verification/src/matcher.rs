//! Which trigger an event's text fires: an exact hit before a containing one,
//! and within each kind the first in the order given.

use vstd::prelude::*;

use crate::models::db::{MatchType, Trigger, TriggerView};
use crate::text::{
    lowercase_of, lowercase_text, occurs_in, same_text, text_contains, trim_text, trimmed,
};

verus! {

/// The trigger that an event's text fired.
#[derive(Debug, PartialEq, Eq)]
pub struct MatchResult {
    pub trigger: Trigger,
}

/// The mathematical value of a `MatchResult`.
pub struct MatchResultView {
    pub trigger: TriggerView,
}

impl View for MatchResult {
    type V = MatchResultView;

    open spec fn view(&self) -> MatchResultView {
        MatchResultView { trigger: self.trigger@ }
    }
}

impl DeepView for MatchResult {
    type V = MatchResultView;

    open spec fn deep_view(&self) -> MatchResultView {
        self@
    }
}

/// A trigger as the selection sees it: its match rule and its keyword in
/// lower case.
#[derive(Debug, PartialEq, Eq)]
pub struct Candidate {
    pub match_type: MatchType,
    pub keyword: String,
}

/// The mathematical value of a `Candidate`.
pub struct CandidateView {
    pub match_type: MatchType,
    pub keyword: Seq<char>,
}

impl View for Candidate {
    type V = CandidateView;

    open spec fn view(&self) -> CandidateView {
        CandidateView { match_type: self.match_type, keyword: self.keyword@ }
    }
}

impl DeepView for Candidate {
    type V = CandidateView;

    open spec fn deep_view(&self) -> CandidateView {
        self@
    }
}

/// The text of an event as it is held against keywords: trimmed, then in
/// lower case.
pub open spec fn normalized(content: Seq<char>) -> Seq<char> {
    lowercase_of(trimmed(content))
}

/// Whether `candidate` is an exact rule whose keyword is all of `text`.
pub open spec fn exact_hit(text: Seq<char>, candidate: CandidateView) -> bool {
    candidate.match_type == MatchType::EXACT && candidate.keyword == text
}

/// Whether `candidate` is a containing rule whose keyword occurs in `text`.
pub open spec fn contains_hit(text: Seq<char>, candidate: CandidateView) -> bool {
    candidate.match_type == MatchType::CONTAINS && occurs_in(candidate.keyword, text)
}

/// The first exact hit among the candidates from index `from` on.
pub open spec fn first_exact(text: Seq<char>, candidates: Seq<CandidateView>, from: int) -> Option<
    int,
>
    decreases candidates.len() - from,
{
    if from < 0 || from >= candidates.len() {
        None
    } else if exact_hit(text, candidates[from]) {
        Some(from)
    } else {
        first_exact(text, candidates, from + 1)
    }
}

/// The first containing hit among the candidates from index `from` on.
pub open spec fn first_contains(
    text: Seq<char>,
    candidates: Seq<CandidateView>,
    from: int,
) -> Option<int>
    decreases candidates.len() - from,
{
    if from < 0 || from >= candidates.len() {
        None
    } else if contains_hit(text, candidates[from]) {
        Some(from)
    } else {
        first_contains(text, candidates, from + 1)
    }
}

/// The candidate that `text` selects: the first exact hit; where there is
/// none, the first containing hit. A rule of any other kind never hits.
pub open spec fn selected(text: Seq<char>, candidates: Seq<CandidateView>) -> Option<int> {
    match first_exact(text, candidates, 0) {
        Some(i) => Some(i),
        None => first_contains(text, candidates, 0),
    }
}

/// The candidate that stands for a trigger.
pub open spec fn candidate_of(trigger: TriggerView) -> CandidateView {
    CandidateView { match_type: trigger.match_type, keyword: lowercase_of(trigger.keyword) }
}

/// The candidates that stand for a list of triggers, in the same order.
pub open spec fn candidates_of(triggers: Seq<TriggerView>) -> Seq<CandidateView> {
    Seq::new(triggers.len(), |i: int| candidate_of(triggers[i]))
}

/// The trigger that an event with text `content` fires among `triggers`:
/// none where the text is empty once trimmed, else the one selected by the
/// normalized text.
pub open spec fn matched(content: Seq<char>, triggers: Seq<TriggerView>) -> Option<
    MatchResultView,
> {
    if trimmed(content).len() == 0 || normalized(content).len() == 0 {
        None
    } else {
        match selected(normalized(content), candidates_of(triggers)) {
            Some(i) => Some(MatchResultView { trigger: triggers[i] }),
            None => None,
        }
    }
}

/// What `first_exact` finds is within bounds, is a hit, and has no exact hit
/// before it back to `from`; where it finds nothing, nothing from `from` on is
/// an exact hit.
pub proof fn lemma_first_exact(text: Seq<char>, candidates: Seq<CandidateView>, from: int)
    requires
        0 <= from,
    ensures
        match first_exact(text, candidates, from) {
            Some(i) => from <= i < candidates.len() && exact_hit(text, candidates[i]) && forall|
                j: int,
            |
                from <= j < i ==> !exact_hit(text, #[trigger] candidates[j]),
            None => forall|j: int|
                from <= j < candidates.len() ==> !exact_hit(text, #[trigger] candidates[j]),
        },
    decreases candidates.len() - from,
{
    if from < candidates.len() && !exact_hit(text, candidates[from]) {
        lemma_first_exact(text, candidates, from + 1);
    }
}

/// The same for `first_contains`.
pub proof fn lemma_first_contains(text: Seq<char>, candidates: Seq<CandidateView>, from: int)
    requires
        0 <= from,
    ensures
        match first_contains(text, candidates, from) {
            Some(i) => from <= i < candidates.len() && contains_hit(text, candidates[i])
                && forall|j: int|
                from <= j < i ==> !contains_hit(text, #[trigger] candidates[j]),
            None => forall|j: int|
                from <= j < candidates.len() ==> !contains_hit(text, #[trigger] candidates[j]),
        },
    decreases candidates.len() - from,
{
    if from < candidates.len() && !contains_hit(text, candidates[from]) {
        lemma_first_contains(text, candidates, from + 1);
    }
}

/// An exact hit anywhere in the list wins over every containing hit: the
/// selected candidate is then the first exact hit, wherever the containing
/// rules stand.
pub proof fn lemma_exact_beats_contains(text: Seq<char>, candidates: Seq<CandidateView>, at: int)
    requires
        0 <= at < candidates.len(),
        exact_hit(text, candidates[at]),
    ensures
        selected(text, candidates) matches Some(i) && 0 <= i <= at && exact_hit(
            text,
            candidates[i],
        ),
{
    lemma_first_exact(text, candidates, 0);
}

/// An event whose text matches an exact trigger fires an exact trigger whose
/// keyword, in lower case, is the whole normalized text, however many
/// containing triggers match as well.
pub proof fn lemma_exact_trigger_is_chosen(
    content: Seq<char>,
    triggers: Seq<TriggerView>,
    at: int,
)
    requires
        trimmed(content).len() > 0,
        normalized(content).len() > 0,
        0 <= at < triggers.len(),
        triggers[at].match_type == MatchType::EXACT,
        lowercase_of(triggers[at].keyword) == normalized(content),
    ensures
        matched(content, triggers) matches Some(found) && found.trigger.match_type
            == MatchType::EXACT && lowercase_of(found.trigger.keyword) == normalized(content),
{
    lemma_exact_beats_contains(normalized(content), candidates_of(triggers), at);
}

/// An event whose text is empty once trimmed fires nothing.
pub proof fn lemma_blank_matches_nothing(content: Seq<char>, triggers: Seq<TriggerView>)
    requires
        trimmed(content).len() == 0,
    ensures
        matched(content, triggers) is None,
{
}

/// Selects among candidates by a text that is already normalized.
pub fn select_candidate(text: &str, candidates: &Vec<Candidate>) -> (choice: Option<usize>)
    ensures
        match choice {
            Some(i) => selected(text@, candidates.deep_view()) == Some(i as int),
            None => selected(text@, candidates.deep_view()) is None,
        },
{
    let ghost views = candidates.deep_view();
    let mut i: usize = 0;
    while i < candidates.len()
        invariant
            i <= candidates.len(),
            views == candidates.deep_view(),
            first_exact(text@, views, 0) == first_exact(text@, views, i as int),
        decreases candidates.len() - i,
    {
        let candidate = &candidates[i];
        assert(views[i as int] == candidate@);
        if candidate.match_type == MatchType::EXACT && same_text(
            candidate.keyword.as_str(),
            text,
        ) {
            return Some(i);
        }
        i += 1;
    }
    let mut k: usize = 0;
    while k < candidates.len()
        invariant
            k <= candidates.len(),
            views == candidates.deep_view(),
            first_exact(text@, views, 0) is None,
            first_contains(text@, views, 0) == first_contains(text@, views, k as int),
        decreases candidates.len() - k,
    {
        let candidate = &candidates[k];
        assert(views[k as int] == candidate@);
        if candidate.match_type == MatchType::CONTAINS && text_contains(
            text,
            candidate.keyword.as_str(),
        ) {
            return Some(k);
        }
        k += 1;
    }
    None
}

/// The candidates that stand for `triggers`.
fn lower_keywords(triggers: &[Trigger]) -> (candidates: Vec<Candidate>)
    ensures
        candidates.deep_view() == candidates_of(triggers.deep_view()),
{
    let mut candidates: Vec<Candidate> = Vec::new();
    let mut i: usize = 0;
    while i < triggers.len()
        invariant
            i <= triggers.len(),
            candidates.len() == i,
            forall|k: int| 0 <= k < i ==> candidates[k]@ == candidate_of(triggers[k]@),
        decreases triggers.len() - i,
    {
        let trigger = &triggers[i];
        candidates.push(
            Candidate {
                match_type: trigger.match_type,
                keyword: lowercase_text(trigger.keyword.as_str()),
            },
        );
        i += 1;
    }
    assert(candidates.deep_view() =~= candidates_of(triggers.deep_view()));
    candidates
}

/// The trigger that an event with text `content` fires among `triggers`,
/// which are the active ones of the right scope in the order the store gave
/// them. Letter case and white space round the text do not count. An exact
/// rule wins over a containing one; a `REGEX` rule never fires.
pub fn find_match(content: &str, triggers: &[Trigger]) -> (found: Option<MatchResult>)
    ensures
        found.deep_view() == matched(content@, triggers.deep_view()),
{
    let stripped = trim_text(content);
    if stripped.is_empty() {
        return None;
    }
    let text = lowercase_text(stripped);
    if text.as_str().is_empty() {
        return None;
    }
    let candidates = lower_keywords(triggers);
    match select_candidate(text.as_str(), &candidates) {
        Some(i) => {
            proof {
                lemma_first_exact(text@, candidates.deep_view(), 0);
                lemma_first_contains(text@, candidates.deep_view(), 0);
            }
            Some(MatchResult { trigger: triggers[i].clone() })
        },
        None => None,
    }
}

} // verus!
