//! What a step sends: the payload for each type of step, the choice among
//! the windows of a time-conditional step, and the record for the outbound
//! queue.

use vstd::prelude::*;

use crate::clock::{mexico_city_minute_of_day, mexico_city_minutes};
use crate::models::conditionals::{
    ConditionalTimeMetadata, ConditionalTimeMetadataView, MediaPayload, MediaPayloadView,
    OutgoingMessage, OutgoingMessageView, OutgoingPayload, OutgoingPayloadView, TimeBranch,
    TimeBranchView,
};
use crate::models::db::{
    copy_optional_text, Execution, ExecutionView, Platform, Session, SessionView, Step, StepType,
    StepView,
};
use crate::text::{chars_of, same_text};

verus! {

/// The stream that records for the platform adapters go on.
pub const OUTGOING_STREAM: &'static str = "agentic:queue:outgoing";

/// About how many records the outbound stream is trimmed to.
pub const OUTGOING_MAX_LEN: u64 = 10000;

/// Whether `c` is one of the ten decimal digits.
pub open spec fn is_digit(c: char) -> bool {
    '0' <= c && c <= '9'
}

/// The number that the digit `c` stands for.
pub open spec fn digit_value(c: char) -> int {
    c as int - '0' as int
}

/// Whether `s` holds decimal digits only.
pub open spec fn all_digits(s: Seq<char>) -> bool {
    forall|i: int| 0 <= i < s.len() ==> is_digit(#[trigger] s[i])
}

/// The number that the decimal numeral `s` writes.
pub open spec fn digits_value(s: Seq<char>) -> int
    decreases s.len(),
{
    if s.len() == 0 {
        0
    } else {
        digits_value(s.drop_last()) * 10 + digit_value(s.last())
    }
}

/// The number that `s` writes as an unsigned 32-bit integer: an optional
/// plus sign, then one or more decimal digits, no more than fit.
pub open spec fn parsed_number(s: Seq<char>) -> Option<int> {
    let body = if s.len() > 0 && s[0] == '+' {
        s.drop_first()
    } else {
        s
    };
    if body.len() > 0 && all_digits(body) && digits_value(body) <= u32::MAX {
        Some(digits_value(body))
    } else {
        None
    }
}

/// The index of the first colon of `s` at or after `from`; the length of `s`
/// where there is none.
pub open spec fn first_colon(s: Seq<char>, from: int) -> int
    decreases s.len() - from,
{
    if from < 0 || from >= s.len() {
        s.len() as int
    } else if s[from] == ':' {
        from
    } else {
        first_colon(s, from + 1)
    }
}

/// The minute of the day that the clock text `time` names: hours before the
/// one colon, minutes after it, each an unsigned number, and sixty minutes to
/// the hour. Neither part is held to the range of a clock face.
pub open spec fn minutes_of(time: Seq<char>) -> Option<int> {
    let colon = first_colon(time, 0);
    if colon >= time.len() {
        None
    } else {
        match (
            parsed_number(time.subrange(0, colon)),
            parsed_number(time.subrange(colon + 1, time.len() as int)),
        ) {
            (Some(hours), Some(minutes)) => Some(hours * 60 + minutes),
            _ => None,
        }
    }
}

proof fn lemma_digits_value_bounds(s: Seq<char>)
    requires
        all_digits(s),
    ensures
        0 <= digits_value(s),
    decreases s.len(),
{
    if s.len() > 0 {
        assert(is_digit(s[s.len() - 1]));
        assert forall|i: int| 0 <= i < s.drop_last().len() implies is_digit(
            #[trigger] s.drop_last()[i],
        ) by {
            assert(s.drop_last()[i] == s[i]);
        }
        lemma_digits_value_bounds(s.drop_last());
    }
}

proof fn lemma_prefix_value(s: Seq<char>, k: int)
    requires
        all_digits(s),
        0 <= k <= s.len(),
    ensures
        0 <= digits_value(s.take(k)) <= digits_value(s),
    decreases s.len() - k,
{
    assert forall|i: int| 0 <= i < s.take(k).len() implies is_digit(#[trigger] s.take(k)[i]) by {
        assert(s.take(k)[i] == s[i]);
    }
    lemma_digits_value_bounds(s.take(k));
    if k == s.len() {
        assert(s.take(k) =~= s);
    } else {
        lemma_prefix_value(s, k + 1);
        assert(s.take(k + 1).drop_last() =~= s.take(k));
        assert(is_digit(s[k]));
        assert(s.take(k + 1).last() == s[k]);
    }
}

fn parse_number(chars: &Vec<char>, start: usize, end: usize) -> (number: Option<u32>)
    requires
        start <= end <= chars.len(),
    ensures
        match number {
            Some(n) => parsed_number(chars@.subrange(start as int, end as int)) == Some(n as int),
            None => parsed_number(chars@.subrange(start as int, end as int)) is None,
        },
{
    let ghost whole = chars@.subrange(start as int, end as int);
    let mut i: usize = start;
    if i < end && chars[i] == '+' {
        i += 1;
    }
    let first: usize = i;
    let ghost body = chars@.subrange(first as int, end as int);
    assert(body =~= if whole.len() > 0 && whole[0] == '+' {
        whole.drop_first()
    } else {
        whole
    });
    if i == end {
        return None;
    }
    let mut value: u64 = 0;
    while i < end
        invariant
            start <= first <= i <= end <= chars.len(),
            whole == chars@.subrange(start as int, end as int),
            body == chars@.subrange(first as int, end as int),
            body == if whole.len() > 0 && whole[0] == '+' {
                whole.drop_first()
            } else {
                whole
            },
            all_digits(body.take(i - first)),
            value == digits_value(body.take(i - first)),
            value <= u32::MAX,
        decreases end - i,
    {
        let c = chars[i];
        let ghost seen = body.take(i - first);
        let ghost next = body.take(i - first + 1);
        assert(body[i - first] == c);
        assert(next.drop_last() =~= seen);
        assert(next.last() == c);
        if !(c >= '0' && c <= '9') {
            return None;
        }
        let digit: u64 = (c as u64) - ('0' as u64);
        value = value * 10 + digit;
        assert forall|k: int| 0 <= k < next.len() implies is_digit(#[trigger] next[k]) by {
            if k < seen.len() {
                assert(next[k] == seen[k]);
            }
        }
        if value > u32::MAX as u64 {
            proof {
                if all_digits(body) {
                    lemma_prefix_value(body, i - first + 1);
                }
            }
            return None;
        }
        i += 1;
    }
    assert(body.take(i - first) =~= body);
    Some(value as u32)
}

fn find_colon(chars: &Vec<char>) -> (colon: usize)
    ensures
        colon == first_colon(chars@, 0),
        colon <= chars.len(),
{
    let mut i: usize = 0;
    while i < chars.len()
        invariant
            i <= chars.len(),
            first_colon(chars@, 0) == first_colon(chars@, i as int),
        decreases chars.len() - i,
    {
        if chars[i] == ':' {
            return i;
        }
        i += 1;
    }
    i
}

/// Reads a clock text `HH:MM` as minutes since midnight. Texts without a
/// colon, with more than one, or with a part that is no unsigned number give
/// nothing.
pub fn to_minutes(time: &str) -> (minutes: Option<u64>)
    ensures
        match minutes {
            Some(m) => minutes_of(time@) == Some(m as int),
            None => minutes_of(time@) is None,
        },
{
    let chars = chars_of(time);
    let colon = find_colon(&chars);
    if colon >= chars.len() {
        return None;
    }
    let hours = parse_number(&chars, 0, colon);
    let minutes = parse_number(&chars, colon + 1, chars.len());
    match (hours, minutes) {
        (Some(h), Some(m)) => Some(h as u64 * 60 + m as u64),
        _ => None,
    }
}

/// Whether the minute `now` of the day lies in the window from `start` to
/// `end`. A window whose start is not before its end runs over midnight.
pub open spec fn in_window(start: int, end: int, now: int) -> bool {
    if start < end {
        start <= now && now < end
    } else {
        now >= start || now < end
    }
}

/// Whether `branch` holds the minute `now`. A branch with an end that cannot
/// be read holds no minute.
pub open spec fn branch_matches(branch: TimeBranchView, now: int) -> bool {
    match (minutes_of(branch.start_time), minutes_of(branch.end_time)) {
        (Some(start), Some(end)) => in_window(start, end, now),
        _ => false,
    }
}

/// The first branch from index `from` on that holds the minute `now`.
pub open spec fn first_matching(branches: Seq<TimeBranchView>, now: int, from: int) -> Option<int>
    decreases branches.len() - from,
{
    if from < 0 || from >= branches.len() {
        None
    } else if branch_matches(branches[from], now) {
        Some(from)
    } else {
        first_matching(branches, now, from + 1)
    }
}

/// The payload of a text: the content as the text.
pub open spec fn text_payload(content: Option<Seq<char>>) -> OutgoingPayloadView {
    OutgoingPayloadView { text: content, ..OutgoingPayloadView::empty() }
}

/// The payload of an image: its address, with the content as caption; nothing
/// where the address is missing.
pub open spec fn image_payload(
    content: Option<Seq<char>>,
    media_url: Option<Seq<char>>,
) -> OutgoingPayloadView {
    match media_url {
        Some(url) => OutgoingPayloadView {
            image: Some(MediaPayloadView { url }),
            caption: content,
            ..OutgoingPayloadView::empty()
        },
        None => OutgoingPayloadView::empty(),
    }
}

/// The payload of a sound: its address, marked as a voice note or not; nothing
/// where the address is missing.
pub open spec fn audio_payload(media_url: Option<Seq<char>>, voice_note: bool) -> OutgoingPayloadView {
    match media_url {
        Some(url) => OutgoingPayloadView {
            audio: Some(MediaPayloadView { url }),
            ptt: Some(voice_note),
            ..OutgoingPayloadView::empty()
        },
        None => OutgoingPayloadView::empty(),
    }
}

/// What a branch or a fallback of type `kind` sends. Sound from a branch is
/// always a voice note. A type other than `TEXT`, `IMAGE` and `AUDIO` sends
/// nothing.
pub open spec fn branch_payload(
    kind: Seq<char>,
    content: Option<Seq<char>>,
    media_url: Option<Seq<char>>,
) -> OutgoingPayloadView {
    if kind == "TEXT"@ {
        text_payload(content)
    } else if kind == "IMAGE"@ {
        image_payload(content, media_url)
    } else if kind == "AUDIO"@ {
        audio_payload(media_url, true)
    } else {
        OutgoingPayloadView::empty()
    }
}

/// What a time-conditional step sends at the minute `now`: what the first
/// branch that holds `now` sends; where no branch does, what the fallback
/// sends; nothing where there is none.
pub open spec fn conditional_payload(
    metadata: ConditionalTimeMetadataView,
    now: int,
) -> OutgoingPayloadView {
    match first_matching(metadata.branches, now, 0) {
        Some(i) => branch_payload(
            metadata.branches[i].branch_type,
            metadata.branches[i].content,
            metadata.branches[i].media_url,
        ),
        None => match metadata.fallback {
            Some(fallback) => branch_payload(
                fallback.branch_type,
                fallback.content,
                fallback.media_url,
            ),
            None => OutgoingPayloadView::empty(),
        },
    }
}

/// What `step` sends at the minute `now` of the day.
pub open spec fn payload_of(step: StepView, now: int) -> OutgoingPayloadView {
    match step.step_type {
        StepType::TEXT => text_payload(step.content),
        StepType::IMAGE => image_payload(step.content, step.media_url),
        StepType::AUDIO => audio_payload(step.media_url, false),
        StepType::PTT => audio_payload(step.media_url, true),
        StepType::CONDITIONAL_TIME => match step.metadata {
            Some(metadata) => conditional_payload(metadata, now),
            None => OutgoingPayloadView::empty(),
        },
        StepType::VIDEO => OutgoingPayloadView::empty(),
        StepType::DOCUMENT => OutgoingPayloadView::empty(),
    }
}

/// Whether the minute `now` lies in the window from `start` to `end`.
pub fn window_holds(start: u64, end: u64, now: u64) -> (holds: bool)
    ensures
        holds == in_window(start as int, end as int, now as int),
{
    if start < end {
        start <= now && now < end
    } else {
        now >= start || now < end
    }
}

fn branch_holds(branch: &TimeBranch, now: u32) -> (holds: bool)
    ensures
        holds == branch_matches(branch@, now as int),
{
    match (to_minutes(branch.start_time.as_str()), to_minutes(branch.end_time.as_str())) {
        (Some(start), Some(end)) => window_holds(start, end, now as u64),
        _ => false,
    }
}

fn image_of(content: &Option<String>, media_url: &Option<String>) -> (payload: OutgoingPayload)
    ensures
        payload@ == image_payload(content.deep_view(), media_url.deep_view()),
{
    match media_url {
        Some(url) => OutgoingPayload {
            text: None,
            image: Some(MediaPayload { url: url.clone() }),
            audio: None,
            caption: copy_optional_text(content),
            ptt: None,
        },
        None => OutgoingPayload::empty(),
    }
}

fn audio_of(media_url: &Option<String>, voice_note: bool) -> (payload: OutgoingPayload)
    ensures
        payload@ == audio_payload(media_url.deep_view(), voice_note),
{
    match media_url {
        Some(url) => OutgoingPayload {
            text: None,
            image: None,
            audio: Some(MediaPayload { url: url.clone() }),
            caption: None,
            ptt: Some(voice_note),
        },
        None => OutgoingPayload::empty(),
    }
}

fn text_of(content: &Option<String>) -> (payload: OutgoingPayload)
    ensures
        payload@ == text_payload(content.deep_view()),
{
    OutgoingPayload {
        text: copy_optional_text(content),
        image: None,
        audio: None,
        caption: None,
        ptt: None,
    }
}

fn branch_content(kind: &str, content: &Option<String>, media_url: &Option<String>) -> (payload:
    OutgoingPayload)
    ensures
        payload@ == branch_payload(kind@, content.deep_view(), media_url.deep_view()),
{
    if same_text(kind, "TEXT") {
        text_of(content)
    } else if same_text(kind, "IMAGE") {
        image_of(content, media_url)
    } else if same_text(kind, "AUDIO") {
        audio_of(media_url, true)
    } else {
        OutgoingPayload::empty()
    }
}

/// What a time-conditional step with this metadata sends at the minute `now`
/// of the day.
pub fn select_branch(metadata: &ConditionalTimeMetadata, now: u32) -> (payload: OutgoingPayload)
    ensures
        payload@ == conditional_payload(metadata@, now as int),
{
    let ghost branches = metadata@.branches;
    let mut i: usize = 0;
    while i < metadata.branches.len()
        invariant
            i <= metadata.branches.len(),
            branches == metadata@.branches,
            first_matching(branches, now as int, 0) == first_matching(branches, now as int, i as int),
        decreases metadata.branches.len() - i,
    {
        let branch = &metadata.branches[i];
        assert(branches[i as int] == branch@);
        if branch_holds(branch, now) {
            return branch_content(branch.branch_type.as_str(), &branch.content, &branch.media_url);
        }
        i += 1;
    }
    match &metadata.fallback {
        Some(fallback) => branch_content(
            fallback.branch_type.as_str(),
            &fallback.content,
            &fallback.media_url,
        ),
        None => OutgoingPayload::empty(),
    }
}

/// What `step` sends at the minute `now` of the day. Only a time-conditional
/// step looks at `now`.
pub fn step_payload(step: &Step, now: u32) -> (payload: OutgoingPayload)
    ensures
        payload@ == payload_of(step@, now as int),
{
    match step.step_type {
        StepType::TEXT => text_of(&step.content),
        StepType::IMAGE => image_of(&step.content, &step.media_url),
        StepType::AUDIO => audio_of(&step.media_url, false),
        StepType::PTT => audio_of(&step.media_url, true),
        StepType::CONDITIONAL_TIME => match &step.metadata {
            Some(metadata) => select_branch(metadata, now),
            None => OutgoingPayload::empty(),
        },
        StepType::VIDEO => OutgoingPayload::empty(),
        StepType::DOCUMENT => OutgoingPayload::empty(),
    }
}

/// How the processing of one step ended.
#[derive(Debug, PartialEq, Eq)]
pub enum StepOutcome {
    /// The step is not in the store.
    StepNotFound,
    /// The execution is not in the store.
    ExecutionNotFound,
    /// The execution's session is not in the store.
    SessionNotFound,
    /// The session's platform takes no commands yet.
    PlatformNotSupported,
    /// The step has nothing to send: its media is missing, its type is not
    /// sent on this platform, or no branch applies.
    NothingToSend,
    /// This record goes on the outbound queue.
    Send(OutgoingMessage),
}

/// The mathematical value of a `StepOutcome`.
pub enum StepOutcomeView {
    StepNotFound,
    ExecutionNotFound,
    SessionNotFound,
    PlatformNotSupported,
    NothingToSend,
    Send(OutgoingMessageView),
}

impl View for StepOutcome {
    type V = StepOutcomeView;

    open spec fn view(&self) -> StepOutcomeView {
        match self {
            StepOutcome::StepNotFound => StepOutcomeView::StepNotFound,
            StepOutcome::ExecutionNotFound => StepOutcomeView::ExecutionNotFound,
            StepOutcome::SessionNotFound => StepOutcomeView::SessionNotFound,
            StepOutcome::PlatformNotSupported => StepOutcomeView::PlatformNotSupported,
            StepOutcome::NothingToSend => StepOutcomeView::NothingToSend,
            StepOutcome::Send(message) => StepOutcomeView::Send(message@),
        }
    }
}

/// Why a step could not be processed.
#[derive(Debug, Clone, Copy, PartialEq, Eq, Structural)]
pub enum StepError {
    /// The current instant is outside the calendar, so the time of day that a
    /// time-conditional step asks for cannot be told.
    ClockOutOfRange,
}

impl StepError {
    /// The error in words.
    pub open spec fn text(self) -> Seq<char> {
        "current time is out of range"@
    }

    /// The error in words, as it is recorded on the execution.
    pub fn message(&self) -> (words: String)
        ensures
            words@ == self.text(),
    {
        "current time is out of range".to_owned()
    }
}

/// Whether processing `step` has to know the time of day.
pub open spec fn reads_clock(step: StepView) -> bool {
    step.step_type == StepType::CONDITIONAL_TIME && step.metadata is Some
}

/// The minute of the day that `step` is processed with at the instant
/// `now_ms`: the one in the zone `America/Mexico_City` for a step that reads
/// the clock, zero for any other.
pub open spec fn minute_for(step: StepView, now_ms: i64) -> Option<int> {
    if reads_clock(step) {
        match mexico_city_minute_of_day(now_ms) {
            Some(minute) => Some(minute as int),
            None => None,
        }
    } else {
        Some(0)
    }
}

/// How the processing of a step ends, given what the store holds of the step,
/// of the execution and of its session. The first of the three that is
/// missing ends it. Only a session on WhatsApp is sent to. A record goes out
/// where the step's payload has a text, an image or a sound.
pub open spec fn step_outcome(
    execution_id: Seq<char>,
    step_order: int,
    step: Option<StepView>,
    execution: Option<ExecutionView>,
    session: Option<SessionView>,
    now_ms: i64,
) -> Result<StepOutcomeView, StepError> {
    if step is None {
        Ok(StepOutcomeView::StepNotFound)
    } else if execution is None {
        Ok(StepOutcomeView::ExecutionNotFound)
    } else if session is None {
        Ok(StepOutcomeView::SessionNotFound)
    } else if session->0.platform != Platform::WHATSAPP {
        Ok(StepOutcomeView::PlatformNotSupported)
    } else {
        match minute_for(step->0, now_ms) {
            None => Err(StepError::ClockOutOfRange),
            Some(minute) => {
                let payload = payload_of(step->0, minute);
                if payload.has_content() {
                    Ok(
                        StepOutcomeView::Send(
                            OutgoingMessageView {
                                bot_id: session->0.bot_id,
                                target: session->0.identifier,
                                execution_id,
                                step_order,
                                payload,
                            },
                        ),
                    )
                } else {
                    Ok(StepOutcomeView::NothingToSend)
                }
            },
        }
    }
}

/// Processes one step of an execution at the instant `now_ms`, in
/// milliseconds since the Unix epoch. `step`, `execution` and `session` are
/// what the store holds under the step's id, the execution's id and the
/// execution's session id. `step_order` goes into the record as it is given.
pub fn execute_step(
    execution_id: &str,
    step_order: i32,
    step: Option<&Step>,
    execution: Option<&Execution>,
    session: Option<&Session>,
    now_ms: i64,
) -> (outcome: Result<StepOutcome, StepError>)
    ensures
        match outcome {
            Ok(done) => Ok::<StepOutcomeView, StepError>(done@),
            Err(e) => Err(e),
        } == step_outcome(
            execution_id@,
            step_order as int,
            step.deep_view(),
            execution.deep_view(),
            session.deep_view(),
            now_ms,
        ),
{
    let step = match step {
        Some(step) => step,
        None => {
            return Ok(StepOutcome::StepNotFound);
        },
    };
    if execution.is_none() {
        return Ok(StepOutcome::ExecutionNotFound);
    }
    let session = match session {
        Some(session) => session,
        None => {
            return Ok(StepOutcome::SessionNotFound);
        },
    };
    if session.platform != Platform::WHATSAPP {
        return Ok(StepOutcome::PlatformNotSupported);
    }
    let reads_clock = step.step_type == StepType::CONDITIONAL_TIME && step.metadata.is_some();
    let minute: u32 = if reads_clock {
        match mexico_city_minutes(now_ms) {
            Some(minute) => minute,
            None => {
                return Err(StepError::ClockOutOfRange);
            },
        }
    } else {
        0
    };
    let payload = step_payload(step, minute);
    if payload.has_content() {
        Ok(
            StepOutcome::Send(
                OutgoingMessage {
                    bot_id: session.bot_id.clone(),
                    target: session.identifier.clone(),
                    execution_id: execution_id.to_owned(),
                    step_order,
                    payload,
                },
            ),
        )
    } else {
        Ok(StepOutcome::NothingToSend)
    }
}

} // verus!
