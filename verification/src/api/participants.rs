//! Listing events and enrolling participants.

use chrono::{DateTime, Utc};
use vstd::prelude::*;
use vstd::std_specs::convert::FromSpec;

use crate::api::error::ApiError;
use crate::models::event::Event;
use crate::models::participant::{CreateParticipant, Participant};
use crate::text::{opt_text, str_eq};

verus! {

/// The RFC 3339 text of the instant `micros` microseconds after the Unix
/// epoch, in UTC, as `chrono` writes it; `None` where `chrono`'s calendar
/// cannot hold the instant.
pub uninterp spec fn rfc3339_text(micros: i64) -> Option<Seq<char>>;

/// The first microsecond of the year 0000, counted from the Unix epoch.
pub const FIRST_FOUR_DIGIT_YEAR_MICROS: i64 = -62_167_219_200_000_000;

/// The last microsecond of the year 9999, counted from the Unix epoch.
pub const LAST_FOUR_DIGIT_YEAR_MICROS: i64 = 253_402_300_799_999_999;

/// Whether an instant lies in the years 0000 to 9999, the years that RFC 3339
/// can write.
pub open spec fn in_four_digit_years(micros: i64) -> bool {
    FIRST_FOUR_DIGIT_YEAR_MICROS <= micros <= LAST_FOUR_DIGIT_YEAR_MICROS
}

/// Builds the UTC instant with `DateTime::from_timestamp_micros` and writes
/// it with `DateTime::to_rfc3339`.
///
/// Trusted: the result is a function of `micros` alone, and every instant in
/// the years 0000 to 9999 has a text, since `chrono`'s calendar reaches some
/// 262,000 years either way. Nothing is claimed about the text itself.
#[verifier::external_body]
fn to_rfc3339(micros: i64) -> (text: Option<String>)
    ensures
        opt_text(text) == rfc3339_text(micros),
        in_four_digit_years(micros) ==> text is Some,
{
    match DateTime::<Utc>::from_timestamp_micros(micros) {
        Some(at) => Some(at.to_rfc3339()),
        None => None,
    }
}

/// Body of an enrolment request.
#[derive(Debug, Clone)]
pub struct RegisterParticipantRequest {
    pub first_name: String,
    pub last_name: String,
    pub email: String,
    pub tshirt_size: String,
    pub division: String,
    pub expected_graduation_year: i32,
    pub university: String,
    pub resume_url: Option<String>,
    pub acknowledged_id_requirement: bool,
    pub acknowledged_filming: bool,
    pub acknowledged_team_merge: bool,
    pub interested_in_financial_aid: bool,
}

/// What a client may see of a participant.
#[derive(Debug, Clone, PartialEq, Eq)]
pub struct ParticipantResponse {
    pub id: String,
    pub event_id: String,
    pub first_name: String,
    pub last_name: String,
    pub email: String,
    pub tshirt_size: String,
    pub division: String,
    pub expected_graduation_year: i32,
    pub university: String,
    pub resume_url: Option<String>,
    pub acknowledged_id_requirement: bool,
    pub acknowledged_filming: bool,
    pub acknowledged_team_merge: bool,
    pub interested_in_financial_aid: bool,
}

impl From<Participant> for ParticipantResponse {
    fn from(participant: Participant) -> (response: ParticipantResponse) {
        ParticipantResponse {
            id: participant.id,
            event_id: participant.event_id,
            first_name: participant.first_name,
            last_name: participant.last_name,
            email: participant.email,
            tshirt_size: participant.tshirt_size,
            division: participant.division,
            expected_graduation_year: participant.expected_graduation_year,
            university: participant.university,
            resume_url: participant.resume_url,
            acknowledged_id_requirement: participant.acknowledged_id_requirement,
            acknowledged_filming: participant.acknowledged_filming,
            acknowledged_team_merge: participant.acknowledged_team_merge,
            interested_in_financial_aid: participant.interested_in_financial_aid,
        }
    }
}

impl vstd::std_specs::convert::FromSpecImpl<Participant> for ParticipantResponse {
    open spec fn obeys_from_spec() -> bool {
        true
    }

    open spec fn from_spec(participant: Participant) -> ParticipantResponse {
        ParticipantResponse {
            id: participant.id,
            event_id: participant.event_id,
            first_name: participant.first_name,
            last_name: participant.last_name,
            email: participant.email,
            tshirt_size: participant.tshirt_size,
            division: participant.division,
            expected_graduation_year: participant.expected_graduation_year,
            university: participant.university,
            resume_url: participant.resume_url,
            acknowledged_id_requirement: participant.acknowledged_id_requirement,
            acknowledged_filming: participant.acknowledged_filming,
            acknowledged_team_merge: participant.acknowledged_team_merge,
            interested_in_financial_aid: participant.interested_in_financial_aid,
        }
    }
}

/// What a client may see of an event. Dates are RFC 3339 text.
#[derive(Debug, Clone, PartialEq, Eq)]
pub struct EventResponse {
    pub id: String,
    pub name: String,
    pub description: Option<String>,
    pub location: Option<String>,
    pub start_date: Option<String>,
    pub end_date: Option<String>,
    pub registration_open: bool,
}

/// The text a response shows for an optional date.
pub open spec fn date_text(date: Option<i64>) -> Option<Seq<char>> {
    match date {
        Some(micros) => rfc3339_text(micros),
        None => None,
    }
}

/// Whether a date that RFC 3339 can write has its text in the response.
pub open spec fn shown(date: Option<i64>, text: Option<String>) -> bool {
    date matches Some(micros) ==> (in_four_digit_years(micros) ==> text is Some)
}

fn format_date(date: Option<i64>) -> (text: Option<String>)
    ensures
        opt_text(text) == date_text(date),
        date matches Some(micros) ==> (in_four_digit_years(micros) ==> text is Some),
{
    match date {
        Some(micros) => to_rfc3339(micros),
        None => None,
    }
}

impl EventResponse {
    /// Whether `self` is the public face of `event`: the same id, name,
    /// description, location and flag, and each date as its RFC 3339 text. A
    /// date in the years 0000 to 9999 is always shown; one that the calendar
    /// cannot hold is left out.
    pub open spec fn shows(self, event: Event) -> bool {
        &&& self.id == event.id
        &&& self.name == event.name
        &&& self.description == event.description
        &&& self.location == event.location
        &&& opt_text(self.start_date) == date_text(event.start_date)
        &&& opt_text(self.end_date) == date_text(event.end_date)
        &&& shown(event.start_date, self.start_date)
        &&& shown(event.end_date, self.end_date)
        &&& self.registration_open == event.registration_open
    }

    /// The public face of an event.
    pub fn from(event: Event) -> (response: EventResponse)
        ensures
            response.shows(event),
    {
        let start_date = format_date(event.start_date);
        let end_date = format_date(event.end_date);
        EventResponse {
            id: event.id,
            name: event.name,
            description: event.description,
            location: event.location,
            start_date,
            end_date,
            registration_open: event.registration_open,
        }
    }
}

/// The listing of the events the store returned, one response per event, in
/// the store's order.
pub fn list_events(events: Vec<Event>) -> (responses: Vec<EventResponse>)
    ensures
        responses@.len() == events@.len(),
        forall|i: int| 0 <= i < events@.len() ==> (#[trigger] responses@[i]).shows(events@[i]),
{
    let mut responses: Vec<EventResponse> = Vec::new();
    for event in it: events
        invariant
            responses@.len() == it.index(),
            forall|i: int| 0 <= i < it.index() ==> (#[trigger] responses@[i]).shows(it.seq()[i]),
    {
        responses.push(EventResponse::from(event));
    }
    responses
}

/// The listing of the participants the store returned, one response per
/// participant, in the store's order.
pub fn list_participants(participants: Vec<Participant>) -> (responses: Vec<ParticipantResponse>)
    ensures
        responses@.len() == participants@.len(),
        forall|i: int|
            0 <= i < participants@.len() ==> #[trigger] responses@[i]
                == ParticipantResponse::from_spec(participants@[i]),
{
    let mut responses: Vec<ParticipantResponse> = Vec::new();
    for participant in it: participants
        invariant
            responses@.len() == it.index(),
            forall|i: int|
                0 <= i < it.index() ==> #[trigger] responses@[i] == ParticipantResponse::from_spec(
                    it.seq()[i],
                ),
    {
        responses.push(ParticipantResponse::from(participant));
    }
    responses
}

/// The divisions a participant can enter.
pub open spec fn valid_division(division: Seq<char>) -> bool {
    division == "A"@ || division == "B"@
}

/// The t-shirt sizes on offer.
pub open spec fn valid_tshirt_size(size: Seq<char>) -> bool {
    ||| size == "XS"@
    ||| size == "S"@
    ||| size == "M"@
    ||| size == "L"@
    ||| size == "XL"@
    ||| size == "XXL"@
}

/// Checks a division against [`valid_division`].
pub fn is_valid_division(division: &str) -> (valid: bool)
    ensures
        valid == valid_division(division@),
{
    str_eq(division, "A") || str_eq(division, "B")
}

/// Checks a t-shirt size against [`valid_tshirt_size`].
pub fn is_valid_tshirt_size(size: &str) -> (valid: bool)
    ensures
        valid == valid_tshirt_size(size@),
{
    str_eq(size, "XS") || str_eq(size, "S") || str_eq(size, "M") || str_eq(size, "L") || str_eq(
        size,
        "XL",
    ) || str_eq(size, "XXL")
}

/// Where an enrolment stands.
#[derive(Debug, Clone)]
pub enum ParticipantState {
    /// The lookup of the event is under way.
    EventLookup { event_id: String, payload: RegisterParticipantRequest },
    /// The insertion of the participant is under way.
    Insert,
    /// The response has been given.
    Done,
}

/// What the store answered to an enrolment's action.
#[derive(Debug, Clone, PartialEq, Eq)]
pub enum ParticipantReply {
    /// The lookup by id finished, with the event it found.
    Found(Option<Event>),
    /// The insertion succeeded; this is the stored record.
    Inserted(Participant),
    /// The store failed.
    Failed,
}

/// What an enrolment wants done next.
#[derive(Debug, PartialEq, Eq)]
pub enum ParticipantAction {
    /// Look up the event with this id.
    FindEvent(String),
    /// Insert this participant.
    Insert(CreateParticipant),
    /// Answer the request.
    Respond(Result<ParticipantResponse, ApiError>),
}

/// One step of an enrolment: its new state and what it wants done.
#[derive(Debug)]
pub struct ParticipantStep {
    pub state: ParticipantState,
    pub action: ParticipantAction,
}

/// The last step of an enrolment.
pub open spec fn responded(response: Result<ParticipantResponse, ApiError>) -> ParticipantStep {
    ParticipantStep { state: ParticipantState::Done, action: ParticipantAction::Respond(response) }
}

/// The first step of an enrolment in the event `event_id`.
pub open spec fn enrolment_begun(
    event_id: String,
    payload: RegisterParticipantRequest,
) -> ParticipantStep {
    ParticipantStep {
        state: ParticipantState::EventLookup { event_id, payload },
        action: ParticipantAction::FindEvent(event_id),
    }
}

/// The participant that a request enrols in the event `event_id`: the
/// request's fields, no user and no additional data.
pub open spec fn enrolled(event_id: String, payload: RegisterParticipantRequest) -> CreateParticipant {
    CreateParticipant {
        event_id,
        user_id: None,
        first_name: payload.first_name,
        last_name: payload.last_name,
        email: payload.email,
        tshirt_size: payload.tshirt_size,
        division: payload.division,
        expected_graduation_year: payload.expected_graduation_year,
        university: payload.university,
        resume_url: payload.resume_url,
        acknowledged_id_requirement: payload.acknowledged_id_requirement,
        acknowledged_filming: payload.acknowledged_filming,
        acknowledged_team_merge: payload.acknowledged_team_merge,
        interested_in_financial_aid: payload.interested_in_financial_aid,
        additional_data: None,
    }
}

/// Why a request may not enrol in the event that was found, if it may not;
/// the first rule broken counts.
///
/// The event must exist (`NotFound`) and be open for registration, the
/// division must be one of [`valid_division`] and the t-shirt size one of
/// [`valid_tshirt_size`] (`BadRequest`, each with its own message).
pub open spec fn refusal(found: Option<Event>, payload: RegisterParticipantRequest) -> Option<
    ApiError,
> {
    match found {
        None => Some(ApiError::NotFound),
        Some(event) => if !event.registration_open {
            Some(ApiError::BadRequest("Registration is not open for this event"))
        } else if !valid_division(payload.division@) {
            Some(ApiError::BadRequest("Division must be either 'A' or 'B'"))
        } else if !valid_tshirt_size(payload.tshirt_size@) {
            Some(ApiError::BadRequest("Invalid t-shirt size"))
        } else {
            None
        },
    }
}

/// The step an enrolment in `state` takes on `reply`.
///
/// Once the event is found, the request is refused by [`refusal`] or its
/// participant goes to the store; once that is stored, the response shows it.
/// A store failure is `Database`; a reply that does not fit the state is
/// `Internal`.
pub open spec fn stepped(state: ParticipantState, reply: ParticipantReply) -> ParticipantStep {
    match state {
        ParticipantState::EventLookup { event_id, payload } => match reply {
            ParticipantReply::Found(found) => match refusal(found, payload) {
                Some(error) => responded(Err(error)),
                None => ParticipantStep {
                    state: ParticipantState::Insert,
                    action: ParticipantAction::Insert(enrolled(event_id, payload)),
                },
            },
            ParticipantReply::Failed => responded(Err(ApiError::Database)),
            ParticipantReply::Inserted(_) => responded(Err(ApiError::Internal)),
        },
        ParticipantState::Insert => match reply {
            ParticipantReply::Inserted(participant) => responded(
                Ok(ParticipantResponse::from_spec(participant)),
            ),
            ParticipantReply::Failed => responded(Err(ApiError::Database)),
            ParticipantReply::Found(_) => responded(Err(ApiError::Internal)),
        },
        ParticipantState::Done => responded(Err(ApiError::Internal)),
    }
}

/// Begins an enrolment: asks for the event with the given id.
pub fn register_participant(event_id: String, payload: RegisterParticipantRequest) -> (step:
    ParticipantStep)
    ensures
        step == enrolment_begun(event_id, payload),
{
    let wanted = event_id.clone();
    ParticipantStep {
        state: ParticipantState::EventLookup { event_id, payload },
        action: ParticipantAction::FindEvent(wanted),
    }
}

fn respond(response: Result<ParticipantResponse, ApiError>) -> (step: ParticipantStep)
    ensures
        step == responded(response),
{
    ParticipantStep { state: ParticipantState::Done, action: ParticipantAction::Respond(response) }
}

/// Checks a request against the event that was found: see [`refusal`].
pub fn check_enrolment(found: &Option<Event>, payload: &RegisterParticipantRequest) -> (r: Option<
    ApiError,
>)
    ensures
        r == refusal(*found, *payload),
{
    match found {
        None => Some(ApiError::NotFound),
        Some(event) => {
            if !event.registration_open {
                Some(ApiError::BadRequest("Registration is not open for this event"))
            } else if !is_valid_division(payload.division.as_str()) {
                Some(ApiError::BadRequest("Division must be either 'A' or 'B'"))
            } else if !is_valid_tshirt_size(payload.tshirt_size.as_str()) {
                Some(ApiError::BadRequest("Invalid t-shirt size"))
            } else {
                None
            }
        },
    }
}

/// Takes an enrolment's next step on the store's reply: see [`stepped`].
pub fn advance(state: ParticipantState, reply: ParticipantReply) -> (step: ParticipantStep)
    ensures
        step == stepped(state, reply),
{
    match state {
        ParticipantState::EventLookup { event_id, payload } => match reply {
            ParticipantReply::Found(found) => match check_enrolment(&found, &payload) {
                Some(error) => respond(Err(error)),
                None => ParticipantStep {
                    state: ParticipantState::Insert,
                    action: ParticipantAction::Insert(
                        CreateParticipant {
                            event_id,
                            user_id: None,
                            first_name: payload.first_name,
                            last_name: payload.last_name,
                            email: payload.email,
                            tshirt_size: payload.tshirt_size,
                            division: payload.division,
                            expected_graduation_year: payload.expected_graduation_year,
                            university: payload.university,
                            resume_url: payload.resume_url,
                            acknowledged_id_requirement: payload.acknowledged_id_requirement,
                            acknowledged_filming: payload.acknowledged_filming,
                            acknowledged_team_merge: payload.acknowledged_team_merge,
                            interested_in_financial_aid: payload.interested_in_financial_aid,
                            additional_data: None,
                        },
                    ),
                },
            },
            ParticipantReply::Failed => respond(Err(ApiError::Database)),
            ParticipantReply::Inserted(_) => respond(Err(ApiError::Internal)),
        },
        ParticipantState::Insert => match reply {
            ParticipantReply::Inserted(participant) => respond(
                Ok(ParticipantResponse::from(participant)),
            ),
            ParticipantReply::Failed => respond(Err(ApiError::Database)),
            ParticipantReply::Found(_) => respond(Err(ApiError::Internal)),
        },
        ParticipantState::Done => respond(Err(ApiError::Internal)),
    }
}

/// An enrolment asks the store to insert a participant only when the event
/// was found open and the request passed every rule, and the participant it
/// inserts is the request's own. Whatever the store replies to the insertion
/// ends the enrolment.
pub proof fn lemma_enrolment_inserts_only_valid_requests(
    state: ParticipantState,
    reply: ParticipantReply,
)
    ensures
        ({
            let step = stepped(state, reply);
            &&& step.action !is FindEvent
            &&& step.action matches ParticipantAction::Insert(row) ==> {
                &&& state matches ParticipantState::EventLookup { event_id, payload }
                &&& reply matches ParticipantReply::Found(Some(event))
                &&& event.registration_open
                &&& valid_division(payload.division@)
                &&& valid_tshirt_size(payload.tshirt_size@)
                &&& row == enrolled(event_id, payload)
                &&& step.state is Insert
            }
            &&& step.action is Respond <==> step.state is Done
            &&& !(state is EventLookup) ==> step.state is Done
        }),
{
}

} // verus!
