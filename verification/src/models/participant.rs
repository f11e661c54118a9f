//! Participants of events.

use vstd::prelude::*;

verus! {

/// A stored participant. `additional_data` is a JSON document kept as text;
/// timestamps are microseconds since the Unix epoch.
#[derive(Debug, Clone, PartialEq, Eq)]
pub struct Participant {
    pub id: String,
    pub event_id: String,
    pub user_id: Option<String>,
    pub first_name: String,
    pub last_name: String,
    pub email: String,
    pub tshirt_size: String,
    pub division: String,
    pub expected_graduation_year: i32,
    pub university: String,
    pub resume_url: Option<String>,
    pub acknowledged_id_requirement: bool,
    pub acknowledged_filming: bool,
    pub acknowledged_team_merge: bool,
    pub interested_in_financial_aid: bool,
    pub additional_data: String,
    pub created_at: i64,
    pub updated_at: i64,
}

/// What a caller supplies to enrol a participant.
#[derive(Debug, Clone, PartialEq, Eq)]
pub struct CreateParticipant {
    pub event_id: String,
    pub user_id: Option<String>,
    pub first_name: String,
    pub last_name: String,
    pub email: String,
    pub tshirt_size: String,
    pub division: String,
    pub expected_graduation_year: i32,
    pub university: String,
    pub resume_url: Option<String>,
    pub acknowledged_id_requirement: bool,
    pub acknowledged_filming: bool,
    pub acknowledged_team_merge: bool,
    pub interested_in_financial_aid: bool,
    pub additional_data: Option<String>,
}

impl Participant {
    /// The JSON text stored for a participant that came without additional
    /// data: the empty object.
    pub open spec fn stored_data(additional_data: Option<String>) -> Seq<char> {
        match additional_data {
            Some(text) => text@,
            None => "{}"@,
        }
    }

    /// Prepares the row for a new participant: every field as supplied, and
    /// additional data that defaults to the empty JSON object. The caller
    /// inserts the row.
    pub fn create(create_participant: CreateParticipant) -> (row: CreateParticipant)
        ensures
            row.additional_data matches Some(text) && text@ == Participant::stored_data(
                create_participant.additional_data,
            ),
            row == (CreateParticipant {
                additional_data: row.additional_data,
                ..create_participant
            }),
    {
        let additional_data = match create_participant.additional_data {
            Some(text) => text,
            None => "{}".to_owned(),
        };
        CreateParticipant {
            event_id: create_participant.event_id,
            user_id: create_participant.user_id,
            first_name: create_participant.first_name,
            last_name: create_participant.last_name,
            email: create_participant.email,
            tshirt_size: create_participant.tshirt_size,
            division: create_participant.division,
            expected_graduation_year: create_participant.expected_graduation_year,
            university: create_participant.university,
            resume_url: create_participant.resume_url,
            acknowledged_id_requirement: create_participant.acknowledged_id_requirement,
            acknowledged_filming: create_participant.acknowledged_filming,
            acknowledged_team_merge: create_participant.acknowledged_team_merge,
            interested_in_financial_aid: create_participant.interested_in_financial_aid,
            additional_data: Some(additional_data),
        }
    }
}

} // verus!
