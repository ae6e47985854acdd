//! The operation boundary: the transport error taxonomy, the per-operation
//! column schemas, and the conversion of one transport outcome into the
//! uniform response envelope.
//!
//! A successful remote execution hands its raw output to the row parser under
//! the operation's schema and is wrapped as data; any transport failure is
//! wrapped as an error message.  The parser itself never fails, so only
//! transport failures reach the error envelope.

use vstd::prelude::*;

use crate::parser::{parse, parse_spec, records_of, Record};
use crate::text::views_of;

verus! {

/// A failure of the remote session transport, one variant per stage: the TCP
/// connection, the protocol handshake, the credential check, and the command
/// channel (opening, starting the command, or collecting its output).
pub enum TransportError {
    ConnectError(String),
    HandshakeError(String),
    AuthError(String),
    ExecError(String),
}

impl TransportError {
    /// The human-readable message carried by the failure.
    pub open spec fn message_spec(&self) -> Seq<char> {
        match self {
            TransportError::ConnectError(m) => m@,
            TransportError::HandshakeError(m) => m@,
            TransportError::AuthError(m) => m@,
            TransportError::ExecError(m) => m@,
        }
    }

    /// Returns the carried message.
    pub fn message(&self) -> (r: String)
        ensures
            r@ == self.message_spec(),
    {
        match self {
            TransportError::ConnectError(m) => m.clone(),
            TransportError::HandshakeError(m) => m.clone(),
            TransportError::AuthError(m) => m.clone(),
            TransportError::ExecError(m) => m.clone(),
        }
    }
}

/// The response envelope of one operation: the parsed records on success, the
/// failure message otherwise.  No partial result ever accompanies a failure.
pub enum ApiResponse {
    Data(Vec<Record>),
    Failure(String),
}

/// Converts one transport outcome into the response envelope under the
/// operation's column schema.
pub fn respond(outcome: Result<String, TransportError>, schema: &Vec<String>) -> (r: ApiResponse)
    ensures
        match outcome {
            Ok(raw) => r matches ApiResponse::Data(recs) && records_of(recs@) == parse_spec(
                raw@,
                views_of(schema@),
            ),
            Err(e) => r matches ApiResponse::Failure(m) && m@ == e.message_spec(),
        },
{
    match outcome {
        Ok(raw) => ApiResponse::Data(parse(raw.as_str(), schema)),
        Err(e) => ApiResponse::Failure(e.message()),
    }
}

/// The column schema of the team listing.
pub open spec fn teams_schema_spec() -> Seq<Seq<char>> {
    seq!["team_id"@, "team"@]
}

/// Returns the column schema of the team listing.
pub fn teams_schema() -> (r: Vec<String>)
    ensures
        views_of(r@) == teams_schema_spec(),
{
    let mut v: Vec<String> = Vec::new();
    v.push(String::from_str("team_id"));
    v.push(String::from_str("team"));
    proof {
        assert(views_of(v@) =~= teams_schema_spec());
    }
    v
}

/// The column schema of the current-teams view.
pub open spec fn current_teams_schema_spec() -> Seq<Seq<char>> {
    seq!["team_id"@, "conference"@, "division"@, "team"@, "team_img"@]
}

/// Returns the column schema of the current-teams view.
pub fn current_teams_schema() -> (r: Vec<String>)
    ensures
        views_of(r@) == current_teams_schema_spec(),
{
    let mut v: Vec<String> = Vec::new();
    v.push(String::from_str("team_id"));
    v.push(String::from_str("conference"));
    v.push(String::from_str("division"));
    v.push(String::from_str("team"));
    v.push(String::from_str("team_img"));
    proof {
        assert(views_of(v@) =~= current_teams_schema_spec());
    }
    v
}

/// The column schema of the team-history operation.
pub open spec fn team_history_schema_spec() -> Seq<Seq<char>> {
    seq![
        "TeamName"@,
        "Year"@,
        "HeadCoaches"@,
        "Division"@,
        "Conference"@,
        "Wins"@,
        "Losses"@,
    ]
}

/// Returns the column schema of the team-history operation.
pub fn team_history_schema() -> (r: Vec<String>)
    ensures
        views_of(r@) == team_history_schema_spec(),
{
    let mut v: Vec<String> = Vec::new();
    v.push(String::from_str("TeamName"));
    v.push(String::from_str("Year"));
    v.push(String::from_str("HeadCoaches"));
    v.push(String::from_str("Division"));
    v.push(String::from_str("Conference"));
    v.push(String::from_str("Wins"));
    v.push(String::from_str("Losses"));
    proof {
        assert(views_of(v@) =~= team_history_schema_spec());
    }
    v
}

/// The column schema of the team-season operation.
pub open spec fn team_season_schema_spec() -> Seq<Seq<char>> {
    seq!["TeamName"@, "Date"@, "Opponent"@, "Result"@, "Attendance"@]
}

/// Returns the column schema of the team-season operation.
pub fn team_season_schema() -> (r: Vec<String>)
    ensures
        views_of(r@) == team_season_schema_spec(),
{
    let mut v: Vec<String> = Vec::new();
    v.push(String::from_str("TeamName"));
    v.push(String::from_str("Date"));
    v.push(String::from_str("Opponent"));
    v.push(String::from_str("Result"));
    v.push(String::from_str("Attendance"));
    proof {
        assert(views_of(v@) =~= team_season_schema_spec());
    }
    v
}

/// The column schema of the current-season operation.
pub open spec fn current_season_schema_spec() -> Seq<Seq<char>> {
    seq![
        "Date"@,
        "MatchID"@,
        "HomeTeamID"@,
        "AwayTeamID"@,
        "HomeTeam"@,
        "AwayTeam"@,
        "HomeTeamImgUrl"@,
        "AwayTeamImgUrl"@,
        "HomeTeamConference"@,
        "AwayTeamConference"@,
        "Location"@,
    ]
}

/// Returns the column schema of the current-season operation.
pub fn current_season_schema() -> (r: Vec<String>)
    ensures
        views_of(r@) == current_season_schema_spec(),
{
    let mut v: Vec<String> = Vec::new();
    v.push(String::from_str("Date"));
    v.push(String::from_str("MatchID"));
    v.push(String::from_str("HomeTeamID"));
    v.push(String::from_str("AwayTeamID"));
    v.push(String::from_str("HomeTeam"));
    v.push(String::from_str("AwayTeam"));
    v.push(String::from_str("HomeTeamImgUrl"));
    v.push(String::from_str("AwayTeamImgUrl"));
    v.push(String::from_str("HomeTeamConference"));
    v.push(String::from_str("AwayTeamConference"));
    v.push(String::from_str("Location"));
    proof {
        assert(views_of(v@) =~= current_season_schema_spec());
    }
    v
}

} // verus!
