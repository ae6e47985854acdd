use ncaa_gateway::parser::Record;
use ncaa_gateway::repository::SSHRepository;
use ncaa_gateway::response::{
    current_season_schema, current_teams_schema, respond, team_history_schema,
    team_season_schema, teams_schema, ApiResponse, TransportError,
};

fn pair(a: &str, b: &str) -> (String, String) {
    (a.to_string(), b.to_string())
}

fn data_of(r: ApiResponse) -> Vec<Record> {
    match r {
        ApiResponse::Data(recs) => recs,
        ApiResponse::Failure(m) => panic!("expected data, got failure: {}", m),
    }
}

fn failure_of(r: ApiResponse) -> String {
    match r {
        ApiResponse::Data(_) => panic!("expected failure, got data"),
        ApiResponse::Failure(m) => m,
    }
}

#[test]
fn teams_success_envelope() {
    let out = respond(Ok("1|Duke\n2|UNC\n".to_string()), &teams_schema());
    let recs = data_of(out);
    assert_eq!(recs.len(), 2);
    assert_eq!(recs[0].fields, vec![pair("team_id", "1"), pair("team", "Duke")]);
    assert_eq!(recs[1].fields, vec![pair("team_id", "2"), pair("team", "UNC")]);
}

#[test]
fn connect_failure_envelope() {
    let out = respond(
        Err(TransportError::ConnectError("refused".to_string())),
        &teams_schema(),
    );
    assert_eq!(failure_of(out), "refused");
}

#[test]
fn every_failure_stage_maps_to_its_message() {
    let cases: Vec<(TransportError, &str)> = vec![
        (TransportError::ConnectError("no route".to_string()), "no route"),
        (TransportError::HandshakeError("bad banner".to_string()), "bad banner"),
        (TransportError::AuthError("denied".to_string()), "denied"),
        (TransportError::ExecError("channel closed".to_string()), "channel closed"),
    ];
    for (err, want) in cases {
        let out = respond(Err(err), &team_history_schema());
        assert_eq!(failure_of(out), want.to_string());
    }
}

#[test]
fn failure_carries_no_partial_data() {
    let out = respond(
        Err(TransportError::ExecError("boom".to_string())),
        &team_season_schema(),
    );
    assert!(matches!(out, ApiResponse::Failure(_)));
}

#[test]
fn empty_output_yields_empty_data() {
    let recs = data_of(respond(Ok("".to_string()), &teams_schema()));
    assert_eq!(recs.len(), 0);
}

#[test]
fn schemas_match_their_operations() {
    let names = |v: Vec<String>| v;
    assert_eq!(names(teams_schema()), vec!["team_id".to_string(), "team".to_string()]);
    assert_eq!(current_teams_schema().len(), 5);
    assert_eq!(team_history_schema().len(), 7);
    assert_eq!(team_season_schema().len(), 5);
    let cs = current_season_schema();
    assert_eq!(cs.len(), 11);
    assert_eq!(cs[0], "Date");
    assert_eq!(cs[10], "Location");
}

#[test]
fn distinct_operations_get_their_own_responses() {
    let repo = SSHRepository::new(
        "db-host".to_string(),
        22,
        "reader".to_string(),
        "secret".to_string(),
    );
    let queries = vec![
        repo.get_teams(),
        repo.get_current_teams_view(),
        repo.get_team_history(Some(1)),
        repo.get_team_season(Some(1), None),
        repo.get_current_season(None, None),
    ];
    // Stub transport: each operation's output is distinguishable.
    let outputs: Vec<String> = (0..queries.len()).map(|i| format!("{}|row", i)).collect();
    let schemas = vec![
        teams_schema(),
        current_teams_schema(),
        team_history_schema(),
        team_season_schema(),
        current_season_schema(),
    ];
    for i in 0..queries.len() {
        let out = respond(Ok(outputs[i].clone()), &schemas[i]);
        let recs = data_of(out);
        assert_eq!(recs.len(), 1);
        assert_eq!(recs[0].fields[0].1, i.to_string());
        assert_eq!(recs[0].fields[0].0, schemas[i][0]);
    }
}
