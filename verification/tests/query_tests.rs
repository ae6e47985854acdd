use ncaa_gateway::numeral::{dec_i32, dec_u64, parse_i32};
use ncaa_gateway::repository::{remote_command, valid_filter, SSHRepository};

fn repo() -> SSHRepository {
    SSHRepository::new("db-host".to_string(), 22, "reader".to_string(), "secret".to_string())
}

#[test]
fn profile_keeps_its_fields() {
    let r = repo();
    assert_eq!(r.host().as_str(), "db-host");
    assert_eq!(r.port(), 22);
    assert_eq!(r.username().as_str(), "reader");
    assert_eq!(r.password().as_str(), "secret");
}

#[test]
fn teams_query_is_fixed() {
    let sql = repo().get_teams();
    assert_eq!(sql, "SELECT * FROM ncaa_teams where team_name != 'Institution';");
}

#[test]
fn current_teams_query_is_fixed() {
    let sql = repo().get_current_teams_view();
    assert!(sql.starts_with("select distinct"));
    assert!(sql.contains("ncaa_team_hist.Year == '2024-25'"));
    assert!(sql.ends_with("order by conference;"));
}

#[test]
fn history_with_team_id_has_one_predicate() {
    let sql = repo().get_team_history(Some(414));
    assert!(sql.contains("WHERE nth.team_id = 414"));
    assert_eq!(sql.matches("team_id = 414").count(), 1);
    assert!(sql.ends_with("ORDER BY nth.year DESC"));
}

#[test]
fn history_without_team_id_has_no_predicate() {
    let sql = repo().get_team_history(None);
    assert!(!sql.contains("WHERE"));
    assert!(sql.ends_with("ORDER BY nt.team_name, nth.year DESC"));
}

#[test]
fn team_season_conjoins_both_filters_in_order() {
    let sql = repo().get_team_season(Some(2), Some("2022".to_string()));
    assert!(sql.contains(" WHERE nth.team_id = 2 AND SUBSTR(nth.date, -4) = '2022'"));
    assert!(sql.ends_with(" ORDER BY nth.date DESC"));
}

#[test]
fn team_season_with_single_filters() {
    let only_id = repo().get_team_season(Some(7), None);
    assert!(only_id.contains(" WHERE nth.team_id = 7 ORDER BY nth.date DESC"));
    assert!(!only_id.contains("SUBSTR"));

    let only_season = repo().get_team_season(None, Some("2021".to_string()));
    assert!(only_season.contains(" WHERE SUBSTR(nth.date, -4) = '2021' ORDER BY nth.date DESC"));
    assert!(!only_season.contains("WHERE nth.team_id ="));

    let neither = repo().get_team_season(None, None);
    assert!(!neither.contains("WHERE"));
    assert!(neither.ends_with(" ORDER BY nth.date DESC"));
}

#[test]
fn team_season_rejects_filter_outside_allow_list() {
    let sql = repo().get_team_season(None, Some("20'22; DROP TABLE x".to_string()));
    assert!(!sql.contains("WHERE"));
    assert!(!sql.contains("DROP"));
}

#[test]
fn current_season_appends_both_conditions() {
    let sql = repo().get_current_season(Some(414), Some("ACC".to_string()));
    assert!(sql.contains(" AND (m1.team_id = 414 OR m2.team_id = 414)"));
    assert!(sql.contains(" AND (m1.conference = 'ACC' OR m2.conference = 'ACC')"));
    assert!(sql.ends_with(" GROUP BY m1.match_id ORDER BY m1.date"));
}

#[test]
fn current_season_without_filters_keeps_base_only() {
    let sql = repo().get_current_season(None, None);
    assert!(sql.starts_with("WITH match_data AS ("));
    assert!(!sql.contains("m1.team_id = 4"));
    assert!(!sql.contains("m1.conference = '"));
    assert!(sql.ends_with(" GROUP BY m1.match_id ORDER BY m1.date"));
}

#[test]
fn current_season_rejects_conference_outside_allow_list() {
    let sql = repo().get_current_season(None, Some("x' OR '1'='1".to_string()));
    assert!(!sql.contains("conference = '"));
}

#[test]
fn remote_command_wraps_query() {
    assert_eq!(remote_command("SELECT 1;"), "sqlite3 ncaa.db \"SELECT 1;\"");
}

#[test]
fn decimal_rendering() {
    assert_eq!(dec_u64(0), "0");
    assert_eq!(dec_u64(12345), "12345");
    assert_eq!(dec_u64(u64::MAX), "18446744073709551615");
    assert_eq!(dec_i32(0), "0");
    assert_eq!(dec_i32(-45), "-45");
    assert_eq!(dec_i32(i32::MAX), "2147483647");
    assert_eq!(dec_i32(i32::MIN), "-2147483648");
}

#[test]
fn numeric_filter_parsing() {
    assert_eq!(parse_i32("414"), Some(414));
    assert_eq!(parse_i32("+7"), Some(7));
    assert_eq!(parse_i32("-2"), Some(-2));
    assert_eq!(parse_i32("00042"), Some(42));
    assert_eq!(parse_i32("2147483647"), Some(i32::MAX));
    assert_eq!(parse_i32("-2147483648"), Some(i32::MIN));
    assert_eq!(parse_i32("2147483648"), None);
    assert_eq!(parse_i32("-2147483649"), None);
    assert_eq!(parse_i32("99999999999999999999"), None);
    assert_eq!(parse_i32(""), None);
    assert_eq!(parse_i32("+"), None);
    assert_eq!(parse_i32("-"), None);
    assert_eq!(parse_i32("12a"), None);
    assert_eq!(parse_i32(" 12"), None);
    assert_eq!(parse_i32("1 2"), None);
}

#[test]
fn filter_allow_list() {
    assert!(valid_filter("ACC"));
    assert!(valid_filter("Big 12"));
    assert!(valid_filter("Texas A&M - 2024"));
    assert!(!valid_filter(""));
    assert!(!valid_filter("O'Brien"));
    assert!(!valid_filter("a;b"));
    assert!(!valid_filter("x\" OR 1=1"));
}
