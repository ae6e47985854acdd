//! The connection profile and the query builder.
//!
//! `SSHRepository` holds the immutable profile (host, port, username,
//! password) used to reach the remote database host.  Its methods render the
//! query text for each of the five fixed query shapes; the remote execution
//! of that text is plain network I/O and lives outside the library.
//!
//! Filter interpolation policy: numeric filters are machine integers and are
//! rendered in decimal, so no caller text reaches the query along that path.
//! A string filter is interpolated only when every character is on an
//! allow-list of letters, digits, space, ampersand and hyphen; a filter that
//! fails the test is treated exactly like an absent one, just as a numeric
//! parameter that fails to parse is.

use vstd::prelude::*;

use crate::numeral::{dec_i32, int_dec};

verus! {

/// Whether a character may appear in an interpolated string filter.  Quote
/// and control characters are excluded, so an allowed filter can never close
/// the surrounding string literal in the query text.
pub open spec fn allowed_filter_char(c: char) -> bool {
    ('a' <= c && c <= 'z') || ('A' <= c && c <= 'Z') || ('0' <= c && c <= '9') || c == ' '
        || c == '&' || c == '-'
}

/// Whether a string filter may be interpolated: non-empty and made only of
/// allowed characters.
pub open spec fn allowed_filter(s: Seq<char>) -> bool {
    s.len() > 0 && forall|i: int| 0 <= i < s.len() ==> allowed_filter_char(#[trigger] s[i])
}

/// Executable test for [`allowed_filter`].
pub fn valid_filter(s: &str) -> (b: bool)
    ensures
        b == allowed_filter(s@),
{
    let n: usize = s.unicode_len();
    if n == 0 {
        return false;
    }
    let mut i: usize = 0;
    while i < n
        invariant
            n == s@.len(),
            0 <= i <= n,
            forall|j: int| 0 <= j < i ==> allowed_filter_char(#[trigger] s@[j]),
        decreases n - i,
    {
        let c = s.get_char(i);
        let ok = ('a' <= c && c <= 'z') || ('A' <= c && c <= 'Z') || ('0' <= c && c <= '9')
            || c == ' ' || c == '&' || c == '-';
        if !ok {
            return false;
        }
        i = i + 1;
    }
    true
}

/// Whether an optional string filter takes part in the query: present and
/// allowed under the interpolation policy.
pub open spec fn filter_active(s: Option<String>) -> bool {
    match s {
        Some(t) => allowed_filter(t@),
        None => false,
    }
}

/// The query text for the team listing.
pub open spec fn teams_query_spec() -> Seq<char> {
    "SELECT * FROM ncaa_teams where team_name != 'Institution';"@
}

/// The query text for the current-teams view.
pub open spec fn current_teams_query_spec() -> Seq<char> {
    "select distinct
                            ncaa_team_hist.team_id,
                            ncaa_team_hist.conference,
                            ncaa_team_hist.division,
                            ncaa_teams.team_name,
                            ncaa_seas.team_img_url
                            from ncaa_team_hist
                            left join ncaa_teams ON ncaa_team_hist.team_id = ncaa_teams.team_id
                            left join ncaa_seas ON ncaa_team_hist.team_id = ncaa_seas.team_id
                            where ncaa_teams.team_name != '-'
                            and ncaa_team_hist.conference != '-'
                            and ncaa_team_hist.Year == '2024-25'
                            order by conference;"@
}

/// The query text for a team's year-by-year history, optionally constrained
/// to one team identifier.
pub open spec fn team_history_query_spec(team_id: Option<i32>) -> Seq<char> {
    match team_id {
        Some(id) => "SELECT nt.team_name, nth.year, nth.head_coaches, nth.division, nth.conference, nth.wins, nth.losses
                 FROM ncaa_team_hist nth
                 JOIN ncaa_teams nt ON nth.team_id = nt.team_id
                 WHERE nth.team_id = "@ + int_dec(id as int)
            + "
                 ORDER BY nth.year DESC"@,
        None => "SELECT nt.team_name, nth.year, nth.head_coaches, nth.division, nth.conference, nth.wins, nth.losses
                 FROM ncaa_team_hist nth
                 JOIN ncaa_teams nt ON nth.team_id = nt.team_id
                 ORDER BY nt.team_name, nth.year DESC"@,
    }
}

/// The team-identifier predicate of the team-season query.
pub open spec fn team_season_id_pred(id: i32) -> Seq<char> {
    "nth.team_id = "@ + int_dec(id as int)
}

/// The season predicate of the team-season query.
pub open spec fn team_season_season_pred(season: Seq<char>) -> Seq<char> {
    "SUBSTR(nth.date, -4) = '"@ + season + "'"@
}

/// The conjoined `WHERE` clause of the team-season query: the team predicate
/// comes first, the season predicate second, joined by `AND`; with no active
/// filter the clause is absent.
pub open spec fn team_season_where(team_id: Option<i32>, season: Option<String>) -> Seq<char> {
    if team_id is Some && filter_active(season) {
        " WHERE "@ + team_season_id_pred(team_id->0) + " AND "@ + team_season_season_pred(
            season->0@,
        )
    } else if team_id is Some {
        " WHERE "@ + team_season_id_pred(team_id->0)
    } else if filter_active(season) {
        " WHERE "@ + team_season_season_pred(season->0@)
    } else {
        Seq::empty()
    }
}

/// The query text for a team's season results under the optional filters.
pub open spec fn team_season_query_spec(team_id: Option<i32>, season: Option<String>) -> Seq<
    char,
> {
    "SELECT nt.team_name, nth.date, nth.opponent, nth.result, nth.attendance
                        FROM ncaa_seas nth
                        JOIN ncaa_teams nt ON nth.team_id = nt.team_id"@
        + team_season_where(team_id, season) + " ORDER BY nth.date DESC"@
}

/// The team-identifier condition appended to the current-season query.
pub open spec fn current_season_id_cond(id: i32) -> Seq<char> {
    " AND (m1.team_id = "@ + int_dec(id as int) + " OR m2.team_id = "@ + int_dec(id as int)
        + ")"@
}

/// The conference condition appended to the current-season query.
pub open spec fn current_season_conf_cond(conf: Seq<char>) -> Seq<char> {
    " AND (m1.conference = '"@ + conf + "' OR m2.conference = '"@ + conf + "')"@
}

/// The query text for the current-season schedule under the optional filters.
/// The base query pairs the two directional rows of one match by match
/// identifier, preferring the row seen from the away side, and splits the
/// opponent field on the `@` marker to recover home and away names.
pub open spec fn current_season_query_spec(team_id: Option<i32>, conference: Option<String>) -> Seq<
    char,
> {
    current_season_base() + (match team_id {
        Some(id) => current_season_id_cond(id),
        None => Seq::empty(),
    }) + (if filter_active(conference) {
        current_season_conf_cond(conference->0@)
    } else {
        Seq::empty()
    }) + " GROUP BY m1.match_id ORDER BY m1.date"@
}

/// The fixed base text of the current-season query.
pub open spec fn current_season_base() -> Seq<char> {
    "WITH match_data AS (
        SELECT
            mi.date,
            mi.match_id,
            cs.team_id,
            cs.opponent,
            CASE
                WHEN INSTR(cs.opponent, '@') > 0 THEN SUBSTR(cs.opponent, 1, INSTR(cs.opponent, '@') - 1)
                ELSE cs.opponent
            END AS away_team,
            CASE
                WHEN INSTR(cs.opponent, '@') > 0 THEN SUBSTR(cs.opponent, INSTR(cs.opponent, '@') + 1)
                ELSE ''
            END AS home_team,
            cs.team_img_url,
            tm.team_name,
            th.conference,
            CASE
                WHEN INSTR(cs.opponent, '@') > 0 THEN 'away'
                ELSE 'home'
            END AS team_type
        FROM current_ncaa_season cs
        LEFT JOIN match_id_by_season mi ON cs.date = mi.date AND cs.game_by_game_url = mi.game_by_game_url
        LEFT JOIN ncaa_teams tm ON cs.team_id = tm.team_id
        LEFT JOIN ncaa_team_hist th ON cs.team_id = th.team_id
        WHERE th.year = '2024-25' AND th.conference != ''
    )
    SELECT
        m1.date,
        m1.match_id,
        m1.team_id AS home_team_id,
        m2.team_id AS away_team_id,
        REPLACE(COALESCE(m2.team_name, m1.team_name), 'A&amp;', 'A&M') AS home_team,
        REPLACE(COALESCE(m1.team_name, m2.team_name), 'A&amp;', 'A&M') AS away_team,
        COALESCE(m2.team_img_url, m1.team_img_url) AS home_team_img_url,
        COALESCE(m1.team_img_url, m2.team_img_url) AS away_team_img_url,
        COALESCE(m2.conference, m1.conference) AS home_team_conference,
        COALESCE(m1.conference, m2.conference) AS away_team_conference,
        CASE
            WHEN m1.home_team != '' AND m1.away_team != '' THEN 'neutral'
            ELSE REPLACE(COALESCE(m2.team_name, m1.team_name), 'A&amp;', 'A&M')
        END AS location
    FROM match_data m1
    LEFT JOIN match_data m2 ON m1.match_id = m2.match_id AND m1.team_id != m2.team_id
    WHERE (m1.team_type = 'away' OR (m1.team_type = 'home' AND m2.team_id IS NULL))"@
}

/// The remote command that wraps one query: the single-file database is
/// reachable on the remote host under a fixed name, and the query text is
/// passed to the command-line client verbatim.
pub open spec fn remote_command_spec(sql: Seq<char>) -> Seq<char> {
    "sqlite3 ncaa.db \""@ + sql + "\""@
}

/// Renders the remote command for a query text.
pub fn remote_command(sql: &str) -> (r: String)
    ensures
        r@ == remote_command_spec(sql@),
{
    let mut s = String::from_str("sqlite3 ncaa.db \"");
    s.append(sql);
    s.append("\"");
    s
}

/// The connection profile for the remote database host.  All fields are set
/// once at construction and never change; a missing or empty credential is a
/// startup failure, never a per-request one.
pub struct SSHRepository {
    host: String,
    port: u16,
    username: String,
    password: String,
}

impl SSHRepository {
    /// The configured host name.
    pub closed spec fn host_spec(&self) -> Seq<char> {
        self.host@
    }

    /// The configured port.
    pub closed spec fn port_spec(&self) -> u16 {
        self.port
    }

    /// The configured user name.
    pub closed spec fn username_spec(&self) -> Seq<char> {
        self.username@
    }

    /// The configured password.
    pub closed spec fn password_spec(&self) -> Seq<char> {
        self.password@
    }

    /// The profile invariant: every textual field is non-empty.
    pub open spec fn wf(&self) -> bool {
        self.host_spec().len() > 0 && self.username_spec().len() > 0
            && self.password_spec().len() > 0
    }

    /// Builds a profile from its four fields.
    pub fn new(host: String, port: u16, username: String, password: String) -> (r: SSHRepository)
        requires
            host@.len() > 0,
            username@.len() > 0,
            password@.len() > 0,
        ensures
            r.host_spec() == host@,
            r.port_spec() == port,
            r.username_spec() == username@,
            r.password_spec() == password@,
            r.wf(),
    {
        SSHRepository { host, port, username, password }
    }

    /// The configured host name.
    pub fn host(&self) -> (r: &String)
        ensures
            r@ == self.host_spec(),
    {
        &self.host
    }

    /// The configured port.
    pub fn port(&self) -> (r: u16)
        ensures
            r == self.port_spec(),
    {
        self.port
    }

    /// The configured user name.
    pub fn username(&self) -> (r: &String)
        ensures
            r@ == self.username_spec(),
    {
        &self.username
    }

    /// The configured password.
    pub fn password(&self) -> (r: &String)
        ensures
            r@ == self.password_spec(),
    {
        &self.password
    }

    /// The query text for the team listing.
    pub fn get_teams(&self) -> (r: String)
        ensures
            r@ == teams_query_spec(),
    {
        String::from_str("SELECT * FROM ncaa_teams where team_name != 'Institution';")
    }

    /// The query text for the current-teams view.
    pub fn get_current_teams_view(&self) -> (r: String)
        ensures
            r@ == current_teams_query_spec(),
    {
        String::from_str(
            "select distinct
                            ncaa_team_hist.team_id,
                            ncaa_team_hist.conference,
                            ncaa_team_hist.division,
                            ncaa_teams.team_name,
                            ncaa_seas.team_img_url
                            from ncaa_team_hist
                            left join ncaa_teams ON ncaa_team_hist.team_id = ncaa_teams.team_id
                            left join ncaa_seas ON ncaa_team_hist.team_id = ncaa_seas.team_id
                            where ncaa_teams.team_name != '-'
                            and ncaa_team_hist.conference != '-'
                            and ncaa_team_hist.Year == '2024-25'
                            order by conference;",
        )
    }

    /// The query text for a team's year-by-year history.
    pub fn get_team_history(&self, team_id: Option<i32>) -> (r: String)
        ensures
            r@ == team_history_query_spec(team_id),
    {
        match team_id {
            Some(id) => {
                let mut s = String::from_str(
                    "SELECT nt.team_name, nth.year, nth.head_coaches, nth.division, nth.conference, nth.wins, nth.losses
                 FROM ncaa_team_hist nth
                 JOIN ncaa_teams nt ON nth.team_id = nt.team_id
                 WHERE nth.team_id = ",
                );
                s.append(dec_i32(id).as_str());
                s.append(
                    "
                 ORDER BY nth.year DESC",
                );
                s
            },
            None => String::from_str(
                "SELECT nt.team_name, nth.year, nth.head_coaches, nth.division, nth.conference, nth.wins, nth.losses
                 FROM ncaa_team_hist nth
                 JOIN ncaa_teams nt ON nth.team_id = nt.team_id
                 ORDER BY nt.team_name, nth.year DESC",
            ),
        }
    }

    /// The query text for a team's season results.  The two optional filters
    /// are conjoined in declaration order: team identifier first, season
    /// second.  A season filter outside the allow-list is treated as absent.
    pub fn get_team_season(&self, team_id: Option<i32>, season: Option<String>) -> (r: String)
        ensures
            r@ == team_season_query_spec(team_id, season),
    {
        let mut s = String::from_str(
            "SELECT nt.team_name, nth.date, nth.opponent, nth.result, nth.attendance
                        FROM ncaa_seas nth
                        JOIN ncaa_teams nt ON nth.team_id = nt.team_id",
        );
        let season_active = match &season {
            Some(t) => valid_filter(t.as_str()),
            None => false,
        };
        let mut first = true;
        if let Some(id) = &team_id {
            s.append(" WHERE ");
            s.append("nth.team_id = ");
            s.append(dec_i32(*id).as_str());
            first = false;
        }
        if season_active {
            if first {
                s.append(" WHERE ");
            } else {
                s.append(" AND ");
            }
            s.append("SUBSTR(nth.date, -4) = '");
            match &season {
                Some(t) => s.append(t.as_str()),
                None => {},
            }
            s.append("'");
        }
        s.append(" ORDER BY nth.date DESC");
        proof {
            assert(s@ =~= team_season_query_spec(team_id, season));
        }
        s
    }

    /// The query text for the current-season schedule.  A conference filter
    /// outside the allow-list is treated as absent.
    pub fn get_current_season(&self, team_id: Option<i32>, conference: Option<String>) -> (r:
        String)
        ensures
            r@ == current_season_query_spec(team_id, conference),
    {
        let mut s = String::from_str(
            "WITH match_data AS (
        SELECT
            mi.date,
            mi.match_id,
            cs.team_id,
            cs.opponent,
            CASE
                WHEN INSTR(cs.opponent, '@') > 0 THEN SUBSTR(cs.opponent, 1, INSTR(cs.opponent, '@') - 1)
                ELSE cs.opponent
            END AS away_team,
            CASE
                WHEN INSTR(cs.opponent, '@') > 0 THEN SUBSTR(cs.opponent, INSTR(cs.opponent, '@') + 1)
                ELSE ''
            END AS home_team,
            cs.team_img_url,
            tm.team_name,
            th.conference,
            CASE
                WHEN INSTR(cs.opponent, '@') > 0 THEN 'away'
                ELSE 'home'
            END AS team_type
        FROM current_ncaa_season cs
        LEFT JOIN match_id_by_season mi ON cs.date = mi.date AND cs.game_by_game_url = mi.game_by_game_url
        LEFT JOIN ncaa_teams tm ON cs.team_id = tm.team_id
        LEFT JOIN ncaa_team_hist th ON cs.team_id = th.team_id
        WHERE th.year = '2024-25' AND th.conference != ''
    )
    SELECT
        m1.date,
        m1.match_id,
        m1.team_id AS home_team_id,
        m2.team_id AS away_team_id,
        REPLACE(COALESCE(m2.team_name, m1.team_name), 'A&amp;', 'A&M') AS home_team,
        REPLACE(COALESCE(m1.team_name, m2.team_name), 'A&amp;', 'A&M') AS away_team,
        COALESCE(m2.team_img_url, m1.team_img_url) AS home_team_img_url,
        COALESCE(m1.team_img_url, m2.team_img_url) AS away_team_img_url,
        COALESCE(m2.conference, m1.conference) AS home_team_conference,
        COALESCE(m1.conference, m2.conference) AS away_team_conference,
        CASE
            WHEN m1.home_team != '' AND m1.away_team != '' THEN 'neutral'
            ELSE REPLACE(COALESCE(m2.team_name, m1.team_name), 'A&amp;', 'A&M')
        END AS location
    FROM match_data m1
    LEFT JOIN match_data m2 ON m1.match_id = m2.match_id AND m1.team_id != m2.team_id
    WHERE (m1.team_type = 'away' OR (m1.team_type = 'home' AND m2.team_id IS NULL))",
        );
        if let Some(id) = &team_id {
            s.append(" AND (m1.team_id = ");
            s.append(dec_i32(*id).as_str());
            s.append(" OR m2.team_id = ");
            s.append(dec_i32(*id).as_str());
            s.append(")");
        }
        let conf_active = match &conference {
            Some(t) => valid_filter(t.as_str()),
            None => false,
        };
        if conf_active {
            match &conference {
                Some(t) => {
                    s.append(" AND (m1.conference = '");
                    s.append(t.as_str());
                    s.append("' OR m2.conference = '");
                    s.append(t.as_str());
                    s.append("')");
                },
                None => {},
            }
        }
        s.append(" GROUP BY m1.match_id ORDER BY m1.date");
        proof {
            assert(s@ =~= current_season_query_spec(team_id, conference));
        }
        s
    }
}

} // verus!
