use challonge::json::{Json, Number};
use challonge::kinds::{RankedBy, TournamentId, TournamentState, TournamentType};
use challonge::time::Timestamp;
use challonge::tournament::{Error, Index, Reason, Tournament};

fn text(s: &str) -> Json {
    Json::String(s.to_string())
}

fn member(key: &str, value: Json) -> (String, Json) {
    (key.to_string(), value)
}

fn sample_members() -> Vec<(String, Json)> {
    vec![
        member("accept_attachments", Json::Bool(false)),
        member("allow_participant_match_reporting", Json::Bool(true)),
        member("anonymous_voting", Json::Bool(false)),
        member("category", Json::Null),
        member("check_in_duration", Json::Null),
        member("completed_at", Json::Null),
        member("created_at", text("2015-01-19T16:47:30-05:00")),
        member("created_by_api", Json::Bool(false)),
        member("credit_capped", Json::Bool(false)),
        member("description", text("sample description")),
        member("game_id", Json::Number(Number::PosInt(600))),
        member("group_stages_enabled", Json::Bool(false)),
        member("hide_forum", Json::Bool(false)),
        member("hide_seeds", Json::Bool(false)),
        member("hold_third_place_match", Json::Bool(false)),
        member("id", Json::Number(Number::PosInt(1086875))),
        member("max_predictions_per_user", Json::Number(Number::PosInt(1))),
        member("name", text("Sample Tournament 1")),
        member("notify_users_when_matches_open", Json::Bool(true)),
        member("notify_users_when_the_tournament_ends", Json::Bool(true)),
        member("open_signup", Json::Bool(false)),
        member("participants_count", Json::Number(Number::PosInt(4))),
        member("prediction_method", Json::Number(Number::PosInt(0))),
        member("predictions_opened_at", Json::Null),
        member("private", Json::Bool(false)),
        member("progress_meter", Json::Number(Number::PosInt(0))),
        member("pts_for_bye", text("1.0")),
        member("pts_for_game_tie", text("0.0")),
        member("pts_for_game_win", text("0.0")),
        member("pts_for_match_tie", text("0.5")),
        member("pts_for_match_win", text("1.0")),
        member("quick_advance", Json::Bool(false)),
        member("ranked_by", text("match wins")),
        member("require_score_agreement", Json::Bool(false)),
        member("rr_pts_for_game_tie", text("0.0")),
        member("rr_pts_for_game_win", text("0.0")),
        member("rr_pts_for_match_tie", text("0.5")),
        member("rr_pts_for_match_win", text("1.0")),
        member("sequential_pairings", Json::Bool(false)),
        member("show_rounds", Json::Bool(true)),
        member("signup_cap", Json::Null),
        member("start_at", Json::Null),
        member("started_at", text("2015-01-19T16:57:17-05:00")),
        member("started_checking_in_at", Json::Null),
        member("state", text("underway")),
        member("swiss_rounds", Json::Number(Number::PosInt(0))),
        member("teams", Json::Bool(false)),
        member("tie_breaks", Json::Array(vec![text("match wins vs tied"), text("game wins"), text("points scored")])),
        member("tournament_type", text("single elimination")),
        member("updated_at", text("2015-01-19T16:57:17-05:00")),
        member("url", text("sample_tournament_1")),
        member("description_source", text("sample description source")),
        member("subdomain", Json::Null),
        member("full_challonge_url", text("http://challonge.com/sample_tournament_1")),
        member("live_image_url", text("http://images.challonge.com/sample_tournament_1.png")),
        member("sign_up_url", Json::Null),
        member("review_before_finalizing", Json::Bool(true)),
        member("accepting_predictions", Json::Bool(false)),
        member("participants_locked", Json::Bool(true)),
        member("game_name", text("Table Tennis")),
        member("participants_swappable", Json::Bool(false)),
        member("team_convertable", Json::Bool(false)),
        member("group_stages_were_started", Json::Bool(false)),
    ]
}

fn wrap(members: Vec<(String, Json)>) -> Json {
    Json::Object(vec![member("tournament", Json::Object(members))])
}

fn with(key: &str, value: Json) -> Json {
    let mut members = sample_members();
    for m in members.iter_mut() {
        if m.0 == key {
            m.1 = value;
            return wrap(members);
        }
    }
    panic!("no member {}", key);
}

fn without(key: &str) -> Json {
    let members: Vec<(String, Json)> = sample_members().into_iter().filter(|m| m.0 != key).collect();
    wrap(members)
}

fn score(s: &str) -> f64 {
    s.parse::<f64>().unwrap_or(0.0)
}

fn eastern(seconds: i64) -> Timestamp {
    Timestamp { seconds, nanos: 0, offset: -5 * 3600 }
}

#[test]
fn test_tournament_parse() {
    let json = wrap(sample_members());
    if let Ok(t) = Tournament::decode(json) {
        assert_eq!(t.accept_attachments, false);
        assert_eq!(t.allow_participant_match_reporting, true);
        assert_eq!(t.anonymous_voting, false);
        assert_eq!(t.created_by_api, false);
        assert_eq!(t.description, "sample description");
        assert_eq!(t.credit_capped, false);
        assert_eq!(t.game_id, 600);
        assert_eq!(t.id, 1086875);
        assert_eq!(t.name, "Sample Tournament 1");
        assert_eq!(t.group_stages_enabled, false);
        assert_eq!(t.hide_forum, false);
        assert_eq!(t.hide_seeds, false);
        assert_eq!(t.hold_third_place_match, false);
        assert_eq!(t.max_predictions_per_user, 1);
        assert_eq!(t.notify_users_when_matches_open, true);
        assert_eq!(t.notify_users_when_the_tournament_ends, true);
        assert_eq!(t.open_signup, false);
        assert_eq!(t.participants_count, 4);
        assert_eq!(t.prediction_method, 0);
        assert_eq!(t.private, false);
        assert_eq!(t.progress_meter, 0);
        assert_eq!(score(&t.pts_for_bye), 1.0f64);
        assert_eq!(score(&t.pts_for_game_tie), 0.0f64);
        assert_eq!(score(&t.pts_for_game_win), 0.0f64);
        assert_eq!(score(&t.pts_for_match_tie), 0.5f64);
        assert_eq!(score(&t.pts_for_match_win), 1.0f64);
        assert_eq!(t.quick_advance, false);
        assert_eq!(t.require_score_agreement, false);
        assert_eq!(score(&t.rr_pts_for_game_tie), 0.0f64);
        assert_eq!(score(&t.rr_pts_for_game_win), 0.0f64);
        assert_eq!(score(&t.rr_pts_for_match_tie), 0.5f64);
        assert_eq!(score(&t.rr_pts_for_match_win), 1.0f64);
        assert_eq!(t.sequential_pairings, false);
        assert_eq!(t.show_rounds, true);
        assert_eq!(t.swiss_rounds, 0);
        assert_eq!(t.teams, false);
        assert_eq!(t.tournament_type, TournamentType::SingleElimination);
        assert_eq!(t.url, "sample_tournament_1");
        assert_eq!(t.description_source, "sample description source");
        assert_eq!(t.full_challonge_url, "http://challonge.com/sample_tournament_1");
        assert_eq!(t.live_image_url, "http://images.challonge.com/sample_tournament_1.png");
        assert_eq!(t.review_before_finalizing, true);
        assert_eq!(t.accepting_predictions, false);
        assert_eq!(t.participants_locked, true);
        assert_eq!(t.game_name, "Table Tennis");
        assert_eq!(t.participants_swappable, false);
        assert_eq!(t.team_convertable, false);
        assert_eq!(t.group_stages_were_started, false);
    } else {
        assert!(false);
    }
}

#[test]
fn sample_timestamps_are_read() {
    let t = Tournament::decode(wrap(sample_members())).unwrap();
    assert_eq!(t.started_at, Some(eastern(1421704637)));
    assert_eq!(t.created_at, eastern(1421704050));
    assert_eq!(t.updated_at, eastern(1421704637));
}

#[test]
fn scalar_payload_is_not_an_object() {
    match Tournament::decode(text("not an object")) {
        Err(Error::Decode(Reason::ExpectedObject, Json::String(s))) => assert_eq!(s, "not an object"),
        other => panic!("unexpected {:?}", other),
    }
}

#[test]
fn envelope_without_tournament_is_absent_key() {
    match Tournament::decode(Json::Object(vec![member("other", Json::Null)])) {
        Err(Error::Decode(Reason::AbsentKey, Json::String(s))) => assert_eq!(s, "tournament"),
        other => panic!("unexpected {:?}", other),
    }
}

#[test]
fn tournament_that_is_not_an_object() {
    let payload = Json::Object(vec![member("tournament", Json::Array(vec![]))]);
    assert!(matches!(
        Tournament::decode(payload),
        Err(Error::Decode(Reason::ExpectedObject, Json::Array(_)))
    ));
}

#[test]
fn missing_required_member_is_absent_key() {
    match Tournament::decode(without("game_name")) {
        Err(Error::Decode(Reason::AbsentKey, Json::String(s))) => assert_eq!(s, "game_name"),
        other => panic!("unexpected {:?}", other),
    }
}

#[test]
fn first_missing_member_is_reported() {
    let members: Vec<(String, Json)> = sample_members()
        .into_iter()
        .filter(|m| m.0 != "hide_forum" && m.0 != "teams")
        .collect();
    match Tournament::decode(wrap(members)) {
        Err(Error::Decode(Reason::AbsentKey, Json::String(s))) => assert_eq!(s, "hide_forum"),
        other => panic!("unexpected {:?}", other),
    }
}

#[test]
fn missing_created_at_fails() {
    assert!(matches!(
        Tournament::decode(without("created_at")),
        Err(Error::Decode(Reason::AbsentKey, _))
    ));
    assert!(matches!(
        Tournament::decode(without("updated_at")),
        Err(Error::Decode(Reason::AbsentKey, _))
    ));
}

#[test]
fn malformed_mandatory_timestamps_fail() {
    match Tournament::decode(with("created_at", text("yesterday"))) {
        Err(Error::Decode(Reason::InvalidTimestamp, Json::String(s))) => assert_eq!(s, "yesterday"),
        other => panic!("unexpected {:?}", other),
    }
    assert!(matches!(
        Tournament::decode(with("updated_at", Json::Number(Number::PosInt(5)))),
        Err(Error::Decode(Reason::InvalidTimestamp, Json::Number(Number::PosInt(5))))
    ));
    assert!(matches!(
        Tournament::decode(with("created_at", Json::Null)),
        Err(Error::Decode(Reason::InvalidTimestamp, Json::Null))
    ));
}

#[test]
fn missing_or_malformed_start_time_is_absent() {
    assert_eq!(Tournament::decode(without("started_at")).unwrap().started_at, None);
    assert_eq!(Tournament::decode(with("started_at", Json::Null)).unwrap().started_at, None);
    assert_eq!(Tournament::decode(with("started_at", text("2015-13-45"))).unwrap().started_at, None);
}

#[test]
fn mistyped_members_take_defaults() {
    let t = Tournament::decode(with("allow_participant_match_reporting", Json::Null)).unwrap();
    assert_eq!(t.allow_participant_match_reporting, false);
    assert_eq!(t.review_before_finalizing, true);
    assert_eq!(t.id, 1086875);

    let t = Tournament::decode(with("id", text("1086875"))).unwrap();
    assert_eq!(t.id, 0);
    assert_eq!(t.game_id, 600);

    let t = Tournament::decode(with("participants_count", Json::Number(Number::NegInt(-4)))).unwrap();
    assert_eq!(t.participants_count, 0);

    let t = Tournament::decode(with("name", Json::Bool(true))).unwrap();
    assert_eq!(t.name, "");
    assert_eq!(t.game_name, "Table Tennis");

    let t = Tournament::decode(with("pts_for_bye", Json::Number(Number::PosInt(1)))).unwrap();
    assert_eq!(score(&t.pts_for_bye), 0.0f64);
    assert_eq!(score(&t.pts_for_match_tie), 0.5f64);

    let t = Tournament::decode(with("pts_for_match_win", text("many"))).unwrap();
    assert_eq!(score(&t.pts_for_match_win), 0.0f64);
}

#[test]
fn tournament_type_forms() {
    let t = Tournament::decode(with("tournament_type", text("double_elimination"))).unwrap();
    assert_eq!(t.tournament_type, TournamentType::DoubleElimination);
    let t = Tournament::decode(with("tournament_type", text("knockout"))).unwrap();
    assert_eq!(t.tournament_type, TournamentType::SingleElimination);
    let t = Tournament::decode(with("tournament_type", Json::Null)).unwrap();
    assert_eq!(t.tournament_type, TournamentType::SingleElimination);
}

#[test]
fn tournament_type_round_trips() {
    for t in [
        TournamentType::SingleElimination,
        TournamentType::DoubleElimination,
        TournamentType::RoundRobin,
        TournamentType::Swiss,
    ] {
        assert_eq!(TournamentType::from_str(t.to_get_param()), Ok(t));
        assert_eq!(TournamentType::from_str(&t.to_string()), Ok(t));
    }
    assert_eq!(TournamentType::from_str("round_robin"), Ok(TournamentType::RoundRobin));
    assert_eq!(TournamentType::from_str("round robin"), Ok(TournamentType::RoundRobin));
    assert_eq!(TournamentType::from_str("Swiss"), Err(()));
    assert_eq!(TournamentType::from_str(""), Err(()));
}

#[test]
fn tournament_type_texts() {
    assert_eq!(TournamentType::DoubleElimination.to_get_param(), "double_elimination");
    assert_eq!(TournamentType::DoubleElimination.to_string(), "double elimination");
    assert_eq!(TournamentType::RoundRobin.to_get_param(), "round_robin");
    assert_eq!(TournamentType::Swiss.to_string(), "swiss");
}

#[test]
fn other_enum_texts() {
    assert_eq!(RankedBy::MatchWins.to_string(), "match wins");
    assert_eq!(RankedBy::PointsDifference.to_string(), "points difference");
    assert_eq!(RankedBy::Custom.to_string(), "custom");
    assert_eq!(TournamentState::All.to_string(), "all");
    assert_eq!(TournamentState::InProgress.to_string(), "in_progress");
    assert_eq!(TournamentState::Ended.to_string(), "ended");
    assert_eq!(Reason::ExpectedObject.to_str(), "Expected object");
    assert_eq!(Reason::AbsentKey.to_str(), "Unexpected absent key");
}

#[test]
fn tournament_id_texts() {
    let url = TournamentId::Url("sub".to_string(), "cup_2015".to_string());
    assert_eq!(url.to_string(), "sub-cup_2015");
    assert_eq!(TournamentId::Id(1086875).to_string(), "1086875");
    assert_eq!(TournamentId::Id(0).to_string(), "0");
    assert_eq!(TournamentId::Id(10).to_string(), "10");
    assert_eq!(TournamentId::Id(u64::MAX).to_string(), "18446744073709551615");
}

#[test]
fn mixed_array_keeps_well_formed_records_in_order() {
    let first = with("id", Json::Number(Number::PosInt(1)));
    let broken = Json::Object(vec![member("tournaments", Json::Null)]);
    let second = with("id", Json::Number(Number::PosInt(2)));
    let index = Index::decode(Json::Array(vec![first, broken, second]));
    assert_eq!(index.tournaments.len(), 2);
    assert_eq!(index.tournaments[0].id, 1);
    assert_eq!(index.tournaments[1].id, 2);
}

#[test]
fn non_array_gives_no_tournaments() {
    assert!(Index::decode(wrap(sample_members())).tournaments.is_empty());
    assert!(Index::decode(text("[]")).tournaments.is_empty());
    assert!(Index::decode(Json::Array(vec![])).tournaments.is_empty());
}

#[test]
fn array_of_failures_gives_no_tournaments() {
    let index = Index::decode(Json::Array(vec![Json::Null, text("x"), without("id")]));
    assert!(index.tournaments.is_empty());
}
