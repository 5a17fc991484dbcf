//! The tournament record and its decoding from a JSON payload.
use vstd::prelude::*;
use crate::json::{Json, has_key, member, key_index, find_key};
use crate::kinds::{TournamentType, type_named};
use crate::time::{Timestamp, rfc3339_of, parse_rfc3339};

verus! {

/// Why a payload could not be decoded.
#[derive(Debug, Clone, Copy, PartialEq, Eq, Structural)]
pub enum Reason {
    /// A value that has to be an object is not one.
    ExpectedObject,
    /// A member that has to be there is not.
    AbsentKey,
    /// A mandatory timestamp is not RFC 3339 text.
    InvalidTimestamp,
}

impl Reason {
    pub open spec fn text(self) -> Seq<char> {
        match self {
            Reason::ExpectedObject => "Expected object"@,
            Reason::AbsentKey => "Unexpected absent key"@,
            Reason::InvalidTimestamp => "Expected RFC 3339 timestamp"@,
        }
    }

    pub fn to_str(&self) -> (r: &'static str)
        ensures
            r@ == self.text(),
    {
        match self {
            Reason::ExpectedObject => "Expected object",
            Reason::AbsentKey => "Unexpected absent key",
            Reason::InvalidTimestamp => "Expected RFC 3339 timestamp",
        }
    }
}

/// A decoding failure, with the value that caused it.
#[derive(Debug)]
pub enum Error {
    Decode(Reason, Json),
}

/// The number of members that a tournament object must have.
pub const FIELD_COUNT: usize = 50;

/// The required members are listed by `field_key`: the flags come first, up
/// to this position,
pub const FLAGS_END: usize = 24;

/// then the counts, up to this one,
pub const COUNTS_END: usize = 31;

/// then the free texts and the scores (which the service sends as text), up
/// to this one; the two mandatory timestamps and the tournament type close
/// the list.
pub const SCORES_END: usize = 47;

/// The name of the `i`-th member that a tournament object must have.
pub open spec fn field_key(i: int) -> Seq<char> {
    if i == 0 {
        "accept_attachments"@
    } else if i == 1 {
        "allow_participant_match_reporting"@
    } else if i == 2 {
        "anonymous_voting"@
    } else if i == 3 {
        "created_by_api"@
    } else if i == 4 {
        "credit_capped"@
    } else if i == 5 {
        "group_stages_enabled"@
    } else if i == 6 {
        "hide_forum"@
    } else if i == 7 {
        "hide_seeds"@
    } else if i == 8 {
        "hold_third_place_match"@
    } else if i == 9 {
        "notify_users_when_matches_open"@
    } else if i == 10 {
        "notify_users_when_the_tournament_ends"@
    } else if i == 11 {
        "open_signup"@
    } else if i == 12 {
        "private"@
    } else if i == 13 {
        "quick_advance"@
    } else if i == 14 {
        "require_score_agreement"@
    } else if i == 15 {
        "sequential_pairings"@
    } else if i == 16 {
        "show_rounds"@
    } else if i == 17 {
        "teams"@
    } else if i == 18 {
        "review_before_finalizing"@
    } else if i == 19 {
        "accepting_predictions"@
    } else if i == 20 {
        "participants_locked"@
    } else if i == 21 {
        "participants_swappable"@
    } else if i == 22 {
        "team_convertable"@
    } else if i == 23 {
        "group_stages_were_started"@
    } else if i == 24 {
        "game_id"@
    } else if i == 25 {
        "id"@
    } else if i == 26 {
        "max_predictions_per_user"@
    } else if i == 27 {
        "participants_count"@
    } else if i == 28 {
        "prediction_method"@
    } else if i == 29 {
        "progress_meter"@
    } else if i == 30 {
        "swiss_rounds"@
    } else if i == 31 {
        "description"@
    } else if i == 32 {
        "name"@
    } else if i == 33 {
        "url"@
    } else if i == 34 {
        "description_source"@
    } else if i == 35 {
        "full_challonge_url"@
    } else if i == 36 {
        "live_image_url"@
    } else if i == 37 {
        "game_name"@
    } else if i == 38 {
        "pts_for_bye"@
    } else if i == 39 {
        "pts_for_game_tie"@
    } else if i == 40 {
        "pts_for_game_win"@
    } else if i == 41 {
        "pts_for_match_tie"@
    } else if i == 42 {
        "pts_for_match_win"@
    } else if i == 43 {
        "rr_pts_for_game_tie"@
    } else if i == 44 {
        "rr_pts_for_game_win"@
    } else if i == 45 {
        "rr_pts_for_match_tie"@
    } else if i == 46 {
        "rr_pts_for_match_win"@
    } else if i == 47 {
        "created_at"@
    } else if i == 48 {
        "updated_at"@
    } else {
        "tournament_type"@
    }
}

fn field_name(i: usize) -> (r: &'static str)
    requires
        i < FIELD_COUNT,
    ensures
        r@ == field_key(i as int),
{
    match i {
        0 => "accept_attachments",
        1 => "allow_participant_match_reporting",
        2 => "anonymous_voting",
        3 => "created_by_api",
        4 => "credit_capped",
        5 => "group_stages_enabled",
        6 => "hide_forum",
        7 => "hide_seeds",
        8 => "hold_third_place_match",
        9 => "notify_users_when_matches_open",
        10 => "notify_users_when_the_tournament_ends",
        11 => "open_signup",
        12 => "private",
        13 => "quick_advance",
        14 => "require_score_agreement",
        15 => "sequential_pairings",
        16 => "show_rounds",
        17 => "teams",
        18 => "review_before_finalizing",
        19 => "accepting_predictions",
        20 => "participants_locked",
        21 => "participants_swappable",
        22 => "team_convertable",
        23 => "group_stages_were_started",
        24 => "game_id",
        25 => "id",
        26 => "max_predictions_per_user",
        27 => "participants_count",
        28 => "prediction_method",
        29 => "progress_meter",
        30 => "swiss_rounds",
        31 => "description",
        32 => "name",
        33 => "url",
        34 => "description_source",
        35 => "full_challonge_url",
        36 => "live_image_url",
        37 => "game_name",
        38 => "pts_for_bye",
        39 => "pts_for_game_tie",
        40 => "pts_for_game_win",
        41 => "pts_for_match_tie",
        42 => "pts_for_match_win",
        43 => "rr_pts_for_game_tie",
        44 => "rr_pts_for_game_win",
        45 => "rr_pts_for_match_tie",
        46 => "rr_pts_for_match_win",
        47 => "created_at",
        48 => "updated_at",
        _ => "tournament_type",
    }
}

/// Whether every member that a tournament object must have is there.
pub open spec fn all_present(f: Seq<(String, Json)>) -> bool {
    forall|i: int| 0 <= i < FIELD_COUNT ==> has_key(f, #[trigger] field_key(i))
}

/// Whether the `i`-th required member is the first one that `f` lacks.
pub open spec fn first_absent(f: Seq<(String, Json)>, i: int) -> bool {
    &&& 0 <= i < FIELD_COUNT
    &&& !has_key(f, field_key(i))
    &&& forall|j: int| 0 <= j < i ==> has_key(f, #[trigger] field_key(j))
}

/// A flag member: its boolean, `false` where it holds something else.
pub open spec fn flag(f: Seq<(String, Json)>, key: Seq<char>) -> bool {
    match member(f, key) {
        Some(v) => match v.bool_value() {
            Some(b) => b,
            None => false,
        },
        None => false,
    }
}

/// A count member: its unsigned integer, `0` where it holds something else.
pub open spec fn count(f: Seq<(String, Json)>, key: Seq<char>) -> u64 {
    match member(f, key) {
        Some(v) => match v.u64_value() {
            Some(n) => n,
            None => 0,
        },
        None => 0,
    }
}

/// A text member: its string, empty where it holds something else.
pub open spec fn text(f: Seq<(String, Json)>, key: Seq<char>) -> Seq<char> {
    match member(f, key) {
        Some(v) => match v.text_value() {
            Some(s) => s,
            None => Seq::empty(),
        },
        None => Seq::empty(),
    }
}

/// A timestamp member: the instant its RFC 3339 text denotes, if it is such text.
pub open spec fn stamp(f: Seq<(String, Json)>, key: Seq<char>) -> Option<Timestamp> {
    match member(f, key) {
        Some(v) => match v.text_value() {
            Some(s) => rfc3339_of(s),
            None => None,
        },
        None => None,
    }
}

/// The tournament type that the text of `key` names, single elimination where
/// it names none.
pub open spec fn kind(f: Seq<(String, Json)>, key: Seq<char>) -> TournamentType {
    match type_named(text(f, key)) {
        Some(t) => t,
        None => TournamentType::SingleElimination,
    }
}

/// Whether a tournament object decodes: every required member is there and
/// both mandatory timestamps are RFC 3339 text.
pub open spec fn fields_decode(f: Seq<(String, Json)>) -> bool {
    &&& all_present(f)
    &&& stamp(f, "created_at"@) is Some
    &&& stamp(f, "updated_at"@) is Some
}

/// The members of the tournament object that a payload wraps, if it wraps one.
pub open spec fn fields_of(v: Json) -> Option<Seq<(String, Json)>> {
    match v {
        Json::Object(o) => match member(o@, "tournament"@) {
            Some(Json::Object(f)) => Some(f@),
            _ => None,
        },
        _ => None,
    }
}

/// Whether a payload decodes to a tournament.
pub open spec fn decodes(v: Json) -> bool {
    fields_of(v) matches Some(f) && fields_decode(f)
}

/// Whether `bad` is the string `key`.
pub open spec fn names(bad: Json, key: Seq<char>) -> bool {
    bad.text_value() == Some(key)
}

/// The failure of a tournament object that does not decode.
pub open spec fn fields_fail_with(f: Seq<(String, Json)>, reason: Reason, bad: Json) -> bool {
    if !all_present(f) {
        reason == Reason::AbsentKey && names(bad, field_key(choose|i: int| first_absent(f, i)))
    } else if stamp(f, "created_at"@) is None {
        reason == Reason::InvalidTimestamp && member(f, "created_at"@) == Some(bad)
    } else if stamp(f, "updated_at"@) is None {
        reason == Reason::InvalidTimestamp && member(f, "updated_at"@) == Some(bad)
    } else {
        false
    }
}

/// The failure of a payload that does not decode.
pub open spec fn fails_with(v: Json, e: Error) -> bool {
    let Error::Decode(reason, bad) = e;
    match v {
        Json::Object(o) => match member(o@, "tournament"@) {
            None => reason == Reason::AbsentKey && names(bad, "tournament"@),
            Some(inner) => match inner {
                Json::Object(f) => fields_fail_with(f@, reason, bad),
                _ => reason == Reason::ExpectedObject && bad == inner,
            },
        },
        _ => reason == Reason::ExpectedObject && bad == v,
    }
}

/// Challonge `Tournament` definition.
#[derive(Debug, Clone)]
pub struct Tournament {
    pub accept_attachments: bool,
    pub allow_participant_match_reporting: bool,
    pub anonymous_voting: bool,
    pub created_at: Timestamp,
    pub created_by_api: bool,
    pub credit_capped: bool,
    pub description: String,
    pub game_id: u64,
    pub group_stages_enabled: bool,
    pub hide_forum: bool,
    pub hide_seeds: bool,
    pub hold_third_place_match: bool,
    pub id: u64,
    pub max_predictions_per_user: u64,
    pub name: String,
    pub notify_users_when_matches_open: bool,
    pub notify_users_when_the_tournament_ends: bool,
    pub open_signup: bool,
    pub participants_count: u64,
    pub prediction_method: u64,
    pub private: bool,
    pub progress_meter: u64,
    /// The score as the service sends it, as text; empty where the member is not a string.
    pub pts_for_bye: String,
    /// The score as the service sends it, as text; empty where the member is not a string.
    pub pts_for_game_tie: String,
    /// The score as the service sends it, as text; empty where the member is not a string.
    pub pts_for_game_win: String,
    /// The score as the service sends it, as text; empty where the member is not a string.
    pub pts_for_match_tie: String,
    /// The score as the service sends it, as text; empty where the member is not a string.
    pub pts_for_match_win: String,
    pub quick_advance: bool,
    pub require_score_agreement: bool,
    /// The score as the service sends it, as text; empty where the member is not a string.
    pub rr_pts_for_game_tie: String,
    /// The score as the service sends it, as text; empty where the member is not a string.
    pub rr_pts_for_game_win: String,
    /// The score as the service sends it, as text; empty where the member is not a string.
    pub rr_pts_for_match_tie: String,
    /// The score as the service sends it, as text; empty where the member is not a string.
    pub rr_pts_for_match_win: String,
    pub sequential_pairings: bool,
    pub show_rounds: bool,
    /// Present once the tournament has begun.
    pub started_at: Option<Timestamp>,
    pub swiss_rounds: u64,
    pub teams: bool,
    pub tournament_type: TournamentType,
    pub updated_at: Timestamp,
    pub url: String,
    pub description_source: String,
    pub full_challonge_url: String,
    pub live_image_url: String,
    pub review_before_finalizing: bool,
    pub accepting_predictions: bool,
    pub participants_locked: bool,
    pub game_name: String,
    pub participants_swappable: bool,
    pub team_convertable: bool,
    pub group_stages_were_started: bool,
}

/// Whether `t` is what the tournament object `f` decodes to: each member
/// read with its coercion.
#[verifier::opaque]
pub open spec fn decoded_from(t: Tournament, f: Seq<(String, Json)>) -> bool {
    &&& t.accept_attachments == flag(f, "accept_attachments"@)
    &&& t.allow_participant_match_reporting == flag(f, "allow_participant_match_reporting"@)
    &&& t.anonymous_voting == flag(f, "anonymous_voting"@)
    &&& stamp(f, "created_at"@) == Some(t.created_at)
    &&& t.created_by_api == flag(f, "created_by_api"@)
    &&& t.credit_capped == flag(f, "credit_capped"@)
    &&& t.description@ == text(f, "description"@)
    &&& t.game_id == count(f, "game_id"@)
    &&& t.group_stages_enabled == flag(f, "group_stages_enabled"@)
    &&& t.hide_forum == flag(f, "hide_forum"@)
    &&& t.hide_seeds == flag(f, "hide_seeds"@)
    &&& t.hold_third_place_match == flag(f, "hold_third_place_match"@)
    &&& t.id == count(f, "id"@)
    &&& t.max_predictions_per_user == count(f, "max_predictions_per_user"@)
    &&& t.name@ == text(f, "name"@)
    &&& t.notify_users_when_matches_open == flag(f, "notify_users_when_matches_open"@)
    &&& t.notify_users_when_the_tournament_ends == flag(f, "notify_users_when_the_tournament_ends"@)
    &&& t.open_signup == flag(f, "open_signup"@)
    &&& t.participants_count == count(f, "participants_count"@)
    &&& t.prediction_method == count(f, "prediction_method"@)
    &&& t.private == flag(f, "private"@)
    &&& t.progress_meter == count(f, "progress_meter"@)
    &&& t.pts_for_bye@ == text(f, "pts_for_bye"@)
    &&& t.pts_for_game_tie@ == text(f, "pts_for_game_tie"@)
    &&& t.pts_for_game_win@ == text(f, "pts_for_game_win"@)
    &&& t.pts_for_match_tie@ == text(f, "pts_for_match_tie"@)
    &&& t.pts_for_match_win@ == text(f, "pts_for_match_win"@)
    &&& t.quick_advance == flag(f, "quick_advance"@)
    &&& t.require_score_agreement == flag(f, "require_score_agreement"@)
    &&& t.rr_pts_for_game_tie@ == text(f, "rr_pts_for_game_tie"@)
    &&& t.rr_pts_for_game_win@ == text(f, "rr_pts_for_game_win"@)
    &&& t.rr_pts_for_match_tie@ == text(f, "rr_pts_for_match_tie"@)
    &&& t.rr_pts_for_match_win@ == text(f, "rr_pts_for_match_win"@)
    &&& t.sequential_pairings == flag(f, "sequential_pairings"@)
    &&& t.show_rounds == flag(f, "show_rounds"@)
    &&& t.started_at == stamp(f, "started_at"@)
    &&& t.swiss_rounds == count(f, "swiss_rounds"@)
    &&& t.teams == flag(f, "teams"@)
    &&& t.tournament_type == kind(f, "tournament_type"@)
    &&& stamp(f, "updated_at"@) == Some(t.updated_at)
    &&& t.url@ == text(f, "url"@)
    &&& t.description_source@ == text(f, "description_source"@)
    &&& t.full_challonge_url@ == text(f, "full_challonge_url"@)
    &&& t.live_image_url@ == text(f, "live_image_url"@)
    &&& t.review_before_finalizing == flag(f, "review_before_finalizing"@)
    &&& t.accepting_predictions == flag(f, "accepting_predictions"@)
    &&& t.participants_locked == flag(f, "participants_locked"@)
    &&& t.game_name@ == text(f, "game_name"@)
    &&& t.participants_swappable == flag(f, "participants_swappable"@)
    &&& t.team_convertable == flag(f, "team_convertable"@)
    &&& t.group_stages_were_started == flag(f, "group_stages_were_started"@)
}

/// Whether the payload `v` decodes to `t`.
pub open spec fn decodes_to(v: Json, t: Tournament) -> bool {
    decodes(v) && decoded_from(t, fields_of(v)->Some_0)
}

fn flag_at(f: &Vec<(String, Json)>, key: &str) -> (r: bool)
    ensures
        r == flag(f@, key@),
{
    match find_key(f, key) {
        Some(i) => match f[i].1.as_bool() {
            Some(b) => b,
            None => false,
        },
        None => false,
    }
}

fn count_at(f: &Vec<(String, Json)>, key: &str) -> (r: u64)
    ensures
        r == count(f@, key@),
{
    match find_key(f, key) {
        Some(i) => match f[i].1.as_u64() {
            Some(n) => n,
            None => 0,
        },
        None => 0,
    }
}

fn text_at(f: &Vec<(String, Json)>, key: &str) -> (r: String)
    ensures
        r@ == text(f@, key@),
{
    match find_key(f, key) {
        Some(i) => match f[i].1.as_str() {
            Some(s) => s.to_owned(),
            None => String::new(),
        },
        None => String::new(),
    }
}

fn stamp_at(f: &Vec<(String, Json)>, key: &str) -> (r: Option<Timestamp>)
    ensures
        r == stamp(f@, key@),
{
    match find_key(f, key) {
        Some(i) => match f[i].1.as_str() {
            Some(s) => parse_rfc3339(s),
            None => None,
        },
        None => None,
    }
}

fn kind_at(f: &Vec<(String, Json)>, key: &str) -> (r: TournamentType)
    ensures
        r == kind(f@, key@),
{
    let s = text_at(f, key);
    match TournamentType::from_str(s.as_str()) {
        Ok(t) => t,
        Err(()) => TournamentType::SingleElimination,
    }
}

/// The error for a member `key` that is not there.
fn absent(key: &str) -> (e: Error)
    ensures
        e matches Error::Decode(reason, bad) && reason == Reason::AbsentKey && names(bad, key@),
{
    Error::Decode(Reason::AbsentKey, Json::String(key.to_owned()))
}

/// Hands over the members of `value`, which has to be an object.
fn into_map(value: Json) -> (r: Result<Vec<(String, Json)>, Error>)
    ensures
        match value {
            Json::Object(o) => r matches Ok(m) && m == o,
            _ => r matches Err(Error::Decode(reason, bad)) && reason == Reason::ExpectedObject && bad
                == value,
        },
{
    match value {
        Json::Object(o) => Ok(o),
        other => Err(Error::Decode(Reason::ExpectedObject, other)),
    }
}

/// Takes the first member named `key` out of `map`; its absence is an error.
fn remove(map: &mut Vec<(String, Json)>, key: &str) -> (r: Result<Json, Error>)
    ensures
        match member(old(map)@, key@) {
            Some(v) => r matches Ok(x) && x == v && final(map)@ == old(map)@.remove(
                key_index(old(map)@, key@),
            ),
            None => r matches Err(e) && e matches Error::Decode(reason, bad) && reason
                == Reason::AbsentKey && names(bad, key@) && final(map)@ == old(map)@,
        },
{
    match find_key(map, key) {
        Some(i) => Ok(map.remove(i).1),
        None => Err(absent(key)),
    }
}

/// Fails with the first required member that `f` lacks, if any.
fn check_present(f: &Vec<(String, Json)>) -> (r: Result<(), Error>)
    ensures
        r is Ok <==> all_present(f@),
        r matches Err(e) ==> fields_fail_with(f@, e->Decode_0, e->Decode_1),
{
    let mut k: usize = 0;
    while k < FIELD_COUNT
        invariant
            forall|j: int| 0 <= j < k ==> has_key(f@, #[trigger] field_key(j)),
        decreases FIELD_COUNT - k,
    {
        let name = field_name(k);
        if find_key(f, name).is_none() {
            assert(first_absent(f@, k as int));
            let ghost c = choose|c: int| first_absent(f@, c);
            assert(c == k) by {
                if c < k {
                    assert(has_key(f@, field_key(c)));
                } else if c > k {
                    assert(has_key(f@, field_key(k as int)));
                }
            }
            return Err(absent(name));
        }
        k = k + 1;
    }
    Ok(())
}

/// Decodes the members of a tournament object.
fn decode_fields(tv: Vec<(String, Json)>) -> (r: Result<Tournament, Error>)
    ensures
        match r {
            Ok(t) => fields_decode(tv@) && decoded_from(t, tv@),
            Err(e) => !fields_decode(tv@) && fields_fail_with(tv@, e->Decode_0, e->Decode_1),
        },
{
    match check_present(&tv) {
        Ok(()) => {},
        Err(e) => {
            return Err(e);
        },
    }
    let created_at = match stamp_at(&tv, "created_at") {
        Some(t) => t,
        None => {
            assert(has_key(tv@, field_key(47)));
            let mut tv = tv;
            return match remove(&mut tv, "created_at") {
                Ok(bad) => Err(Error::Decode(Reason::InvalidTimestamp, bad)),
                Err(e) => Err(e),
            };
        },
    };
    let updated_at = match stamp_at(&tv, "updated_at") {
        Some(t) => t,
        None => {
            assert(has_key(tv@, field_key(48)));
            let mut tv = tv;
            return match remove(&mut tv, "updated_at") {
                Ok(bad) => Err(Error::Decode(Reason::InvalidTimestamp, bad)),
                Err(e) => Err(e),
            };
        },
    };
    Ok(read_fields(&tv, created_at, updated_at))
}

impl Tournament {
    /// Decodes a payload of the form `{"tournament": {...}}`.
    pub fn decode(value: Json) -> (r: Result<Tournament, Error>)
        ensures
            match r {
                Ok(t) => decodes_to(value, t),
                Err(e) => !decodes(value) && fails_with(value, e),
            },
    {
        let mut outer = match into_map(value) {
            Ok(m) => m,
            Err(e) => {
                return Err(e);
            },
        };
        let inner = match remove(&mut outer, "tournament") {
            Ok(v) => v,
            Err(e) => {
                return Err(e);
            },
        };
        match into_map(inner) {
            Ok(tv) => decode_fields(tv),
            Err(e) => Err(e),
        }
    }
}

/// Reads every member of a tournament object with its coercion.
fn read_fields(tv: &Vec<(String, Json)>, created_at: Timestamp, updated_at: Timestamp) -> (t: Tournament)
    requires
        stamp(tv@, "created_at"@) == Some(created_at),
        stamp(tv@, "updated_at"@) == Some(updated_at),
    ensures
        decoded_from(t, tv@),
{
    reveal(decoded_from);
    Tournament {
        accept_attachments: flag_at(tv, "accept_attachments"),
        allow_participant_match_reporting: flag_at(tv, "allow_participant_match_reporting"),
        anonymous_voting: flag_at(tv, "anonymous_voting"),
        created_at: created_at,
        created_by_api: flag_at(tv, "created_by_api"),
        credit_capped: flag_at(tv, "credit_capped"),
        description: text_at(tv, "description"),
        game_id: count_at(tv, "game_id"),
        group_stages_enabled: flag_at(tv, "group_stages_enabled"),
        hide_forum: flag_at(tv, "hide_forum"),
        hide_seeds: flag_at(tv, "hide_seeds"),
        hold_third_place_match: flag_at(tv, "hold_third_place_match"),
        id: count_at(tv, "id"),
        max_predictions_per_user: count_at(tv, "max_predictions_per_user"),
        name: text_at(tv, "name"),
        notify_users_when_matches_open: flag_at(tv, "notify_users_when_matches_open"),
        notify_users_when_the_tournament_ends: flag_at(tv, "notify_users_when_the_tournament_ends"),
        open_signup: flag_at(tv, "open_signup"),
        participants_count: count_at(tv, "participants_count"),
        prediction_method: count_at(tv, "prediction_method"),
        private: flag_at(tv, "private"),
        progress_meter: count_at(tv, "progress_meter"),
        pts_for_bye: text_at(tv, "pts_for_bye"),
        pts_for_game_tie: text_at(tv, "pts_for_game_tie"),
        pts_for_game_win: text_at(tv, "pts_for_game_win"),
        pts_for_match_tie: text_at(tv, "pts_for_match_tie"),
        pts_for_match_win: text_at(tv, "pts_for_match_win"),
        quick_advance: flag_at(tv, "quick_advance"),
        require_score_agreement: flag_at(tv, "require_score_agreement"),
        rr_pts_for_game_tie: text_at(tv, "rr_pts_for_game_tie"),
        rr_pts_for_game_win: text_at(tv, "rr_pts_for_game_win"),
        rr_pts_for_match_tie: text_at(tv, "rr_pts_for_match_tie"),
        rr_pts_for_match_win: text_at(tv, "rr_pts_for_match_win"),
        sequential_pairings: flag_at(tv, "sequential_pairings"),
        show_rounds: flag_at(tv, "show_rounds"),
        started_at: stamp_at(tv, "started_at"),
        swiss_rounds: count_at(tv, "swiss_rounds"),
        teams: flag_at(tv, "teams"),
        tournament_type: kind_at(tv, "tournament_type"),
        updated_at: updated_at,
        url: text_at(tv, "url"),
        description_source: text_at(tv, "description_source"),
        full_challonge_url: text_at(tv, "full_challonge_url"),
        live_image_url: text_at(tv, "live_image_url"),
        review_before_finalizing: flag_at(tv, "review_before_finalizing"),
        accepting_predictions: flag_at(tv, "accepting_predictions"),
        participants_locked: flag_at(tv, "participants_locked"),
        game_name: text_at(tv, "game_name"),
        participants_swappable: flag_at(tv, "participants_swappable"),
        team_convertable: flag_at(tv, "team_convertable"),
        group_stages_were_started: flag_at(tv, "group_stages_were_started"),
    }
}

/// The payloads among `items` that decode, in their order.
pub open spec fn decodable(items: Seq<Json>) -> Seq<Json> {
    items.filter(|v: Json| decodes(v))
}

/// Whether `ts` are the records that the payloads among `items` that decode
/// decode to, in their order.
pub open spec fn decoded_list(items: Seq<Json>, ts: Seq<Tournament>) -> bool {
    &&& ts.len() == decodable(items).len()
    &&& forall|i: int| 0 <= i < ts.len() ==> decodes_to(#[trigger] decodable(items)[i], ts[i])
}

/// Decodes each payload of an array, leaving out those that fail.
fn decode_tournaments(value: Json) -> (r: Vec<Tournament>)
    ensures
        match value {
            Json::Array(items) => decoded_list(items@, r@),
            _ => r@.len() == 0,
        },
{
    let mut ts: Vec<Tournament> = Vec::new();
    match value {
        Json::Array(items) => {
            let ghost all = items@;
            let ghost mut k: int = 0;
            let mut rest = items;
            assert(all.subrange(0, 0) =~= Seq::<Json>::empty());
            while rest.len() > 0
                invariant
                    0 <= k <= all.len(),
                    rest@ == all.subrange(k, all.len() as int),
                    decoded_list(all.subrange(0, k), ts@),
                decreases rest@.len(),
            {
                let item = rest.remove(0);
                let ghost done = all.subrange(0, k);
                proof {
                    assert(item == all[k]);
                    assert(all.subrange(0, k + 1) =~= done.push(item));
                    done.lemma_filter_push(item, |v: Json| decodes(v));
                    assert(rest@ =~= all.subrange(k + 1, all.len() as int));
                }
                let ghost before = ts@;
                match Tournament::decode(item) {
                    Ok(t) => {
                        ts.push(t);
                        assert(decodable(all.subrange(0, k + 1)) == decodable(done).push(item));
                        assert forall|i: int| 0 <= i < ts@.len() implies decodes_to(
                            #[trigger] decodable(all.subrange(0, k + 1))[i],
                            ts@[i],
                        ) by {
                            if i < before.len() {
                                assert(decodable(done)[i] == decodable(all.subrange(0, k + 1))[i]);
                            }
                        }
                    },
                    Err(_) => {
                        assert(decodable(all.subrange(0, k + 1)) == decodable(done));
                    },
                }
                proof {
                    k = k + 1;
                }
            }
            assert(all.subrange(0, k) =~= all);
        },
        _ => {},
    }
    ts
}

/// A list of tournaments of the account/organization.
#[derive(Debug, Clone)]
pub struct Index {
    pub tournaments: Vec<Tournament>,
}

impl Index {
    /// Decodes an array of payloads of the form `{"tournament": {...}}`; the
    /// payloads that do not decode are left out, and a value that is not an
    /// array gives no tournament.
    pub fn decode(value: Json) -> (r: Index)
        ensures
            match value {
                Json::Array(items) => decoded_list(items@, r.tournaments@),
                _ => r.tournaments@.len() == 0,
            },
    {
        Index { tournaments: decode_tournaments(value) }
    }
}

/// Whether every required member of `f` holds a value of its own kind: a
/// boolean for a flag, an unsigned integer for a count, a string for a free
/// text or a score, RFC 3339 text for a mandatory timestamp, and the name of a
/// tournament type.
pub open spec fn well_typed(f: Seq<(String, Json)>) -> bool {
    &&& forall|i: int|
        0 <= i < FLAGS_END ==> (member(f, #[trigger] field_key(i)) matches Some(x)
            && x.bool_value() is Some)
    &&& forall|i: int|
        FLAGS_END <= i < COUNTS_END ==> (member(f, #[trigger] field_key(i)) matches Some(x)
            && x.u64_value() is Some)
    &&& forall|i: int|
        COUNTS_END <= i < SCORES_END ==> (member(f, #[trigger] field_key(i)) matches Some(x)
            && x.text_value() is Some)
    &&& stamp(f, "created_at"@) is Some
    &&& stamp(f, "updated_at"@) is Some
    &&& type_named(text(f, "tournament_type"@)) is Some
    &&& member(f, "tournament_type"@) matches Some(x) && x.text_value() is Some
}

/// Whether `x` is of another kind than the `i`-th required member asks for.
pub open spec fn mistyped(i: int, x: Json) -> bool {
    if i < FLAGS_END {
        x.bool_value() is None
    } else if i < COUNTS_END {
        x.u64_value() is None
    } else {
        x.text_value() is None
    }
}

proof fn lemma_member_has_key(f: Seq<(String, Json)>, key: Seq<char>)
    ensures
        member(f, key) is Some <==> has_key(f, key),
{
}

/// A payload whose required members all hold values of their own kind
/// decodes, and no member falls back to its default: each flag, count, text
/// and score is the value the member holds, and the tournament type is the one
/// its text names.
pub proof fn lemma_well_typed_payload_decodes(v: Json)
    requires
        fields_of(v) matches Some(f) && well_typed(f),
    ensures
        decodes(v),
        forall|i: int|
            0 <= i < FLAGS_END ==> member(fields_of(v)->Some_0, #[trigger] field_key(i))
                == Some(Json::Bool(flag(fields_of(v)->Some_0, field_key(i)))),
        forall|i: int|
            FLAGS_END <= i < COUNTS_END ==> member(fields_of(v)->Some_0, #[trigger] field_key(i))->Some_0.u64_value()
                == Some(count(fields_of(v)->Some_0, field_key(i))),
        forall|i: int|
            COUNTS_END <= i < SCORES_END ==> member(fields_of(v)->Some_0, #[trigger] field_key(i))->Some_0.text_value()
                == Some(text(fields_of(v)->Some_0, field_key(i))),
        type_named(text(fields_of(v)->Some_0, "tournament_type"@)) == Some(
            kind(fields_of(v)->Some_0, "tournament_type"@),
        ),
{
    let f = fields_of(v)->Some_0;
    assert forall|i: int| 0 <= i < FIELD_COUNT implies has_key(f, #[trigger] field_key(i)) by {
        lemma_member_has_key(f, field_key(i));
        if i < COUNTS_END {
        } else if i < SCORES_END {
        } else if i == 47 {
        } else if i == 48 {
        } else {
        }
    }
    assert forall|i: int| 0 <= i < FLAGS_END implies member(f, #[trigger] field_key(i)) == Some(
        Json::Bool(flag(f, field_key(i))),
    ) by {
        let x = member(f, field_key(i))->Some_0;
        assert(x.bool_value() is Some);
    }
}

/// A required member, other than the mandatory timestamps and the tournament
/// type, that holds a value of the wrong kind does not stop a payload from
/// decoding: that member reads as its default (`false`, `0`, or empty text,
/// which stands for a zero score) and every other member reads as before.
pub proof fn lemma_mistyped_member_defaults(v: Json, w: Json, i: int)
    requires
        decodes(v),
        fields_of(w) is Some,
        0 <= i < SCORES_END,
        forall|j: int|
            0 <= j < FIELD_COUNT && j != i ==> member(fields_of(w)->Some_0, #[trigger] field_key(j))
                == member(fields_of(v)->Some_0, field_key(j)),
        member(fields_of(w)->Some_0, "started_at"@) == member(fields_of(v)->Some_0, "started_at"@),
        member(fields_of(w)->Some_0, field_key(i)) matches Some(x) && mistyped(i, x),
    ensures
        decodes(w),
        i < FLAGS_END ==> !flag(fields_of(w)->Some_0, field_key(i)),
        FLAGS_END <= i < COUNTS_END ==> count(fields_of(w)->Some_0, field_key(i)) == 0,
        COUNTS_END <= i ==> text(fields_of(w)->Some_0, field_key(i)) == Seq::<char>::empty(),
        forall|j: int|
            0 <= j < FIELD_COUNT && j != i ==> {
                let g = fields_of(w)->Some_0;
                let f = fields_of(v)->Some_0;
                &&& flag(g, #[trigger] field_key(j)) == flag(f, field_key(j))
                &&& count(g, field_key(j)) == count(f, field_key(j))
                &&& text(g, field_key(j)) == text(f, field_key(j))
                &&& stamp(g, field_key(j)) == stamp(f, field_key(j))
                &&& kind(g, field_key(j)) == kind(f, field_key(j))
            },
        stamp(fields_of(w)->Some_0, "started_at"@) == stamp(fields_of(v)->Some_0, "started_at"@),
{
    let f = fields_of(v)->Some_0;
    let g = fields_of(w)->Some_0;
    assert forall|j: int| 0 <= j < FIELD_COUNT implies has_key(g, #[trigger] field_key(j)) by {
        lemma_member_has_key(f, field_key(j));
        lemma_member_has_key(g, field_key(j));
    }
    assert(member(g, field_key(47)) == member(f, field_key(47)));
    assert(member(g, field_key(48)) == member(f, field_key(48)));
}

/// A payload whose `created_at` or `updated_at` is missing, is not a string,
/// or is not RFC 3339 text does not decode.
pub proof fn lemma_bad_mandatory_timestamp_fails(v: Json, key: Seq<char>)
    requires
        key == "created_at"@ || key == "updated_at"@,
        fields_of(v) matches Some(f) ==> stamp(f, key) is None,
    ensures
        !decodes(v),
{
}

/// A payload that decodes still decodes when its `started_at` is missing, is
/// not a string, or is not RFC 3339 text; the tournament then has no start
/// time.
pub proof fn lemma_bad_start_time_is_absent(v: Json, w: Json, t: Tournament)
    requires
        decodes(v),
        fields_of(w) is Some,
        forall|j: int|
            0 <= j < FIELD_COUNT ==> member(fields_of(w)->Some_0, #[trigger] field_key(j))
                == member(fields_of(v)->Some_0, field_key(j)),
        stamp(fields_of(w)->Some_0, "started_at"@) is None,
    ensures
        decodes(w),
        decodes_to(w, t) ==> t.started_at is None,
{
    let f = fields_of(v)->Some_0;
    let g = fields_of(w)->Some_0;
    assert forall|j: int| 0 <= j < FIELD_COUNT implies has_key(g, #[trigger] field_key(j)) by {
        lemma_member_has_key(f, field_key(j));
        lemma_member_has_key(g, field_key(j));
    }
    assert(member(g, field_key(47)) == member(f, field_key(47)));
    assert(member(g, field_key(48)) == member(f, field_key(48)));
    reveal(decoded_from);
}

/// A tournament whose `tournament_type` names no tournament type is a single
/// elimination one.
pub proof fn lemma_unknown_type_defaults(v: Json, t: Tournament)
    requires
        decodes_to(v, t),
        type_named(text(fields_of(v)->Some_0, "tournament_type"@)) is None,
    ensures
        t.tournament_type == TournamentType::SingleElimination,
{
    reveal(decoded_from);
}

} // verus!
