//! The closed sets of tournament settings and their textual forms.
use vstd::prelude::*;
use crate::json::same_text;

verus! {

/// Tournament ranking order.
#[derive(Debug, Clone, Copy, PartialEq, Eq, Structural)]
pub enum RankedBy {
    MatchWins,
    GameWins,
    PointsScored,
    PointsDifference,
    Custom,
}

impl RankedBy {
    /// The display form of the ranking order.
    pub open spec fn text(self) -> Seq<char> {
        match self {
            RankedBy::MatchWins => "match wins"@,
            RankedBy::GameWins => "game wins"@,
            RankedBy::PointsScored => "points scored"@,
            RankedBy::PointsDifference => "points difference"@,
            RankedBy::Custom => "custom"@,
        }
    }

    pub fn to_string(&self) -> (r: String)
        ensures
            r@ == self.text(),
    {
        let s = match self {
            RankedBy::MatchWins => "match wins",
            RankedBy::GameWins => "game wins",
            RankedBy::PointsScored => "points scored",
            RankedBy::PointsDifference => "points difference",
            RankedBy::Custom => "custom",
        };
        s.to_owned()
    }
}

/// The decimal digit for `d`, which is below ten.
pub open spec fn digit_char(d: nat) -> char {
    if d == 0 {
        '0'
    } else if d == 1 {
        '1'
    } else if d == 2 {
        '2'
    } else if d == 3 {
        '3'
    } else if d == 4 {
        '4'
    } else if d == 5 {
        '5'
    } else if d == 6 {
        '6'
    } else if d == 7 {
        '7'
    } else if d == 8 {
        '8'
    } else {
        '9'
    }
}

/// The decimal numeral of `n`, without leading zeros.
pub open spec fn decimal(n: nat) -> Seq<char>
    decreases n,
{
    if n < 10 {
        seq![digit_char(n)]
    } else {
        decimal(n / 10) + seq![digit_char(n % 10)]
    }
}

fn digit_text(d: u64) -> (r: &'static str)
    requires
        d < 10,
    ensures
        r@ == seq![digit_char(d as nat)],
{
    proof {
        reveal_strlit("0");
        reveal_strlit("1");
        reveal_strlit("2");
        reveal_strlit("3");
        reveal_strlit("4");
        reveal_strlit("5");
        reveal_strlit("6");
        reveal_strlit("7");
        reveal_strlit("8");
        reveal_strlit("9");
    }
    let r = if d == 0 {
        "0"
    } else if d == 1 {
        "1"
    } else if d == 2 {
        "2"
    } else if d == 3 {
        "3"
    } else if d == 4 {
        "4"
    } else if d == 5 {
        "5"
    } else if d == 6 {
        "6"
    } else if d == 7 {
        "7"
    } else if d == 8 {
        "8"
    } else {
        "9"
    };
    assert(r@ =~= seq![digit_char(d as nat)]);
    r
}

/// Appends the decimal numeral of `n` to `out`.
fn push_decimal(n: u64, out: &mut String)
    ensures
        final(out)@ == old(out)@ + decimal(n as nat),
    decreases n,
{
    if n >= 10 {
        push_decimal(n / 10, out);
    }
    out.append(digit_text(n % 10));
    assert(final(out)@ =~= old(out)@ + decimal(n as nat));
}

/// Tournament ID is an integer value or pair of strings (subdomain and tournament url)
#[derive(Debug, Clone, PartialEq)]
pub enum TournamentId {
    Url(String, String),
    Id(u64),
}

impl TournamentId {
    /// The form in which the id addresses a tournament: `subdomain-url`, or
    /// the decimal number.
    pub open spec fn text(self) -> Seq<char> {
        match self {
            TournamentId::Url(subdomain, url) => subdomain@ + "-"@ + url@,
            TournamentId::Id(n) => decimal(n as nat),
        }
    }

    pub fn to_string(&self) -> (r: String)
        ensures
            r@ == self.text(),
    {
        match self {
            TournamentId::Url(subdomain, url) => subdomain.clone().concat("-").concat(url.as_str()),
            TournamentId::Id(n) => {
                let mut out = String::new();
                push_decimal(*n, &mut out);
                assert(out@ =~= decimal(*n as nat));
                out
            },
        }
    }
}

/// A type of a tournament.
#[derive(Debug, Clone, Copy, PartialEq, Eq, Structural)]
pub enum TournamentType {
    SingleElimination,
    DoubleElimination,
    RoundRobin,
    Swiss,
}

/// The tournament type that `s` names, in either its parameter form or its
/// display form.
pub open spec fn type_named(s: Seq<char>) -> Option<TournamentType> {
    if s == "single_elimination"@ || s == "single elimination"@ {
        Some(TournamentType::SingleElimination)
    } else if s == "double_elimination"@ || s == "double elimination"@ {
        Some(TournamentType::DoubleElimination)
    } else if s == "round_robin"@ || s == "round robin"@ {
        Some(TournamentType::RoundRobin)
    } else if s == "swiss"@ {
        Some(TournamentType::Swiss)
    } else {
        None
    }
}

impl TournamentType {
    /// The form used as a request parameter.
    pub open spec fn param(self) -> Seq<char> {
        match self {
            TournamentType::SingleElimination => "single_elimination"@,
            TournamentType::DoubleElimination => "double_elimination"@,
            TournamentType::RoundRobin => "round_robin"@,
            TournamentType::Swiss => "swiss"@,
        }
    }

    /// The display form.
    pub open spec fn text(self) -> Seq<char> {
        match self {
            TournamentType::SingleElimination => "single elimination"@,
            TournamentType::DoubleElimination => "double elimination"@,
            TournamentType::RoundRobin => "round robin"@,
            TournamentType::Swiss => "swiss"@,
        }
    }

    pub fn to_get_param(&self) -> (r: &'static str)
        ensures
            r@ == self.param(),
    {
        match self {
            TournamentType::SingleElimination => "single_elimination",
            TournamentType::DoubleElimination => "double_elimination",
            TournamentType::RoundRobin => "round_robin",
            TournamentType::Swiss => "swiss",
        }
    }

    pub fn to_string(&self) -> (r: String)
        ensures
            r@ == self.text(),
    {
        let s = match self {
            TournamentType::SingleElimination => "single elimination",
            TournamentType::DoubleElimination => "double elimination",
            TournamentType::RoundRobin => "round robin",
            TournamentType::Swiss => "swiss",
        };
        s.to_owned()
    }

    /// Reads a tournament type from its parameter form or its display form.
    pub fn from_str(s: &str) -> (r: Result<TournamentType, ()>)
        ensures
            r matches Ok(t) ==> type_named(s@) == Some(t),
            r is Err <==> type_named(s@) is None,
    {
        if same_text(s, "single_elimination") || same_text(s, "single elimination") {
            Ok(TournamentType::SingleElimination)
        } else if same_text(s, "double_elimination") || same_text(s, "double elimination") {
            Ok(TournamentType::DoubleElimination)
        } else if same_text(s, "round_robin") || same_text(s, "round robin") {
            Ok(TournamentType::RoundRobin)
        } else if same_text(s, "swiss") {
            Ok(TournamentType::Swiss)
        } else {
            Err(())
        }
    }
}

/// Current tournament state.
#[derive(Debug, Clone, Copy, PartialEq, Eq, Structural)]
pub enum TournamentState {
    All,
    Pending,
    InProgress,
    Ended,
}

impl TournamentState {
    /// The form used as a filter value.
    pub open spec fn text(self) -> Seq<char> {
        match self {
            TournamentState::All => "all"@,
            TournamentState::Pending => "pending"@,
            TournamentState::InProgress => "in_progress"@,
            TournamentState::Ended => "ended"@,
        }
    }

    pub fn to_string(&self) -> (r: String)
        ensures
            r@ == self.text(),
    {
        let s = match self {
            TournamentState::All => "all",
            TournamentState::Pending => "pending",
            TournamentState::InProgress => "in_progress",
            TournamentState::Ended => "ended",
        };
        s.to_owned()
    }
}

/// Both textual forms of every tournament type read back as that type.
pub proof fn lemma_type_forms_round_trip(t: TournamentType)
    ensures
        type_named(t.param()) == Some(t),
        type_named(t.text()) == Some(t),
{
    reveal_strlit("single_elimination");
    reveal_strlit("single elimination");
    reveal_strlit("double_elimination");
    reveal_strlit("double elimination");
    reveal_strlit("round_robin");
    reveal_strlit("round robin");
    reveal_strlit("swiss");
    // the forms of different types differ in their first two characters
    let se = "single_elimination"@;
    let sd = "single elimination"@;
    let de = "double_elimination"@;
    let dd = "double elimination"@;
    let re = "round_robin"@;
    let rd = "round robin"@;
    let sw = "swiss"@;
    assert(se[0] == 's' && sd[0] == 's' && de[0] == 'd' && dd[0] == 'd');
    assert(re[0] == 'r' && rd[0] == 'r' && sw[0] == 's' && sw[1] == 'w');
    assert(se[1] == 'i' && sd[1] == 'i');
}

} // verus!
