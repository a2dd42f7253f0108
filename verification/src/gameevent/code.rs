//! The codes that classify game events, and their two-letter text.
use vstd::prelude::*;
use crate::text::str_eq;

verus! {

/// The kind of a game event.
#[derive(Clone, Copy, Debug, PartialEq, Eq, Structural)]
pub enum GameEventCode {
    /// Room setup: the rules in force ("Tournament").
    RM,
    /// Quiz type / organization ("Nazarene").
    QT,
    /// Practice indicator.
    IP,
    /// A change of a rule option.
    OP,
    /// Team name.
    TN,
    /// Quizzer name for a seat.
    QN,
    /// Team captain.
    SC,
    /// Team co-captain.
    SS,
    /// Toss-up answered correctly.
    TC,
    /// Toss-up answered in error.
    TE,
    /// No quizzer jumped.
    NJ,
    /// Bonus answered correctly.
    BC,
    /// Bonus answered in error.
    BE,
    /// Quiz out.
    QO,
    /// Error out.
    EO,
    /// "C-": a challenge overruled.
    Cminus,
    /// "A+": an appeal accepted.
    Aplus,
    /// "A-": an appeal overruled.
    Aminus,
    /// A foul on the coach or the team.
    FC,
    /// "F-": a foul on a quizzer.
    Fminus,
    /// Substitution.
    SB,
    /// Time out.
    TO,
    /// An event kept for the record but no longer counted.
    DE,
}

/// The text under which a code is stored.
pub open spec fn code_text(c: GameEventCode) -> Seq<char> {
    match c {
        GameEventCode::RM => "RM"@,
        GameEventCode::QT => "QT"@,
        GameEventCode::IP => "IP"@,
        GameEventCode::OP => "OP"@,
        GameEventCode::TN => "TN"@,
        GameEventCode::QN => "QN"@,
        GameEventCode::SC => "SC"@,
        GameEventCode::SS => "SS"@,
        GameEventCode::TC => "TC"@,
        GameEventCode::TE => "TE"@,
        GameEventCode::NJ => "NJ"@,
        GameEventCode::BC => "BC"@,
        GameEventCode::BE => "BE"@,
        GameEventCode::QO => "QO"@,
        GameEventCode::EO => "EO"@,
        GameEventCode::Cminus => "C-"@,
        GameEventCode::Aplus => "A+"@,
        GameEventCode::Aminus => "A-"@,
        GameEventCode::FC => "FC"@,
        GameEventCode::Fminus => "F-"@,
        GameEventCode::SB => "SB"@,
        GameEventCode::TO => "TO"@,
        GameEventCode::DE => "DE"@,
    }
}

/// The code that a text names, if it names one.
pub open spec fn code_of(s: Seq<char>) -> Option<GameEventCode> {
    if s == "RM"@ { Some(GameEventCode::RM) }
    else if s == "QT"@ { Some(GameEventCode::QT) }
    else if s == "IP"@ { Some(GameEventCode::IP) }
    else if s == "OP"@ { Some(GameEventCode::OP) }
    else if s == "TN"@ { Some(GameEventCode::TN) }
    else if s == "QN"@ { Some(GameEventCode::QN) }
    else if s == "SS"@ { Some(GameEventCode::SS) }
    else if s == "SC"@ { Some(GameEventCode::SC) }
    else if s == "TC"@ { Some(GameEventCode::TC) }
    else if s == "TE"@ { Some(GameEventCode::TE) }
    else if s == "NJ"@ { Some(GameEventCode::NJ) }
    else if s == "BC"@ { Some(GameEventCode::BC) }
    else if s == "BE"@ { Some(GameEventCode::BE) }
    else if s == "QO"@ { Some(GameEventCode::QO) }
    else if s == "EO"@ { Some(GameEventCode::EO) }
    else if s == "C-"@ { Some(GameEventCode::Cminus) }
    else if s == "A+"@ { Some(GameEventCode::Aplus) }
    else if s == "A-"@ { Some(GameEventCode::Aminus) }
    else if s == "FC"@ { Some(GameEventCode::FC) }
    else if s == "F-"@ { Some(GameEventCode::Fminus) }
    else if s == "SB"@ { Some(GameEventCode::SB) }
    else if s == "TO"@ { Some(GameEventCode::TO) }
    else if s == "DE"@ { Some(GameEventCode::DE) }
    else { None }
}

/// Whether a text names a code.
pub open spec fn is_code(s: Seq<char>) -> bool {
    code_of(s) is Some
}

impl GameEventCode {
    /// The text under which the code is stored.
    pub fn to_string(self) -> (s: String)
        ensures
            s@ == code_text(self),
    {
        match self {
            GameEventCode::RM => String::from_str("RM"),
            GameEventCode::QT => String::from_str("QT"),
            GameEventCode::IP => String::from_str("IP"),
            GameEventCode::OP => String::from_str("OP"),
            GameEventCode::TN => String::from_str("TN"),
            GameEventCode::QN => String::from_str("QN"),
            GameEventCode::SS => String::from_str("SS"),
            GameEventCode::SC => String::from_str("SC"),
            GameEventCode::TC => String::from_str("TC"),
            GameEventCode::TE => String::from_str("TE"),
            GameEventCode::NJ => String::from_str("NJ"),
            GameEventCode::BC => String::from_str("BC"),
            GameEventCode::BE => String::from_str("BE"),
            GameEventCode::QO => String::from_str("QO"),
            GameEventCode::EO => String::from_str("EO"),
            GameEventCode::Cminus => String::from_str("C-"),
            GameEventCode::Aplus => String::from_str("A+"),
            GameEventCode::Aminus => String::from_str("A-"),
            GameEventCode::FC => String::from_str("FC"),
            GameEventCode::Fminus => String::from_str("F-"),
            GameEventCode::SB => String::from_str("SB"),
            GameEventCode::TO => String::from_str("TO"),
            GameEventCode::DE => String::from_str("DE"),
        }
    }
}

/// The code that a text names, if it names one.
pub fn parse_gameeventcode(s: &str) -> (r: Option<GameEventCode>)
    ensures
        r == code_of(s@),
{
    if str_eq(s, "RM") { Some(GameEventCode::RM) }
    else if str_eq(s, "QT") { Some(GameEventCode::QT) }
    else if str_eq(s, "IP") { Some(GameEventCode::IP) }
    else if str_eq(s, "OP") { Some(GameEventCode::OP) }
    else if str_eq(s, "TN") { Some(GameEventCode::TN) }
    else if str_eq(s, "QN") { Some(GameEventCode::QN) }
    else if str_eq(s, "SS") { Some(GameEventCode::SS) }
    else if str_eq(s, "SC") { Some(GameEventCode::SC) }
    else if str_eq(s, "TC") { Some(GameEventCode::TC) }
    else if str_eq(s, "TE") { Some(GameEventCode::TE) }
    else if str_eq(s, "NJ") { Some(GameEventCode::NJ) }
    else if str_eq(s, "BC") { Some(GameEventCode::BC) }
    else if str_eq(s, "BE") { Some(GameEventCode::BE) }
    else if str_eq(s, "QO") { Some(GameEventCode::QO) }
    else if str_eq(s, "EO") { Some(GameEventCode::EO) }
    else if str_eq(s, "C-") { Some(GameEventCode::Cminus) }
    else if str_eq(s, "A+") { Some(GameEventCode::Aplus) }
    else if str_eq(s, "A-") { Some(GameEventCode::Aminus) }
    else if str_eq(s, "FC") { Some(GameEventCode::FC) }
    else if str_eq(s, "F-") { Some(GameEventCode::Fminus) }
    else if str_eq(s, "SB") { Some(GameEventCode::SB) }
    else if str_eq(s, "TO") { Some(GameEventCode::TO) }
    else if str_eq(s, "DE") { Some(GameEventCode::DE) }
    else { None }
}

/// The code that a text names. The text must name one.
pub fn string_to_gameeventcode(str_code: &str) -> (c: GameEventCode)
    requires
        is_code(str_code@),
    ensures
        code_of(str_code@) == Some(c),
{
    parse_gameeventcode(str_code).unwrap()
}

/// Reading back the text of a code gives the code.
pub proof fn lemma_code_text_roundtrip(c: GameEventCode)
    ensures
        code_of(code_text(c)) == Some(c),
{
    reveal_strlit("RM"); reveal_strlit("QT"); reveal_strlit("IP"); reveal_strlit("OP");
    reveal_strlit("TN"); reveal_strlit("QN"); reveal_strlit("SC"); reveal_strlit("SS");
    reveal_strlit("TC"); reveal_strlit("TE"); reveal_strlit("NJ"); reveal_strlit("BC");
    reveal_strlit("BE"); reveal_strlit("QO"); reveal_strlit("EO"); reveal_strlit("C-");
    reveal_strlit("A+"); reveal_strlit("A-"); reveal_strlit("FC"); reveal_strlit("F-");
    reveal_strlit("SB"); reveal_strlit("TO"); reveal_strlit("DE");
    match c {
        GameEventCode::RM => { assert(code_text(c) =~= seq!['R', 'M']); }
        GameEventCode::QT => { assert(code_text(c) =~= seq!['Q', 'T']); }
        GameEventCode::IP => { assert(code_text(c) =~= seq!['I', 'P']); }
        GameEventCode::OP => { assert(code_text(c) =~= seq!['O', 'P']); }
        GameEventCode::TN => { assert(code_text(c) =~= seq!['T', 'N']); }
        GameEventCode::QN => { assert(code_text(c) =~= seq!['Q', 'N']); }
        GameEventCode::SC => { assert(code_text(c) =~= seq!['S', 'C']); }
        GameEventCode::SS => { assert(code_text(c) =~= seq!['S', 'S']); }
        GameEventCode::TC => { assert(code_text(c) =~= seq!['T', 'C']); }
        GameEventCode::TE => { assert(code_text(c) =~= seq!['T', 'E']); }
        GameEventCode::NJ => { assert(code_text(c) =~= seq!['N', 'J']); }
        GameEventCode::BC => { assert(code_text(c) =~= seq!['B', 'C']); }
        GameEventCode::BE => { assert(code_text(c) =~= seq!['B', 'E']); }
        GameEventCode::QO => { assert(code_text(c) =~= seq!['Q', 'O']); }
        GameEventCode::EO => { assert(code_text(c) =~= seq!['E', 'O']); }
        GameEventCode::Cminus => { assert(code_text(c) =~= seq!['C', '-']); }
        GameEventCode::Aplus => { assert(code_text(c) =~= seq!['A', '+']); }
        GameEventCode::Aminus => { assert(code_text(c) =~= seq!['A', '-']); }
        GameEventCode::FC => { assert(code_text(c) =~= seq!['F', 'C']); }
        GameEventCode::Fminus => { assert(code_text(c) =~= seq!['F', '-']); }
        GameEventCode::SB => { assert(code_text(c) =~= seq!['S', 'B']); }
        GameEventCode::TO => { assert(code_text(c) =~= seq!['T', 'O']); }
        GameEventCode::DE => { assert(code_text(c) =~= seq!['D', 'E']); }
    }
}

/// The text of a code read back is the text read.
pub proof fn lemma_code_of_roundtrip(s: Seq<char>)
    requires
        is_code(s),
    ensures
        code_text(code_of(s).unwrap()) == s,
{
}

} // verus!
