//! Telemetry commands: the closed set of tags a datagram may carry, and the
//! classification of a raw datagram into one of them.
use vstd::prelude::*;

verus! {

/// A command of the telemetry stream, named by the `cmd` member of a datagram.
#[derive(Clone, Copy, Debug, PartialEq, Eq, Structural)]
pub enum MugiCmd {
    Init,
    EndReplay,
    EndStats,
    TeamNames,
    Demolished,
    Scored,
    MatchId,
    Start,
    End,
    Stats,
    Goals,
    EpicSave,
    Dbg,
    DisplayNames,
    PlayerTable,
    Time,
    Boost,
    SubScore,
    Score,
    Player,
}

/// Why a datagram could not be classified: it is not a JSON object, it has no
/// string `cmd` member, or that member names no known command.
#[derive(Clone, Copy, Debug, PartialEq, Eq, Structural)]
pub enum DecodeError {
    Unrecognized,
}

/// The tag that names each command on the wire (case-sensitive).
pub open spec fn tag_of(c: MugiCmd) -> Seq<char> {
    match c {
        MugiCmd::Init => "init"@,
        MugiCmd::EndReplay => "endReplay"@,
        MugiCmd::EndStats => "endStats"@,
        MugiCmd::TeamNames => "teamNames"@,
        MugiCmd::Demolished => "demolished"@,
        MugiCmd::Scored => "scored"@,
        MugiCmd::MatchId => "matchId"@,
        MugiCmd::Start => "start"@,
        MugiCmd::End => "end"@,
        MugiCmd::Stats => "stats"@,
        MugiCmd::Goals => "goals"@,
        MugiCmd::EpicSave => "epicSave"@,
        MugiCmd::Dbg => "dbg"@,
        MugiCmd::DisplayNames => "displayNames"@,
        MugiCmd::PlayerTable => "playerTable"@,
        MugiCmd::Time => "time"@,
        MugiCmd::Boost => "boost"@,
        MugiCmd::SubScore => "subScore"@,
        MugiCmd::Score => "score"@,
        MugiCmd::Player => "player"@,
    }
}

/// The command a tag names, if any.
pub open spec fn command_of_tag(t: Seq<char>) -> Option<MugiCmd> {
    if exists|c: MugiCmd| tag_of(c) == t {
        Some(choose|c: MugiCmd| tag_of(c) == t)
    } else {
        None
    }
}

/// Classification of a `cmd` tag.
pub open spec fn classify_tag(t: Seq<char>) -> Result<MugiCmd, DecodeError> {
    match command_of_tag(t) {
        Some(c) => Ok(c),
        None => Err(DecodeError::Unrecognized),
    }
}

/// What serde_json reads as the `cmd` member of the JSON document `raw`:
/// `Some(tag)` when `raw` is a JSON object whose `cmd` member is a string,
/// `None` otherwise.
pub uninterp spec fn envelope_tag(raw: Seq<char>) -> Option<Seq<char>>;

/// Classification of a whole datagram.
pub open spec fn classify(raw: Seq<char>) -> Result<MugiCmd, DecodeError> {
    match envelope_tag(raw) {
        Some(t) => classify_tag(t),
        None => Err(DecodeError::Unrecognized),
    }
}

/// Whether a command asks for a highlight to be captured.
pub open spec fn is_capture_cmd(c: MugiCmd) -> bool {
    c == MugiCmd::Scored || c == MugiCmd::EpicSave
}

/// Relies on serde_json::from_str (into a `serde_json::Value`), then
/// `Value::get("cmd")` and `Value::as_str`: the text of the `cmd` string member
/// of the JSON object in `raw`, or nothing when `raw` is not such an object.
#[verifier::external_body]
fn read_envelope_tag(raw: &str) -> (r: Option<String>)
    ensures
        match r {
            Some(t) => envelope_tag(raw@) == Some(t@),
            None => envelope_tag(raw@) is None,
        },
{
    let v: serde_json::Value = serde_json::from_str(raw).ok()?;
    v.get("cmd")?.as_str().map(String::from)
}

fn same_text(a: &str, b: &str) -> (r: bool)
    ensures
        r == (a@ == b@),
{
    a.to_owned() == b.to_owned()
}

/// Each command has its own tag: no two commands share one.
pub proof fn lemma_tags_distinct(c1: MugiCmd, c2: MugiCmd)
    ensures
        tag_of(c1) == tag_of(c2) <==> c1 == c2,
{
    reveal_strlit("init");
    reveal_strlit("endReplay");
    reveal_strlit("endStats");
    reveal_strlit("teamNames");
    reveal_strlit("demolished");
    reveal_strlit("scored");
    reveal_strlit("matchId");
    reveal_strlit("start");
    reveal_strlit("end");
    reveal_strlit("stats");
    reveal_strlit("goals");
    reveal_strlit("epicSave");
    reveal_strlit("dbg");
    reveal_strlit("displayNames");
    reveal_strlit("playerTable");
    reveal_strlit("time");
    reveal_strlit("boost");
    reveal_strlit("subScore");
    reveal_strlit("score");
    reveal_strlit("player");
    if tag_of(c1) == tag_of(c2) && c1 != c2 {
        let t1 = tag_of(c1);
        let t2 = tag_of(c2);
        assert(t1.len() != t2.len() || t1[0] != t2[0] || t1[1] != t2[1] || t1[2] != t2[2]
            || t1[t1.len() - 1] != t2[t2.len() - 1] || t1[3] != t2[3]);
    }
}

/// A tag names exactly the command whose tag it is.
pub proof fn lemma_command_of_tag(c: MugiCmd, t: Seq<char>)
    requires
        tag_of(c) == t,
    ensures
        command_of_tag(t) == Some(c),
{
    let d = choose|d: MugiCmd| tag_of(d) == t;
    lemma_tags_distinct(c, d);
}

/// Maps a `cmd` tag to its command, by exact match.
pub fn cmd_from_tag(tag: &str) -> (r: Result<MugiCmd, DecodeError>)
    ensures
        r == classify_tag(tag@),
{
    if same_text(tag, "init") {
        proof { lemma_command_of_tag(MugiCmd::Init, tag@); }
        Ok(MugiCmd::Init)
    } else if same_text(tag, "endReplay") {
        proof { lemma_command_of_tag(MugiCmd::EndReplay, tag@); }
        Ok(MugiCmd::EndReplay)
    } else if same_text(tag, "endStats") {
        proof { lemma_command_of_tag(MugiCmd::EndStats, tag@); }
        Ok(MugiCmd::EndStats)
    } else if same_text(tag, "teamNames") {
        proof { lemma_command_of_tag(MugiCmd::TeamNames, tag@); }
        Ok(MugiCmd::TeamNames)
    } else if same_text(tag, "demolished") {
        proof { lemma_command_of_tag(MugiCmd::Demolished, tag@); }
        Ok(MugiCmd::Demolished)
    } else if same_text(tag, "scored") {
        proof { lemma_command_of_tag(MugiCmd::Scored, tag@); }
        Ok(MugiCmd::Scored)
    } else if same_text(tag, "matchId") {
        proof { lemma_command_of_tag(MugiCmd::MatchId, tag@); }
        Ok(MugiCmd::MatchId)
    } else if same_text(tag, "start") {
        proof { lemma_command_of_tag(MugiCmd::Start, tag@); }
        Ok(MugiCmd::Start)
    } else if same_text(tag, "end") {
        proof { lemma_command_of_tag(MugiCmd::End, tag@); }
        Ok(MugiCmd::End)
    } else if same_text(tag, "stats") {
        proof { lemma_command_of_tag(MugiCmd::Stats, tag@); }
        Ok(MugiCmd::Stats)
    } else if same_text(tag, "goals") {
        proof { lemma_command_of_tag(MugiCmd::Goals, tag@); }
        Ok(MugiCmd::Goals)
    } else if same_text(tag, "epicSave") {
        proof { lemma_command_of_tag(MugiCmd::EpicSave, tag@); }
        Ok(MugiCmd::EpicSave)
    } else if same_text(tag, "dbg") {
        proof { lemma_command_of_tag(MugiCmd::Dbg, tag@); }
        Ok(MugiCmd::Dbg)
    } else if same_text(tag, "displayNames") {
        proof { lemma_command_of_tag(MugiCmd::DisplayNames, tag@); }
        Ok(MugiCmd::DisplayNames)
    } else if same_text(tag, "playerTable") {
        proof { lemma_command_of_tag(MugiCmd::PlayerTable, tag@); }
        Ok(MugiCmd::PlayerTable)
    } else if same_text(tag, "time") {
        proof { lemma_command_of_tag(MugiCmd::Time, tag@); }
        Ok(MugiCmd::Time)
    } else if same_text(tag, "boost") {
        proof { lemma_command_of_tag(MugiCmd::Boost, tag@); }
        Ok(MugiCmd::Boost)
    } else if same_text(tag, "subScore") {
        proof { lemma_command_of_tag(MugiCmd::SubScore, tag@); }
        Ok(MugiCmd::SubScore)
    } else if same_text(tag, "score") {
        proof { lemma_command_of_tag(MugiCmd::Score, tag@); }
        Ok(MugiCmd::Score)
    } else if same_text(tag, "player") {
        proof { lemma_command_of_tag(MugiCmd::Player, tag@); }
        Ok(MugiCmd::Player)
    } else {
        assert forall|c: MugiCmd| tag_of(c) != tag@ by {
            match c {
                MugiCmd::Init => {},
                MugiCmd::EndReplay => {},
                MugiCmd::EndStats => {},
                MugiCmd::TeamNames => {},
                MugiCmd::Demolished => {},
                MugiCmd::Scored => {},
                MugiCmd::MatchId => {},
                MugiCmd::Start => {},
                MugiCmd::End => {},
                MugiCmd::Stats => {},
                MugiCmd::Goals => {},
                MugiCmd::EpicSave => {},
                MugiCmd::Dbg => {},
                MugiCmd::DisplayNames => {},
                MugiCmd::PlayerTable => {},
                MugiCmd::Time => {},
                MugiCmd::Boost => {},
                MugiCmd::SubScore => {},
                MugiCmd::Score => {},
                MugiCmd::Player => {},
            }
        }
        Err(DecodeError::Unrecognized)
    }
}

/// Classifies a raw datagram: reads its `cmd` member and maps that tag to a
/// command. Anything else is `Unrecognized`; the function never fails otherwise.
pub fn parse_cmd(json: &str) -> (r: Result<MugiCmd, DecodeError>)
    ensures
        r == classify(json@),
{
    match read_envelope_tag(json) {
        Some(t) => cmd_from_tag(t.as_str()),
        None => Err(DecodeError::Unrecognized),
    }
}

impl MugiCmd {
    /// Whether this command asks for a highlight to be captured.
    pub fn is_capture(&self) -> (r: bool)
        ensures
            r == is_capture_cmd(*self),
    {
        match self {
            MugiCmd::Scored | MugiCmd::EpicSave => true,
            _ => false,
        }
    }
}

/// A datagram whose `cmd` member is not one of the declared tags (or that has
/// no such member at all) is classified as `Unrecognized`.
pub proof fn lemma_unknown_tag_unrecognized(raw: Seq<char>)
    requires
        forall|c: MugiCmd| envelope_tag(raw) != Some(tag_of(c)),
    ensures
        classify(raw) == Err::<MugiCmd, DecodeError>(DecodeError::Unrecognized),
{
    if let Some(t) = envelope_tag(raw) {
        assert(forall|c: MugiCmd| tag_of(c) != t);
    }
}

/// A datagram whose `cmd` member is the tag of a command is classified as
/// that command and no other; classification depends on the text alone.
pub proof fn lemma_declared_tag_classified(raw: Seq<char>, c: MugiCmd)
    requires
        envelope_tag(raw) == Some(tag_of(c)),
    ensures
        classify(raw) == Ok::<MugiCmd, DecodeError>(c),
        forall|d: MugiCmd| classify(raw) == Ok::<MugiCmd, DecodeError>(d) ==> d == c,
{
    lemma_command_of_tag(c, tag_of(c));
}

} // verus!
