use rl_replay::mugi_schema::cmd_from_tag;
use rl_replay::{parse_cmd, DecodeError, MugiCmd};

const TAGS: [(&str, MugiCmd); 20] = [
    ("init", MugiCmd::Init),
    ("endReplay", MugiCmd::EndReplay),
    ("endStats", MugiCmd::EndStats),
    ("teamNames", MugiCmd::TeamNames),
    ("demolished", MugiCmd::Demolished),
    ("scored", MugiCmd::Scored),
    ("matchId", MugiCmd::MatchId),
    ("start", MugiCmd::Start),
    ("end", MugiCmd::End),
    ("stats", MugiCmd::Stats),
    ("goals", MugiCmd::Goals),
    ("epicSave", MugiCmd::EpicSave),
    ("dbg", MugiCmd::Dbg),
    ("displayNames", MugiCmd::DisplayNames),
    ("playerTable", MugiCmd::PlayerTable),
    ("time", MugiCmd::Time),
    ("boost", MugiCmd::Boost),
    ("subScore", MugiCmd::SubScore),
    ("score", MugiCmd::Score),
    ("player", MugiCmd::Player),
];

#[test]
fn every_declared_tag_is_classified() {
    for (tag, cmd) in TAGS.iter() {
        let raw = format!("{{\"cmd\":\"{}\"}}", tag);
        assert_eq!(parse_cmd(&raw), Ok(*cmd));
        assert_eq!(parse_cmd(&raw), parse_cmd(&raw));
        assert_eq!(cmd_from_tag(tag), Ok(*cmd));
    }
}

#[test]
fn declared_tags_map_to_distinct_commands() {
    for (i, (_, a)) in TAGS.iter().enumerate() {
        for (j, (_, b)) in TAGS.iter().enumerate() {
            assert_eq!(i == j, a == b);
        }
    }
}

#[test]
fn scored_datagram_is_scored() {
    assert_eq!(parse_cmd(r#"{"cmd":"scored"}"#), Ok(MugiCmd::Scored));
}

#[test]
fn unknown_tag_is_unrecognized() {
    assert_eq!(parse_cmd(r#"{"cmd":"unknown_tag"}"#), Err(DecodeError::Unrecognized));
    assert_eq!(cmd_from_tag("unknown_tag"), Err(DecodeError::Unrecognized));
}

#[test]
fn tags_are_case_sensitive() {
    assert_eq!(parse_cmd(r#"{"cmd":"Scored"}"#), Err(DecodeError::Unrecognized));
    assert_eq!(cmd_from_tag("SCORED"), Err(DecodeError::Unrecognized));
    assert_eq!(cmd_from_tag(""), Err(DecodeError::Unrecognized));
}

#[test]
fn malformed_datagrams_are_unrecognized() {
    assert_eq!(parse_cmd(""), Err(DecodeError::Unrecognized));
    assert_eq!(parse_cmd("not json"), Err(DecodeError::Unrecognized));
    assert_eq!(parse_cmd(r#"{"cmd":"scored""#), Err(DecodeError::Unrecognized));
    assert_eq!(parse_cmd(r#"{"data":1}"#), Err(DecodeError::Unrecognized));
    assert_eq!(parse_cmd(r#"{"cmd":5}"#), Err(DecodeError::Unrecognized));
    assert_eq!(parse_cmd(r#""scored""#), Err(DecodeError::Unrecognized));
}

#[test]
fn payload_does_not_change_the_command() {
    let msg = r#"{"cmd":"teamNames","data":{"blue":"","matchId":"DA3FB72C11F00213D67A6E8E78296A08","orange":""}}"#;
    assert_eq!(parse_cmd(msg), Ok(MugiCmd::TeamNames));
    let msg = r#"{"cmd":"displayNames","data":["Player_Bot_Tex","Player_Bot_Sabretooth"]}"#;
    assert_eq!(parse_cmd(msg), Ok(MugiCmd::DisplayNames));
    assert_eq!(parse_cmd(r#"{"data":null,"cmd":"goals"}"#), Ok(MugiCmd::Goals));
}

#[test]
fn only_scored_and_epic_save_capture() {
    for (_, cmd) in TAGS.iter() {
        let expected = *cmd == MugiCmd::Scored || *cmd == MugiCmd::EpicSave;
        assert_eq!(cmd.is_capture(), expected);
    }
}
