use std::str::FromStr;
use xiv_util::{parse_job_code, Job, ParseError};

#[test]
fn pld_parses_to_paladin() {
    assert_eq!(parse_job_code("PLD"), Ok(Job::Paladin));
}

#[test]
fn unknown_code_is_rejected() {
    assert_eq!(parse_job_code("xyz"), Err(ParseError::UnknownCode));
}

#[test]
fn rge_and_rog_both_parse_to_rogue() {
    assert_eq!(parse_job_code("RGE"), Ok(Job::Rogue));
    assert_eq!(parse_job_code("ROG"), Ok(Job::Rogue));
}

#[test]
fn arn_and_acn_both_parse_to_arcanist() {
    assert_eq!(parse_job_code("ARN"), Ok(Job::Arcanist));
    assert_eq!(parse_job_code("ACN"), Ok(Job::Arcanist));
}

#[test]
fn every_code_of_the_table_parses() {
    let table = vec![
        ("PLD", Job::Paladin),
        ("WAR", Job::Warrior),
        ("DRK", Job::DarkKnight),
        ("GNB", Job::Gunbreaker),
        ("GLD", Job::Gladiator),
        ("MRD", Job::Marauder),
        ("WHM", Job::WhiteMage),
        ("SCH", Job::Scholar),
        ("AST", Job::Astrologian),
        ("SGE", Job::Sage),
        ("CNJ", Job::Conjurer),
        ("ARN", Job::Arcanist),
        ("MNK", Job::Monk),
        ("PGL", Job::Pugilist),
        ("DRG", Job::Dragoon),
        ("LNC", Job::Lancer),
        ("NIN", Job::Ninja),
        ("ROG", Job::Rogue),
        ("SAM", Job::Samurai),
        ("RPR", Job::Reaper),
        ("BRD", Job::Bard),
        ("ARC", Job::Archer),
        ("MCH", Job::Machinist),
        ("DNC", Job::Dancer),
        ("BLM", Job::BlackMage),
        ("SMN", Job::Summoner),
        ("BLU", Job::BlueMage),
        ("RDM", Job::RedMage),
        ("RGE", Job::Rogue),
        ("THM", Job::Thaumaturge),
        ("ACN", Job::Arcanist),
    ];
    assert_eq!(table.len(), 31);
    for (code, job) in table {
        assert_eq!(parse_job_code(code), Ok(job), "{}", code);
    }
}

#[test]
fn parsing_is_case_sensitive() {
    assert_eq!(parse_job_code("pld"), Err(ParseError::UnknownCode));
    assert_eq!(parse_job_code("Pld"), Err(ParseError::UnknownCode));
    assert_eq!(parse_job_code("war"), Err(ParseError::UnknownCode));
}

#[test]
fn parsing_accepts_no_partial_match() {
    assert_eq!(parse_job_code(""), Err(ParseError::UnknownCode));
    assert_eq!(parse_job_code("P"), Err(ParseError::UnknownCode));
    assert_eq!(parse_job_code("PL"), Err(ParseError::UnknownCode));
    assert_eq!(parse_job_code("PLDX"), Err(ParseError::UnknownCode));
    assert_eq!(parse_job_code(" PLD"), Err(ParseError::UnknownCode));
    assert_eq!(parse_job_code("PLD "), Err(ParseError::UnknownCode));
    assert_eq!(parse_job_code("PLE"), Err(ParseError::UnknownCode));
    assert_eq!(parse_job_code("QLD"), Err(ParseError::UnknownCode));
}

#[test]
fn parsing_rejects_names_and_text_outside_ascii() {
    assert_eq!(parse_job_code("Paladin"), Err(ParseError::UnknownCode));
    assert_eq!(parse_job_code("PL\u{c4}"), Err(ParseError::UnknownCode));
    assert_eq!(parse_job_code("\u{ff30}\u{ff2c}\u{ff24}"), Err(ParseError::UnknownCode));
}

#[test]
fn parsing_twice_gives_the_same_result() {
    for code in ["PLD", "RGE", "xyz", ""] {
        assert_eq!(parse_job_code(code), parse_job_code(code));
    }
}

#[test]
fn from_str_agrees_with_parse_job_code() {
    assert_eq!(Job::from_str("PLD"), Ok(Job::Paladin));
    assert_eq!(Job::from_str("xyz"), Err(ParseError::UnknownCode));
    assert_eq!("WHM".parse::<Job>(), Ok(Job::WhiteMage));
    assert_eq!("whm".parse::<Job>(), Err(ParseError::UnknownCode));
}
