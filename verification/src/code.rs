//! Parsing of the canonical job abbreviations.

use vstd::prelude::*;
use crate::job::Job;
use crate::text::str_eq;

verus! {

/// Why a job code could not be parsed.
#[derive(Debug, Clone, Copy, PartialEq, Eq, Structural)]
pub enum ParseError {
    /// The text is not one of the known abbreviations.
    UnknownCode,
}

/// The job that an abbreviation stands for. The match is exact and
/// case-sensitive. `ACN` and `ARN` both name the arcanist, `RGE` and `ROG`
/// both name the rogue.
pub open spec fn job_of_code(code: Seq<char>) -> Result<Job, ParseError> {
    if code == "PLD"@ {
        Ok(Job::Paladin)
    } else if code == "WAR"@ {
        Ok(Job::Warrior)
    } else if code == "DRK"@ {
        Ok(Job::DarkKnight)
    } else if code == "GNB"@ {
        Ok(Job::Gunbreaker)
    } else if code == "GLD"@ {
        Ok(Job::Gladiator)
    } else if code == "MRD"@ {
        Ok(Job::Marauder)
    } else if code == "WHM"@ {
        Ok(Job::WhiteMage)
    } else if code == "SCH"@ {
        Ok(Job::Scholar)
    } else if code == "AST"@ {
        Ok(Job::Astrologian)
    } else if code == "SGE"@ {
        Ok(Job::Sage)
    } else if code == "CNJ"@ {
        Ok(Job::Conjurer)
    } else if code == "ARN"@ {
        Ok(Job::Arcanist)
    } else if code == "MNK"@ {
        Ok(Job::Monk)
    } else if code == "PGL"@ {
        Ok(Job::Pugilist)
    } else if code == "DRG"@ {
        Ok(Job::Dragoon)
    } else if code == "LNC"@ {
        Ok(Job::Lancer)
    } else if code == "NIN"@ {
        Ok(Job::Ninja)
    } else if code == "ROG"@ {
        Ok(Job::Rogue)
    } else if code == "SAM"@ {
        Ok(Job::Samurai)
    } else if code == "RPR"@ {
        Ok(Job::Reaper)
    } else if code == "BRD"@ {
        Ok(Job::Bard)
    } else if code == "ARC"@ {
        Ok(Job::Archer)
    } else if code == "MCH"@ {
        Ok(Job::Machinist)
    } else if code == "DNC"@ {
        Ok(Job::Dancer)
    } else if code == "BLM"@ {
        Ok(Job::BlackMage)
    } else if code == "SMN"@ {
        Ok(Job::Summoner)
    } else if code == "BLU"@ {
        Ok(Job::BlueMage)
    } else if code == "RDM"@ {
        Ok(Job::RedMage)
    } else if code == "RGE"@ {
        Ok(Job::Rogue)
    } else if code == "THM"@ {
        Ok(Job::Thaumaturge)
    } else if code == "ACN"@ {
        Ok(Job::Arcanist)
    } else {
        Err(ParseError::UnknownCode)
    }
}

/// Parses a job abbreviation.
pub fn parse_job_code(code: &str) -> (parsed: Result<Job, ParseError>)
    ensures
        parsed == job_of_code(code@),
{
    if str_eq(code, "PLD") {
        Ok(Job::Paladin)
    } else if str_eq(code, "WAR") {
        Ok(Job::Warrior)
    } else if str_eq(code, "DRK") {
        Ok(Job::DarkKnight)
    } else if str_eq(code, "GNB") {
        Ok(Job::Gunbreaker)
    } else if str_eq(code, "GLD") {
        Ok(Job::Gladiator)
    } else if str_eq(code, "MRD") {
        Ok(Job::Marauder)
    } else if str_eq(code, "WHM") {
        Ok(Job::WhiteMage)
    } else if str_eq(code, "SCH") {
        Ok(Job::Scholar)
    } else if str_eq(code, "AST") {
        Ok(Job::Astrologian)
    } else if str_eq(code, "SGE") {
        Ok(Job::Sage)
    } else if str_eq(code, "CNJ") {
        Ok(Job::Conjurer)
    } else if str_eq(code, "ARN") {
        Ok(Job::Arcanist)
    } else if str_eq(code, "MNK") {
        Ok(Job::Monk)
    } else if str_eq(code, "PGL") {
        Ok(Job::Pugilist)
    } else if str_eq(code, "DRG") {
        Ok(Job::Dragoon)
    } else if str_eq(code, "LNC") {
        Ok(Job::Lancer)
    } else if str_eq(code, "NIN") {
        Ok(Job::Ninja)
    } else if str_eq(code, "ROG") {
        Ok(Job::Rogue)
    } else if str_eq(code, "SAM") {
        Ok(Job::Samurai)
    } else if str_eq(code, "RPR") {
        Ok(Job::Reaper)
    } else if str_eq(code, "BRD") {
        Ok(Job::Bard)
    } else if str_eq(code, "ARC") {
        Ok(Job::Archer)
    } else if str_eq(code, "MCH") {
        Ok(Job::Machinist)
    } else if str_eq(code, "DNC") {
        Ok(Job::Dancer)
    } else if str_eq(code, "BLM") {
        Ok(Job::BlackMage)
    } else if str_eq(code, "SMN") {
        Ok(Job::Summoner)
    } else if str_eq(code, "BLU") {
        Ok(Job::BlueMage)
    } else if str_eq(code, "RDM") {
        Ok(Job::RedMage)
    } else if str_eq(code, "RGE") {
        Ok(Job::Rogue)
    } else if str_eq(code, "THM") {
        Ok(Job::Thaumaturge)
    } else if str_eq(code, "ACN") {
        Ok(Job::Arcanist)
    } else {
        Err(ParseError::UnknownCode)
    }
}

impl std::str::FromStr for Job {
    type Err = ParseError;

    fn from_str(input: &str) -> (parsed: Result<Job, ParseError>)
        ensures
            parsed == job_of_code(input@),
    {
        parse_job_code(input)
    }
}

/// How each code of the table is spelled.
proof fn lemma_code_spellings()
    ensures
        "PLD"@ =~= seq!['P', 'L', 'D'],
        "WAR"@ =~= seq!['W', 'A', 'R'],
        "DRK"@ =~= seq!['D', 'R', 'K'],
        "GNB"@ =~= seq!['G', 'N', 'B'],
        "GLD"@ =~= seq!['G', 'L', 'D'],
        "MRD"@ =~= seq!['M', 'R', 'D'],
        "WHM"@ =~= seq!['W', 'H', 'M'],
        "SCH"@ =~= seq!['S', 'C', 'H'],
        "AST"@ =~= seq!['A', 'S', 'T'],
        "SGE"@ =~= seq!['S', 'G', 'E'],
        "CNJ"@ =~= seq!['C', 'N', 'J'],
        "ARN"@ =~= seq!['A', 'R', 'N'],
        "MNK"@ =~= seq!['M', 'N', 'K'],
        "PGL"@ =~= seq!['P', 'G', 'L'],
        "DRG"@ =~= seq!['D', 'R', 'G'],
        "LNC"@ =~= seq!['L', 'N', 'C'],
        "NIN"@ =~= seq!['N', 'I', 'N'],
        "ROG"@ =~= seq!['R', 'O', 'G'],
        "SAM"@ =~= seq!['S', 'A', 'M'],
        "RPR"@ =~= seq!['R', 'P', 'R'],
        "BRD"@ =~= seq!['B', 'R', 'D'],
        "ARC"@ =~= seq!['A', 'R', 'C'],
        "MCH"@ =~= seq!['M', 'C', 'H'],
        "DNC"@ =~= seq!['D', 'N', 'C'],
        "BLM"@ =~= seq!['B', 'L', 'M'],
        "SMN"@ =~= seq!['S', 'M', 'N'],
        "BLU"@ =~= seq!['B', 'L', 'U'],
        "RDM"@ =~= seq!['R', 'D', 'M'],
        "RGE"@ =~= seq!['R', 'G', 'E'],
        "THM"@ =~= seq!['T', 'H', 'M'],
        "ACN"@ =~= seq!['A', 'C', 'N'],
{
    reveal_strlit("PLD");
    reveal_strlit("WAR");
    reveal_strlit("DRK");
    reveal_strlit("GNB");
    reveal_strlit("GLD");
    reveal_strlit("MRD");
    reveal_strlit("WHM");
    reveal_strlit("SCH");
    reveal_strlit("AST");
    reveal_strlit("SGE");
    reveal_strlit("CNJ");
    reveal_strlit("ARN");
    reveal_strlit("MNK");
    reveal_strlit("PGL");
    reveal_strlit("DRG");
    reveal_strlit("LNC");
    reveal_strlit("NIN");
    reveal_strlit("ROG");
    reveal_strlit("SAM");
    reveal_strlit("RPR");
    reveal_strlit("BRD");
    reveal_strlit("ARC");
    reveal_strlit("MCH");
    reveal_strlit("DNC");
    reveal_strlit("BLM");
    reveal_strlit("SMN");
    reveal_strlit("BLU");
    reveal_strlit("RDM");
    reveal_strlit("RGE");
    reveal_strlit("THM");
    reveal_strlit("ACN");
}

/// Only texts of exactly three characters are job codes.
pub proof fn lemma_job_codes_have_three_letters(code: Seq<char>)
    requires
        job_of_code(code) is Ok,
    ensures
        code.len() == 3,
{
    lemma_code_spellings();
}

/// The code table, entry by entry: what each known abbreviation parses to.
pub proof fn lemma_job_code_table()
    ensures
        job_of_code("PLD"@) == Ok::<Job, ParseError>(Job::Paladin),
        job_of_code("WAR"@) == Ok::<Job, ParseError>(Job::Warrior),
        job_of_code("DRK"@) == Ok::<Job, ParseError>(Job::DarkKnight),
        job_of_code("GNB"@) == Ok::<Job, ParseError>(Job::Gunbreaker),
        job_of_code("GLD"@) == Ok::<Job, ParseError>(Job::Gladiator),
        job_of_code("MRD"@) == Ok::<Job, ParseError>(Job::Marauder),
        job_of_code("WHM"@) == Ok::<Job, ParseError>(Job::WhiteMage),
        job_of_code("SCH"@) == Ok::<Job, ParseError>(Job::Scholar),
        job_of_code("AST"@) == Ok::<Job, ParseError>(Job::Astrologian),
        job_of_code("SGE"@) == Ok::<Job, ParseError>(Job::Sage),
        job_of_code("CNJ"@) == Ok::<Job, ParseError>(Job::Conjurer),
        job_of_code("ARN"@) == Ok::<Job, ParseError>(Job::Arcanist),
        job_of_code("MNK"@) == Ok::<Job, ParseError>(Job::Monk),
        job_of_code("PGL"@) == Ok::<Job, ParseError>(Job::Pugilist),
        job_of_code("DRG"@) == Ok::<Job, ParseError>(Job::Dragoon),
        job_of_code("LNC"@) == Ok::<Job, ParseError>(Job::Lancer),
        job_of_code("NIN"@) == Ok::<Job, ParseError>(Job::Ninja),
        job_of_code("ROG"@) == Ok::<Job, ParseError>(Job::Rogue),
        job_of_code("SAM"@) == Ok::<Job, ParseError>(Job::Samurai),
        job_of_code("RPR"@) == Ok::<Job, ParseError>(Job::Reaper),
        job_of_code("BRD"@) == Ok::<Job, ParseError>(Job::Bard),
        job_of_code("ARC"@) == Ok::<Job, ParseError>(Job::Archer),
        job_of_code("MCH"@) == Ok::<Job, ParseError>(Job::Machinist),
        job_of_code("DNC"@) == Ok::<Job, ParseError>(Job::Dancer),
        job_of_code("BLM"@) == Ok::<Job, ParseError>(Job::BlackMage),
        job_of_code("SMN"@) == Ok::<Job, ParseError>(Job::Summoner),
        job_of_code("BLU"@) == Ok::<Job, ParseError>(Job::BlueMage),
        job_of_code("RDM"@) == Ok::<Job, ParseError>(Job::RedMage),
        job_of_code("RGE"@) == Ok::<Job, ParseError>(Job::Rogue),
        job_of_code("THM"@) == Ok::<Job, ParseError>(Job::Thaumaturge),
        job_of_code("ACN"@) == Ok::<Job, ParseError>(Job::Arcanist),
{
    lemma_code_spellings();
}

/// Every job can be written as a code.
pub proof fn lemma_every_job_has_code(job: Job)
    ensures
        exists|code: Seq<char>| job_of_code(code) == Ok::<Job, ParseError>(job),
{
    lemma_job_code_table();
}

} // verus!
