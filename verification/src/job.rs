//! The job taxonomy and the role each job plays.

use vstd::prelude::*;

verus! {

/// A playable class. Base classes and their advanced successors are separate
/// variants; nothing relates one to the other.
#[derive(Debug, Clone, Copy, PartialEq, Eq, Structural)]
pub enum Job {
    Gunbreaker,
    Paladin,
    Gladiator,
    DarkKnight,
    Warrior,
    Marauder,
    Scholar,
    Arcanist,
    Sage,
    Astrologian,
    WhiteMage,
    Conjurer,
    Samurai,
    Dragoon,
    Ninja,
    Monk,
    Reaper,
    Bard,
    Machinist,
    Dancer,
    BlackMage,
    BlueMage,
    Summoner,
    RedMage,
    Lancer,
    Pugilist,
    Rogue,
    Thaumaturge,
    Archer,
}

/// The broad combat function of a job.
#[derive(Debug, Clone, Copy, PartialEq, Eq, Structural)]
pub enum Role {
    Tank,
    DPS,
    Healer,
}

/// The jobs that count as tanks.
pub open spec fn tank_jobs() -> Set<Job> {
    set![
        Job::Paladin,
        Job::Gunbreaker,
        Job::DarkKnight,
        Job::Warrior,
        Job::Marauder,
        Job::Gladiator,
    ]
}

/// The jobs that count as healers.
pub open spec fn healer_jobs() -> Set<Job> {
    set![Job::Conjurer, Job::WhiteMage, Job::Scholar, Job::Astrologian, Job::Sage]
}

/// The role of a job: tank membership is decided first, then healer
/// membership; every other job is a damage dealer.
pub open spec fn role_of(job: Job) -> Role {
    if tank_jobs().contains(job) {
        Role::Tank
    } else if healer_jobs().contains(job) {
        Role::Healer
    } else {
        Role::DPS
    }
}

/// The icon token of a job: an opaque name and identifier pair in angle
/// brackets, one per job.
pub open spec fn job_icon(job: Job) -> Seq<char> {
    match job {
        Job::Gunbreaker => "<:gunbreaker:1010655347033256008>"@,
        Job::Paladin => "<:paladin:1010655357217013811>"@,
        Job::Gladiator => "<:gladiator:1010655346144051273>"@,
        Job::DarkKnight => "<:darkknight:1010655342977364008>"@,
        Job::Warrior => "<:warrior:1010655374224924693>"@,
        Job::Marauder => "<:marauder:1010655354025152652>"@,
        Job::Scholar => "<:scholar:1010655365341380638>"@,
        Job::Arcanist => "<:arcanist:1010655332973948938>"@,
        Job::Sage => "<:sage:1010655362946441226>"@,
        Job::Astrologian => "<:astrologian:1010655335226294364>"@,
        Job::WhiteMage => "<:whitemage:1010655375856517280>"@,
        Job::Conjurer => "<:conjurer:1010655339743559722>"@,
        Job::Samurai => "<:samurai:1010655364250861679>"@,
        Job::Dragoon => "<:dragoon:1010655345074524250>"@,
        Job::Ninja => "<:ffxivninja:1010655356193615882>"@,
        Job::Monk => "<:monk:1010655355128262686>"@,
        Job::Reaper => "<:reaper:1010655359347728445>"@,
        Job::Bard => "<:bard:1010655336438444163>"@,
        Job::Machinist => "<:machinist:1010655352959815730>"@,
        Job::Dancer => "<:ffxivdancer:1010655341253500930>"@,
        Job::BlackMage => "<:blackmage:1010655337914830919>"@,
        Job::BlueMage => "<:bluemage:1010655338715938909>"@,
        Job::Summoner => "<:summoner:1010655367740542976>"@,
        Job::RedMage => "<:redmage:1010655360400498748>"@,
        Job::Lancer => "<:lancer:1010655351525363773>"@,
        Job::Pugilist => "<:pugilist:1010655358320128011>"@,
        Job::Rogue => "<:rogue:1010655361595867166>"@,
        Job::Thaumaturge => "<:thaumaturge:1010655373516091426>"@,
        Job::Archer => "<:archer:1010655333988962366>"@,
    }
}

/// The human-readable name of a job.
pub open spec fn job_name(job: Job) -> Seq<char> {
    match job {
        Job::Gunbreaker => "Gunbreaker"@,
        Job::Paladin => "Paladin"@,
        Job::Gladiator => "Gladiator"@,
        Job::DarkKnight => "DarkKnight"@,
        Job::Warrior => "Warrior"@,
        Job::Marauder => "Marauder"@,
        Job::Scholar => "Scholar"@,
        Job::Arcanist => "Arcanist"@,
        Job::Sage => "Sage"@,
        Job::Astrologian => "Astrologian"@,
        Job::WhiteMage => "WhiteMage"@,
        Job::Conjurer => "Conjurer"@,
        Job::Samurai => "Samurai"@,
        Job::Dragoon => "Dragoon"@,
        Job::Ninja => "Ninja"@,
        Job::Monk => "Monk"@,
        Job::Reaper => "Reaper"@,
        Job::Bard => "Bard"@,
        Job::Machinist => "Machinist"@,
        Job::Dancer => "Dancer"@,
        Job::BlackMage => "BlackMage"@,
        Job::BlueMage => "BlueMage"@,
        Job::Summoner => "Summoner"@,
        Job::RedMage => "RedMage"@,
        Job::Lancer => "Lancer"@,
        Job::Pugilist => "Pugilist"@,
        Job::Rogue => "Rogue"@,
        Job::Thaumaturge => "Thaumaturge"@,
        Job::Archer => "Archer"@,
    }
}

impl Job {
    /// The icon token that stands for this job.
    pub fn get_emoji_string(&self) -> (token: String)
        ensures
            token@ == job_icon(*self),
    {
        let token: &str = match self {
            Job::Gunbreaker => "<:gunbreaker:1010655347033256008>",
            Job::Paladin => "<:paladin:1010655357217013811>",
            Job::Gladiator => "<:gladiator:1010655346144051273>",
            Job::DarkKnight => "<:darkknight:1010655342977364008>",
            Job::Warrior => "<:warrior:1010655374224924693>",
            Job::Marauder => "<:marauder:1010655354025152652>",
            Job::Scholar => "<:scholar:1010655365341380638>",
            Job::Arcanist => "<:arcanist:1010655332973948938>",
            Job::Sage => "<:sage:1010655362946441226>",
            Job::Astrologian => "<:astrologian:1010655335226294364>",
            Job::WhiteMage => "<:whitemage:1010655375856517280>",
            Job::Conjurer => "<:conjurer:1010655339743559722>",
            Job::Samurai => "<:samurai:1010655364250861679>",
            Job::Dragoon => "<:dragoon:1010655345074524250>",
            Job::Ninja => "<:ffxivninja:1010655356193615882>",
            Job::Monk => "<:monk:1010655355128262686>",
            Job::Reaper => "<:reaper:1010655359347728445>",
            Job::Bard => "<:bard:1010655336438444163>",
            Job::Machinist => "<:machinist:1010655352959815730>",
            Job::Dancer => "<:ffxivdancer:1010655341253500930>",
            Job::BlackMage => "<:blackmage:1010655337914830919>",
            Job::BlueMage => "<:bluemage:1010655338715938909>",
            Job::Summoner => "<:summoner:1010655367740542976>",
            Job::RedMage => "<:redmage:1010655360400498748>",
            Job::Lancer => "<:lancer:1010655351525363773>",
            Job::Pugilist => "<:pugilist:1010655358320128011>",
            Job::Rogue => "<:rogue:1010655361595867166>",
            Job::Thaumaturge => "<:thaumaturge:1010655373516091426>",
            Job::Archer => "<:archer:1010655333988962366>",
        };
        token.to_owned()
    }

    /// The name of this job, spelled the same way on every call.
    pub fn display_name(&self) -> (name: String)
        ensures
            name@ == job_name(*self),
    {
        let name: &str = match self {
            Job::Gunbreaker => "Gunbreaker",
            Job::Paladin => "Paladin",
            Job::Gladiator => "Gladiator",
            Job::DarkKnight => "DarkKnight",
            Job::Warrior => "Warrior",
            Job::Marauder => "Marauder",
            Job::Scholar => "Scholar",
            Job::Arcanist => "Arcanist",
            Job::Sage => "Sage",
            Job::Astrologian => "Astrologian",
            Job::WhiteMage => "WhiteMage",
            Job::Conjurer => "Conjurer",
            Job::Samurai => "Samurai",
            Job::Dragoon => "Dragoon",
            Job::Ninja => "Ninja",
            Job::Monk => "Monk",
            Job::Reaper => "Reaper",
            Job::Bard => "Bard",
            Job::Machinist => "Machinist",
            Job::Dancer => "Dancer",
            Job::BlackMage => "BlackMage",
            Job::BlueMage => "BlueMage",
            Job::Summoner => "Summoner",
            Job::RedMage => "RedMage",
            Job::Lancer => "Lancer",
            Job::Pugilist => "Pugilist",
            Job::Rogue => "Rogue",
            Job::Thaumaturge => "Thaumaturge",
            Job::Archer => "Archer",
        };
        name.to_owned()
    }

    /// Classifies the job into its role.
    pub fn get_role(&self) -> (role: Role)
        ensures
            role == role_of(*self),
    {
        match self {
            Job::Paladin
            | Job::Gunbreaker
            | Job::DarkKnight
            | Job::Warrior
            | Job::Marauder
            | Job::Gladiator => Role::Tank,
            Job::Conjurer | Job::WhiteMage | Job::Scholar | Job::Astrologian | Job::Sage => {
                Role::Healer
            },
            _ => Role::DPS,
        }
    }
}

/// No job is both a tank and a healer.
pub proof fn lemma_tank_healer_disjoint(job: Job)
    ensures
        !(tank_jobs().contains(job) && healer_jobs().contains(job)),
{
}

/// Every job has exactly one role, and that role tells which of the two
/// fixed sets, if any, the job belongs to.
pub proof fn lemma_role_partitions_jobs(job: Job)
    ensures
        role_of(job) == Role::Tank <==> tank_jobs().contains(job),
        role_of(job) == Role::Healer <==> healer_jobs().contains(job),
        role_of(job) == Role::DPS <==> !tank_jobs().contains(job) && !healer_jobs().contains(job),
{
}

/// Whether a text has the shape of an icon token: a body between `<:` and `>`.
pub open spec fn is_icon_token(text: Seq<char>) -> bool {
    text.len() >= 4 && text[0] == '<' && text[1] == ':' && text.last() == '>'
}

/// Every job has an icon token, and no two jobs share one.
pub proof fn lemma_job_icons_are_distinct_tokens(first: Job, second: Job)
    ensures
        is_icon_token(job_icon(first)),
        job_icon(first) == job_icon(second) <==> first == second,
{
    reveal_strlit("<:gunbreaker:1010655347033256008>");
    reveal_strlit("<:paladin:1010655357217013811>");
    reveal_strlit("<:gladiator:1010655346144051273>");
    reveal_strlit("<:darkknight:1010655342977364008>");
    reveal_strlit("<:warrior:1010655374224924693>");
    reveal_strlit("<:marauder:1010655354025152652>");
    reveal_strlit("<:scholar:1010655365341380638>");
    reveal_strlit("<:arcanist:1010655332973948938>");
    reveal_strlit("<:sage:1010655362946441226>");
    reveal_strlit("<:astrologian:1010655335226294364>");
    reveal_strlit("<:whitemage:1010655375856517280>");
    reveal_strlit("<:conjurer:1010655339743559722>");
    reveal_strlit("<:samurai:1010655364250861679>");
    reveal_strlit("<:dragoon:1010655345074524250>");
    reveal_strlit("<:ffxivninja:1010655356193615882>");
    reveal_strlit("<:monk:1010655355128262686>");
    reveal_strlit("<:reaper:1010655359347728445>");
    reveal_strlit("<:bard:1010655336438444163>");
    reveal_strlit("<:machinist:1010655352959815730>");
    reveal_strlit("<:ffxivdancer:1010655341253500930>");
    reveal_strlit("<:blackmage:1010655337914830919>");
    reveal_strlit("<:bluemage:1010655338715938909>");
    reveal_strlit("<:summoner:1010655367740542976>");
    reveal_strlit("<:redmage:1010655360400498748>");
    reveal_strlit("<:lancer:1010655351525363773>");
    reveal_strlit("<:pugilist:1010655358320128011>");
    reveal_strlit("<:rogue:1010655361595867166>");
    reveal_strlit("<:thaumaturge:1010655373516091426>");
    reveal_strlit("<:archer:1010655333988962366>");
    // The length together with the first two letters of the name tells the icons apart.
    let a = job_icon(first);
    let b = job_icon(second);
    if a == b {
        assert(a.len() == b.len() && a[2] == b[2] && a[3] == b[3]);
    }
}

/// No two jobs share a name.
pub proof fn lemma_job_names_distinct(first: Job, second: Job)
    ensures
        job_name(first) == job_name(second) <==> first == second,
{
    reveal_strlit("Gunbreaker");
    reveal_strlit("Paladin");
    reveal_strlit("Gladiator");
    reveal_strlit("DarkKnight");
    reveal_strlit("Warrior");
    reveal_strlit("Marauder");
    reveal_strlit("Scholar");
    reveal_strlit("Arcanist");
    reveal_strlit("Sage");
    reveal_strlit("Astrologian");
    reveal_strlit("WhiteMage");
    reveal_strlit("Conjurer");
    reveal_strlit("Samurai");
    reveal_strlit("Dragoon");
    reveal_strlit("Ninja");
    reveal_strlit("Monk");
    reveal_strlit("Reaper");
    reveal_strlit("Bard");
    reveal_strlit("Machinist");
    reveal_strlit("Dancer");
    reveal_strlit("BlackMage");
    reveal_strlit("BlueMage");
    reveal_strlit("Summoner");
    reveal_strlit("RedMage");
    reveal_strlit("Lancer");
    reveal_strlit("Pugilist");
    reveal_strlit("Rogue");
    reveal_strlit("Thaumaturge");
    reveal_strlit("Archer");
    // The length together with the first two letters tells the names apart.
    let a = job_name(first);
    let b = job_name(second);
    if a == b {
        assert(a.len() == b.len() && a[0] == b[0] && a[1] == b[1]);
    }
}

} // verus!
