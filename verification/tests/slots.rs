use xiv_util::{Job, PFListing, Role, Slot};

const TANK_HEALER_DPS: &str = "<:tankhealerdps:1010655372014538855>";
const TANK_HEALER: &str = "<:tankhealer:1010655371217621032>";
const TANK_DPS: &str = "<:tankdps:1010655370089349181>";
const TANK: &str = "<:tank:1010655368919142492>";
const HEALER_DPS: &str = "<:healerdps:1010655349608562800>";
const HEALER: &str = "<:healer:1010655348601917651>";
const DPS: &str = "<:dps:1010655344097247382>";

fn open_slot(jobs: Vec<Job>) -> Slot {
    Slot { available_jobs: jobs, filled: false }
}

fn filled_slot(jobs: Vec<Job>) -> Slot {
    Slot { available_jobs: jobs, filled: true }
}

#[test]
fn filled_slot_shows_the_icon_of_its_job() {
    let slot = filled_slot(vec![Job::Paladin]);
    assert_eq!(slot.get_emoji_string(), "<:paladin:1010655357217013811>");
}

#[test]
fn filled_slot_ignores_every_job_after_the_first() {
    let slot = filled_slot(vec![Job::Paladin, Job::WhiteMage, Job::BlackMage]);
    assert_eq!(slot.get_emoji_string(), "<:paladin:1010655357217013811>");
    let slot = filled_slot(vec![Job::WhiteMage, Job::Paladin]);
    assert_eq!(slot.get_emoji_string(), "<:whitemage:1010655375856517280>");
}

#[test]
fn filled_slot_without_jobs_shows_nothing() {
    assert_eq!(filled_slot(vec![]).get_emoji_string(), "");
}

#[test]
fn open_slot_with_all_roles_shows_the_full_combination() {
    let slot = open_slot(vec![Job::Paladin, Job::WhiteMage, Job::BlackMage]);
    assert_eq!(slot.get_emoji_string(), TANK_HEALER_DPS);
}

#[test]
fn open_slot_collapses_jobs_of_one_role() {
    let two = open_slot(vec![Job::Paladin, Job::Warrior]);
    let one = open_slot(vec![Job::Paladin]);
    assert_eq!(two.get_emoji_string(), TANK);
    assert_eq!(two.get_emoji_string(), one.get_emoji_string());
}

#[test]
fn open_slot_without_jobs_shows_nothing() {
    assert_eq!(open_slot(vec![]).get_emoji_string(), "");
}

#[test]
fn open_slot_follows_the_decision_table() {
    let tank = Job::Gunbreaker;
    let healer = Job::Sage;
    let dps = Job::Ninja;
    assert_eq!(open_slot(vec![tank, healer, dps]).get_emoji_string(), TANK_HEALER_DPS);
    assert_eq!(open_slot(vec![tank, healer]).get_emoji_string(), TANK_HEALER);
    assert_eq!(open_slot(vec![tank, dps]).get_emoji_string(), TANK_DPS);
    assert_eq!(open_slot(vec![tank]).get_emoji_string(), TANK);
    assert_eq!(open_slot(vec![healer, dps]).get_emoji_string(), HEALER_DPS);
    assert_eq!(open_slot(vec![healer]).get_emoji_string(), HEALER);
    assert_eq!(open_slot(vec![dps]).get_emoji_string(), DPS);
    assert_eq!(open_slot(vec![]).get_emoji_string(), "");
}

#[test]
fn open_slot_ignores_order_and_repetition() {
    let a = open_slot(vec![Job::BlackMage, Job::WhiteMage, Job::Paladin]);
    let b = open_slot(vec![Job::Paladin, Job::Paladin, Job::Scholar, Job::Bard, Job::Bard]);
    assert_eq!(a.get_emoji_string(), TANK_HEALER_DPS);
    assert_eq!(b.get_emoji_string(), TANK_HEALER_DPS);
    let c = open_slot(vec![Job::Dancer, Job::Astrologian]);
    let d = open_slot(vec![Job::Conjurer, Job::Monk, Job::Conjurer]);
    assert_eq!(c.get_emoji_string(), HEALER_DPS);
    assert_eq!(d.get_emoji_string(), HEALER_DPS);
}

#[test]
fn open_slot_finds_a_role_at_the_end_of_a_long_list() {
    let mut jobs = vec![Job::Samurai; 40];
    assert_eq!(open_slot(jobs.clone()).get_emoji_string(), DPS);
    jobs.push(Job::Marauder);
    assert_eq!(open_slot(jobs).get_emoji_string(), TANK_DPS);
}

#[test]
fn token_is_empty_only_without_jobs() {
    let all = vec![
        Job::Gunbreaker, Job::Paladin, Job::Gladiator, Job::DarkKnight, Job::Warrior,
        Job::Marauder, Job::Scholar, Job::Arcanist, Job::Sage, Job::Astrologian,
        Job::WhiteMage, Job::Conjurer, Job::Samurai, Job::Dragoon, Job::Ninja, Job::Monk,
        Job::Reaper, Job::Bard, Job::Machinist, Job::Dancer, Job::BlackMage, Job::BlueMage,
        Job::Summoner, Job::RedMage, Job::Lancer, Job::Pugilist, Job::Rogue,
        Job::Thaumaturge, Job::Archer,
    ];
    for job in all {
        assert_ne!(open_slot(vec![job]).get_emoji_string(), "");
        assert_eq!(filled_slot(vec![job]).get_emoji_string(), job.get_emoji_string());
    }
}

#[test]
fn accepts_role_looks_at_every_job() {
    let slot = open_slot(vec![Job::Paladin, Job::Bard]);
    assert!(slot.accepts_role(Role::Tank));
    assert!(slot.accepts_role(Role::DPS));
    assert!(!slot.accepts_role(Role::Healer));
    let empty = open_slot(vec![]);
    assert!(!empty.accepts_role(Role::Tank));
    assert!(!empty.accepts_role(Role::Healer));
    assert!(!empty.accepts_role(Role::DPS));
}

#[test]
fn rendering_twice_gives_the_same_token() {
    let slots = vec![
        open_slot(vec![Job::Paladin, Job::WhiteMage]),
        filled_slot(vec![Job::Reaper]),
        open_slot(vec![]),
    ];
    for slot in slots {
        assert_eq!(slot.get_emoji_string(), slot.get_emoji_string());
        assert_eq!(slot.to_string(), slot.to_string());
        assert_eq!(slot.accepts_role(Role::Tank), slot.accepts_role(Role::Tank));
    }
}

#[test]
fn rendering_leaves_the_slot_unchanged() {
    let slot = open_slot(vec![Job::Paladin, Job::WhiteMage]);
    let _ = slot.get_emoji_string();
    let _ = slot.to_string();
    assert_eq!(slot.available_jobs, vec![Job::Paladin, Job::WhiteMage]);
    assert!(!slot.filled);
}

#[test]
fn to_string_of_an_empty_slot() {
    assert_eq!(open_slot(vec![]).to_string(), "Slot([], false)");
    assert_eq!(filled_slot(vec![]).to_string(), "Slot([], true)");
}

#[test]
fn to_string_puts_one_job_on_each_line() {
    let slot = filled_slot(vec![Job::Paladin]);
    assert_eq!(slot.to_string(), "Slot([\n    Paladin,\n], true)");
    let slot = open_slot(vec![Job::DarkKnight, Job::WhiteMage, Job::Ninja]);
    assert_eq!(
        slot.to_string(),
        "Slot([\n    DarkKnight,\n    WhiteMage,\n    Ninja,\n], false)"
    );
}

#[test]
fn to_string_matches_the_pretty_debug_list() {
    let lists = vec![
        vec![],
        vec![Job::Paladin],
        vec![Job::Paladin, Job::Warrior],
        vec![Job::Thaumaturge, Job::Archer, Job::BlueMage, Job::Astrologian],
    ];
    for jobs in lists {
        for filled in [false, true] {
            let slot = Slot { available_jobs: jobs.clone(), filled };
            assert_eq!(slot.to_string(), format!("Slot({:#?}, {})", jobs, filled));
        }
    }
}

#[test]
fn listing_keeps_its_slots_in_order() {
    let listing = PFListing {
        title: "Clear party".to_string(),
        author: "Someone".to_string(),
        flags: "[Practice]".to_string(),
        description: "bring food".to_string(),
        slots: vec![
            filled_slot(vec![Job::Warrior]),
            open_slot(vec![Job::WhiteMage, Job::Scholar]),
            open_slot(vec![]),
        ],
        last_updated: "1 minute ago".to_string(),
        expires_in: "59 minutes".to_string(),
        min_ilvl: "600".to_string(),
        data_center: "Light".to_string(),
        pf_category: "High-end Duty".to_string(),
    };
    let copy = listing.clone();
    let tokens: Vec<String> = copy.slots.iter().map(|s| s.get_emoji_string()).collect();
    assert_eq!(
        tokens,
        vec![
            "<:warrior:1010655374224924693>".to_string(),
            HEALER.to_string(),
            String::new(),
        ]
    );
    assert_eq!(copy.title, listing.title);
    assert_eq!(copy.slots.len(), 3);
}
