//! One requested party position and the token that displays it.

use vstd::prelude::*;
use vstd::string::StringExecFns;
use crate::job::{is_icon_token, job_icon, job_name, lemma_job_icons_are_distinct_tokens, role_of, Job, Role};

verus! {

/// One recruitment line: the jobs accepted for the position, in listing
/// order, and whether a player already occupies it. When the slot is filled,
/// the first job stands for the occupant.
#[derive(Debug, Clone)]
pub struct Slot {
    pub available_jobs: Vec<Job>,
    pub filled: bool,
}

/// Whether some job of the sequence plays the given role.
pub open spec fn has_role(jobs: Seq<Job>, role: Role) -> bool {
    exists|i: int| 0 <= i < jobs.len() && role_of(#[trigger] jobs[i]) == role
}

/// The token for a combination of wanted roles. Nothing wanted gives the
/// empty token.
pub open spec fn role_combo_token(tank: bool, healer: bool, dps: bool) -> Seq<char> {
    if tank && healer && dps {
        "<:tankhealerdps:1010655372014538855>"@
    } else if tank && healer {
        "<:tankhealer:1010655371217621032>"@
    } else if tank && dps {
        "<:tankdps:1010655370089349181>"@
    } else if tank {
        "<:tank:1010655368919142492>"@
    } else if healer && dps {
        "<:healerdps:1010655349608562800>"@
    } else if healer {
        "<:healer:1010655348601917651>"@
    } else if dps {
        "<:dps:1010655344097247382>"@
    } else {
        Seq::empty()
    }
}

/// The display token of a slot. A filled slot shows the icon of its first
/// job and nothing else; an open slot shows which roles its jobs cover.
/// Without jobs the token is empty either way.
pub open spec fn slot_token(jobs: Seq<Job>, filled: bool) -> Seq<char> {
    if filled {
        if jobs.len() > 0 {
            job_icon(jobs[0])
        } else {
            Seq::empty()
        }
    } else {
        role_combo_token(
            has_role(jobs, Role::Tank),
            has_role(jobs, Role::Healer),
            has_role(jobs, Role::DPS),
        )
    }
}

/// One line per job, as an indented list shows them: four spaces, the
/// job's name, a comma and a line break.
pub open spec fn job_lines(jobs: Seq<Job>) -> Seq<char>
    decreases jobs.len(),
{
    if jobs.len() == 0 {
        Seq::empty()
    } else {
        job_lines(jobs.drop_last()) + "    "@ + job_name(jobs.last()) + ",\n"@
    }
}

/// A job list in brackets: `[]` when empty, otherwise one job per line.
pub open spec fn job_list_text(jobs: Seq<Job>) -> Seq<char> {
    if jobs.len() == 0 {
        "[]"@
    } else {
        "[\n"@ + job_lines(jobs) + "]"@
    }
}

/// A flag as the word `true` or `false`.
pub open spec fn flag_text(flag: bool) -> Seq<char> {
    if flag {
        "true"@
    } else {
        "false"@
    }
}

/// The diagnostic text of a slot: its job list, then its filled flag.
pub open spec fn slot_text(jobs: Seq<Job>, filled: bool) -> Seq<char> {
    "Slot("@ + job_list_text(jobs) + ", "@ + flag_text(filled) + ")"@
}

impl Slot {
    /// A filled slot names its occupant, so it lists at least one job.
    pub open spec fn well_formed(&self) -> bool {
        self.filled ==> self.available_jobs@.len() > 0
    }

    /// Whether one of the accepted jobs plays `role`.
    pub fn accepts_role(&self, role: Role) -> (found: bool)
        ensures
            found == has_role(self.available_jobs@, role),
    {
        let n: usize = self.available_jobs.len();
        let mut i: usize = 0;
        while i < n
            invariant
                i <= n,
                n == self.available_jobs@.len(),
                forall|k: int| 0 <= k < i ==> role_of(#[trigger] self.available_jobs@[k]) != role,
            decreases n - i,
        {
            if self.available_jobs[i].get_role() == role {
                return true;
            }
            i = i + 1;
        }
        false
    }

    /// A diagnostic rendering of the slot, one accepted job per line.
    pub fn to_string(&self) -> (text: String)
        ensures
            text@ == slot_text(self.available_jobs@, self.filled),
    {
        let ghost jobs = self.available_jobs@;
        let n: usize = self.available_jobs.len();
        let mut text: String = "Slot(".to_owned();
        if n == 0 {
            text.append("[]");
        } else {
            text.append("[\n");
            let mut i: usize = 0;
            while i < n
                invariant
                    i <= n,
                    n == jobs.len(),
                    jobs == self.available_jobs@,
                    text@ == "Slot("@ + "[\n"@ + job_lines(jobs.take(i as int)),
                decreases n - i,
            {
                let name = self.available_jobs[i].display_name();
                text.append("    ");
                text.append(name.as_str());
                text.append(",\n");
                proof {
                    assert(jobs.take(i + 1).drop_last() =~= jobs.take(i as int));
                }
                i = i + 1;
            }
            proof {
                assert(jobs.take(n as int) =~= jobs);
            }
            text.append("]");
        }
        text.append(", ");
        text.append(if self.filled { "true" } else { "false" });
        text.append(")");
        text
    }

    /// The token that displays this slot.
    pub fn get_emoji_string(&self) -> (token: String)
        ensures
            token@ == slot_token(self.available_jobs@, self.filled),
    {
        if self.filled {
            if self.available_jobs.len() > 0 {
                self.available_jobs[0].get_emoji_string()
            } else {
                String::new()
            }
        } else {
            let contains_tank = self.accepts_role(Role::Tank);
            let contains_healer = self.accepts_role(Role::Healer);
            let contains_dps = self.accepts_role(Role::DPS);
            if contains_tank && contains_healer && contains_dps {
                "<:tankhealerdps:1010655372014538855>".to_owned()
            } else if contains_tank && contains_healer {
                "<:tankhealer:1010655371217621032>".to_owned()
            } else if contains_tank && contains_dps {
                "<:tankdps:1010655370089349181>".to_owned()
            } else if contains_tank {
                "<:tank:1010655368919142492>".to_owned()
            } else if contains_healer && contains_dps {
                "<:healerdps:1010655349608562800>".to_owned()
            } else if contains_healer {
                "<:healer:1010655348601917651>".to_owned()
            } else if contains_dps {
                "<:dps:1010655344097247382>".to_owned()
            } else {
                String::new()
            }
        }
    }
}

/// A filled slot shows the icon of its first job, whatever follows it.
pub proof fn lemma_filled_slot_shows_first_job(jobs: Seq<Job>)
    requires
        jobs.len() > 0,
    ensures
        slot_token(jobs, true) == job_icon(jobs[0]),
        slot_token(jobs, true) == slot_token(seq![jobs[0]], true),
{
}

/// A well-formed filled slot always shows an icon: that of its occupant.
pub proof fn lemma_well_formed_filled_slot_shows_occupant(slot: Slot)
    requires
        slot.well_formed(),
        slot.filled,
    ensures
        slot_token(slot.available_jobs@, slot.filled) == job_icon(slot.available_jobs@[0]),
        is_icon_token(slot_token(slot.available_jobs@, slot.filled)),
{
    lemma_job_icons_are_distinct_tokens(slot.available_jobs@[0], slot.available_jobs@[0]);
}

/// The token of an open slot depends only on which roles its jobs cover:
/// neither their order nor their number matters.
pub proof fn lemma_open_slot_depends_on_roles(first: Seq<Job>, second: Seq<Job>)
    requires
        has_role(first, Role::Tank) == has_role(second, Role::Tank),
        has_role(first, Role::Healer) == has_role(second, Role::Healer),
        has_role(first, Role::DPS) == has_role(second, Role::DPS),
    ensures
        slot_token(first, false) == slot_token(second, false),
{
}

/// An open slot reads its jobs as a set: two lists with the same members
/// show the same token.
pub proof fn lemma_open_slot_reads_jobs_as_set(first: Seq<Job>, second: Seq<Job>)
    requires
        first.to_set() == second.to_set(),
    ensures
        slot_token(first, false) == slot_token(second, false),
{
    assert forall|role: Role| has_role(first, role) == has_role(second, role) by {
        if has_role(first, role) {
            let i = choose|i: int| 0 <= i < first.len() && role_of(#[trigger] first[i]) == role;
            assert(first.to_set().contains(first[i]));
            assert(second.contains(first[i]));
        }
        if has_role(second, role) {
            let i = choose|i: int| 0 <= i < second.len() && role_of(#[trigger] second[i]) == role;
            assert(second.to_set().contains(second[i]));
            assert(first.contains(second[i]));
        }
    }
}

/// Adding a job whose role is already covered leaves the token of an open
/// slot as it was.
pub proof fn lemma_covered_role_adds_nothing(jobs: Seq<Job>, job: Job)
    requires
        has_role(jobs, role_of(job)),
    ensures
        slot_token(jobs.push(job), false) == slot_token(jobs, false),
{
    let more = jobs.push(job);
    assert forall|role: Role| has_role(jobs, role) == has_role(more, role) by {
        if has_role(jobs, role) {
            let i = choose|i: int| 0 <= i < jobs.len() && role_of(#[trigger] jobs[i]) == role;
            assert(more[i] == jobs[i]);
        }
        if has_role(more, role) {
            let i = choose|i: int| 0 <= i < more.len() && role_of(#[trigger] more[i]) == role;
            if i < jobs.len() {
                assert(jobs[i] == more[i]);
            } else {
                let j = choose|j: int| 0 <= j < jobs.len() && role_of(#[trigger] jobs[j]) == role_of(job);
                assert(role_of(jobs[j]) == role);
            }
        }
    }
}

/// A slot without jobs has the empty token; any other slot has an icon token.
pub proof fn lemma_token_is_empty_or_icon(jobs: Seq<Job>, filled: bool)
    ensures
        jobs.len() == 0 ==> slot_token(jobs, filled) == Seq::<char>::empty(),
        jobs.len() > 0 ==> is_icon_token(slot_token(jobs, filled)),
{
    reveal_strlit("<:tankhealerdps:1010655372014538855>");
    reveal_strlit("<:tankhealer:1010655371217621032>");
    reveal_strlit("<:tankdps:1010655370089349181>");
    reveal_strlit("<:tank:1010655368919142492>");
    reveal_strlit("<:healerdps:1010655349608562800>");
    reveal_strlit("<:healer:1010655348601917651>");
    reveal_strlit("<:dps:1010655344097247382>");
    if jobs.len() > 0 {
        lemma_job_icons_are_distinct_tokens(jobs[0], jobs[0]);
        assert(has_role(jobs, role_of(jobs[0])));
    }
}

} // verus!
