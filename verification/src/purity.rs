//! Every operation of this crate is a function of its argument alone. Each
//! statement below takes one argument and two results that the operation's
//! contract admits for it, and shows that the two agree.

use vstd::prelude::*;
use crate::code::{job_of_code, ParseError};
use crate::duty::duty_color;
use crate::job::{job_icon, job_name, role_of, Job, Role};
use crate::slot::{has_role, slot_text, slot_token, Slot};

verus! {

/// Classifying a job twice gives the same role.
pub proof fn lemma_get_role_repeats(job: Job, first: Role, second: Role)
    requires
        first == role_of(job),
        second == role_of(job),
    ensures
        first == second,
{
}

/// Asking twice for a job's icon gives the same token.
pub proof fn lemma_job_icon_repeats(job: Job, first: String, second: String)
    requires
        first@ == job_icon(job),
        second@ == job_icon(job),
    ensures
        first@ == second@,
{
}

/// Asking twice for a job's name gives the same spelling.
pub proof fn lemma_display_name_repeats(job: Job, first: String, second: String)
    requires
        first@ == job_name(job),
        second@ == job_name(job),
    ensures
        first@ == second@,
{
}

/// Parsing the same text twice gives the same job or the same error.
pub proof fn lemma_parse_job_code_repeats(
    code: Seq<char>,
    first: Result<Job, ParseError>,
    second: Result<Job, ParseError>,
)
    requires
        first == job_of_code(code),
        second == job_of_code(code),
    ensures
        first == second,
{
}

/// Asking a slot twice whether it accepts a role gives the same answer.
pub proof fn lemma_accepts_role_repeats(slot: Slot, role: Role, first: bool, second: bool)
    requires
        first == has_role(slot.available_jobs@, role),
        second == has_role(slot.available_jobs@, role),
    ensures
        first == second,
{
}

/// Rendering a slot twice gives the same token.
pub proof fn lemma_slot_token_repeats(slot: Slot, first: String, second: String)
    requires
        first@ == slot_token(slot.available_jobs@, slot.filled),
        second@ == slot_token(slot.available_jobs@, slot.filled),
    ensures
        first@ == second@,
{
}

/// Writing a slot out twice gives the same text.
pub proof fn lemma_slot_text_repeats(slot: Slot, first: String, second: String)
    requires
        first@ == slot_text(slot.available_jobs@, slot.filled),
        second@ == slot_text(slot.available_jobs@, slot.filled),
    ensures
        first@ == second@,
{
}

/// Looking a duty up twice gives the same color.
pub proof fn lemma_duty_color_repeats(duty_name: Seq<char>, first: u32, second: u32)
    requires
        first == duty_color(duty_name),
        second == duty_color(duty_name),
    ensures
        first == second,
{
}

} // verus!
