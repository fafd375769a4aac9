use vstd::prelude::*;

verus! {

/// That a user has a skill.
#[derive(Clone, Copy, Debug, PartialEq, Eq, Structural)]
pub struct UserSkills {
    pub user_id: i32,
    pub skill_id: i32,
}

} // verus!
