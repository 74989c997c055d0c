//! The removal workflow's decision, taken once the user has answered.
use vstd::prelude::*;

verus! {

/// The title of the confirmation asked before a version is removed.
pub const REMOVAL_TITLE: &'static str = "confirm deletion?";

/// What a removal does: nothing, or delete the named install directory and
/// scan the install root again.
#[derive(Clone, Debug)]
pub enum Removal {
    Keep,
    Delete(String),
}

/// The question asked before `version` is removed.
pub fn removal_prompt(version: &str) -> (r: String)
    ensures
        r@ == "Will the local node version "@ + version@ + " be deleted?"@,
{
    let mut r = String::from_str("Will the local node version ");
    r.append(version);
    r.append(" be deleted?");
    r
}

/// What removing `version` does once the user has answered: a declined
/// removal touches nothing and refreshes nothing; a confirmed one deletes
/// exactly the directory named after the version.
pub fn plan_removal(version: &str, confirmed: bool) -> (r: Removal)
    ensures
        !confirmed ==> r is Keep,
        confirmed ==> (r matches Removal::Delete(dir) && dir@ == version@),
{
    if confirmed {
        Removal::Delete(String::from_str(version))
    } else {
        Removal::Keep
    }
}

} // verus!
