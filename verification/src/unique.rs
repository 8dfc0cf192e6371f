use crate::enums::{Field, Period, Replace, State};
use vstd::prelude::*;

verus! {

/// When a dispatch of a database handler matches a job already queued for it,
/// no new job is queued; the matching job may be updated instead.
///
/// A queued job matches when it is younger than `period`, agrees with the new
/// job on each of `fields`, has the same value under each of `keys` of the
/// event payload, and (if `states` is not empty) is in one of `states`.
/// `replace` names, per state of the matching job, the columns that the new
/// dispatch overwrites.
#[derive(Debug)]
pub struct Unique {
    pub period: Period,
    pub fields: Vec<Field>,
    pub keys: Vec<String>,
    pub states: Vec<State>,
    pub replace: Vec<Replace>,
}

} // verus!
