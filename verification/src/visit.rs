//! The record of a visit: who asked for what, and when.

use chrono::NaiveDateTime;
use vstd::prelude::*;

verus! {

/// One visit, as it is written to the database.
#[derive(Debug)]
pub struct Visit {
    pub visitor: String,
    pub path: String,
    pub instance: NaiveDateTime,
}

impl Visit {
    /// The visit to record for a request: one by the visitor's address at
    /// the given moment, where the address is known; none where it is not.
    pub fn of(address: Option<&str>, uri: &str, instance: NaiveDateTime) -> (visit: Option<Visit>)
        ensures
            address is None <==> visit is None,
            visit is Some ==> {
                &&& visit->0.visitor@ == address->0@
                &&& visit->0.path@ == uri@
                &&& visit->0.instance == instance
            },
    {
        match address {
            Some(visitor) => Some(
                Visit {
                    visitor: String::from_str(visitor),
                    path: String::from_str(uri),
                    instance,
                },
            ),
            None => None,
        }
    }
}

} // verus!
