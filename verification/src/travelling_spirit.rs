//! The rare named visitor whose arrival is announced.

use vstd::prelude::*;

verus! {

/// The most recent visit on record: who comes and when.
#[derive(Debug)]
pub struct TravellingSpirit {
    /// The visitor's name.
    pub entity: String,
    /// The instant of arrival, in seconds since the Unix epoch.
    pub start: i64,
}

/// What the schedule reads of a visit.
pub struct TravellingSpiritView {
    pub entity: Seq<char>,
    pub start: i64,
}

impl View for TravellingSpirit {
    type V = TravellingSpiritView;

    open spec fn view(&self) -> TravellingSpiritView {
        TravellingSpiritView { entity: self.entity@, start: self.start }
    }
}

impl Clone for TravellingSpirit {
    fn clone(&self) -> (r: Self)
        ensures
            r@ == self@,
    {
        TravellingSpirit { entity: self.entity.clone(), start: self.start }
    }
}

} // verus!
