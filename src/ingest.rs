//! The tally of a load: rows stored, and rows dropped for want of a region
//! or a city.

use vstd::prelude::*;
use crate::record::{Item, RowError};

verus! {

/// What a load has done so far.
#[derive(Debug, Clone, Copy, PartialEq, Eq)]
pub struct LoadSummary {
    pub inserted: u64,
    pub missing_region: u64,
    pub missing_city: u64,
}

impl LoadSummary {
    /// A load that has seen no row.
    pub fn new() -> (r: LoadSummary)
        ensures
            r.inserted == 0,
            r.missing_region == 0,
            r.missing_city == 0,
    {
        LoadSummary { inserted: 0, missing_region: 0, missing_city: 0 }
    }

    /// Rows dropped so far.
    pub open spec fn skipped(&self) -> int {
        self.missing_region + self.missing_city
    }

    /// Counts one row: a stored record, or a row dropped for the field it
    /// lacks. Only a stored record counts as inserted.
    pub fn count<V>(&mut self, outcome: &Result<Item<V>, RowError>)
        requires
            old(self).inserted < u64::MAX,
            old(self).missing_region < u64::MAX,
            old(self).missing_city < u64::MAX,
        ensures
            outcome is Ok ==> final(self).inserted == old(self).inserted + 1,
            outcome is Err ==> final(self).inserted == old(self).inserted,
            outcome is Ok ==> final(self).skipped() == old(self).skipped(),
            outcome is Err ==> final(self).skipped() == old(self).skipped() + 1,
            *outcome == Err::<Item<V>, RowError>(RowError::MissingRegion) ==> final(self).missing_region
                == old(self).missing_region + 1,
            *outcome == Err::<Item<V>, RowError>(RowError::MissingCity) ==> final(self).missing_city
                == old(self).missing_city + 1,
            *outcome != Err::<Item<V>, RowError>(RowError::MissingRegion) ==> final(self).missing_region
                == old(self).missing_region,
            *outcome != Err::<Item<V>, RowError>(RowError::MissingCity) ==> final(self).missing_city
                == old(self).missing_city,
    {
        match outcome {
            Ok(_) => self.inserted = self.inserted + 1,
            Err(RowError::MissingRegion) => self.missing_region = self.missing_region + 1,
            Err(RowError::MissingCity) => self.missing_city = self.missing_city + 1,
        }
    }
}

} // verus!
