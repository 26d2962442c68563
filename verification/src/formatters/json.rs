//! Marker type for the JSON rendering of a run.  The rendering itself is
//! serialization and lives with the caller.

use vstd::prelude::*;

verus! {

pub struct JsonFormatter;

impl JsonFormatter {
    pub fn new() -> (r: Self)
        ensures
            r == (JsonFormatter {  }),
    {
        Self {  }
    }
}

} // verus!
