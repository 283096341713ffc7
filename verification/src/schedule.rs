//! The cadence of the cycles: a counter that names the page of the fleet for
//! each tick, so that not always the same ships come first.

use crate::constants::PAGE_ROTATION;
use vstd::prelude::*;

verus! {

/// The page that a tick is for, given the counter before it: the counter
/// itself, and 1 again once it has passed the rotation.
pub open spec fn page_for(count: int) -> int {
    if count > PAGE_ROTATION {
        1
    } else {
        count
    }
}

/// The counter of the scheduler.
#[derive(Debug)]
pub struct Scheduler {
    count: i32,
}

impl Scheduler {
    /// The counter: the page of the next tick, before the rotation is applied.
    pub closed spec fn count(&self) -> int {
        self.count as int
    }

    /// The counter is a page of the rotation, or one past its end.
    pub open spec fn wf(&self) -> bool {
        1 <= self.count() <= PAGE_ROTATION + 1
    }

    /// A scheduler whose first tick is for page 1.
    pub fn new() -> (scheduler: Scheduler)
        ensures
            scheduler.count() == 1,
            scheduler.wf(),
    {
        Scheduler { count: 1 }
    }

    /// One tick: the page that the unit of work fired now is for.
    pub fn tick(&mut self) -> (page: i32)
        requires
            old(self).wf(),
        ensures
            page == page_for(old(self).count()),
            1 <= page <= PAGE_ROTATION,
            final(self).count() == page + 1,
            final(self).wf(),
    {
        if self.count > PAGE_ROTATION {
            self.count = 1;
        }
        let page = self.count;
        self.count = page + 1;
        page
    }
}

/// The pages come round: after the last page of the rotation the first follows,
/// after every other page the next.
pub proof fn law_pages_rotate(count: int)
    requires
        1 <= count <= PAGE_ROTATION + 1,
    ensures
        page_for(page_for(count) + 1) == if page_for(count) == PAGE_ROTATION {
            1
        } else {
            page_for(count) + 1
        },
{
}

} // verus!
