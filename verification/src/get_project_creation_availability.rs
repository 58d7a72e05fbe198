//! Telling, for each project category, whether projects can be created now.
use vstd::prelude::*;

use crate::model::ProjectCategory;

verus! {

/// For each category, whether the present moment lies in its project
/// creation period; `timestamp` is that moment, in milliseconds since the
/// Unix epoch.
#[derive(Debug, Clone, Copy, PartialEq, Eq, Structural)]
pub struct ProjectCreationAvailability {
    pub timestamp: i64,
    pub general: bool,
    pub cooking_requiring_preparation_area: bool,
    pub cooking: bool,
    pub food: bool,
    pub stage: bool,
}

/// Gives each category's availability at the moment `now` (in milliseconds
/// since the Unix epoch, read from the clock by the caller);
/// `period_contains(t, c)` tells whether the moment `t` lies in the project
/// creation period of category `c`.
pub fn run<F: Fn(i64, ProjectCategory) -> bool>(now: i64, period_contains: F) -> (res: ProjectCreationAvailability)
    requires
        forall|t: i64, c: ProjectCategory| period_contains.requires((t, c)),
    ensures
        res.timestamp == now,
        period_contains.ensures((now, ProjectCategory::General), res.general),
        period_contains.ensures((now, ProjectCategory::CookingRequiringPreparationArea), res.cooking_requiring_preparation_area),
        period_contains.ensures((now, ProjectCategory::Cooking), res.cooking),
        period_contains.ensures((now, ProjectCategory::Food), res.food),
        period_contains.ensures((now, ProjectCategory::Stage), res.stage),
{
    ProjectCreationAvailability {
        timestamp: now,
        general: period_contains(now, ProjectCategory::General),
        cooking_requiring_preparation_area: period_contains(now, ProjectCategory::CookingRequiringPreparationArea),
        cooking: period_contains(now, ProjectCategory::Cooking),
        food: period_contains(now, ProjectCategory::Food),
        stage: period_contains(now, ProjectCategory::Stage),
    }
}

} // verus!
