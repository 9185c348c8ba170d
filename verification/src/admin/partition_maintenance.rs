//! `POST /internal/admin/partition-maintenance`: seed the coming daily partitions
//! of the agent events, and drop the expired ones.

use crate::json::{self, json_of, Json};
use vstd::prelude::*;

verus! {

/// Number of days to seed partitions for: today and the days after it.
pub const SEED_DAYS_AHEAD: u32 = 2;

#[derive(Debug, Clone, Copy, PartialEq, Eq)]
pub struct PartitionMaintenanceResponse {
    /// Number of partitions seeded this run.
    pub seeded: u32,
    /// Number of expired partitions dropped this run.
    pub pruned: i32,
}

impl PartitionMaintenanceResponse {
    /// The response in JSON.
    pub fn to_json(&self) -> (v: serde_json::Value)
        ensures
            json_of(v) == Json::Object(
                map!["seeded"@ => Json::Int(self.seeded as int), "pruned"@ => Json::Int(self.pruned as int)],
            ),
    {
        let v = json::with(json::object(), "seeded", json::number(self.seeded as i64));
        json::with(v, "pruned", json::number(self.pruned as i64))
    }
}

/// What is known so far while partitions are maintained.
#[derive(Debug)]
pub struct MaintenanceFacts {
    /// For each day seeded so far, whether its partition was missing before.
    pub created: Vec<bool>,
    /// The number of partitions dropped.
    pub pruned: Option<i32>,
}

/// What to do next.
#[derive(Debug, Clone, Copy, PartialEq, Eq)]
pub enum MaintenanceAction {
    /// Seed the partition of the day that is this many days after today.
    Seed { days_from_today: u32 },
    /// Drop the expired partitions.
    Prune,
    /// Answer.
    Answer(PartitionMaintenanceResponse),
}

/// How many of `flags` are set.
pub open spec fn set_flags(flags: Seq<bool>) -> int
    decreases flags.len(),
{
    if flags.len() == 0 {
        0
    } else {
        set_flags(flags.drop_last()) + if flags.last() { 1int } else { 0 }
    }
}

/// The next step: the days are seeded in order, then the expired partitions go,
/// then the answer counts the partitions that were not there before.
pub fn partition_maintenance(facts: &MaintenanceFacts) -> (action: MaintenanceAction)
    requires
        facts.created@.len() <= SEED_DAYS_AHEAD,
    ensures
        facts.created@.len() < SEED_DAYS_AHEAD ==> action == (MaintenanceAction::Seed {
            days_from_today: facts.created@.len() as u32,
        }),
        facts.created@.len() == SEED_DAYS_AHEAD ==> match facts.pruned {
            None => action is Prune,
            Some(pruned) => action matches MaintenanceAction::Answer(r) && r.seeded == set_flags(facts.created@)
                && r.pruned == pruned,
        },
        action matches MaintenanceAction::Answer(r) ==> r.seeded == facts.created@.filter(|new: bool| new).len(),
{
    proof {
        seeded_counts_new_partitions(facts.created@);
    }
    if facts.created.len() < SEED_DAYS_AHEAD as usize {
        return MaintenanceAction::Seed { days_from_today: facts.created.len() as u32 };
    }
    match facts.pruned {
        None => MaintenanceAction::Prune,
        Some(pruned) => {
            let mut seeded: u32 = 0;
            let mut i: usize = 0;
            while i < facts.created.len()
                invariant
                    i <= facts.created@.len() <= SEED_DAYS_AHEAD,
                    seeded == set_flags(facts.created@.take(i as int)),
                    seeded <= i,
                decreases facts.created@.len() - i,
            {
                assert(facts.created@.take(i + 1).drop_last() == facts.created@.take(i as int));
                if facts.created[i] {
                    seeded += 1;
                }
                i += 1;
            }
            assert(facts.created@.take(i as int) == facts.created@);
            MaintenanceAction::Answer(PartitionMaintenanceResponse { seeded, pruned })
        },
    }
}

/// A run that finds every partition there reports none as seeded.
pub proof fn idle_maintenance_seeds_nothing(created: Seq<bool>)
    requires
        forall|i: int| 0 <= i < created.len() ==> !created[i],
    ensures
        set_flags(created) == 0,
    decreases created.len(),
{
    if created.len() > 0 {
        idle_maintenance_seeds_nothing(created.drop_last());
    }
}

/// The number of partitions that is reported as seeded is that of the days whose partition
/// was not there before.
pub proof fn seeded_counts_new_partitions(created: Seq<bool>)
    ensures
        set_flags(created) == created.filter(|new: bool| new).len(),
    decreases created.len(),
{
    reveal(Seq::filter);
    if created.len() > 0 {
        seeded_counts_new_partitions(created.drop_last());
    }
}

} // verus!
