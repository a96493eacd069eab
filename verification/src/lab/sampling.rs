//! Position sampling.
//!
//! Sampling density decides how much of a batch's search becomes training
//! data, and how much of the writer's throughput a batch consumes.

use vstd::prelude::*;

use crate::config::SamplingConfig;
use crate::engine::mcts::ChildStats;

verus! {

broadcast use vstd::seq_lib::group_to_multiset_ensures;

/// The index of the first entry of `sorted` with fewer than `visits` visits,
/// or its length if there is none.
pub open spec fn first_below(sorted: Seq<ChildStats>, visits: u32) -> int
    decreases sorted.len(),
{
    if sorted.len() == 0 {
        0
    } else if sorted[0].visits < visits {
        0
    } else {
        1 + first_below(sorted.drop_first(), visits)
    }
}

/// `stats` ordered by visits, highest first; entries with equal visits keep
/// their order.
pub open spec fn by_visits(stats: Seq<ChildStats>) -> Seq<ChildStats>
    decreases stats.len(),
{
    if stats.len() == 0 {
        Seq::empty()
    } else {
        let sorted = by_visits(stats.drop_last());
        sorted.insert(first_below(sorted, stats.last().visits), stats.last())
    }
}

pub open spec fn visits_descending(stats: Seq<ChildStats>) -> bool {
    forall|i: int, j: int| 0 <= i <= j < stats.len() ==> stats[i].visits >= stats[j].visits
}

/// The edges kept for a position: the `budget` highest-visit ones, highest
/// first, or none when child statistics are not stored.
pub open spec fn selected_edges(config: SamplingConfig, stats: Seq<ChildStats>) -> Seq<ChildStats> {
    if !config.store_child_stats {
        Seq::empty()
    } else if by_visits(stats).len() > config.max_edges_per_position {
        by_visits(stats).take(config.max_edges_per_position as int)
    } else {
        by_visits(stats)
    }
}

proof fn lemma_first_below_bounds(sorted: Seq<ChildStats>, visits: u32)
    ensures
        0 <= first_below(sorted, visits) <= sorted.len(),
        forall|j: int| 0 <= j < first_below(sorted, visits) ==> sorted[j].visits >= visits,
        first_below(sorted, visits) < sorted.len() ==> sorted[first_below(sorted, visits)].visits
            < visits,
    decreases sorted.len(),
{
    if sorted.len() > 0 && sorted[0].visits >= visits {
        lemma_first_below_bounds(sorted.drop_first(), visits);
        assert forall|j: int| 0 <= j < first_below(sorted, visits) implies sorted[j].visits
            >= visits by {
            if j > 0 {
                assert(sorted[j] == sorted.drop_first()[j - 1]);
            }
        }
    }
}

/// A scan that stops at the first entry below `visits` finds `first_below`.
proof fn lemma_first_below_is_the_scan(sorted: Seq<ChildStats>, visits: u32, pos: int)
    requires
        0 <= pos <= sorted.len(),
        forall|j: int| 0 <= j < pos ==> sorted[j].visits >= visits,
        pos == sorted.len() || sorted[pos].visits < visits,
    ensures
        first_below(sorted, visits) == pos,
    decreases pos,
{
    if pos > 0 {
        let rest = sorted.drop_first();
        assert forall|j: int| 0 <= j < pos - 1 implies rest[j].visits >= visits by {
            assert(rest[j] == sorted[j + 1]);
        }
        lemma_first_below_is_the_scan(rest, visits, pos - 1);
    }
}

proof fn lemma_by_visits_is_a_descending_permutation(stats: Seq<ChildStats>)
    ensures
        by_visits(stats).len() == stats.len(),
        visits_descending(by_visits(stats)),
        by_visits(stats).to_multiset() == stats.to_multiset(),
    decreases stats.len(),
{
    if stats.len() > 0 {
        let rest = stats.drop_last();
        let x = stats.last();
        lemma_by_visits_is_a_descending_permutation(rest);
        let sorted = by_visits(rest);
        let pos = first_below(sorted, x.visits);
        lemma_first_below_bounds(sorted, x.visits);
        sorted.insert_ensures(pos, x);
        let result = sorted.insert(pos, x);
        assert forall|i: int, j: int| 0 <= i <= j < result.len() implies result[i].visits
            >= result[j].visits by {
            if j < pos {
            } else if j == pos {
                if i < pos {
                }
            } else if i < pos {
                assert(result[j] == sorted[j - 1]);
            } else if i == pos {
                assert(result[j] == sorted[j - 1]);
            } else {
                assert(result[i] == sorted[i - 1]);
                assert(result[j] == sorted[j - 1]);
            }
        }
        vstd::seq_lib::to_multiset_insert(sorted, pos, x);
        assert(stats =~= rest.push(x));
    }
}

pub struct Sampler {
    config: SamplingConfig,
}

impl Sampler {
    pub closed spec fn spec_config(&self) -> SamplingConfig {
        self.config
    }

    pub fn new(config: SamplingConfig) -> (sampler: Sampler)
        ensures
            sampler.spec_config() == config,
    {
        Sampler { config }
    }

    /// Whether a position at this ply is recorded: terminal positions by their
    /// own switch, the others on a stride of plies (none when it is zero).
    pub fn should_record(&self, ply: u32, terminal: bool) -> (record: bool)
        ensures
            terminal ==> record == self.spec_config().record_terminal_positions,
            !terminal ==> record == (self.spec_config().record_positions_every_n_plies != 0 && ply
                % self.spec_config().record_positions_every_n_plies == 0),
    {
        if terminal {
            return self.config.record_terminal_positions;
        }
        if self.config.record_positions_every_n_plies == 0 {
            return false;
        }
        ply % self.config.record_positions_every_n_plies == 0
    }

    /// Trim root statistics to the configured edge budget, highest-visit
    /// first: a trimmed row still carries the distribution's mass.
    pub fn select_edges(&self, stats: Vec<ChildStats>) -> (selected: Vec<ChildStats>)
        ensures
            selected@ == selected_edges(self.spec_config(), stats@),
    {
        if !self.config.store_child_stats {
            return Vec::new();
        }
        let mut sorted: Vec<ChildStats> = Vec::new();
        let mut i: usize = 0;
        while i < stats.len()
            invariant
                i <= stats@.len(),
                sorted@ == by_visits(stats@.take(i as int)),
            decreases stats@.len() - i,
        {
            let entry = stats[i];
            proof {
                lemma_by_visits_is_a_descending_permutation(stats@.take(i as int));
            }
            let mut pos: usize = 0;
            while pos < sorted.len() && sorted[pos].visits >= entry.visits
                invariant
                    pos <= sorted@.len(),
                    forall|j: int| 0 <= j < pos ==> sorted@[j].visits >= entry.visits,
                decreases sorted@.len() - pos,
            {
                pos = pos + 1;
            }
            proof {
                lemma_first_below_is_the_scan(sorted@, entry.visits, pos as int);
                assert(stats@.take(i + 1).drop_last() =~= stats@.take(i as int));
            }
            sorted.insert(pos, entry);
            i = i + 1;
        }
        proof {
            assert(stats@.take(stats@.len() as int) =~= stats@);
        }
        sorted.truncate(self.config.max_edges_per_position);
        sorted
    }
}

/// The edges kept are the highest-visit ones: they come out highest first,
/// they are exactly as many as the budget allows, and every edge left out has
/// no more visits than the last one kept. Nothing is invented and nothing is
/// lost before the cut: the ordered list is a rearrangement of the input.
pub proof fn law_edges_are_trimmed_by_visits(config: SamplingConfig, stats: Seq<ChildStats>)
    requires
        config.store_child_stats,
    ensures
        by_visits(stats).to_multiset() == stats.to_multiset(),
        visits_descending(selected_edges(config, stats)),
        selected_edges(config, stats).len() == if stats.len() > config.max_edges_per_position {
            config.max_edges_per_position as int
        } else {
            stats.len() as int
        },
        forall|j: int|
            0 < selected_edges(config, stats).len() <= j < stats.len() ==> (#[trigger] by_visits(
                stats,
            )[j]).visits <= selected_edges(config, stats).last().visits,
{
    lemma_by_visits_is_a_descending_permutation(stats);
    let kept = selected_edges(config, stats);
    let sorted = by_visits(stats);
    assert forall|i: int, j: int| 0 <= i <= j < kept.len() implies kept[i].visits
        >= kept[j].visits by {
        assert(kept[i] == sorted[i] && kept[j] == sorted[j]);
    }
    assert forall|j: int| 0 < kept.len() <= j < stats.len() implies (#[trigger] sorted[j]).visits
        <= kept.last().visits by {
        assert(kept.last() == sorted[kept.len() - 1]);
    }
}

} // verus!
