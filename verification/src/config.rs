//! The choice among the surface configurations that the display offers.
//!
//! A configuration is known here by what the choice reads: whether it can
//! be transparent, and how many samples per pixel it has.

use vstd::prelude::*;

verus! {

/// What the choice reads of one configuration.
#[derive(Clone, Copy, Debug, PartialEq, Eq, Structural)]
pub struct ConfigTraits {
    /// Whether the configuration is known to support transparency.
    pub supports_transparency: bool,
    /// Samples per pixel.
    pub num_samples: u8,
}

/// Whether `candidate` replaces `current`: it brings transparency where
/// `current` has none, or it has more samples.
pub open spec fn replaces(candidate: ConfigTraits, current: ConfigTraits) -> bool {
    (candidate.supports_transparency && !current.supports_transparency) || candidate.num_samples
        > current.num_samples
}

/// The index of the configuration that is held after all of `configs` have
/// been looked at in order: the first is held to begin with, and each later
/// one takes its place if it replaces the one held.
pub open spec fn picked(configs: Seq<ConfigTraits>) -> int
    decreases configs.len(),
{
    if configs.len() <= 1 {
        0
    } else {
        let held = picked(configs.drop_last());
        if replaces(configs.last(), configs[held]) {
            configs.len() - 1
        } else {
            held
        }
    }
}

/// Chooses among the offered configurations; says the index of the chosen one.
pub fn gl_config_picker(configs: &Vec<ConfigTraits>) -> (index: usize)
    requires
        configs.len() > 0,
    ensures
        index == picked(configs@),
        index < configs.len(),
{
    let mut held: usize = 0;
    let mut i: usize = 1;
    assert(configs@.take(1).len() == 1);
    while i < configs.len()
        invariant
            1 <= i <= configs.len(),
            held < i,
            held == picked(configs@.take(i as int)),
        decreases configs.len() - i,
    {
        let candidate = configs[i];
        let current = configs[held];
        proof {
            let seen = configs@.take(i + 1);
            assert(seen.drop_last() =~= configs@.take(i as int));
            assert(seen.last() == candidate);
            assert(seen[held as int] == current);
        }
        if (candidate.supports_transparency && !current.supports_transparency)
            || candidate.num_samples > current.num_samples {
            held = i;
        }
        i += 1;
    }
    assert(configs@.take(configs.len() as int) =~= configs@);
    held
}

/// The chosen configuration is one of those offered, and none that comes
/// after it would replace it.
pub proof fn lemma_picked_is_not_replaced(configs: Seq<ConfigTraits>)
    requires
        configs.len() > 0,
    ensures
        0 <= picked(configs) < configs.len(),
        forall|j: int| picked(configs) < j < configs.len() ==> !replaces(
            #[trigger] configs[j],
            configs[picked(configs)],
        ),
    decreases configs.len(),
{
    if configs.len() > 1 {
        let before = configs.drop_last();
        lemma_picked_is_not_replaced(before);
        let held = picked(before);
        assert(before[held] == configs[held]);
        if !replaces(configs.last(), configs[held]) {
            assert forall|j: int| picked(configs) < j < configs.len() implies !replaces(
                #[trigger] configs[j],
                configs[picked(configs)],
            ) by {
                if j < configs.len() - 1 {
                    assert(before[j] == configs[j]);
                }
            }
        }
    }
}

} // verus!
