//! Configuration batches: lists of per-domain settings that are applied as a
//! whole or not at all.

use vstd::prelude::*;
use crate::instruction::{GasOracleConfig, GasOverheadConfig};
use crate::oracle::GasOracle;
use crate::registry::DomainMap;

verus! {

/// The domains that a batch of oracle settings names, in order.
pub open spec fn oracle_domains(configs: Seq<GasOracleConfig>) -> Seq<u32> {
    Seq::new(configs.len(), |i: int| configs[i].domain)
}

/// The domains that a batch of overhead settings names, in order.
pub open spec fn overhead_domains(configs: Seq<GasOverheadConfig>) -> Seq<u32> {
    Seq::new(configs.len(), |i: int| configs[i].destination_domain)
}

/// The oracle registry after one setting: a present oracle is inserted or
/// replaces the domain's oracle, an absent one removes the domain's entry.
pub open spec fn with_oracle_config(oracles: Map<u32, GasOracle>, config: GasOracleConfig) -> Map<
    u32,
    GasOracle,
> {
    match config.gas_oracle {
        Some(oracle) => oracles.insert(config.domain, oracle),
        None => oracles.remove(config.domain),
    }
}

/// The oracle registry after the settings of a batch, applied in order.
pub open spec fn with_oracle_configs(
    oracles: Map<u32, GasOracle>,
    configs: Seq<GasOracleConfig>,
) -> Map<u32, GasOracle>
    decreases configs.len(),
{
    if configs.len() == 0 {
        oracles
    } else {
        with_oracle_config(with_oracle_configs(oracles, configs.drop_last()), configs.last())
    }
}

/// The overhead registry after one setting: the domain's entry becomes the
/// given overhead, present or absent.
pub open spec fn with_overhead_config(
    overheads: Map<u32, Option<u64>>,
    config: GasOverheadConfig,
) -> Map<u32, Option<u64>> {
    overheads.insert(config.destination_domain, config.gas_overhead)
}

/// The overhead registry after the settings of a batch, applied in order.
pub open spec fn with_overhead_configs(
    overheads: Map<u32, Option<u64>>,
    configs: Seq<GasOverheadConfig>,
) -> Map<u32, Option<u64>>
    decreases configs.len(),
{
    if configs.len() == 0 {
        overheads
    } else {
        with_overhead_config(
            with_overhead_configs(overheads, configs.drop_last()),
            configs.last(),
        )
    }
}

/// The overhead that a registry gives for a domain: zero where the domain
/// has no entry or is configured as having no overhead.
pub open spec fn overhead_of(overheads: Map<u32, Option<u64>>, domain: u32) -> u64 {
    if overheads.contains_key(domain) {
        match overheads[domain] {
            Some(overhead) => overhead,
            None => 0,
        }
    } else {
        0
    }
}

/// Whether no two positions of `domains` hold the same domain.
pub fn all_distinct(domains: &Vec<u32>) -> (distinct: bool)
    ensures
        distinct == domains@.no_duplicates(),
{
    let mut i: usize = 0;
    while i < domains.len()
        invariant
            0 <= i <= domains@.len(),
            forall|a: int, b: int| 0 <= b < a < i ==> domains@[a] != domains@[b],
        decreases domains@.len() - i,
    {
        let mut j: usize = 0;
        while j < i
            invariant
                0 <= j <= i < domains@.len(),
                forall|b: int| 0 <= b < j ==> domains@[i as int] != domains@[b],
            decreases i - j,
        {
            if domains[i] == domains[j] {
                assert(domains@[i as int] == domains@[j as int] && i != j);
                return false;
            }
            j += 1;
        }
        i += 1;
    }
    assert forall|a: int, b: int|
        0 <= a < domains@.len() && 0 <= b < domains@.len() && a != b implies domains@[a]
        != domains@[b] by {
        if a > b {
            assert(domains@[a] != domains@[b]);
        } else {
            assert(domains@[b] != domains@[a]);
        }
    }
    true
}

/// Whether a batch of oracle settings names no domain twice.
pub fn oracle_batch_valid(configs: &Vec<GasOracleConfig>) -> (valid: bool)
    ensures
        valid == oracle_domains(configs@).no_duplicates(),
{
    let mut domains: Vec<u32> = Vec::new();
    let mut i: usize = 0;
    while i < configs.len()
        invariant
            0 <= i <= configs@.len(),
            domains@ == oracle_domains(configs@).take(i as int),
        decreases configs@.len() - i,
    {
        domains.push(configs[i].domain);
        assert(domains@ =~= oracle_domains(configs@).take(i + 1));
        i += 1;
    }
    assert(domains@ =~= oracle_domains(configs@));
    all_distinct(&domains)
}

/// Whether a batch of overhead settings names no domain twice.
pub fn overhead_batch_valid(configs: &Vec<GasOverheadConfig>) -> (valid: bool)
    ensures
        valid == overhead_domains(configs@).no_duplicates(),
{
    let mut domains: Vec<u32> = Vec::new();
    let mut i: usize = 0;
    while i < configs.len()
        invariant
            0 <= i <= configs@.len(),
            domains@ == overhead_domains(configs@).take(i as int),
        decreases configs@.len() - i,
    {
        domains.push(configs[i].destination_domain);
        assert(domains@ =~= overhead_domains(configs@).take(i + 1));
        i += 1;
    }
    assert(domains@ =~= overhead_domains(configs@));
    all_distinct(&domains)
}

/// Applies the settings of a batch to an oracle registry, in order.
pub fn apply_oracle_configs(registry: &mut DomainMap<GasOracle>, configs: &Vec<GasOracleConfig>)
    requires
        old(registry).wf(),
    ensures
        final(registry).wf(),
        final(registry)@ == with_oracle_configs(old(registry)@, configs@),
{
    let mut i: usize = 0;
    while i < configs.len()
        invariant
            0 <= i <= configs@.len(),
            registry.wf(),
            registry@ == with_oracle_configs(old(registry)@, configs@.take(i as int)),
        decreases configs@.len() - i,
    {
        let config = configs[i];
        proof {
            assert(configs@.take(i + 1).drop_last() =~= configs@.take(i as int));
            assert(configs@.take(i + 1).last() == config);
        }
        match config.gas_oracle {
            Some(oracle) => registry.insert(config.domain, oracle),
            None => registry.remove(config.domain),
        }
        i += 1;
    }
    assert(configs@.take(i as int) =~= configs@);
}

/// Applies the settings of a batch to an overhead registry, in order.
pub fn apply_overhead_configs(
    registry: &mut DomainMap<Option<u64>>,
    configs: &Vec<GasOverheadConfig>,
)
    requires
        old(registry).wf(),
    ensures
        final(registry).wf(),
        final(registry)@ == with_overhead_configs(old(registry)@, configs@),
{
    let mut i: usize = 0;
    while i < configs.len()
        invariant
            0 <= i <= configs@.len(),
            registry.wf(),
            registry@ == with_overhead_configs(old(registry)@, configs@.take(i as int)),
        decreases configs@.len() - i,
    {
        let config = configs[i];
        proof {
            assert(configs@.take(i + 1).drop_last() =~= configs@.take(i as int));
            assert(configs@.take(i + 1).last() == config);
        }
        registry.insert(config.destination_domain, config.gas_overhead);
        i += 1;
    }
    assert(configs@.take(i as int) =~= configs@);
}

/// The overhead that applies to a domain, read from a registry.
pub fn lookup_overhead(registry: &DomainMap<Option<u64>>, domain: u32) -> (overhead: u64)
    requires
        registry.wf(),
    ensures
        overhead == overhead_of(registry@, domain),
{
    match registry.get(domain) {
        Some(Some(overhead)) => *overhead,
        Some(None) => 0,
        None => 0,
    }
}

/// The entry of a map for a key, if there is one.
pub open spec fn entry_of<V>(entries: Map<u32, V>, domain: u32) -> Option<V> {
    if entries.contains_key(domain) {
        Some(entries[domain])
    } else {
        None
    }
}

/// A batch of oracle settings leaves the domains that it does not name as
/// they were.
pub proof fn lemma_oracle_batch_keeps_others(
    oracles: Map<u32, GasOracle>,
    configs: Seq<GasOracleConfig>,
    domain: u32,
)
    requires
        !oracle_domains(configs).contains(domain),
    ensures
        entry_of(with_oracle_configs(oracles, configs), domain) == entry_of(oracles, domain),
    decreases configs.len(),
{
    if configs.len() > 0 {
        let rest = configs.drop_last();
        let last = (configs.len() - 1) as int;
        assert(oracle_domains(configs)[last] == configs.last().domain);
        assert forall|i: int| 0 <= i < rest.len() implies oracle_domains(rest)[i] != domain by {
            assert(oracle_domains(configs)[i] == rest[i].domain);
        }
        lemma_oracle_batch_keeps_others(oracles, rest, domain);
    }
}

/// After a batch of oracle settings that names no domain twice, each named
/// domain has the oracle that the batch gives it, or none where it gives
/// none.
pub proof fn lemma_oracle_batch_sets_named(
    oracles: Map<u32, GasOracle>,
    configs: Seq<GasOracleConfig>,
    i: int,
)
    requires
        oracle_domains(configs).no_duplicates(),
        0 <= i < configs.len(),
    ensures
        entry_of(with_oracle_configs(oracles, configs), configs[i].domain)
            == configs[i].gas_oracle,
    decreases configs.len(),
{
    let rest = configs.drop_last();
    let last = (configs.len() - 1) as int;
    if i < last {
        assert(oracle_domains(configs)[i] == configs[i].domain);
        assert(oracle_domains(configs)[last] == configs[last].domain);
        assert(configs[last].domain != configs[i].domain);
        assert forall|a: int, b: int|
            0 <= a < rest.len() && 0 <= b < rest.len() && a != b implies oracle_domains(rest)[a]
            != oracle_domains(rest)[b] by {
            assert(oracle_domains(configs)[a] == rest[a].domain);
            assert(oracle_domains(configs)[b] == rest[b].domain);
        }
        lemma_oracle_batch_sets_named(oracles, rest, i);
    }
}

/// A batch of overhead settings leaves the domains that it does not name
/// as they were.
pub proof fn lemma_overhead_batch_keeps_others(
    overheads: Map<u32, Option<u64>>,
    configs: Seq<GasOverheadConfig>,
    domain: u32,
)
    requires
        !overhead_domains(configs).contains(domain),
    ensures
        entry_of(with_overhead_configs(overheads, configs), domain) == entry_of(overheads, domain),
    decreases configs.len(),
{
    if configs.len() > 0 {
        let rest = configs.drop_last();
        let last = (configs.len() - 1) as int;
        assert(overhead_domains(configs)[last] == configs.last().destination_domain);
        assert forall|i: int| 0 <= i < rest.len() implies overhead_domains(rest)[i] != domain by {
            assert(overhead_domains(configs)[i] == rest[i].destination_domain);
        }
        lemma_overhead_batch_keeps_others(overheads, rest, domain);
    }
}

/// After a batch of overhead settings that names no domain twice, each
/// named domain has an entry, with the overhead that the batch gives it.
pub proof fn lemma_overhead_batch_sets_named(
    overheads: Map<u32, Option<u64>>,
    configs: Seq<GasOverheadConfig>,
    i: int,
)
    requires
        overhead_domains(configs).no_duplicates(),
        0 <= i < configs.len(),
    ensures
        entry_of(with_overhead_configs(overheads, configs), configs[i].destination_domain)
            == Some(configs[i].gas_overhead),
    decreases configs.len(),
{
    let rest = configs.drop_last();
    let last = (configs.len() - 1) as int;
    if i < last {
        assert(overhead_domains(configs)[i] == configs[i].destination_domain);
        assert(overhead_domains(configs)[last] == configs[last].destination_domain);
        assert(configs[last].destination_domain != configs[i].destination_domain);
        assert forall|a: int, b: int|
            0 <= a < rest.len() && 0 <= b < rest.len() && a != b implies overhead_domains(rest)[a]
            != overhead_domains(rest)[b] by {
            assert(overhead_domains(configs)[a] == rest[a].destination_domain);
            assert(overhead_domains(configs)[b] == rest[b].destination_domain);
        }
        lemma_overhead_batch_sets_named(overheads, rest, i);
    }
}

} // verus!
