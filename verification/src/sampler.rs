//! The producer: reads per-core utilization and hands it to the hub.
//!
//! The sampler is the only owner of the handle to the system's metrics. What
//! it reads reaches everyone else through [`Hub::publish`] and in no other
//! way.

use crate::hub::Hub;
use crate::snapshot::Snapshot;
use sysinfo::System;
use vstd::prelude::*;

verus! {

#[verifier::external_type_specification]
#[verifier::external_body]
pub struct ExSystem(sysinfo::System);

/// What a metrics handle lists: the usage of each processor it knows, as the
/// bit pattern of the percentage, in the order of its list.
///
/// The handle keeps its list and the figures in it between refreshes, so what
/// it lists depends on the handle alone. What a refresh puts there depends on
/// the machine and is not said here.
pub uninterp spec fn listed_usage(system: System) -> Seq<u32>;

/// `sysinfo::System::new`: a handle with nothing loaded. Its list of
/// processors is empty until the first refresh.
pub assume_specification[ sysinfo::System::new ]() -> (system: System)
    ensures
        listed_usage(system).len() == 0,
;

/// `sysinfo::System::refresh_cpu_usage`: reads the processors' counters
/// again. What the handle lists afterwards depends on the machine, so nothing
/// is claimed of it.
pub assume_specification[ sysinfo::System::refresh_cpu_usage ](system: &mut System);

/// The length of `sysinfo::System::cpus`: how many processors the handle
/// lists.
#[verifier::external_body]
fn listed_count(system: &System) -> (count: usize)
    ensures
        count == listed_usage(*system).len(),
{
    system.cpus().len()
}

/// `sysinfo::Cpu::cpu_usage` of the processor at `index` of
/// `sysinfo::System::cpus`, as the bit pattern of the percentage it returns.
#[verifier::external_body]
fn listed_usage_at(system: &System, index: usize) -> (bits: u32)
    requires
        index < listed_usage(*system).len(),
    ensures
        bits == listed_usage(*system)[index as int],
{
    system.cpus()[index].cpu_usage().to_bits()
}

/// Collects what the handle lists: one value per processor, in list order.
fn read_cores(system: &System) -> (cores: Vec<u32>)
    ensures
        cores@ == listed_usage(*system),
{
    let count = listed_count(system);
    let mut cores: Vec<u32> = Vec::new();
    let mut i: usize = 0;
    while i < count
        invariant
            count == listed_usage(*system).len(),
            i <= count,
            cores@ == listed_usage(*system).subrange(0, i as int),
        decreases count - i,
    {
        cores.push(listed_usage_at(system, i));
        assert(cores@ =~= listed_usage(*system).subrange(0, i + 1));
        i += 1;
    }
    assert(cores@ =~= listed_usage(*system));
    cores
}

/// The producer of snapshots.
pub struct Sampler {
    system: System,
}

impl View for Sampler {
    type V = Seq<u32>;

    /// The reading that the sampler holds: what its handle lists, one value
    /// per core in core order.
    closed spec fn view(&self) -> Seq<u32> {
        listed_usage(self.system)
    }
}

impl Sampler {
    /// A sampler with a metrics handle of its own, which has read nothing
    /// yet: it knows of no core until its first tick.
    pub fn new() -> (sampler: Sampler)
        ensures
            sampler@.len() == 0,
    {
        Sampler { system: System::new() }
    }

    /// Takes one reading: refreshes the usage figures, then collects what the
    /// handle holds, one value per core in core order.
    ///
    /// The snapshot is the sampler's reading as it stands after the refresh,
    /// entry for entry.
    fn sample(&mut self) -> (snapshot: Snapshot)
        ensures
            snapshot@ == final(self)@,
    {
        self.system.refresh_cpu_usage();
        Snapshot::new(read_cores(&self.system))
    }

    /// One tick: takes a reading and publishes it.
    ///
    /// Exactly one snapshot is published per tick, whoever listens: the hub
    /// may have no feed at all, and the feeds it has are neither added to nor
    /// removed. What is published is the reading that the sampler holds after
    /// the tick.
    pub fn tick(&mut self, hub: &mut Hub)
        ensures
            final(hub)@ == old(hub)@.publish(final(self)@),
            final(hub)@.wf(),
    {
        let snapshot = self.sample();
        hub.publish(snapshot);
    }
}

} // verus!
