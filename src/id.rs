//! Allocation of 64-bit row identifiers through `fastid`.
//!
//! Layout, most significant first: 40 time bits, 7 sequence bits, 16 machine
//! bits; the time field counts units of 2^20 ns from the start of 2023.

use vstd::prelude::*;

verus! {

#[verifier::external_type_specification]
#[verifier::external_body]
pub struct ExFastIdWorker(fastid::FastIdWorker);

pub const TIME_BITS: usize = 40;

pub const MACHINE_BITS: usize = 16;

pub const SEQUENCE_BITS: usize = 7;

/// 2023-01-01T00:00:00Z in nanoseconds since the Unix epoch.
pub const EPOCH_NANOS: u64 = 1672531200000000000;

/// The machine identifier of a fleet member that was not configured.
pub const UNCONFIGURED_MACHINE: u64 = 0xFFFF;

/// The machine field of an identifier.
pub open spec fn id_machine(id: int) -> int {
    id % 65536
}

/// Relies on `FastIdWorker::with_bits_and_epoch`, whose masks shift
/// `u64::MAX` by each width.
#[verifier::external_body]
fn new_worker(
    time_bits: usize,
    machine_bits: usize,
    sequence_bits: usize,
    machine_id: u64,
    epoch: u64,
) -> fastid::FastIdWorker
    requires
        time_bits < 64,
        machine_bits < 64,
        sequence_bits < 64,
{
    fastid::FastIdWorker::with_bits_and_epoch(time_bits, machine_bits, sequence_bits, machine_id, epoch)
}

/// Hands out identifiers for newly observed rows.
pub struct IdService {
    worker: fastid::FastIdWorker,
    machine_id: u64,
}

/// Relies on `FastIdWorker::next_id` of a worker that `IdService::new` built:
/// it ors `machine_id & 0xFFFF` into the low 16 bits, and its time field ends
/// at bit 62, so the identifier is not negative.
#[verifier::external_body]
fn draw_id(service: &IdService) -> (r: i64)
    ensures
        0 <= r,
        id_machine(r as int) == service.machine() % 65536,
{
    service.worker.next_id().as_i64()
}

impl IdService {
    /// The machine identifier that this service stamps into its identifiers.
    pub closed spec fn machine(&self) -> u64 {
        self.machine_id
    }

    pub fn new(machine_id: u64) -> (r: IdService)
        ensures
            r.machine() == machine_id,
    {
        let worker = new_worker(TIME_BITS, MACHINE_BITS, SEQUENCE_BITS, machine_id, EPOCH_NANOS);
        IdService { worker, machine_id }
    }

    /// A fresh identifier; its machine field is this service's machine identifier.
    pub fn next_id(&self) -> (r: i64)
        ensures
            0 <= r,
            id_machine(r as int) == self.machine() % 65536,
    {
        draw_id(self)
    }

    pub fn machine_id(&self) -> (r: u64)
        ensures
            r == self.machine(),
    {
        self.machine_id
    }
}

/// The machine field of an identifier.
pub fn machine_of(id: i64) -> (r: u64)
    requires
        0 <= id,
    ensures
        r == id_machine(id as int),
{
    (id % 65536) as u64
}

/// Identifiers drawn from two services whose machine identifiers differ (and
/// fit in the 16-bit field) never coincide, however many are drawn.
pub proof fn lemma_distinct_machines_distinct_ids(s1: &IdService, s2: &IdService, a: i64, b: i64)
    requires
        s1.machine() < 65536,
        s2.machine() < 65536,
        s1.machine() != s2.machine(),
        id_machine(a as int) == s1.machine() % 65536,
        id_machine(b as int) == s2.machine() % 65536,
    ensures
        a != b,
{
}

} // verus!
