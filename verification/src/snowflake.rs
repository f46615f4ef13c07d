//! Ids that grow with time.

use vstd::prelude::*;

verus! {

/// The generator of the snowflake crate: 42 bits of milliseconds since an
/// epoch, ten bits that name the machine and the node, twelve bits of
/// sequence.
#[verifier::external_type_specification]
#[verifier::external_body]
pub struct ExSnowflakeIdGenerator(snowflake::SnowflakeIdGenerator);

/// Milliseconds from the Unix epoch to 1 January 2023, the instant from
/// which ids count.
pub const EPOCH_MILLIS: u64 = 1672531200000;

/// The source of the ids of connections, envelopes and records.
pub struct IdGenerator {
    machine_id: i32,
    node_id: i32,
    inner: snowflake::SnowflakeIdGenerator,
}

impl IdGenerator {
    /// The machine that the generator's ids name.
    pub closed spec fn machine(self) -> i32 {
        self.machine_id
    }

    /// The node that the generator's ids name.
    pub closed spec fn node(self) -> i32 {
        self.node_id
    }

    pub fn machine_id(&self) -> (r: i32)
        ensures
            r == self.machine(),
    {
        self.machine_id
    }

    pub fn node_id(&self) -> (r: i32)
        ensures
            r == self.node(),
    {
        self.node_id
    }
}

/// `SnowflakeIdGenerator::with_epoch`, with the epoch given in
/// milliseconds since the Unix epoch. Nothing is claimed of the generator.
/// The call reads the clock and fails if the clock stands before the
/// epoch, so the epoch may not lie after the one that ids count from: an
/// instant that was past when this was written.
#[verifier::external_body]
fn generator_with_epoch(machine_id: i32, node_id: i32, epoch_millis: u64)
    -> snowflake::SnowflakeIdGenerator
    requires
        epoch_millis <= EPOCH_MILLIS,
{
    let epoch = std::time::UNIX_EPOCH + std::time::Duration::from_millis(epoch_millis);
    snowflake::SnowflakeIdGenerator::with_epoch(machine_id, node_id, epoch)
}

/// True when the id names this machine and this node: the ten bits above
/// the twelve bits of sequence hold five bits of machine and, below them,
/// five bits of node.
pub open spec fn names_origin(id: i64, machine_id: i32, node_id: i32) -> bool {
    (id as int / 4096) % 1024 == machine_id * 32 + node_id
}

/// `SnowflakeIdGenerator::real_time_generate`, on a generator whose two
/// public fields are set to the machine and the node given. The id is the
/// milliseconds since the epoch shifted left by 22, or-ed with the machine
/// shifted left by 17, the node shifted left by 12 and a sequence number
/// below 4096. Time and sequence depend on the clock, so nothing is claimed
/// of them; the ten bits between them hold the machine and the node where
/// each fits into five bits. The call fails if the clock stands before the
/// generator's epoch.
#[verifier::external_body]
fn real_time_generate(
    generator: &mut snowflake::SnowflakeIdGenerator,
    machine_id: i32,
    node_id: i32,
) -> (id: i64)
    ensures
        0 <= machine_id < 32 && 0 <= node_id < 32 ==> names_origin(id, machine_id, node_id),
{
    generator.machine_id = machine_id;
    generator.node_id = node_id;
    generator.real_time_generate()
}

/// Makes the generator for this machine and node.
pub fn init(machine_id: i32, node_id: i32) -> (r: IdGenerator)
    ensures
        r.machine() == machine_id,
        r.node() == node_id,
{
    IdGenerator { machine_id, node_id, inner: generator_with_epoch(machine_id, node_id, EPOCH_MILLIS) }
}

/// The next id. Its time and its sequence number come from the clock; what
/// is known of it here is whose id it is: it names the machine and the node
/// of the generator, where each of the two fits into five bits. The
/// generator goes on naming the same machine and node.
pub fn generate(generator: &mut IdGenerator) -> (id: i64)
    ensures
        final(generator).machine() == old(generator).machine(),
        final(generator).node() == old(generator).node(),
        0 <= old(generator).machine() < 32 && 0 <= old(generator).node() < 32 ==> names_origin(
            id,
            old(generator).machine(),
            old(generator).node(),
        ),
{
    let machine_id = generator.machine_id;
    let node_id = generator.node_id;
    real_time_generate(&mut generator.inner, machine_id, node_id)
}

} // verus!
