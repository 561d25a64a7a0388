//! Capability traits through which the driver reaches the outside world — a
//! two-wire bus transport and a blocking millisecond delay — and the ghost
//! vocabulary for reasoning about what went over the bus.
//!
//! The driver never opens or configures the physical bus; integrators hand it
//! a type implementing [`I2cBus`]. Nothing is assumed of an implementation:
//! a transfer may fail with the transport's own error, and a read may place
//! any bytes whatsoever in the buffer.

use vstd::prelude::*;

verus! {

/// A blocking two-wire bus transport, implemented by the integrator.
pub trait I2cBus {
    /// The transport's own error type, propagated unchanged by the driver.
    type BusError;

    /// Sends `data` to the device at `address`.
    fn write_bytes(&mut self, address: u8, data: &[u8]) -> Result<(), Self::BusError>;

    /// Fills `buffer` with bytes read from the device at `address`.
    fn read_bytes<const N: usize>(
        &mut self,
        address: u8,
        buffer: &mut [u8; N],
    ) -> Result<(), Self::BusError>;
}

/// A blocking millisecond delay, implemented by the integrator. Infallible.
pub trait DelayMs {
    /// Blocks the calling thread for `ms` milliseconds.
    fn delay_ms(&mut self, ms: u16);
}

/// One completed bus transaction, as recorded in the driver's ghost log:
/// either bytes sent to the device or bytes the device answered.
pub enum Transaction {
    Write { address: u8, data: Seq<u8> },
    Read { address: u8, data: Seq<u8> },
}

/// True when `t` sends the single-byte command `opcode` (with or without
/// parameter bytes) to some device.
pub open spec fn is_command_write(t: Transaction, opcode: u8) -> bool {
    t matches Transaction::Write { address: _, data } && data.len() > 0 && data[0] == opcode
}

/// How many transactions in `log` issue the command `opcode`.
pub open spec fn count_command_writes(log: Seq<Transaction>, opcode: u8) -> nat
    decreases log.len(),
{
    if log.len() == 0 {
        0
    } else {
        count_command_writes(log.drop_last(), opcode) + (if is_command_write(
            log.last(),
            opcode,
        ) {
            1nat
        } else {
            0nat
        })
    }
}

/// The command count distributes over concatenation of logs.
pub proof fn lemma_count_command_writes_concat(a: Seq<Transaction>, b: Seq<Transaction>, opcode: u8)
    ensures
        count_command_writes(a + b, opcode) == count_command_writes(a, opcode)
            + count_command_writes(b, opcode),
    decreases b.len(),
{
    if b.len() == 0 {
        assert(a + b =~= a);
    } else {
        lemma_count_command_writes_concat(a, b.drop_last(), opcode);
        assert((a + b).drop_last() =~= a + b.drop_last());
        assert((a + b).last() == b.last());
    }
}

/// The command count is zero exactly when no transaction in the log issues
/// the command.
pub proof fn lemma_count_command_writes_zero(log: Seq<Transaction>, opcode: u8)
    ensures
        (count_command_writes(log, opcode) == 0) <==> (forall|i: int|
            0 <= i < log.len() ==> !is_command_write(log[i], opcode)),
    decreases log.len(),
{
    if log.len() > 0 {
        lemma_count_command_writes_zero(log.drop_last(), opcode);
        assert(forall|i: int|
            0 <= i < log.len() - 1 ==> log[i] == log.drop_last()[i]);
    }
}

/// The command count of a single transaction.
pub proof fn lemma_count_command_writes_one(t: Transaction, opcode: u8)
    ensures
        count_command_writes(seq![t], opcode) == (if is_command_write(t, opcode) {
            1nat
        } else {
            0nat
        }),
{
    assert(seq![t].drop_last() =~= Seq::<Transaction>::empty());
    assert(seq![t].last() == t);
    assert(count_command_writes(Seq::<Transaction>::empty(), opcode) == 0);
    assert(count_command_writes(seq![t], opcode) == count_command_writes(
        seq![t].drop_last(),
        opcode,
    ) + (if is_command_write(seq![t].last(), opcode) {
        1nat
    } else {
        0nat
    }));
}

} // verus!
