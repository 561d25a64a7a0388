//! Protocol driver for the AHT20 humidity/temperature sensor on a two-wire
//! bus, focused on:
//!
//! - providing reliable data,
//! - a safer interface to a bus-attached sensor,
//! - no infinite loops,
//! - no outside dependency for the checksum,
//! - no assumption of reliable hardware (transport errors are passed back).
//!
//! The lifecycle is enforced by types: [`Sensor`] owns the transport and
//! offers initialization, and [`InitializedSensor`] — an exclusive borrow of
//! the handle produced by a successful [`Sensor::init`] — unlocks the
//! initialized-only operations (trigger, measure, soft reset).
//!
//! Every operation's contract describes the bus traffic it causes through a
//! ghost log of completed transactions kept on the handle: which commands
//! are sent, in which order, and how the result relates to the bytes the
//! device answered.

use vstd::prelude::*;

pub mod bus;
pub mod commands;
pub mod data;
pub mod register;
pub mod sensor_status;

verus! {

use bus::{I2cBus, DelayMs, Transaction};
use commands::Command;
use data::SensorData;
use sensor_status::{SensorStatus, spec_is_busy, spec_is_calibration_enabled};

/// AHT20 sensor bus address.
pub const SENSOR_ADDR: u8 = 0b0011_1000;

/// Datasheet-supplied startup delay.
pub const STARTUP_DELAY_MS: u16 = 40;

/// Datasheet-supplied delay between busy polls.
pub const BUSY_DELAY_MS: u16 = 20;

/// Datasheet-supplied measurement settle delay.
pub const MEASURE_DELAY_MS: u16 = 80;

/// Datasheet-supplied post-calibrate settle delay.
pub const CALIBRATE_DELAY_MS: u16 = 10;

/// Number of retry attempts before assuming hardware issues.
pub const MAX_ATTEMPTS: usize = 3;

/// First fixed parameter byte of the trigger-measurement command.
pub const TRIG_MEASURE_PARAM0: u8 = 0x33;

/// Second fixed parameter byte of the trigger-measurement command.
pub const TRIG_MEASURE_PARAM1: u8 = 0x00;

/// First fixed parameter byte of the calibrate command.
pub const CAL_PARAM0: u8 = 0x08;

/// Second fixed parameter byte of the calibrate command.
pub const CAL_PARAM1: u8 = 0x00;

/// Error type for the AHT sensor on the two-wire bus.
#[derive(Debug, PartialEq)]
pub enum Error<E> {
    /// The transport failed; the underlying error is passed back unchanged.
    I2C(E),
    /// The computed checksum mismatches the received one.
    InvalidChecksum,
    /// A soft reset was requested while the device reported busy.
    UnexpectedBusy,
    /// The device accepted the calibrate command but did not report
    /// calibration enabled afterwards.
    Internal,
    /// The busy-poll retry bound was exceeded during a measurement read.
    DeviceTimeOut,
}

/// The two transactions of one status query: the read-status command, then
/// the single status byte the device answered.
pub open spec fn status_exchange(address: u8, status: u8) -> Seq<Transaction> {
    seq![
        Transaction::Write { address, data: seq![commands::READ_STATUS] },
        Transaction::Read { address, data: seq![status] },
    ]
}

/// After a transport failure inside a status query, the log grew by at most
/// the read-status command write.
pub open spec fn status_partial(pre: Seq<Transaction>, post: Seq<Transaction>, address: u8) -> bool {
    ||| post == pre
    ||| post == pre.push(Transaction::Write { address, data: seq![commands::READ_STATUS] })
}

/// The calibrate command with its two fixed parameter bytes.
pub open spec fn calibrate_write(address: u8) -> Transaction {
    Transaction::Write { address, data: seq![commands::CALIBRATE, CAL_PARAM0, CAL_PARAM1] }
}

/// The transactions of one calibration attempt: the calibrate command, then
/// a status query answering `status`.
pub open spec fn calibrate_exchange(address: u8, status: u8) -> Seq<Transaction> {
    seq![calibrate_write(address)] + status_exchange(address, status)
}

/// After a transport failure inside calibrate, the log grew by at most the
/// calibrate write and the read-status command write, in order.
pub open spec fn calibrate_partial(
    pre: Seq<Transaction>,
    post: Seq<Transaction>,
    address: u8,
) -> bool {
    ||| post == pre
    ||| status_partial(pre.push(calibrate_write(address)), post, address)
}

/// The uninitialized sensor handle: owns the bus transport, the device's
/// bus address, a scratch buffer, and the ghost record of every completed
/// bus transaction.
pub struct Sensor<B: I2cBus> {
    pub i2c: B,
    pub address: u8,
    pub buffer: [u8; 4],
    pub log: Ghost<Seq<Transaction>>,
}

impl<B: I2cBus> Sensor<B> {
    /// Returns a fresh handle around a configured transport and a device
    /// address. The address is a crate constant but is left as a parameter
    /// to allow alternate usage of the driver.
    pub fn new(i2c: B, address: u8) -> (s: Sensor<B>)
        ensures
            s.address == address,
            s.buffer@ == seq![0u8, 0u8, 0u8, 0u8],
            s.log@ == Seq::<Transaction>::empty(),
    {
        let buf = [0u8, 0u8, 0u8, 0u8];
        proof {
            assert(buf@ =~= seq![0u8, 0u8, 0u8, 0u8]);
        }
        Sensor { i2c, address, buffer: buf, log: Ghost(Seq::empty()) }
    }

    /// Sends `data` to the device, recording the completed write in the log.
    fn bus_write(&mut self, data: &[u8]) -> (r: Result<(), B::BusError>)
        ensures
            final(self).address == old(self).address,
            final(self).buffer == old(self).buffer,
            match r {
                Ok(_) => final(self).log@ == old(self).log@.push(
                    Transaction::Write { address: old(self).address, data: data@ },
                ),
                Err(_) => final(self).log@ == old(self).log@,
            },
    {
        match self.i2c.write_bytes(self.address, data) {
            Ok(_) => {
                self.log = Ghost(
                    self.log@.push(Transaction::Write { address: self.address, data: data@ }),
                );
                Ok(())
            },
            Err(e) => Err(e),
        }
    }

    /// Reads `N` bytes from the device into `buffer`, recording the
    /// completed read together with the bytes the device answered.
    fn bus_read<const N: usize>(&mut self, buffer: &mut [u8; N]) -> (r: Result<(), B::BusError>)
        ensures
            final(self).address == old(self).address,
            final(self).buffer == old(self).buffer,
            match r {
                Ok(_) => final(self).log@ == old(self).log@.push(
                    Transaction::Read { address: old(self).address, data: final(buffer)@ },
                ),
                Err(_) => final(self).log@ == old(self).log@,
            },
    {
        match self.i2c.read_bytes(self.address, buffer) {
            Ok(_) => {
                self.log = Ghost(
                    self.log@.push(Transaction::Read { address: self.address, data: buffer@ }),
                );
                Ok(())
            },
            Err(e) => Err(e),
        }
    }

    /// Reads the status byte of the AHT sensor: writes the read-status
    /// command, reads exactly one byte back, and wraps it. Any bus failure
    /// surfaces immediately.
    pub fn read_status(&mut self) -> (r: Result<SensorStatus, Error<B::BusError>>)
        ensures
            final(self).address == old(self).address,
            final(self).buffer == old(self).buffer,
            match r {
                Ok(st) => final(self).log@ == old(self).log@ + status_exchange(
                    old(self).address,
                    st.status,
                ),
                Err(e) => e is I2C && status_partial(
                    old(self).log@,
                    final(self).log@,
                    old(self).address,
                ),
            },
    {
        let cmd: [u8; 1] = [Command::ReadStatus.opcode()];
        match self.bus_write(&cmd) {
            Ok(_) => {},
            Err(e) => {
                return Err(Error::I2C(e));
            },
        }
        proof {
            assert(cmd@ =~= seq![commands::READ_STATUS]);
        }
        let mut buf: [u8; 1] = [0u8];
        match self.bus_read(&mut buf) {
            Ok(_) => {},
            Err(e) => {
                return Err(Error::I2C(e));
            },
        }
        let st = SensorStatus::new(buf[0]);
        proof {
            assert(buf@ =~= seq![st.status]);
            assert(self.log@ =~= old(self).log@ + status_exchange(old(self).address, st.status));
        }
        Ok(st)
    }

    /// Sends the calibrate command with its two fixed parameter bytes,
    /// waits the settle delay, and re-reads the status. Succeeds exactly
    /// when the device then reports calibration enabled; a device that
    /// accepted the command without confirming calibration yields
    /// `Error::Internal`. Called by `init`; shouldn't be needed most of the
    /// time.
    pub fn calibrate<D: DelayMs>(&mut self, delay: &mut D) -> (r: Result<
        SensorStatus,
        Error<B::BusError>,
    >)
        ensures
            final(self).address == old(self).address,
            final(self).buffer == old(self).buffer,
            match r {
                Ok(st) => spec_is_calibration_enabled(st.status) && final(self).log@ == old(
                    self,
                ).log@ + calibrate_exchange(old(self).address, st.status),
                Err(e) => match e {
                    Error::Internal => exists|st: u8|
                        #![auto]
                        !spec_is_calibration_enabled(st) && final(self).log@ == old(self).log@
                            + calibrate_exchange(old(self).address, st),
                    Error::I2C(_) => calibrate_partial(
                        old(self).log@,
                        final(self).log@,
                        old(self).address,
                    ),
                    _ => false,
                },
            },
    {
        let wbuf: [u8; 3] = [Command::Calibrate.opcode(), CAL_PARAM0, CAL_PARAM1];
        match self.bus_write(&wbuf) {
            Ok(_) => {},
            Err(e) => {
                return Err(Error::I2C(e));
            },
        }
        proof {
            assert(wbuf@ =~= seq![commands::CALIBRATE, CAL_PARAM0, CAL_PARAM1]);
        }

        // The datasheet asks for a settle delay after the calibrate command.
        delay.delay_ms(CALIBRATE_DELAY_MS);

        let status = match self.read_status() {
            Ok(st) => st,
            Err(e) => {
                return Err(e);
            },
        };
        proof {
            assert(self.log@ =~= old(self).log@ + calibrate_exchange(
                old(self).address,
                status.status,
            ));
        }
        if status.is_calibration_enabled() {
            return Ok(status);
        }
        Err(Error::Internal)
    }

    /// Initializes the AHT sensor: waits the startup delay, sends the
    /// initialize command, and reads the status. A device that does not yet
    /// report calibration enabled is calibrated once; a calibration failure
    /// propagates. On success returns the initialized view, which
    /// exclusively borrows this handle until it is dropped.
    pub fn init<'a, D: DelayMs>(&'a mut self, delay: &mut D) -> (r: Result<
        InitializedSensor<'a, B>,
        Error<B::BusError>,
    >)
        ensures
            match r {
                Ok(inited) => {
                    &&& (*inited.sensor).address == old(self).address
                    &&& (*inited.sensor).buffer == old(self).buffer
                    &&& init_ok_log(old(self).log@, (*inited.sensor).log@, old(self).address)
                    &&& *final(self) == *final(inited.sensor)
                },
                Err(e) => {
                    &&& final(self).address == old(self).address
                    &&& final(self).buffer == old(self).buffer
                    &&& match e {
                        Error::I2C(_) => init_i2c_partial(
                            old(self).log@,
                            final(self).log@,
                            old(self).address,
                        ),
                        Error::Internal => exists|first: u8, second: u8|
                            #![auto]
                            !spec_is_calibration_enabled(first) && !spec_is_calibration_enabled(
                                second,
                            ) && final(self).log@ == old(self).log@ + init_commands(
                                old(self).address,
                                first,
                            ) + calibrate_exchange(old(self).address, second),
                        _ => false,
                    }
                },
            },
    {
        // The datasheet requires a startup delay.
        delay.delay_ms(STARTUP_DELAY_MS);

        let tmp_buf: [u8; 1] = [Command::InitSensor.opcode()];
        match self.bus_write(&tmp_buf) {
            Ok(_) => {},
            Err(e) => {
                return Err(Error::I2C(e));
            },
        }
        proof {
            assert(tmp_buf@ =~= seq![commands::INIT_SENSOR]);
        }

        let status = match self.read_status() {
            Ok(st) => st,
            Err(e) => {
                return Err(e);
            },
        };
        proof {
            assert(self.log@ =~= old(self).log@ + init_commands(
                old(self).address,
                status.status,
            ));
        }
        if !status.is_calibration_enabled() {
            match self.calibrate(delay) {
                Ok(_) => {},
                Err(e) => {
                    return Err(e);
                },
            }
        }
        Ok(InitializedSensor { sensor: self })
    }

    /// The bounded busy-poll of a measurement read: reads the 7-byte frame
    /// up to `MAX_ATTEMPTS` times, stopping at the first frame whose status
    /// byte is not busy, and waiting the busy-poll delay between attempts.
    /// Exhausting the bound yields `Error::DeviceTimeOut`.
    fn poll_measurement<D: DelayMs>(&mut self, delay: &mut D) -> (r: Result<
        SensorData,
        Error<B::BusError>,
    >)
        ensures
            final(self).address == old(self).address,
            final(self).buffer == old(self).buffer,
            match r {
                Ok(sd) => sd.crc == 0 && poll_delivered(
                    old(self).log@,
                    final(self).log@,
                    old(self).address,
                    sd.bytes@,
                ),
                Err(Error::DeviceTimeOut) => poll_all_busy(
                    old(self).log@,
                    final(self).log@,
                    old(self).address,
                    MAX_ATTEMPTS as int,
                ),
                Err(Error::I2C(_)) => exists|n: int|
                    #![auto]
                    0 <= n < MAX_ATTEMPTS && poll_all_busy(
                        old(self).log@,
                        final(self).log@,
                        old(self).address,
                        n,
                    ),
                _ => false,
            },
    {
        let mut sd = SensorData::new();
        let ghost mut frames: Seq<Seq<u8>> = Seq::empty();
        let mut attempt: usize = 0;
        while attempt < MAX_ATTEMPTS
            invariant
                attempt <= MAX_ATTEMPTS,
                frames.len() == attempt,
                all_frames_7_bytes(frames),
                all_frames_busy(frames),
                sd.crc == 0,
                self.address == old(self).address,
                self.buffer == old(self).buffer,
                self.log@ == old(self).log@ + frame_reads(old(self).address, frames),
            decreases MAX_ATTEMPTS - attempt,
        {
            match self.bus_read(&mut sd.bytes) {
                Ok(_) => {},
                Err(e) => {
                    proof {
                        assert(frames.len() < MAX_ATTEMPTS && poll_all_busy(
                            old(self).log@,
                            self.log@,
                            old(self).address,
                            frames.len() as int,
                        ));
                    }
                    return Err(Error::I2C(e));
                },
            }
            proof {
                let prev = frames;
                frames = frames.push(sd.bytes@);
                assert(frames.drop_last() =~= prev);
                assert(frame_reads(old(self).address, frames) =~= frame_reads(
                    old(self).address,
                    prev,
                ).push(Transaction::Read { address: old(self).address, data: sd.bytes@ }));
                assert(self.log@ =~= old(self).log@ + frame_reads(old(self).address, frames));
            }
            let senstat = SensorStatus::new(sd.bytes[0]);
            if !senstat.is_busy() {
                proof {
                    assert({
                        &&& 1 <= frames.len() <= MAX_ATTEMPTS
                        &&& all_frames_7_bytes(frames)
                        &&& all_frames_busy(frames.drop_last())
                        &&& !spec_is_busy(frames.last()[0])
                        &&& sd.bytes@ == frames.last()
                        &&& self.log@ == old(self).log@ + frame_reads(old(self).address, frames)
                    });
                }
                return Ok(sd);
            }
            delay.delay_ms(BUSY_DELAY_MS);
            attempt += 1;
        }
        proof {
            assert(frames.len() == MAX_ATTEMPTS && all_frames_7_bytes(frames) && all_frames_busy(
                frames,
            ) && self.log@ == old(self).log@ + frame_reads(old(self).address, frames));
        }
        Err(Error::DeviceTimeOut)
    }
}

/// Every frame in the sequence is a full 7-byte reading.
pub open spec fn all_frames_7_bytes(frames: Seq<Seq<u8>>) -> bool {
    forall|i: int| 0 <= i < frames.len() ==> (#[trigger] frames[i]).len() == 7
}

/// Every frame in the sequence reports a busy status in its first byte.
pub open spec fn all_frames_busy(frames: Seq<Seq<u8>>) -> bool {
    forall|i: int| 0 <= i < frames.len() ==> spec_is_busy((#[trigger] frames[i])[0])
}

/// The reads of one busy-poll sequence, one transaction per attempted
/// frame, carrying the bytes the device answered.
pub open spec fn frame_reads(address: u8, frames: Seq<Seq<u8>>) -> Seq<Transaction> {
    frames.map_values(|data: Seq<u8>| Transaction::Read { address, data })
}

/// A completed busy-poll that delivered `bytes`: between one and
/// `MAX_ATTEMPTS` frame reads went over the bus, all but the last
/// answering a busy status, and the last answered `bytes`, whose status
/// byte is not busy.
pub open spec fn poll_delivered(
    pre: Seq<Transaction>,
    post: Seq<Transaction>,
    address: u8,
    bytes: Seq<u8>,
) -> bool {
    exists|frames: Seq<Seq<u8>>|
        #![auto]
        {
            &&& 1 <= frames.len() <= MAX_ATTEMPTS
            &&& all_frames_7_bytes(frames)
            &&& all_frames_busy(frames.drop_last())
            &&& !spec_is_busy(frames.last()[0])
            &&& bytes == frames.last()
            &&& post == pre + frame_reads(address, frames)
        }
}

/// A busy-poll that saw only busy frames: `n` frame reads went over the
/// bus, every one a full 7-byte frame whose status byte reports busy.
pub open spec fn poll_all_busy(
    pre: Seq<Transaction>,
    post: Seq<Transaction>,
    address: u8,
    n: int,
) -> bool {
    exists|frames: Seq<Seq<u8>>|
        #![auto]
        {
            &&& frames.len() == n
            &&& all_frames_7_bytes(frames)
            &&& all_frames_busy(frames)
            &&& post == pre + frame_reads(address, frames)
        }
}

/// The initialize command write.
pub open spec fn init_write(address: u8) -> Transaction {
    Transaction::Write { address, data: seq![commands::INIT_SENSOR] }
}

/// The transactions that start every initialization: the initialize
/// command, then a status query answering `first`.
pub open spec fn init_commands(address: u8, first: u8) -> Seq<Transaction> {
    seq![init_write(address)] + status_exchange(address, first)
}

/// On successful initialization the log grew by the initialize command and
/// one status query; when that first status did not report calibration
/// enabled, by exactly one calibrate exchange after it; and by nothing
/// else. In particular a device reporting calibration enabled on the first
/// status read is not sent a calibrate command.
pub open spec fn init_ok_log(pre: Seq<Transaction>, post: Seq<Transaction>, address: u8) -> bool {
    exists|first: u8|
        #![auto]
        {
            if spec_is_calibration_enabled(first) {
                post == pre + init_commands(address, first)
            } else {
                exists|second: u8|
                    #![auto]
                    spec_is_calibration_enabled(second) && post == pre + init_commands(
                        address,
                        first,
                    ) + calibrate_exchange(address, second)
            }
        }
}

/// After a transport failure inside initialization, the log grew by a
/// prefix of the initialization traffic: at most the initialize command,
/// a status query, and — only when that query answered a status without
/// calibration enabled — part of one calibrate exchange.
pub open spec fn init_i2c_partial(
    pre: Seq<Transaction>,
    post: Seq<Transaction>,
    address: u8,
) -> bool {
    ||| post == pre
    ||| status_partial(pre.push(init_write(address)), post, address)
    ||| exists|first: u8|
        #![auto]
        !spec_is_calibration_enabled(first) && calibrate_partial(
            pre + init_commands(address, first),
            post,
            address,
        )
}

/// The trigger-measurement command write with its two fixed parameter
/// bytes.
pub open spec fn trigger_write(address: u8) -> Transaction {
    Transaction::Write {
        address,
        data: seq![commands::TRIG_MESSURE, TRIG_MEASURE_PARAM0, TRIG_MEASURE_PARAM1],
    }
}

/// The soft-reset command write.
pub open spec fn soft_reset_write(address: u8) -> Transaction {
    Transaction::Write { address, data: seq![commands::SOFT_RESET] }
}

/// After a transport failure inside a soft reset, the log grew by a prefix
/// of the soft-reset traffic: at most a status query that answered a
/// non-busy status, the soft-reset command, and part of the confirming
/// status query.
pub open spec fn soft_reset_partial(
    pre: Seq<Transaction>,
    post: Seq<Transaction>,
    address: u8,
) -> bool {
    ||| status_partial(pre, post, address)
    ||| exists|first: u8|
        #![auto]
        !spec_is_busy(first) && {
            let mid = pre + status_exchange(address, first);
            post == mid || status_partial(mid.push(soft_reset_write(address)), post, address)
        }
}

/// The initialized sensor view: an exclusive borrow of the handle,
/// produced only by a successful initialization, which statically keeps
/// the initialized-only operations off an uninitialized device.
pub struct InitializedSensor<'a, B: I2cBus> {
    pub sensor: &'a mut Sensor<B>,
}

impl<'a, B: I2cBus> InitializedSensor<'a, B> {
    /// Reads the sensor's status byte, abstracted into named conditions.
    pub fn get_status(&mut self) -> (r: Result<SensorStatus, Error<B::BusError>>)
        ensures
            (*final(self).sensor).address == (*old(self).sensor).address,
            (*final(self).sensor).buffer == (*old(self).sensor).buffer,
            *final(final(self).sensor) == *final(old(self).sensor),
            match r {
                Ok(st) => (*final(self).sensor).log@ == (*old(self).sensor).log@
                    + status_exchange((*old(self).sensor).address, st.status),
                Err(e) => e is I2C && status_partial(
                    (*old(self).sensor).log@,
                    (*final(self).sensor).log@,
                    (*old(self).sensor).address,
                ),
            },
    {
        let s = self.sensor.read_status();
        s
    }

    /// Sends the three-byte trigger-measurement sequence to the sensor to
    /// start the measurement process; fire-and-forget, no confirmation
    /// read.
    pub fn trigger_measurement(&mut self) -> (r: Result<(), Error<B::BusError>>)
        ensures
            (*final(self).sensor).address == (*old(self).sensor).address,
            (*final(self).sensor).buffer == (*old(self).sensor).buffer,
            *final(final(self).sensor) == *final(old(self).sensor),
            match r {
                Ok(_) => (*final(self).sensor).log@ == (*old(self).sensor).log@.push(
                    trigger_write((*old(self).sensor).address),
                ),
                Err(e) => e is I2C && (*final(self).sensor).log@ == (*old(self).sensor).log@,
            },
    {
        let wbuf: [u8; 3] = [Command::TrigMessure.opcode(), TRIG_MEASURE_PARAM0,
            TRIG_MEASURE_PARAM1];
        match self.sensor.bus_write(&wbuf) {
            Ok(_) => {
                proof {
                    assert(wbuf@ =~= seq![
                        commands::TRIG_MESSURE,
                        TRIG_MEASURE_PARAM0,
                        TRIG_MEASURE_PARAM1,
                    ]);
                }
                Ok(())
            },
            Err(e) => Err(Error::I2C(e)),
        }
    }

    /// Attempts to read the 7 bytes of measurement data:
    ///
    /// - byte 0: sensor state/status,
    /// - bytes 1-2: humidity data,
    /// - byte 3: 4 bits humidity data + 4 bits temperature data,
    /// - bytes 4-5: temperature data,
    /// - byte 6: received checksum.
    ///
    /// Triggers a measurement, waits the settle delay, then polls the frame
    /// in a bounded retry loop: a frame whose status byte is not busy is
    /// returned as-is; exhausting `MAX_ATTEMPTS` yields
    /// `Error::DeviceTimeOut`. The checksum is NOT validated here — callers
    /// must check it explicitly (`SensorData::is_crc_good`) before trusting
    /// the decoded values.
    pub fn read_sensor<D: DelayMs>(&mut self, delay: &mut D) -> (r: Result<
        SensorData,
        Error<B::BusError>,
    >)
        ensures
            (*final(self).sensor).address == (*old(self).sensor).address,
            (*final(self).sensor).buffer == (*old(self).sensor).buffer,
            *final(final(self).sensor) == *final(old(self).sensor),
            match r {
                Ok(sd) => sd.crc == 0 && poll_delivered(
                    (*old(self).sensor).log@.push(trigger_write((*old(self).sensor).address)),
                    (*final(self).sensor).log@,
                    (*old(self).sensor).address,
                    sd.bytes@,
                ),
                Err(Error::DeviceTimeOut) => poll_all_busy(
                    (*old(self).sensor).log@.push(trigger_write((*old(self).sensor).address)),
                    (*final(self).sensor).log@,
                    (*old(self).sensor).address,
                    MAX_ATTEMPTS as int,
                ),
                Err(Error::I2C(_)) => (*final(self).sensor).log@ == (*old(self).sensor).log@
                    || exists|n: int|
                    #![auto]
                    0 <= n < MAX_ATTEMPTS && poll_all_busy(
                        (*old(self).sensor).log@.push(trigger_write((*old(self).sensor).address)),
                        (*final(self).sensor).log@,
                        (*old(self).sensor).address,
                        n,
                    ),
                _ => false,
            },
    {
        match self.trigger_measurement() {
            Ok(_) => {},
            Err(e) => {
                return Err(e);
            },
        }

        delay.delay_ms(MEASURE_DELAY_MS);

        self.sensor.poll_measurement(delay)
    }

    /// Performs a soft reset of the sensor itself: reads the status first
    /// and refuses with `Error::UnexpectedBusy` while the device reports
    /// busy — without sending the reset command; otherwise sends the
    /// soft-reset command and re-reads the status to confirm the post-reset
    /// state, returning it.
    pub fn soft_reset<D: DelayMs>(&mut self, _delay: &mut D) -> (r: Result<
        SensorStatus,
        Error<B::BusError>,
    >)
        ensures
            (*final(self).sensor).address == (*old(self).sensor).address,
            (*final(self).sensor).buffer == (*old(self).sensor).buffer,
            *final(final(self).sensor) == *final(old(self).sensor),
            match r {
                Ok(st) => exists|first: u8|
                    #![auto]
                    !spec_is_busy(first) && (*final(self).sensor).log@ == (*old(self).sensor).log@
                        + status_exchange((*old(self).sensor).address, first) + seq![
                        soft_reset_write((*old(self).sensor).address),
                    ] + status_exchange((*old(self).sensor).address, st.status),
                Err(Error::UnexpectedBusy) => exists|first: u8|
                    #![auto]
                    spec_is_busy(first) && (*final(self).sensor).log@ == (*old(self).sensor).log@
                        + status_exchange((*old(self).sensor).address, first),
                Err(Error::I2C(_)) => soft_reset_partial(
                    (*old(self).sensor).log@,
                    (*final(self).sensor).log@,
                    (*old(self).sensor).address,
                ),
                _ => false,
            },
    {
        let status = match self.get_status() {
            Ok(st) => st,
            Err(e) => {
                return Err(e);
            },
        };
        if status.is_busy() {
            return Err(Error::UnexpectedBusy);
        }

        let wbuf: [u8; 1] = [Command::SoftReset.opcode()];
        match self.sensor.bus_write(&wbuf) {
            Ok(_) => {},
            Err(e) => {
                return Err(Error::I2C(e));
            },
        }
        proof {
            assert(wbuf@ =~= seq![commands::SOFT_RESET]);
        }

        let status2 = match self.get_status() {
            Ok(st) => st,
            Err(e) => {
                return Err(e);
            },
        };
        proof {
            assert(!spec_is_busy(status.status) && (*self.sensor).log@ =~= (*old(
                self,
            ).sensor).log@ + status_exchange((*old(self).sensor).address, status.status) + seq![
                soft_reset_write((*old(self).sensor).address),
            ] + status_exchange((*old(self).sensor).address, status2.status));
        }
        Ok(status2)
    }
}

/// A device reporting calibration enabled on the first status read of an
/// initialization is sent no calibrate command: the traffic the successful
/// initialization added to the log holds none.
pub proof fn lemma_init_skips_calibration_when_enabled(
    pre: Seq<Transaction>,
    post: Seq<Transaction>,
    address: u8,
    first: u8,
)
    requires
        spec_is_calibration_enabled(first),
        post == pre + init_commands(address, first),
    ensures
        bus::count_command_writes(post.skip(pre.len() as int), commands::CALIBRATE) == 0,
{
    let suffix = post.skip(pre.len() as int);
    assert(suffix =~= seq![
        init_write(address),
        Transaction::Write { address, data: seq![commands::READ_STATUS] },
        Transaction::Read { address, data: seq![first] },
    ]);
    bus::lemma_count_command_writes_zero(suffix, commands::CALIBRATE);
    assert(forall|i: int|
        0 <= i < suffix.len() ==> !bus::is_command_write(#[trigger] suffix[i], commands::CALIBRATE));
}

/// A device reporting calibration disabled on the first status read of an
/// initialization triggers exactly one calibrate sequence: the traffic the
/// successful initialization added to the log holds exactly one calibrate
/// command.
pub proof fn lemma_init_calibrates_once_when_disabled(
    pre: Seq<Transaction>,
    post: Seq<Transaction>,
    address: u8,
    first: u8,
    second: u8,
)
    requires
        !spec_is_calibration_enabled(first),
        post == pre + init_commands(address, first) + calibrate_exchange(address, second),
    ensures
        bus::count_command_writes(post.skip(pre.len() as int), commands::CALIBRATE) == 1,
{
    let suffix = post.skip(pre.len() as int);
    let ic = init_commands(address, first);
    let ce = calibrate_exchange(address, second);
    assert(suffix =~= ic + ce);
    bus::lemma_count_command_writes_concat(ic, ce, commands::CALIBRATE);
    bus::lemma_count_command_writes_zero(ic, commands::CALIBRATE);
    assert(ic =~= seq![
        init_write(address),
        Transaction::Write { address, data: seq![commands::READ_STATUS] },
        Transaction::Read { address, data: seq![first] },
    ]);
    assert(forall|i: int|
        0 <= i < ic.len() ==> !bus::is_command_write(#[trigger] ic[i], commands::CALIBRATE));
    let se = status_exchange(address, second);
    assert(ce =~= seq![calibrate_write(address)] + se);
    bus::lemma_count_command_writes_concat(seq![calibrate_write(address)], se, commands::CALIBRATE);
    bus::lemma_count_command_writes_one(calibrate_write(address), commands::CALIBRATE);
    bus::lemma_count_command_writes_zero(se, commands::CALIBRATE);
    assert(forall|i: int|
        0 <= i < se.len() ==> !bus::is_command_write(#[trigger] se[i], commands::CALIBRATE));
}

/// Any successful initialization sends at most one calibrate command.
pub proof fn lemma_init_calibrates_at_most_once(
    pre: Seq<Transaction>,
    post: Seq<Transaction>,
    address: u8,
)
    requires
        init_ok_log(pre, post, address),
    ensures
        bus::count_command_writes(post.skip(pre.len() as int), commands::CALIBRATE) <= 1,
{
    let first = choose|first: u8|
        #![auto]
        {
            if spec_is_calibration_enabled(first) {
                post == pre + init_commands(address, first)
            } else {
                exists|second: u8|
                    #![auto]
                    spec_is_calibration_enabled(second) && post == pre + init_commands(
                        address,
                        first,
                    ) + calibrate_exchange(address, second)
            }
        };
    if spec_is_calibration_enabled(first) {
        lemma_init_skips_calibration_when_enabled(pre, post, address, first);
    } else {
        let second = choose|second: u8|
            #![auto]
            spec_is_calibration_enabled(second) && post == pre + init_commands(address, first)
                + calibrate_exchange(address, second);
        lemma_init_calibrates_once_when_disabled(pre, post, address, first, second);
    }
}

/// A soft reset refused while the device reports busy adds nothing to the
/// log beyond the status query: in particular, no soft-reset command is
/// sent.
pub proof fn lemma_refused_reset_sends_no_reset(
    pre: Seq<Transaction>,
    post: Seq<Transaction>,
    address: u8,
    first: u8,
)
    requires
        spec_is_busy(first),
        post == pre + status_exchange(address, first),
    ensures
        bus::count_command_writes(post.skip(pre.len() as int), commands::SOFT_RESET) == 0,
{
    let suffix = post.skip(pre.len() as int);
    assert(suffix =~= seq![
        Transaction::Write { address, data: seq![commands::READ_STATUS] },
        Transaction::Read { address, data: seq![first] },
    ]);
    bus::lemma_count_command_writes_zero(suffix, commands::SOFT_RESET);
    assert(forall|i: int|
        0 <= i < suffix.len() ==> !bus::is_command_write(
            #[trigger] suffix[i],
            commands::SOFT_RESET,
        ));
}

} // verus!
