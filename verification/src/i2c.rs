//! Two-wire (I2C-style) bus master transaction engine.
//!
//! The engine owns one controller instance, reached only through the
//! [`peripheral::I2cPeripheral`] register access capability, and a blocking
//! delay capability for its timeout polls. It keeps software bookkeeping
//! (FIFO depths, outstanding byte counts, in-progress flags, timing
//! parameters) and implements the master read/write protocol, the
//! disable/abort recovery sequence, and the transaction dispatch.
//!
//! Every contract is stated over the view [`I2cView`]: the engine's software
//! state beside the exact log of register accesses performed so far. Reads
//! of hardware registers return unconstrained values, so the contracts say
//! what holds whatever the hardware answered.

use vstd::prelude::*;

pub mod constants;
pub mod mode;
pub mod error;
pub mod peripheral;
pub mod message;
pub mod registers;
pub mod timings;

use crate::delay::DelayUs;
use crate::i2c::error::Error;
use crate::i2c::message::{I2cMsgFlag, I2C_MSG_RECV_LEN};
use crate::i2c::mode::{I2cOpMode, I2cSpeedMode};
use crate::i2c::constants::I2C_SMBUS_BLOCK_MAX;
use crate::i2c::peripheral::{
    lemma_acks_only_concat, read_clear_interrupt, spec_ack_events, spec_acks_only,
    I2cPeripheral, RegEvent,
};
use crate::i2c::registers::{
    I2cCon, I2cConSpeed, I2cDataCmd, I2cEnable, I2cEnableStatus, I2cFunc, I2cInterruptMask,
    I2cInterruptStatus, I2cRawInterruptStatus, I2cTar,
    spec_func_default, spec_master_mask, I2C_CON_MASTER, I2C_CON_MASTER_10BIT,
    I2C_CON_RESTART_EN, I2C_CON_SLAVE_DISABLE, I2C_CON_SPEED_FAST, I2C_CON_SPEED_HIGH,
    I2C_CON_SPEED_STD, I2C_DATA_CMD_DATA_MASK, I2C_DATA_CMD_READ, I2C_DATA_CMD_RESTART,
    I2C_DATA_CMD_STOP,
    I2C_ENABLE_ABORT,
    I2C_ENABLE_ENABLE, I2C_FUNC_ADDRESS_10BIT, I2C_INTR_TX_EMPTY,
    I2C_TAR_MASK, I2C_TAR_MODE_10BIT,
};
use crate::i2c::timings::I2cTimings;

verus! {

/// Software status flag: a transaction is active.
pub const STATUS_ACTIVE: u32 = 0b0001;
/// Software status flag: a write exceeded one FIFO's capacity and is still
/// partially undrained.
pub const STATUS_WRITE_IN_PROGRESS: u32 = 0b0010;
/// Software status flag: a read left bytes in the receive FIFO.
pub const STATUS_READ_IN_PROGRESS: u32 = 0b0100;
/// Mask of the defined software status flags.
pub const STATUS_MASK: u32 = 0b0111;

/// Software status flags of the engine; not hardware-backed.
#[derive(Clone, Copy, Debug, PartialEq, Eq, Structural)]
pub struct Status {
    bits: u32,
}

impl View for Status {
    type V = u32;

    closed spec fn view(&self) -> u32 {
        self.bits
    }
}

impl Status {
    /// Creates a value from a raw flag word, masking undefined bits.
    pub fn from_bits(raw: u32) -> (r: Self)
        ensures
            r@ == raw & STATUS_MASK,
    {
        Self { bits: raw & STATUS_MASK }
    }

    /// Gets the raw bit pattern.
    pub fn bits(self) -> (r: u32)
        ensures
            r == self@,
    {
        self.bits
    }

    /// Determines whether any flag of `oth` is set in `self`.
    pub fn is_set(self, oth: Self) -> (r: bool)
        ensures
            r == (self@ & oth@ != 0),
    {
        self.bits & oth.bits != 0
    }

    /// The union of the flags of `self` and `oth`.
    pub fn or(self, oth: Self) -> (r: Self)
        ensures
            r@ == self@ | oth@,
    {
        Self { bits: self.bits | oth.bits }
    }

    /// The flags of `self` with those of `oth` removed.
    pub fn without(self, oth: Self) -> (r: Self)
        ensures
            r@ == self@ & !oth@,
    {
        Self { bits: self.bits & !oth.bits }
    }

    /// The value with no flags set.
    pub fn none() -> (r: Self)
        ensures
            r@ == 0,
    {
        Self { bits: 0 }
    }

    /// The active-transaction flag.
    pub fn active() -> (r: Self)
        ensures
            r@ == STATUS_ACTIVE,
    {
        Self { bits: STATUS_ACTIVE }
    }

    /// The write-in-progress flag.
    pub fn write_in_progress() -> (r: Self)
        ensures
            r@ == STATUS_WRITE_IN_PROGRESS,
    {
        Self { bits: STATUS_WRITE_IN_PROGRESS }
    }

    /// The read-in-progress flag.
    pub fn read_in_progress() -> (r: Self)
        ensures
            r@ == STATUS_READ_IN_PROGRESS,
    {
        Self { bits: STATUS_READ_IN_PROGRESS }
    }
}

/// The engine's software bookkeeping, as the contracts see it.
pub struct I2cState {
    /// Software status flag bits.
    pub status: u32,
    /// Capacity of the receive FIFO.
    pub rx_fifo_depth: u32,
    /// Capacity of the transmit FIFO.
    pub tx_fifo_depth: u32,
    /// Bytes remaining of a partially enqueued write buffer.
    pub tx_buf_len: usize,
    /// Bytes remaining in the receive FIFO after a partially drained read.
    pub rx_buf_len: usize,
    /// Write buffers enqueued but not fully drained.
    pub tx_outstanding: u32,
    /// Read commands issued but not fully drained.
    pub rx_outstanding: u32,
    /// Protocol hints for the current write message.
    pub tx_flag: u16,
    /// Protocol hints for the current read message.
    pub rx_flag: u16,
    /// The control-register value used for master operation.
    pub master_cfg: u32,
    /// The advertised feature set.
    pub functionality: u32,
    /// Standard-speed clock high count.
    pub ss_hcnt: u32,
    /// Standard-speed clock low count.
    pub ss_lcnt: u32,
    /// Fast-speed clock high count.
    pub fs_hcnt: u32,
    /// Fast-speed clock low count.
    pub fs_lcnt: u32,
    /// High-speed clock high count.
    pub hs_hcnt: u32,
    /// High-speed clock low count.
    pub hs_lcnt: u32,
    /// SDA hold time; zero means "do not program".
    pub sda_hold_time: u32,
    /// Electrical timing parameters supplied by the caller.
    pub timings: I2cTimings,
    /// Operation mode; this engine implements master mode only.
    pub mode: I2cOpMode,
    /// Recorded message-level error of the ongoing transaction.
    pub msg_err: i32,
}

/// What the contracts of the engine speak of: the software bookkeeping and
/// the log of register accesses made through the controller capability.
pub struct I2cView {
    /// The log of state-changing register accesses.
    pub regs: Seq<RegEvent>,
    /// The software bookkeeping.
    pub st: I2cState,
}

/// The timing parameters a freshly created engine holds: the standard speed
/// class and zero for every electrical parameter.
pub open spec fn spec_default_timings() -> I2cTimings {
    I2cTimings {
        bus_freq_hz: I2cSpeedMode::Standard,
        scl_rise_ns: 0,
        scl_fall_ns: 0,
        scl_int_delay_ns: 0,
        sda_fall_ns: 0,
        sda_hold_ns: 0,
        digital_filter_width_ns: 0,
        analog_filter_cutoff_freq_hz: 0,
    }
}

/// The software bookkeeping of a freshly created engine.
pub open spec fn spec_initial_state() -> I2cState {
    I2cState {
        status: 0,
        rx_fifo_depth: 0,
        tx_fifo_depth: 0,
        tx_buf_len: 0,
        rx_buf_len: 0,
        tx_outstanding: 0,
        rx_outstanding: 0,
        tx_flag: 0,
        rx_flag: 0,
        master_cfg: 0,
        functionality: 0,
        ss_hcnt: 0,
        ss_lcnt: 0,
        fs_hcnt: 0,
        fs_lcnt: 0,
        hs_hcnt: 0,
        hs_lcnt: 0,
        sda_hold_time: 0,
        timings: spec_default_timings(),
        mode: I2cOpMode::Master,
        msg_err: 0,
    }
}

/// The control-register speed-class bits for a configured bus frequency:
/// standard and high select their own class, every other frequency falls
/// back to fast.
pub open spec fn spec_speed_bits(freq: I2cSpeedMode) -> u32 {
    match freq {
        I2cSpeedMode::Standard => I2C_CON_SPEED_STD,
        I2cSpeedMode::High => I2C_CON_SPEED_HIGH,
        _ => I2C_CON_SPEED_FAST,
    }
}

/// The control-register value that master configuration builds: master mode,
/// slave disabled, restart enabled, plus the speed-class bits.
pub open spec fn spec_master_cfg(freq: I2cSpeedMode) -> u32 {
    I2C_CON_MASTER | I2C_CON_SLAVE_DISABLE | I2C_CON_RESTART_EN | spec_speed_bits(freq)
}

/// The three register writes of FIFO/master configuration: transmit
/// threshold at half the transmit depth, receive threshold at zero, then the
/// master control value.
pub open spec fn spec_fifo_cfg_events(st: I2cState) -> Seq<RegEvent> {
    seq![
        RegEvent::TxTl(st.tx_fifo_depth / 2),
        RegEvent::RxTl(0),
        RegEvent::Con(st.master_cfg),
    ]
}

/// A run of `n` disable writes: the enable register written to zero `n`
/// times over.
pub open spec fn spec_enable_none_run(n: int) -> Seq<RegEvent> {
    Seq::new(n as nat, |i: int| RegEvent::Enable(0))
}

/// The abort-request prefix of a disable sequence: one write of the
/// abort-request bit when an abort was needed, nothing otherwise.
pub open spec fn spec_abort_request(abort: bool) -> Seq<RegEvent> {
    if abort {
        seq![RegEvent::Enable(I2C_ENABLE_ABORT)]
    } else {
        Seq::empty()
    }
}

/// The shape of one disable/abort recovery sequence: at most one
/// abort request, followed by `n` disable writes with `1 <= n <= 100`
/// (or none at all, when the abort poll timed out first).
pub open spec fn spec_disable_shape(d: Seq<RegEvent>, abort: bool, n: int) -> bool {
    &&& 0 <= n <= 100
    &&& abort || n >= 1
    &&& d == spec_abort_request(abort) + spec_enable_none_run(n)
}

/// Holds when `d` is a register-access sequence the disable/abort recovery
/// can produce.
pub open spec fn spec_disable_run(d: Seq<RegEvent>) -> bool {
    exists|abort: bool, n: int| spec_disable_shape(d, abort, n)
}

/// The register writes of master initialization after the disable sequence:
/// standard-speed counts, fast-speed counts, high-speed counts only when
/// both are non-zero, SDA hold time only when non-zero, then FIFO/master
/// configuration.
pub open spec fn spec_init_master_events(st: I2cState) -> Seq<RegEvent> {
    seq![
        RegEvent::SsSclHcnt(st.ss_hcnt),
        RegEvent::SsSclLcnt(st.ss_lcnt),
        RegEvent::FsSclHcnt(st.fs_hcnt),
        RegEvent::FsSclLcnt(st.fs_lcnt),
    ] + (if st.hs_hcnt != 0 && st.hs_lcnt != 0 {
        seq![RegEvent::HsSclHcnt(st.hs_hcnt), RegEvent::HsSclLcnt(st.hs_lcnt)]
    } else {
        Seq::empty()
    }) + (if st.sda_hold_time != 0 {
        seq![RegEvent::SdaHold(st.sda_hold_time)]
    } else {
        Seq::empty()
    }) + spec_fifo_cfg_events(st)
}

/// The control-register value transfer setup selects for a target-address
/// word: 10-bit master mode when the address carries the 10-bit-mode flag,
/// nothing otherwise.
pub open spec fn spec_xfer_con(tar: u32) -> u32 {
    if tar & I2C_TAR_MODE_10BIT != 0 {
        I2C_CON_MASTER_10BIT
    } else {
        0
    }
}

/// The register accesses of transfer setup after the disable sequence:
/// addressing-mode control value, target address, all interrupts masked,
/// adapter enabled, pending interrupts drained through the aggregate clear
/// register, then the default master interrupt mask.
pub open spec fn spec_xfer_init_events(tar: u32) -> Seq<RegEvent> {
    seq![
        RegEvent::Con(spec_xfer_con(tar)),
        RegEvent::Tar(tar),
        RegEvent::IntrMask(0),
        RegEvent::Enable(I2C_ENABLE_ENABLE),
        RegEvent::ClearIntrRead,
        RegEvent::IntrMask(spec_master_mask()),
    ]
}

/// The smaller of a buffer length and a FIFO headroom: the number of bytes
/// one write call can enqueue.
pub open spec fn spec_sendable(buf_len: int, tx_limit: int) -> int {
    if buf_len <= tx_limit {
        buf_len
    } else {
        tx_limit
    }
}

/// The FIFO command word carrying `data`, with the stop flag when `stop`
/// and the restart flag when `restart`.
pub open spec fn spec_cmd_word(data: u8, restart: bool, stop: bool) -> u32 {
    let with_stop = if stop {
        (data as u32) | I2C_DATA_CMD_STOP
    } else {
        data as u32
    };
    if restart {
        with_stop | I2C_DATA_CMD_RESTART
    } else {
        with_stop
    }
}

/// Whether a write call starting from status `status` under master
/// configuration `master_cfg` issues a restart: only when no write is
/// already in progress and restart capability is enabled.
pub open spec fn spec_need_restart(status: u32, master_cfg: u32) -> bool {
    status & STATUS_WRITE_IN_PROGRESS == 0 && master_cfg & I2C_CON_RESTART_EN != 0
}

/// The data-command writes of one write call that enqueues the first `sent`
/// bytes of `buf`: the restart flag only on the first byte when `restart`,
/// the stop flag only on the last enqueued byte when `stop`.
pub open spec fn spec_write_cmds(buf: Seq<u8>, sent: int, restart: bool, stop: bool) -> Seq<
    RegEvent,
> {
    Seq::new(
        sent as nat,
        |i: int|
            RegEvent::DataCmd(
                spec_cmd_word(buf[i], restart && i == 0, stop && i == sent - 1),
            ),
    )
}

/// The interrupt mask a write call installs: everything masked after a
/// recorded message error, the master mask without transmit-FIFO-empty on
/// the last message, the full master mask otherwise.
pub open spec fn spec_write_intr_mask(msg_err: i32, last_msg: bool) -> u32 {
    if msg_err != 0 {
        0
    } else if last_msg {
        spec_master_mask() & !I2C_INTR_TX_EMPTY
    } else {
        spec_master_mask()
    }
}

/// The register writes of one write call with transmit headroom `tx_limit`:
/// one data-command write per sendable byte, then the recomputed interrupt
/// mask.
pub open spec fn spec_write_msg_events(
    pre: I2cState,
    buf: Seq<u8>,
    last_msg: bool,
    tx_limit: int,
) -> Seq<RegEvent> {
    let sent = spec_sendable(buf.len() as int, tx_limit);
    let restart = spec_need_restart(pre.status, pre.master_cfg);
    let stop = last_msg && pre.tx_flag & I2C_MSG_RECV_LEN == 0;
    spec_write_cmds(buf, sent, restart, stop) + seq![
        RegEvent::IntrMask(spec_write_intr_mask(pre.msg_err, last_msg)),
    ]
}

/// The software bookkeeping after one write call with transmit headroom
/// `tx_limit`: write-in-progress set, the outstanding count bumped and the
/// leftover byte count recorded when the buffer did not fully fit (or the
/// length-prefix protocol is active, whose true length is not yet known);
/// write-in-progress cleared otherwise.
pub open spec fn spec_write_msg_post(
    pre: I2cState,
    post: I2cState,
    buf: Seq<u8>,
    last_msg: bool,
    tx_limit: int,
) -> bool {
    let sent = spec_sendable(buf.len() as int, tx_limit);
    let in_progress = buf.len() > tx_limit || pre.tx_flag & I2C_MSG_RECV_LEN != 0;
    post == (I2cState {
        status: if in_progress {
            pre.status | STATUS_WRITE_IN_PROGRESS
        } else {
            pre.status & !STATUS_WRITE_IN_PROGRESS
        },
        tx_outstanding: if in_progress {
            if pre.tx_outstanding == u32::MAX {
                u32::MAX
            } else {
                (pre.tx_outstanding + 1) as u32
            }
        } else {
            pre.tx_outstanding
        },
        tx_buf_len: if in_progress {
            (buf.len() - sent) as usize
        } else {
            pre.tx_buf_len
        },
        ..pre
    })
}

/// The FIFO read command word: the read flag, with the restart flag when
/// restart capability is enabled in the master configuration.
pub open spec fn spec_read_cmd(master_cfg: u32) -> u32 {
    if master_cfg & I2C_CON_RESTART_EN != 0 {
        I2C_DATA_CMD_READ | I2C_DATA_CMD_RESTART
    } else {
        I2C_DATA_CMD_READ
    }
}

/// A length-prefix byte outside `1..=I2C_SMBUS_BLOCK_MAX` is invalid and is
/// normalized to 1; valid values pass through unchanged.
pub open spec fn spec_normalize_block_len(val: u8) -> u8 {
    if val == 0 || val > I2C_SMBUS_BLOCK_MAX {
        1
    } else {
        val
    }
}

/// Normalizes a length-prefix byte received under the length-prefix
/// protocol: 0, or anything above the protocol's maximum block size, is
/// replaced by 1 (that byte is then re-read with the stop condition once
/// the true length is known); values in range pass through unchanged.
pub fn normalize_block_len(val: u8) -> (r: u8)
    ensures
        r == spec_normalize_block_len(val),
{
    if val == 0 || val > I2C_SMBUS_BLOCK_MAX {
        1
    } else {
        val
    }
}

/// The software bookkeeping and buffer contents after a successful read
/// call that drained `drained` bytes and left `leftover` bytes in the
/// receive FIFO: the buffer keeps its length, bytes beyond the drained
/// prefix keep their old values, every drained byte lies in
/// `1..=I2C_SMBUS_BLOCK_MAX` when the length-prefix protocol is active,
/// and read-in-progress is set exactly when bytes were left over.
pub open spec fn spec_read_msg_post(
    pre: I2cState,
    post: I2cState,
    pre_buf: Seq<u8>,
    post_buf: Seq<u8>,
    drained: int,
    leftover: int,
) -> bool {
    &&& 0 <= drained <= pre_buf.len()
    &&& leftover >= 0
    &&& (leftover > 0 ==> drained == pre_buf.len())
    &&& post_buf.len() == pre_buf.len()
    &&& (forall|i: int| drained <= i < pre_buf.len() ==> post_buf[i] == pre_buf[i])
    &&& (pre.rx_flag & I2C_MSG_RECV_LEN != 0 ==> forall|i: int|
        0 <= i < drained ==> 1 <= #[trigger] post_buf[i] <= I2C_SMBUS_BLOCK_MAX)
    &&& post == (I2cState {
        status: if leftover > 0 {
            pre.status | STATUS_READ_IN_PROGRESS
        } else {
            pre.status & !STATUS_READ_IN_PROGRESS
        },
        rx_buf_len: leftover as usize,
        ..pre
    })
}

/// One segment of a transaction: a buffer to write to the remote device, or
/// a buffer to fill from it.
pub enum I2cOperation {
    /// Write these bytes to the remote device.
    Write(Vec<u8>),
    /// Read from the remote device into this buffer; its length is how many
    /// bytes are wanted.
    Read(Vec<u8>),
}

/// The number of write operations in an operation list.
pub open spec fn spec_writes_in(ops: Seq<I2cOperation>) -> int
    decreases ops.len(),
{
    if ops.len() == 0 {
        0
    } else {
        (match ops[0] {
            I2cOperation::Write(_) => 1int,
            I2cOperation::Read(_) => 0int,
        }) + spec_writes_in(ops.skip(1))
    }
}

/// A write count is never negative.
pub proof fn lemma_writes_in_nonneg(ops: Seq<I2cOperation>)
    ensures
        spec_writes_in(ops) >= 0,
    decreases ops.len(),
{
    if ops.len() > 0 {
        lemma_writes_in_nonneg(ops.skip(1));
    }
}

/// The write count of a list splits over any prefix/suffix boundary.
pub proof fn lemma_writes_in_split(ops: Seq<I2cOperation>, k: int)
    requires
        0 <= k <= ops.len(),
    ensures
        spec_writes_in(ops) == spec_writes_in(ops.take(k)) + spec_writes_in(ops.skip(k)),
    decreases k,
{
    if k == 0 {
        assert(ops.take(0) =~= Seq::empty());
        assert(ops.skip(0) =~= ops);
    } else {
        lemma_writes_in_split(ops.skip(1), k - 1);
        assert(ops.take(k)[0] == ops[0]);
        assert(ops.take(k).skip(1) =~= ops.skip(1).take(k - 1));
        assert(ops.skip(k) =~= ops.skip(1).skip(k - 1));
    }
}

/// How one transaction walk relates the engine state it starts from to the
/// state it ends in: each operation of `pre_ops`, in order, is one step of
/// the write path (with "last message" exactly on the final write operation
/// of the whole walk, counted down by `writes_left`) or one step of the
/// read path (whose filled buffer replaces the operation's); the first
/// failing read step ends the walk with its error, leaving the remaining
/// operations untouched.
pub open spec fn spec_ops_chain(
    pre: I2cView,
    post: I2cView,
    pre_ops: Seq<I2cOperation>,
    post_ops: Seq<I2cOperation>,
    writes_left: int,
    result: Result<(), Error>,
) -> bool
    decreases pre_ops.len(),
{
    if pre_ops.len() == 0 {
        &&& post == pre
        &&& post_ops.len() == 0
        &&& result == Ok::<(), Error>(())
    } else {
        &&& post_ops.len() == pre_ops.len()
        &&& match pre_ops[0] {
            I2cOperation::Write(b) => {
                let last = writes_left == 1;
                &&& post_ops[0] == pre_ops[0]
                &&& exists|mid: I2cView|
                    #[trigger] spec_write_step(pre, mid, b@, last)
                        && spec_ops_chain(
                        mid,
                        post,
                        pre_ops.skip(1),
                        post_ops.skip(1),
                        writes_left - 1,
                        result,
                    )
            },
            I2cOperation::Read(b) => match post_ops[0] {
                I2cOperation::Read(pb) => exists|mid: I2cView, step: Result<(), Error>|
                    #[trigger] spec_read_step(pre, mid, b@, pb@, step) && match step {
                        Result::Ok(u) => spec_ops_chain(
                            mid,
                            post,
                            pre_ops.skip(1),
                            post_ops.skip(1),
                            writes_left,
                            result,
                        ),
                        Result::Err(e) => {
                            &&& result == Err::<(), Error>(e)
                            &&& post == mid
                            &&& post_ops.skip(1) == pre_ops.skip(1)
                        },
                    },
                I2cOperation::Write(_) => false,
            },
        }
    }
}

/// A successful chain extends by one write step at its end.
pub proof fn lemma_chain_snoc_write(
    v0: I2cView,
    vk: I2cView,
    vk1: I2cView,
    pre_ops: Seq<I2cOperation>,
    post_ops: Seq<I2cOperation>,
    op: I2cOperation,
    buf: Seq<u8>,
    w: int,
)
    requires
        spec_ops_chain(v0, vk, pre_ops, post_ops, w, Ok::<(), Error>(())),
        (match op {
            I2cOperation::Write(b) => b@ == buf,
            I2cOperation::Read(_) => false,
        }),
        spec_write_step(vk, vk1, buf, w - spec_writes_in(pre_ops) == 1),
    ensures
        spec_ops_chain(v0, vk1, pre_ops.push(op), post_ops.push(op), w, Ok::<(), Error>(())),
    decreases pre_ops.len(),
{
    let gpre = pre_ops.push(op);
    let gpost = post_ops.push(op);
    if pre_ops.len() == 0 {
        assert(vk == v0);
        assert(gpre[0] == op);
        assert(gpre.skip(1) =~= Seq::empty());
        assert(gpost.skip(1) =~= Seq::empty());
        assert(spec_write_step(v0, vk1, buf, w == 1));
        assert(spec_ops_chain(
            vk1,
            vk1,
            gpre.skip(1),
            gpost.skip(1),
            w - 1,
            Ok::<(), Error>(()),
        ));
    } else {
        assert(gpre[0] == pre_ops[0]);
        assert(gpost[0] == post_ops[0]);
        assert(gpre.skip(1) =~= pre_ops.skip(1).push(op));
        assert(gpost.skip(1) =~= post_ops.skip(1).push(op));
        match pre_ops[0] {
            I2cOperation::Write(b) => {
                let last = w == 1;
                let mid = choose|mid: I2cView|
                    #[trigger] spec_write_step(v0, mid, b@, last) && spec_ops_chain(
                        mid,
                        vk,
                        pre_ops.skip(1),
                        post_ops.skip(1),
                        w - 1,
                        Ok::<(), Error>(()),
                    );
                assert(spec_writes_in(pre_ops) == 1 + spec_writes_in(pre_ops.skip(1)));
                lemma_chain_snoc_write(
                    mid,
                    vk,
                    vk1,
                    pre_ops.skip(1),
                    post_ops.skip(1),
                    op,
                    buf,
                    w - 1,
                );
                assert(spec_write_step(v0, mid, b@, last) && spec_ops_chain(
                    mid,
                    vk1,
                    gpre.skip(1),
                    gpost.skip(1),
                    w - 1,
                    Ok::<(), Error>(()),
                ));
            },
            I2cOperation::Read(b) => {
                match post_ops[0] {
                    I2cOperation::Read(pb) => {
                        let (mid, step) = choose|mid: I2cView, step: Result<(), Error>|
                            #[trigger] spec_read_step(v0, mid, b@, pb@, step) && match step {
                                Result::Ok(u) => spec_ops_chain(
                                    mid,
                                    vk,
                                    pre_ops.skip(1),
                                    post_ops.skip(1),
                                    w,
                                    Ok::<(), Error>(()),
                                ),
                                Result::Err(e) => {
                                    &&& Ok::<(), Error>(()) == Err::<(), Error>(e)
                                    &&& vk == mid
                                    &&& post_ops.skip(1) == pre_ops.skip(1)
                                },
                            };
                        assert(step is Ok);
                        assert(spec_writes_in(pre_ops) == spec_writes_in(pre_ops.skip(1)));
                        lemma_chain_snoc_write(
                            mid,
                            vk,
                            vk1,
                            pre_ops.skip(1),
                            post_ops.skip(1),
                            op,
                            buf,
                            w,
                        );
                        assert(spec_read_step(v0, mid, b@, pb@, step) && match step {
                            Result::Ok(u) => spec_ops_chain(
                                mid,
                                vk1,
                                gpre.skip(1),
                                gpost.skip(1),
                                w,
                                Ok::<(), Error>(()),
                            ),
                            Result::Err(e) => {
                                &&& Ok::<(), Error>(()) == Err::<(), Error>(e)
                                &&& vk1 == mid
                                &&& gpost.skip(1) == gpre.skip(1)
                            },
                        });
                    },
                    I2cOperation::Write(_) => {
                        assert(false);
                    },
                }
            },
        }
    }
}

/// A successful chain extends by one successful read step at its end.
pub proof fn lemma_chain_snoc_read(
    v0: I2cView,
    vk: I2cView,
    vk1: I2cView,
    pre_ops: Seq<I2cOperation>,
    post_ops: Seq<I2cOperation>,
    op_pre: I2cOperation,
    op_post: I2cOperation,
    b: Seq<u8>,
    pb: Seq<u8>,
    w: int,
)
    requires
        spec_ops_chain(v0, vk, pre_ops, post_ops, w, Ok::<(), Error>(())),
        (match op_pre {
            I2cOperation::Read(x) => x@ == b,
            I2cOperation::Write(_) => false,
        }),
        (match op_post {
            I2cOperation::Read(x) => x@ == pb,
            I2cOperation::Write(_) => false,
        }),
        spec_read_step(vk, vk1, b, pb, Ok::<(), Error>(())),
    ensures
        spec_ops_chain(
            v0,
            vk1,
            pre_ops.push(op_pre),
            post_ops.push(op_post),
            w,
            Ok::<(), Error>(()),
        ),
    decreases pre_ops.len(),
{
    let gpre = pre_ops.push(op_pre);
    let gpost = post_ops.push(op_post);
    if pre_ops.len() == 0 {
        assert(vk == v0);
        assert(gpre[0] == op_pre);
        assert(gpost[0] == op_post);
        assert(gpre.skip(1) =~= Seq::empty());
        assert(gpost.skip(1) =~= Seq::empty());
        assert(spec_read_step(v0, vk1, b, pb, Ok::<(), Error>(())) && spec_ops_chain(
            vk1,
            vk1,
            gpre.skip(1),
            gpost.skip(1),
            w,
            Ok::<(), Error>(()),
        ));
    } else {
        assert(gpre[0] == pre_ops[0]);
        assert(gpost[0] == post_ops[0]);
        assert(gpre.skip(1) =~= pre_ops.skip(1).push(op_pre));
        assert(gpost.skip(1) =~= post_ops.skip(1).push(op_post));
        match pre_ops[0] {
            I2cOperation::Write(hb) => {
                let last = w == 1;
                let mid = choose|mid: I2cView|
                    #[trigger] spec_write_step(v0, mid, hb@, last) && spec_ops_chain(
                        mid,
                        vk,
                        pre_ops.skip(1),
                        post_ops.skip(1),
                        w - 1,
                        Ok::<(), Error>(()),
                    );
                lemma_chain_snoc_read(
                    mid,
                    vk,
                    vk1,
                    pre_ops.skip(1),
                    post_ops.skip(1),
                    op_pre,
                    op_post,
                    b,
                    pb,
                    w - 1,
                );
                assert(spec_write_step(v0, mid, hb@, last) && spec_ops_chain(
                    mid,
                    vk1,
                    gpre.skip(1),
                    gpost.skip(1),
                    w - 1,
                    Ok::<(), Error>(()),
                ));
            },
            I2cOperation::Read(hb) => {
                match post_ops[0] {
                    I2cOperation::Read(hpb) => {
                        let (mid, step) = choose|mid: I2cView, step: Result<(), Error>|
                            #[trigger] spec_read_step(v0, mid, hb@, hpb@, step) && match step {
                                Result::Ok(u) => spec_ops_chain(
                                    mid,
                                    vk,
                                    pre_ops.skip(1),
                                    post_ops.skip(1),
                                    w,
                                    Ok::<(), Error>(()),
                                ),
                                Result::Err(e) => {
                                    &&& Ok::<(), Error>(()) == Err::<(), Error>(e)
                                    &&& vk == mid
                                    &&& post_ops.skip(1) == pre_ops.skip(1)
                                },
                            };
                        assert(step is Ok);
                        lemma_chain_snoc_read(
                            mid,
                            vk,
                            vk1,
                            pre_ops.skip(1),
                            post_ops.skip(1),
                            op_pre,
                            op_post,
                            b,
                            pb,
                            w,
                        );
                        assert(spec_read_step(v0, mid, hb@, hpb@, step) && match step {
                            Result::Ok(u) => spec_ops_chain(
                                mid,
                                vk1,
                                gpre.skip(1),
                                gpost.skip(1),
                                w,
                                Ok::<(), Error>(()),
                            ),
                            Result::Err(e) => {
                                &&& Ok::<(), Error>(()) == Err::<(), Error>(e)
                                &&& vk1 == mid
                                &&& gpost.skip(1) == gpre.skip(1)
                            },
                        });
                    },
                    I2cOperation::Write(_) => {
                        assert(false);
                    },
                }
            },
        }
    }
}

/// A successful chain, a failing read step, and an untouched remainder make
/// one chain that ends in that error.
pub proof fn lemma_chain_err_tail(
    v0: I2cView,
    vk: I2cView,
    vfin: I2cView,
    done_pre: Seq<I2cOperation>,
    done_post: Seq<I2cOperation>,
    rest_pre: Seq<I2cOperation>,
    rest_post: Seq<I2cOperation>,
    b: Seq<u8>,
    pb: Seq<u8>,
    w: int,
    e: Error,
)
    requires
        spec_ops_chain(v0, vk, done_pre, done_post, w, Ok::<(), Error>(())),
        rest_pre.len() >= 1,
        rest_post.len() == rest_pre.len(),
        (match rest_pre[0] {
            I2cOperation::Read(x) => x@ == b,
            I2cOperation::Write(_) => false,
        }),
        (match rest_post[0] {
            I2cOperation::Read(x) => x@ == pb,
            I2cOperation::Write(_) => false,
        }),
        spec_read_step(vk, vfin, b, pb, Err::<(), Error>(e)),
        rest_post.skip(1) == rest_pre.skip(1),
    ensures
        spec_ops_chain(
            v0,
            vfin,
            done_pre + rest_pre,
            done_post + rest_post,
            w,
            Err::<(), Error>(e),
        ),
    decreases done_pre.len(),
{
    let gpre = done_pre + rest_pre;
    let gpost = done_post + rest_post;
    if done_pre.len() == 0 {
        assert(vk == v0);
        assert(gpre =~= rest_pre);
        assert(gpost =~= rest_post);
        assert(spec_read_step(v0, vfin, b, pb, Err::<(), Error>(e)) && match Err::<(), Error>(
            e,
        ) {
            Result::Ok(u) => false,
            Result::Err(e2) => {
                &&& Err::<(), Error>(e) == Err::<(), Error>(e2)
                &&& vfin == vfin
                &&& rest_post.skip(1) == rest_pre.skip(1)
            },
        });
        assert(spec_ops_chain(v0, vfin, rest_pre, rest_post, w, Err::<(), Error>(e)));
    } else {
        assert(gpre[0] == done_pre[0]);
        assert(gpost[0] == done_post[0]);
        assert(gpre.skip(1) =~= done_pre.skip(1) + rest_pre);
        assert(gpost.skip(1) =~= done_post.skip(1) + rest_post);
        match done_pre[0] {
            I2cOperation::Write(hb) => {
                let last = w == 1;
                let mid = choose|mid: I2cView|
                    #[trigger] spec_write_step(v0, mid, hb@, last) && spec_ops_chain(
                        mid,
                        vk,
                        done_pre.skip(1),
                        done_post.skip(1),
                        w - 1,
                        Ok::<(), Error>(()),
                    );
                lemma_chain_err_tail(
                    mid,
                    vk,
                    vfin,
                    done_pre.skip(1),
                    done_post.skip(1),
                    rest_pre,
                    rest_post,
                    b,
                    pb,
                    w - 1,
                    e,
                );
                assert(spec_write_step(v0, mid, hb@, last) && spec_ops_chain(
                    mid,
                    vfin,
                    gpre.skip(1),
                    gpost.skip(1),
                    w - 1,
                    Err::<(), Error>(e),
                ));
            },
            I2cOperation::Read(hb) => {
                match done_post[0] {
                    I2cOperation::Read(hpb) => {
                        let (mid, step) = choose|mid: I2cView, step: Result<(), Error>|
                            #[trigger] spec_read_step(v0, mid, hb@, hpb@, step) && match step {
                                Result::Ok(u) => spec_ops_chain(
                                    mid,
                                    vk,
                                    done_pre.skip(1),
                                    done_post.skip(1),
                                    w,
                                    Ok::<(), Error>(()),
                                ),
                                Result::Err(e2) => {
                                    &&& Ok::<(), Error>(()) == Err::<(), Error>(e2)
                                    &&& vk == mid
                                    &&& done_post.skip(1) == done_pre.skip(1)
                                },
                            };
                        assert(step is Ok);
                        lemma_chain_err_tail(
                            mid,
                            vk,
                            vfin,
                            done_pre.skip(1),
                            done_post.skip(1),
                            rest_pre,
                            rest_post,
                            b,
                            pb,
                            w,
                            e,
                        );
                        assert(spec_read_step(v0, mid, hb@, hpb@, step) && match step {
                            Result::Ok(u) => spec_ops_chain(
                                mid,
                                vfin,
                                gpre.skip(1),
                                gpost.skip(1),
                                w,
                                Err::<(), Error>(e),
                            ),
                            Result::Err(e2) => {
                                &&& Err::<(), Error>(e) == Err::<(), Error>(e2)
                                &&& vfin == mid
                                &&& gpost.skip(1) == gpre.skip(1)
                            },
                        });
                    },
                    I2cOperation::Write(_) => {
                        assert(false);
                    },
                }
            },
        }
    }
}

/// How a transaction relates one operation it was given to what it leaves
/// in its place: a write buffer is untouched; a read buffer keeps its
/// length, its bytes now holding what was drained from the FIFO.
pub open spec fn spec_op_match(a: I2cOperation, b: I2cOperation) -> bool {
    match a {
        I2cOperation::Write(x) => match b {
            I2cOperation::Write(y) => x@ == y@,
            I2cOperation::Read(_) => false,
        },
        I2cOperation::Read(x) => match b {
            I2cOperation::Write(_) => false,
            I2cOperation::Read(y) => x@.len() == y@.len(),
        },
    }
}

/// How a transaction relates the operation list it was given to the list it
/// leaves behind, element by element.
pub open spec fn spec_ops_shape(pre: Seq<I2cOperation>, post: Seq<I2cOperation>) -> bool {
    &&& post.len() == pre.len()
    &&& forall|k: int| 0 <= k < pre.len() ==> spec_op_match(#[trigger] pre[k], post[k])
}

/// The target-address register value for a 7-bit address.
pub open spec fn spec_tar_7bit(address: u8) -> u32 {
    (address as u32) & I2C_TAR_MASK
}

/// The target-address register value for a 10-bit address: the address bits
/// with the 10-bit-mode flag.
pub open spec fn spec_tar_10bit(address: u16) -> u32 {
    ((address as u32) & I2C_TAR_MASK) | I2C_TAR_MODE_10BIT
}

/// Whether a register access belongs to the message paths: a FIFO
/// data-command write, an interrupt-mask update, or an interrupt
/// acknowledge. After transfer setup, a transaction makes no other kind of
/// register access.
pub open spec fn spec_is_msg_event(e: RegEvent) -> bool {
    match e {
        RegEvent::DataCmd(_) => true,
        RegEvent::IntrMask(_) => true,
        _ => crate::i2c::peripheral::spec_is_ack_event(e),
    }
}

/// Holds when every access in `s` belongs to the message paths.
pub open spec fn spec_msg_events_only(s: Seq<RegEvent>) -> bool {
    forall|i: int| 0 <= i < s.len() ==> spec_is_msg_event(#[trigger] s[i])
}

/// Message-path sequences are closed under concatenation.
pub proof fn lemma_msg_events_concat(a: Seq<RegEvent>, b: Seq<RegEvent>)
    requires
        spec_msg_events_only(a),
        spec_msg_events_only(b),
    ensures
        spec_msg_events_only(a + b),
{
    assert forall|i: int| 0 <= i < (a + b).len() implies spec_is_msg_event((a + b)[i]) by {
        if i < a.len() {
            assert((a + b)[i] == a[i]);
        } else {
            assert((a + b)[i] == b[i - a.len()]);
        }
    }
}

/// Acknowledge-only sequences belong to the message paths.
pub proof fn lemma_acks_are_msg_events(s: Seq<RegEvent>)
    requires
        spec_acks_only(s),
    ensures
        spec_msg_events_only(s),
{
    assert forall|i: int| 0 <= i < s.len() implies spec_is_msg_event(s[i]) by {
        assert(crate::i2c::peripheral::spec_is_ack_event(s[i]));
    }
}

/// Every access of one write call belongs to the message paths.
pub proof fn lemma_write_events_are_msg_events(
    pre: I2cState,
    buf: Seq<u8>,
    last_msg: bool,
    tx_limit: int,
)
    ensures
        spec_msg_events_only(spec_write_msg_events(pre, buf, last_msg, tx_limit)),
{
    let s = spec_write_msg_events(pre, buf, last_msg, tx_limit);
    let sent = spec_sendable(buf.len() as int, tx_limit);
    let restart = spec_need_restart(pre.status, pre.master_cfg);
    let stop = last_msg && pre.tx_flag & I2C_MSG_RECV_LEN == 0;
    let cmds = spec_write_cmds(buf, sent, restart, stop);
    let mask = seq![RegEvent::IntrMask(spec_write_intr_mask(pre.msg_err, last_msg))];
    assert forall|i: int| 0 <= i < s.len() implies spec_is_msg_event(s[i]) by {
        if i < cmds.len() {
            assert(s[i] == cmds[i]);
            assert(s[i] is DataCmd);
        } else {
            assert(s[i] == mask[i - cmds.len()]);
            assert(s[i] is IntrMask);
        }
    }
}

/// One step of the write path, as seen by a caller: for some transmit
/// occupancy the hardware reported, the call appended exactly the write
/// events of that headroom and updated the bookkeeping accordingly.
pub open spec fn spec_write_step(pre: I2cView, post: I2cView, buf: Seq<u8>, last_msg: bool) -> bool {
    exists|tx_limit: int|
        {
            &&& 0 <= tx_limit <= pre.st.tx_fifo_depth
            &&& post.regs == pre.regs + #[trigger] spec_write_msg_events(
                pre.st,
                buf,
                last_msg,
                tx_limit,
            )
            &&& spec_write_msg_post(pre.st, post.st, buf, last_msg, tx_limit)
        }
}

/// One step of the read path, as seen by a caller: an immediate overrun
/// failure that touches nothing, or one read command followed only by
/// interrupt acknowledges, with the buffer filled on success and everything
/// but the log untouched on a poll timeout.
pub open spec fn spec_read_step(
    pre: I2cView,
    post: I2cView,
    pre_buf: Seq<u8>,
    post_buf: Seq<u8>,
    r: Result<(), Error>,
) -> bool {
    &&& post_buf.len() == pre_buf.len()
    &&& if pre.st.rx_outstanding >= pre.st.rx_fifo_depth {
        &&& r == Err::<(), Error>(Error::Overrun)
        &&& post.regs == pre.regs
        &&& post.st == pre.st
        &&& post_buf == pre_buf
    } else {
        exists|acks: Seq<RegEvent>|
            {
                &&& #[trigger] spec_acks_only(acks)
                &&& post.regs == pre.regs + seq![
                    RegEvent::DataCmd(spec_read_cmd(pre.st.master_cfg)),
                ] + acks
                &&& match r {
                    Result::Err(e) => {
                        &&& e == Error::Other
                        &&& post.st == pre.st
                        &&& post_buf == pre_buf
                    },
                    Result::Ok(u) => exists|drained: int, leftover: int|
                        spec_read_msg_post(pre.st, post.st, pre_buf, post_buf, drained, leftover),
                }
            }
    }
}

/// Whether a register access is a data-command write with the stop flag.
pub open spec fn spec_cmd_stop_set(e: RegEvent) -> bool {
    match e {
        RegEvent::DataCmd(w) => w & I2C_DATA_CMD_STOP != 0,
        _ => false,
    }
}

/// Whether a register access is a data-command write with the restart flag.
pub open spec fn spec_cmd_restart_set(e: RegEvent) -> bool {
    match e {
        RegEvent::DataCmd(w) => w & I2C_DATA_CMD_RESTART != 0,
        _ => false,
    }
}

/// The stop and restart flags of a command word are exactly the flags it
/// was built with, and its data field is exactly the byte it carries.
pub proof fn lemma_cmd_word_flags(data: u8, restart: bool, stop: bool)
    by (bit_vector)
    ensures
        (spec_cmd_word(data, restart, stop) & I2C_DATA_CMD_STOP != 0) == stop,
        (spec_cmd_word(data, restart, stop) & I2C_DATA_CMD_RESTART != 0) == restart,
        spec_cmd_word(data, restart, stop) & I2C_DATA_CMD_DATA_MASK == data as u32,
{
}

/// Clearing a flag leaves it cleared.
proof fn lemma_bit_without(x: u32, m: u32)
    by (bit_vector)
    ensures
        (x & !m) & m == 0,
{
}

/// Setting a flag leaves it set.
proof fn lemma_bit_with(x: u32, m: u32)
    by (bit_vector)
    requires
        m != 0,
    ensures
        (x | m) & m != 0,
{
}

/// A write whose buffer fits into the transmit headroom enqueues exactly
/// one data-command write per buffer byte (the interrupt-mask write
/// follows them) and, when the length-prefix protocol is not active,
/// clears write-in-progress and leaves the leftover count untouched.
pub proof fn lemma_write_msg_full_fit(
    pre: I2cState,
    post: I2cState,
    buf: Seq<u8>,
    last_msg: bool,
    tx_limit: int,
)
    requires
        buf.len() <= tx_limit,
        pre.tx_flag & I2C_MSG_RECV_LEN == 0,
        spec_write_msg_post(pre, post, buf, last_msg, tx_limit),
    ensures
        spec_write_msg_events(pre, buf, last_msg, tx_limit).len() == buf.len() + 1,
        forall|i: int|
            0 <= i < buf.len() ==> (#[trigger] spec_write_msg_events(
                pre,
                buf,
                last_msg,
                tx_limit,
            )[i]) is DataCmd,
        post.status & STATUS_WRITE_IN_PROGRESS == 0,
        post.tx_buf_len == pre.tx_buf_len,
        post.tx_outstanding == pre.tx_outstanding,
{
    lemma_bit_without(pre.status, STATUS_WRITE_IN_PROGRESS);
}

/// A write whose buffer exceeds the transmit headroom `h` sets
/// write-in-progress and records exactly `buf.len() - h` leftover bytes.
pub proof fn lemma_write_msg_partial(
    pre: I2cState,
    post: I2cState,
    buf: Seq<u8>,
    last_msg: bool,
    tx_limit: int,
)
    requires
        0 <= tx_limit < buf.len(),
        buf.len() <= usize::MAX,
        spec_write_msg_post(pre, post, buf, last_msg, tx_limit),
    ensures
        post.status & STATUS_WRITE_IN_PROGRESS != 0,
        post.tx_buf_len == buf.len() - tx_limit,
{
    lemma_bit_with(pre.status, STATUS_WRITE_IN_PROGRESS);
}

/// The stop bit appears on a data-command write of a write call if and
/// only if the message is the last one, the byte is the last one enqueued
/// by this call, and the length-prefix protocol is not active.
pub proof fn lemma_write_stop_bit_iff(
    pre: I2cState,
    buf: Seq<u8>,
    last_msg: bool,
    tx_limit: int,
    i: int,
)
    requires
        0 <= i < spec_sendable(buf.len() as int, tx_limit),
    ensures
        spec_cmd_stop_set(spec_write_msg_events(pre, buf, last_msg, tx_limit)[i]) <==> (last_msg
            && i == spec_sendable(buf.len() as int, tx_limit) - 1 && pre.tx_flag
            & I2C_MSG_RECV_LEN == 0),
{
    let sent = spec_sendable(buf.len() as int, tx_limit);
    let stop = last_msg && pre.tx_flag & I2C_MSG_RECV_LEN == 0;
    lemma_cmd_word_flags(buf[i], spec_need_restart(pre.status, pre.master_cfg) && i == 0,
        stop && i == sent - 1);
}

/// The restart bit appears on a data-command write of a write call if and
/// only if the byte is the first of the call, no write was already in
/// progress, and restart capability is enabled; in particular it appears
/// at most once per call.
pub proof fn lemma_write_restart_bit_iff(
    pre: I2cState,
    buf: Seq<u8>,
    last_msg: bool,
    tx_limit: int,
    i: int,
)
    requires
        0 <= i < spec_sendable(buf.len() as int, tx_limit),
    ensures
        spec_cmd_restart_set(spec_write_msg_events(pre, buf, last_msg, tx_limit)[i]) <==> (i == 0
            && pre.status & STATUS_WRITE_IN_PROGRESS == 0 && pre.master_cfg & I2C_CON_RESTART_EN
            != 0),
{
    let sent = spec_sendable(buf.len() as int, tx_limit);
    let stop = last_msg && pre.tx_flag & I2C_MSG_RECV_LEN == 0;
    lemma_cmd_word_flags(buf[i], spec_need_restart(pre.status, pre.master_cfg) && i == 0,
        stop && i == sent - 1);
}

/// The two in-progress flags live in different bits, so setting or clearing
/// one never disturbs the other.
proof fn lemma_progress_bits_disjoint(s: u32)
    by (bit_vector)
    ensures
        (s | STATUS_WRITE_IN_PROGRESS) & STATUS_READ_IN_PROGRESS == s & STATUS_READ_IN_PROGRESS,
        (s & !STATUS_WRITE_IN_PROGRESS) & STATUS_READ_IN_PROGRESS == s & STATUS_READ_IN_PROGRESS,
        (s | STATUS_READ_IN_PROGRESS) & STATUS_WRITE_IN_PROGRESS == s & STATUS_WRITE_IN_PROGRESS,
        (s & !STATUS_READ_IN_PROGRESS) & STATUS_WRITE_IN_PROGRESS == s & STATUS_WRITE_IN_PROGRESS,
{
}

/// A write call never disturbs the read-in-progress flag: the two flags
/// track independent partially drained buffers.
pub proof fn lemma_write_keeps_read_in_progress(
    pre: I2cState,
    post: I2cState,
    buf: Seq<u8>,
    last_msg: bool,
    tx_limit: int,
)
    requires
        spec_write_msg_post(pre, post, buf, last_msg, tx_limit),
    ensures
        post.status & STATUS_READ_IN_PROGRESS == pre.status & STATUS_READ_IN_PROGRESS,
{
    lemma_progress_bits_disjoint(pre.status);
}

/// A read call never disturbs the write-in-progress flag: the two flags
/// track independent partially drained buffers.
pub proof fn lemma_read_keeps_write_in_progress(
    pre: I2cState,
    post: I2cState,
    pre_buf: Seq<u8>,
    post_buf: Seq<u8>,
    drained: int,
    leftover: int,
)
    requires
        spec_read_msg_post(pre, post, pre_buf, post_buf, drained, leftover),
    ensures
        post.status & STATUS_WRITE_IN_PROGRESS == pre.status & STATUS_WRITE_IN_PROGRESS,
{
    lemma_progress_bits_disjoint(pre.status);
}

/// One disable/abort recovery sequence issues at most one abort request,
/// even when master-on-hold stays asserted after the request.
pub proof fn lemma_disable_single_abort(d: Seq<RegEvent>, i: int, j: int)
    requires
        spec_disable_run(d),
        0 <= i < j < d.len(),
        d[i] == RegEvent::Enable(I2C_ENABLE_ABORT),
    ensures
        d[j] != RegEvent::Enable(I2C_ENABLE_ABORT),
{
    let (abort, n) = choose|abort: bool, n: int| spec_disable_shape(d, abort, n);
    assert(d == spec_abort_request(abort) + spec_enable_none_run(n));
    if abort {
        assert(j >= 1);
        assert(d[j] == spec_enable_none_run(n)[j - 1]);
        assert(d[j] == RegEvent::Enable(0));
    } else {
        assert(d[i] == spec_enable_none_run(n)[i]);
        assert(d[i] == RegEvent::Enable(0));
    }
}

/// Building the target-address register value for a 7-bit address keeps
/// the address exactly: no documented bit of it is masked away.
pub proof fn lemma_tar_7bit_exact(address: u8)
    by (bit_vector)
    ensures
        spec_tar_7bit(address) == address as u32,
{
}

/// Building the target-address register value for an address within the
/// 10-bit range keeps the address bits exactly and adds only the
/// 10-bit-mode flag.
pub proof fn lemma_tar_10bit_exact(address: u16)
    by (bit_vector)
    requires
        address <= 0x3ff,
    ensures
        spec_tar_10bit(address) == (address as u32) | I2C_TAR_MODE_10BIT,
{
}

/// Two-wire bus master transaction engine.
///
/// Owns one controller instance through the register access capability `P`
/// and paces its timeout polls through the delay capability `D`; both are
/// passed in by exclusive ownership at construction.
pub struct I2c<P: I2cPeripheral, D: DelayUs> {
    i2c: P,
    delay: D,
    status: Status,
    rx_fifo_depth: u32,
    tx_fifo_depth: u32,
    tx_buf_len: usize,
    rx_buf_len: usize,
    tx_outstanding: u32,
    rx_outstanding: u32,
    tx_flag: I2cMsgFlag,
    rx_flag: I2cMsgFlag,
    master_cfg: I2cCon,
    functionality: I2cFunc,
    ss_hcnt: u32,
    ss_lcnt: u32,
    fs_hcnt: u32,
    fs_lcnt: u32,
    hs_hcnt: u32,
    hs_lcnt: u32,
    sda_hold_time: u32,
    timings: I2cTimings,
    mode: I2cOpMode,
    msg_err: i32,
}

impl<P: I2cPeripheral, D: DelayUs> View for I2c<P, D> {
    type V = I2cView;

    closed spec fn view(&self) -> I2cView {
        I2cView {
            regs: self.i2c.log(),
            st: I2cState {
                status: self.status@,
                rx_fifo_depth: self.rx_fifo_depth,
                tx_fifo_depth: self.tx_fifo_depth,
                tx_buf_len: self.tx_buf_len,
                rx_buf_len: self.rx_buf_len,
                tx_outstanding: self.tx_outstanding,
                rx_outstanding: self.rx_outstanding,
                tx_flag: self.tx_flag@,
                rx_flag: self.rx_flag@,
                master_cfg: self.master_cfg@,
                functionality: self.functionality@,
                ss_hcnt: self.ss_hcnt,
                ss_lcnt: self.ss_lcnt,
                fs_hcnt: self.fs_hcnt,
                fs_lcnt: self.fs_lcnt,
                hs_hcnt: self.hs_hcnt,
                hs_lcnt: self.hs_lcnt,
                sda_hold_time: self.sda_hold_time,
                timings: self.timings,
                mode: self.mode,
                msg_err: self.msg_err,
            },
        }
    }
}

impl<P: I2cPeripheral, D: DelayUs> I2c<P, D> {
    /// Creates a new [`I2c`] engine owning the given controller instance and
    /// delay provider.
    pub fn new(i2c: P, delay: D) -> (r: Self)
        ensures
            r@.regs == i2c.log(),
            r@.st == spec_initial_state(),
    {
        Self {
            i2c,
            delay,
            status: Status::none(),
            rx_fifo_depth: 0,
            tx_fifo_depth: 0,
            tx_buf_len: 0,
            rx_buf_len: 0,
            tx_outstanding: 0,
            rx_outstanding: 0,
            tx_flag: I2cMsgFlag::none(),
            rx_flag: I2cMsgFlag::none(),
            functionality: I2cFunc::none(),
            master_cfg: I2cCon::none(),
            ss_hcnt: 0,
            ss_lcnt: 0,
            fs_hcnt: 0,
            fs_lcnt: 0,
            hs_hcnt: 0,
            hs_lcnt: 0,
            sda_hold_time: 0,
            timings: I2cTimings::new(),
            mode: I2cOpMode::new(),
            msg_err: 0,
        }
    }

    /// Gets the software [`Status`].
    pub fn status(&self) -> (r: Status)
        ensures
            r@ == self@.st.status,
    {
        self.status
    }

    /// Gets the transmit FIFO depth.
    pub fn tx_fifo_depth(&self) -> (r: u32)
        ensures
            r == self@.st.tx_fifo_depth,
    {
        self.tx_fifo_depth
    }

    /// Gets the receive FIFO depth.
    pub fn rx_fifo_depth(&self) -> (r: u32)
        ensures
            r == self@.st.rx_fifo_depth,
    {
        self.rx_fifo_depth
    }

    /// Gets the byte count left over from a partially enqueued write.
    pub fn tx_buf_len(&self) -> (r: usize)
        ensures
            r == self@.st.tx_buf_len,
    {
        self.tx_buf_len
    }

    /// Gets the byte count left in the receive FIFO after a partial drain.
    pub fn rx_buf_len(&self) -> (r: usize)
        ensures
            r == self@.st.rx_buf_len,
    {
        self.rx_buf_len
    }

    /// Sets the transmit FIFO depth (its capacity in bytes).
    pub fn set_tx_fifo_depth(&mut self, depth: u32)
        ensures
            final(self)@.regs == old(self)@.regs,
            final(self)@.st == (I2cState { tx_fifo_depth: depth, ..old(self)@.st }),
    {
        self.tx_fifo_depth = depth;
    }

    /// Sets the receive FIFO depth (its capacity in bytes).
    pub fn set_rx_fifo_depth(&mut self, depth: u32)
        ensures
            final(self)@.regs == old(self)@.regs,
            final(self)@.st == (I2cState { rx_fifo_depth: depth, ..old(self)@.st }),
    {
        self.rx_fifo_depth = depth;
    }

    /// Sets the electrical timing parameters used by master configuration.
    pub fn set_timings(&mut self, timings: I2cTimings)
        ensures
            final(self)@.regs == old(self)@.regs,
            final(self)@.st == (I2cState { timings, ..old(self)@.st }),
    {
        self.timings = timings;
    }

    /// Sets the standard-speed clock high/low counts forwarded by master
    /// initialization.
    pub fn set_ss_scl_counts(&mut self, hcnt: u32, lcnt: u32)
        ensures
            final(self)@.regs == old(self)@.regs,
            final(self)@.st == (I2cState { ss_hcnt: hcnt, ss_lcnt: lcnt, ..old(self)@.st }),
    {
        self.ss_hcnt = hcnt;
        self.ss_lcnt = lcnt;
    }

    /// Sets the fast-speed clock high/low counts forwarded by master
    /// initialization.
    pub fn set_fs_scl_counts(&mut self, hcnt: u32, lcnt: u32)
        ensures
            final(self)@.regs == old(self)@.regs,
            final(self)@.st == (I2cState { fs_hcnt: hcnt, fs_lcnt: lcnt, ..old(self)@.st }),
    {
        self.fs_hcnt = hcnt;
        self.fs_lcnt = lcnt;
    }

    /// Sets the high-speed clock high/low counts; they are programmed only
    /// when both are non-zero.
    pub fn set_hs_scl_counts(&mut self, hcnt: u32, lcnt: u32)
        ensures
            final(self)@.regs == old(self)@.regs,
            final(self)@.st == (I2cState { hs_hcnt: hcnt, hs_lcnt: lcnt, ..old(self)@.st }),
    {
        self.hs_hcnt = hcnt;
        self.hs_lcnt = lcnt;
    }

    /// Sets the SDA hold time; it is programmed only when non-zero.
    pub fn set_sda_hold_time(&mut self, val: u32)
        ensures
            final(self)@.regs == old(self)@.regs,
            final(self)@.st == (I2cState { sda_hold_time: val, ..old(self)@.st }),
    {
        self.sda_hold_time = val;
    }

    /// Sets the protocol hints of the current write message.
    pub fn set_tx_flag(&mut self, flag: I2cMsgFlag)
        ensures
            final(self)@.regs == old(self)@.regs,
            final(self)@.st == (I2cState { tx_flag: flag@, ..old(self)@.st }),
    {
        self.tx_flag = flag;
    }

    /// Sets the protocol hints of the current read message.
    pub fn set_rx_flag(&mut self, flag: I2cMsgFlag)
        ensures
            final(self)@.regs == old(self)@.regs,
            final(self)@.st == (I2cState { rx_flag: flag@, ..old(self)@.st }),
    {
        self.rx_flag = flag;
    }

    /// Configures the engine for master operation: advertises the 10-bit
    /// capable default feature set and builds the master control value from
    /// the configured bus frequency. Touches no hardware register.
    pub fn configure_master(&mut self)
        ensures
            final(self)@.regs == old(self)@.regs,
            final(self)@.st == (I2cState {
                functionality: I2C_FUNC_ADDRESS_10BIT | spec_func_default(),
                master_cfg: spec_master_cfg(old(self)@.st.timings.bus_freq_hz),
                mode: I2cOpMode::Master,
                ..old(self)@.st
            }),
    {
        self.functionality = I2cFunc::address_10bit().or(I2cFunc::default_set());
        self.master_cfg = I2cCon::master().or(I2cCon::slave_disable()).or(I2cCon::restart_en());

        self.mode = I2cOpMode::new();

        let bus_freq_hz = self.timings.bus_freq_hz();

        let speed = match bus_freq_hz {
            I2cSpeedMode::Standard => I2cConSpeed::Std,
            I2cSpeedMode::High => I2cConSpeed::High,
            _ => I2cConSpeed::Fast,
        };
        self.master_cfg = self.master_cfg.or(speed.to_con());
    }

    /// Enables the adapter.
    fn __enable(&mut self)
        ensures
            final(self)@.st == old(self)@.st,
            final(self)@.regs == old(self)@.regs.push(RegEvent::Enable(I2C_ENABLE_ENABLE)),
    {
        self.i2c.set_enable(I2cEnable::enable());
    }

    /// Writes enable=none once, without waiting for the adapter to go
    /// inactive.
    fn __disable_nowait(&mut self)
        ensures
            final(self)@.st == old(self)@.st,
            final(self)@.regs == old(self)@.regs.push(RegEvent::Enable(0)),
    {
        self.i2c.set_enable(I2cEnable::none());
    }

    /// Polls, every `sleep_us` microseconds within a budget of `timeout`
    /// microseconds, for the hardware to clear the abort-request bit.
    /// Touches no register: only reads and delays.
    fn poll_abort_cleared(&mut self, sleep_us: u32, timeout: u32) -> (r: Result<(), Error>)
        requires
            1 <= sleep_us,
            timeout <= u32::MAX - sleep_us,
        ensures
            final(self)@ == old(self)@,
    {
        let mut time: u32 = 0;
        while time <= timeout
            invariant
                self@ == old(self)@,
                1 <= sleep_us,
                timeout <= u32::MAX - sleep_us,
                time <= timeout + sleep_us,
            decreases timeout + sleep_us - time,
        {
            let cleared = !self.i2c.get_enable().is_set(I2cEnable::abort());
            if cleared {
                return Ok(());
            }
            self.delay.delay_us(sleep_us);
            time = time.saturating_add(sleep_us);
        }
        Err(Error::Other)
    }

    /// Disables the adapter, recovering a stuck bus first when needed.
    ///
    /// If the controller holds the bus awaiting software action
    /// ("master on hold") and no abort is already requested, one abort is
    /// requested and polled for completion within a 100 microsecond budget;
    /// exhausting that budget abandons the sequence. Otherwise the adapter
    /// is written disabled up to 100 times, 25 microseconds apart, until the
    /// hardware reports it inactive.
    ///
    /// A timeout in either stage is reported to the caller instead of being
    /// silently discarded; the engine's bookkeeping is unchanged either way.
    pub fn __disable(&mut self) -> (r: Result<(), Error>)
        ensures
            final(self)@.st == old(self)@.st,
            exists|d: Seq<RegEvent>|
                spec_disable_run(d) && final(self)@.regs == old(self)@.regs + d,
    {
        let raw_intr_stat = self.i2c.get_raw_interrupt_stat();
        let enable = self.i2c.get_enable();

        let abort_needed = raw_intr_stat.is_set(I2cRawInterruptStatus::mst_on_hold())
            && !enable.is_set(I2cEnable::abort());

        if abort_needed {
            self.i2c.set_enable(I2cEnable::abort());
            if self.poll_abort_cleared(10, 100).is_err() {
                // The controller never acknowledged the abort within the
                // budget: abandon the disable sequence and report it.
                proof {
                    let d = spec_abort_request(true) + spec_enable_none_run(0);
                    assert(spec_enable_none_run(0) =~= Seq::empty());
                    assert(spec_disable_shape(d, true, 0));
                    assert(spec_disable_run(d));
                    assert(self@.regs =~= old(self)@.regs + d);
                }
                return Err(Error::Other);
            }
        }

        let ghost aborted: bool = abort_needed;
        let ghost base: Seq<RegEvent> = self@.regs;
        proof {
            assert(base =~= old(self)@.regs + spec_abort_request(aborted));
        }

        let mut i: u32 = 0;
        while i < 100
            invariant
                i <= 100,
                self@.st == old(self)@.st,
                base == old(self)@.regs + spec_abort_request(aborted),
                self@.regs == base + spec_enable_none_run(i as int),
            decreases 100 - i,
        {
            self.__disable_nowait();
            proof {
                assert(spec_enable_none_run(i + 1) =~= spec_enable_none_run(
                    i as int,
                ).push(RegEvent::Enable(0)));
                assert(self@.regs =~= base + spec_enable_none_run(i + 1));
            }
            i = i + 1;
            if !self.i2c.get_enable_status().is_set(I2cEnableStatus::activity()) {
                // The adapter went inactive: disable complete.
                proof {
                    let d = spec_abort_request(aborted) + spec_enable_none_run(i as int);
                    assert(1 <= i <= 100);
                    assert(d == spec_abort_request(aborted) + spec_enable_none_run(i as int));
                    assert(spec_disable_shape(d, aborted, i as int));
                    assert(spec_disable_run(d));
                    assert(self@.regs =~= old(self)@.regs + d);
                }
                return Ok(());
            }

            // Wait 10 times the signaling period of the fastest supported
            // transfer (25 microseconds for 400 kHz) before retrying.
            self.delay.delay_us(25);
        }

        // Every attempt left the adapter active: report the timeout.
        proof {
            let d = spec_abort_request(aborted) + spec_enable_none_run(100);
            assert(spec_disable_shape(d, aborted, 100));
            assert(spec_disable_run(d));
            assert(self@.regs =~= old(self)@.regs + d);
        }
        Err(Error::Other)
    }

    /// Initializes the controller for master operation: disables the
    /// adapter, programs the caller-supplied clock counts (high-speed counts
    /// and SDA hold time only when non-zero), and runs FIFO/master
    /// configuration.
    ///
    /// The programming happens whether or not the disable sequence timed
    /// out; the disable result is returned so the caller can decide whether
    /// to escalate.
    pub fn init_master(&mut self) -> (r: Result<(), Error>)
        ensures
            final(self)@.st == old(self)@.st,
            exists|d: Seq<RegEvent>|
                spec_disable_run(d) && final(self)@.regs == old(self)@.regs + d
                    + spec_init_master_events(old(self)@.st),
    {
        // Disable the adapter.
        let disabled = self.__disable();
        let ghost d = choose|d: Seq<RegEvent>|
            spec_disable_run(d) && self@.regs == old(self)@.regs + d;

        // Write standard speed timing parameters.
        self.i2c.set_ss_scl_hcnt(self.ss_hcnt);
        self.i2c.set_ss_scl_lcnt(self.ss_lcnt);

        // Write fast mode/fast mode plus timing parameters.
        self.i2c.set_fs_scl_hcnt(self.fs_hcnt);
        self.i2c.set_fs_scl_lcnt(self.fs_lcnt);

        // Write high speed timing parameters if supported.
        if self.hs_hcnt != 0 && self.hs_lcnt != 0 {
            self.i2c.set_hs_scl_hcnt(self.hs_hcnt);
            self.i2c.set_hs_scl_lcnt(self.hs_lcnt);
        }

        // Write SDA hold time if supported.
        if self.sda_hold_time != 0 {
            let hold_time = self.sda_hold_time;
            self.i2c.set_sda_hold(hold_time);
        }

        self.configure_fifo_master();

        proof {
            assert(self@.regs =~= old(self)@.regs + d + spec_init_master_events(
                old(self)@.st,
            ));
        }

        disabled
    }

    /// Prepares the controller for the transfers of one transaction
    /// addressed to `tar`: disables the adapter, selects the addressing
    /// mode, programs the target address, masks all interrupts (a hardware
    /// erratum workaround), enables the adapter, drains pending interrupts,
    /// and installs the default master interrupt mask.
    ///
    /// The setup happens whether or not the disable sequence timed out; the
    /// disable result is returned so the caller can decide whether to
    /// escalate.
    pub fn xfer_init(&mut self, tar: I2cTar) -> (r: Result<(), Error>)
        ensures
            final(self)@.st == old(self)@.st,
            exists|d: Seq<RegEvent>|
                spec_disable_run(d) && final(self)@.regs == old(self)@.regs + d
                    + spec_xfer_init_events(tar@),
    {
        // Disable the adapter.
        let disabled = self.__disable();
        let ghost d = choose|d: Seq<RegEvent>|
            spec_disable_run(d) && self@.regs == old(self)@.regs + d;

        let con = if tar.is_set(I2cTar::mode_10bit()) {
            I2cCon::master_10bit()
        } else {
            I2cCon::none()
        };

        self.i2c.set_con(con);
        self.i2c.set_tar(tar);

        // Mask the interrupts while the address registers settle: some
        // controller revisions latch spurious interrupts otherwise.
        self.i2c.set_interrupt_mask(I2cInterruptMask::none());

        // Enable the adapter.
        self.__enable();

        // Dummy read to keep the enable-status register from wedging on
        // some controller revisions.
        let _en_stat = self.i2c.get_enable_status();

        // Clear and enable the interrupts.
        let _ci = self.i2c.get_clear_interrupt();
        self.i2c.set_interrupt_mask(I2cInterruptMask::master());

        proof {
            assert(self@.regs =~= old(self)@.regs + d + spec_xfer_init_events(tar@));
        }

        disabled
    }

    /// Enqueues as much of `buf` as the given transmit headroom `tx_limit`
    /// admits, building each FIFO command word exactly as
    /// [`spec_write_msg_events`] states: the restart flag at most once, on
    /// the first byte, and only when no write was in progress and restart
    /// capability is enabled; the stop flag only on the last enqueued byte
    /// of the last message, and never while the length-prefix protocol is
    /// active. Updates the write bookkeeping per [`spec_write_msg_post`]
    /// and installs the recomputed interrupt mask.
    pub fn write_msg_limited(&mut self, buf: &[u8], last_msg: bool, tx_limit: usize) -> (r:
        Result<(), Error>)
        ensures
            r == Ok::<(), Error>(()),
            final(self)@.regs == old(self)@.regs + spec_write_msg_events(
                old(self)@.st,
                buf@,
                last_msg,
                tx_limit as int,
            ),
            spec_write_msg_post(old(self)@.st, final(self)@.st, buf@, last_msg, tx_limit as int),
    {
        let mut need_restart = !self.status.is_set(Status::write_in_progress())
            && self.master_cfg.is_set(I2cCon::restart_en());
        let recv_len_active = self.tx_flag.is_set(I2cMsgFlag::recv_len());

        let len: usize = if buf.len() <= tx_limit {
            buf.len()
        } else {
            tx_limit
        };

        let ghost pre = self@.st;
        let ghost base = self@.regs;
        let ghost restart0 = need_restart;
        let ghost stop0 = last_msg && !recv_len_active;
        let ghost cmds = spec_write_cmds(buf@, len as int, restart0, stop0);

        let mut i: usize = 0;
        while i < len
            invariant
                i <= len,
                len as int == spec_sendable(buf@.len() as int, tx_limit as int),
                len <= buf@.len(),
                self@.st == pre,
                need_restart == (restart0 && i == 0),
                stop0 == (last_msg && pre.tx_flag & I2C_MSG_RECV_LEN == 0),
                recv_len_active == (pre.tx_flag & I2C_MSG_RECV_LEN != 0),
                cmds == spec_write_cmds(buf@, len as int, restart0, stop0),
                self@.regs == base + cmds.subrange(0, i as int),
            decreases len - i,
        {
            let data_byte = buf[i];
            let mut cmd = I2cDataCmd::from_byte(data_byte);

            // The length-prefix protocol adjusts the true length when the
            // first byte is received, so the transaction cannot be stopped
            // on what merely looks like the last byte.
            if last_msg && i == len - 1 && !recv_len_active {
                cmd = cmd.or(I2cDataCmd::stop());
            }

            if need_restart {
                cmd = cmd.or(I2cDataCmd::restart());
                need_restart = false;
            }

            self.i2c.set_data_cmd(cmd);
            proof {
                assert(cmd@ == spec_cmd_word(
                    buf@[i as int],
                    restart0 && i == 0,
                    stop0 && i == len - 1,
                ));
                assert(cmds.subrange(0, i + 1) =~= cmds.subrange(0, i as int).push(
                    cmds[i as int],
                ));
                assert(self@.regs =~= base + cmds.subrange(0, i + 1));
            }
            i = i + 1;
        }

        proof {
            assert(cmds.subrange(0, len as int) =~= cmds);
        }

        if buf.len() > tx_limit || recv_len_active {
            self.status = self.status.or(Status::write_in_progress());
            self.tx_outstanding = self.tx_outstanding.saturating_add(1);
            self.tx_buf_len = buf.len() - len;
        } else {
            self.status = self.status.without(Status::write_in_progress());
        }

        let intr_mask = if self.msg_err != 0 {
            I2cInterruptMask::none()
        } else if last_msg {
            I2cInterruptMask::master().without(I2cInterruptMask::tx_empty())
        } else {
            I2cInterruptMask::master()
        };

        self.i2c.set_interrupt_mask(intr_mask);

        proof {
            assert(self@.regs =~= old(self)@.regs + spec_write_msg_events(
                pre,
                buf@,
                last_msg,
                tx_limit as int,
            ));
        }

        Ok(())
    }

    /// Initiates (and continues) a low-level master write: reads the
    /// current transmit FIFO occupancy, computes the headroom under the
    /// configured transmit depth, and enqueues as much of `buf` as fits,
    /// exactly as [`write_msg_limited`](Self::write_msg_limited) does for
    /// that headroom.
    pub fn write_msg(&mut self, buf: &[u8], last_msg: bool) -> (r: Result<(), Error>)
        ensures
            r == Ok::<(), Error>(()),
            spec_write_step(old(self)@, final(self)@, buf@, last_msg),
    {
        let occupancy = self.i2c.get_txflr();
        let tx_limit = self.tx_fifo_depth.saturating_sub(occupancy) as usize;

        let r = self.write_msg_limited(buf, last_msg, tx_limit);

        proof {
            assert(0 <= tx_limit as int <= old(self)@.st.tx_fifo_depth);
            assert(spec_write_msg_post(
                old(self)@.st,
                self@.st,
                buf@,
                last_msg,
                tx_limit as int,
            ));
        }

        r
    }

    /// Polls, every `sleep_us` microseconds within a budget of `timeout`
    /// microseconds, for the receive-FIFO-full interrupt, draining and
    /// acknowledging pending interrupts on each poll. Appends only
    /// acknowledge events to the register access log.
    fn poll_rx_full(&mut self, sleep_us: u32, timeout: u32) -> (r: Result<(), Error>)
        requires
            1 <= sleep_us,
            timeout <= u32::MAX - sleep_us,
        ensures
            final(self)@.st == old(self)@.st,
            exists|acks: Seq<RegEvent>|
                spec_acks_only(acks) && final(self)@.regs == old(self)@.regs + acks,
    {
        let mut time: u32 = 0;
        let ghost mut acc: Seq<RegEvent> = Seq::empty();
        proof {
            assert(self@.regs =~= old(self)@.regs + acc);
        }
        while time <= timeout
            invariant
                self@.st == old(self)@.st,
                1 <= sleep_us,
                timeout <= u32::MAX - sleep_us,
                time <= timeout + sleep_us,
                spec_acks_only(acc),
                self@.regs == old(self)@.regs + acc,
            decreases timeout + sleep_us - time,
        {
            let (stat, _src) = read_clear_interrupt(&mut self.i2c);
            proof {
                lemma_acks_only_concat(acc, spec_ack_events(stat@));
                acc = acc + spec_ack_events(stat@);
                assert(spec_acks_only(acc));
                assert(self@.regs =~= old(self)@.regs + acc);
            }
            if stat.is_set(I2cInterruptStatus::rx_full()) {
                return Ok(());
            }
            self.delay.delay_us(sleep_us);
            time = time.saturating_add(sleep_us);
        }
        Err(Error::Other)
    }

    /// Reads a message from the receive FIFO.
    ///
    /// Fails closed with [`Error::Overrun`], performing no register access
    /// at all, whenever the outstanding receive count already meets the
    /// receive FIFO depth. Otherwise exactly one FIFO read command is
    /// issued (with the restart flag if and only if restart capability is
    /// enabled), the engine polls for the receive-FIFO-full condition
    /// (acknowledging interrupts as a side effect; a timeout surfaces as
    /// [`Error::Other`] with the bookkeeping untouched), and up to
    /// `buf.len()` of the received bytes are drained into `buf`, each
    /// normalized per [`spec_normalize_block_len`] when the length-prefix
    /// protocol is active.
    ///
    /// Callers should check [`status`](Self::status) and
    /// [`rx_buf_len`](Self::rx_buf_len) afterward for bytes that remain in
    /// the FIFO, and are best served by buffers at least the receive FIFO
    /// depth long.
    pub fn read_msg(&mut self, buf: &mut Vec<u8>) -> (r: Result<(), Error>)
        ensures
            spec_read_step(old(self)@, final(self)@, old(buf)@, final(buf)@, r),
    {
        // Avoid a receive buffer overrun: fail closed, before any register
        // access.
        if self.rx_outstanding >= self.rx_fifo_depth {
            return Err(Error::Overrun);
        }

        let cmd = if self.master_cfg.is_set(I2cCon::restart_en()) {
            I2cDataCmd::read().or(I2cDataCmd::restart())
        } else {
            I2cDataCmd::read()
        };
        self.i2c.set_data_cmd(cmd);

        let ghost issued = seq![RegEvent::DataCmd(spec_read_cmd(old(self)@.st.master_cfg))];
        proof {
            assert(self@.regs =~= old(self)@.regs + issued);
        }

        // The hardware fills the receive FIFO on its own clock; wait until
        // it reports the FIFO full, acknowledging interrupts on the way.
        if self.poll_rx_full(10, 100).is_err() {
            proof {
                let acks = choose|acks: Seq<RegEvent>|
                    spec_acks_only(acks) && self@.regs == (old(self)@.regs + issued) + acks;
                assert(self@.regs =~= old(self)@.regs + issued + acks);
            }
            return Err(Error::Other);
        }

        let ghost acks = choose|acks: Seq<RegEvent>|
            spec_acks_only(acks) && self@.regs == (old(self)@.regs + issued) + acks;
        proof {
            assert(self@.regs =~= old(self)@.regs + issued + acks);
        }

        let rx_valid = self.i2c.get_rxflr() as usize;

        let len: usize = if buf.len() <= rx_valid {
            buf.len()
        } else {
            rx_valid
        };

        let recv_len_active = self.rx_flag.is_set(I2cMsgFlag::recv_len());
        let ghost mid = self@;

        let mut i: usize = 0;
        while i < len
            invariant
                i <= len,
                len <= old(buf)@.len(),
                buf@.len() == old(buf)@.len(),
                self@ == mid,
                recv_len_active == (mid.st.rx_flag & I2C_MSG_RECV_LEN != 0),
                forall|k: int| i <= k < old(buf)@.len() ==> buf@[k] == old(buf)@[k],
                recv_len_active ==> forall|k: int|
                    0 <= k < i ==> 1 <= #[trigger] buf@[k] <= I2C_SMBUS_BLOCK_MAX,
            decreases len - i,
        {
            let word = self.i2c.get_data_cmd();
            let mut tmp = word.data();
            if recv_len_active {
                // Under the length-prefix protocol the first received byte
                // carries the message length; an invalid value is replaced
                // by 1 so that the byte is re-read with the stop condition
                // once the true length is known.
                tmp = normalize_block_len(tmp);
            }
            buf[i] = tmp;
            i = i + 1;
        }

        if rx_valid > len {
            // Bytes remain in the receive FIFO: record them for the caller.
            self.status = self.status.or(Status::read_in_progress());
            self.rx_buf_len = rx_valid - len;
        } else {
            self.status = self.status.without(Status::read_in_progress());
            self.rx_buf_len = 0;
        }

        proof {
            assert(spec_read_msg_post(
                old(self)@.st,
                self@.st,
                old(buf)@,
                buf@,
                len as int,
                rx_valid - len as int,
            ));
        }

        Ok(())
    }

    /// Walks an operation list, already prepared for the target-address
    /// word `tar`: transfer setup first, then each read operation drains
    /// through the read path and each write operation feeds the write path,
    /// with "last message" true exactly on the final write operation of the
    /// list, regardless of reads interleaved after it. The first error from
    /// either path aborts the walk.
    fn run_operations(&mut self, tar: I2cTar, operations: &mut Vec<I2cOperation>) -> (r:
        Result<(), Error>)
        ensures
            spec_ops_shape(old(operations)@, final(operations)@),
            exists|d: Seq<RegEvent>, rest: Seq<RegEvent>|
                spec_disable_run(d) && spec_msg_events_only(rest) && final(self)@.regs == old(
                    self,
                )@.regs + d + spec_xfer_init_events(tar@) + rest,
            exists|d: Seq<RegEvent>|
                spec_disable_run(d) && spec_ops_chain(
                    (I2cView {
                        regs: old(self)@.regs + d + spec_xfer_init_events(tar@),
                        st: old(self)@.st,
                    }),
                    final(self)@,
                    old(operations)@,
                    final(operations)@,
                    spec_writes_in(old(operations)@),
                    r,
                ),
            r != Ok::<(), Error>(()) ==> r == Err::<(), Error>(Error::Overrun) || r == Err::<
                (),
                Error,
            >(Error::Other),
    {
        // The disable-stage result of setup is not escalated here: the walk
        // proceeds as long as the per-message paths succeed.
        let _setup = self.xfer_init(tar);
        let ghost d0 = choose|d: Seq<RegEvent>|
            spec_disable_run(d) && self@.regs == old(self)@.regs + d + spec_xfer_init_events(
                tar@,
            );
        let ghost after_setup = self@.regs;
        let ghost v0 = self@;
        let ghost mut tail: Seq<RegEvent> = Seq::empty();
        proof {
            assert(self@.regs =~= after_setup + tail);
            assert(spec_msg_events_only(tail));
        }

        let ghost pre_ops = operations@;

        // Count the write operations up front, so that the last one can
        // carry the stop condition.
        let mut writes: usize = 0;
        let mut i: usize = operations.len();
        proof {
            assert(pre_ops.skip(i as int) =~= Seq::empty());
        }
        while i > 0
            invariant
                i <= pre_ops.len(),
                pre_ops.len() <= usize::MAX,
                pre_ops == operations@,
                writes as int == spec_writes_in(pre_ops.skip(i as int)),
                writes <= pre_ops.len() - i,
            decreases i,
        {
            i = i - 1;
            let is_write = match &operations[i] {
                I2cOperation::Write(_) => true,
                I2cOperation::Read(_) => false,
            };
            proof {
                assert(pre_ops.skip(i as int)[0] == pre_ops[i as int]);
                assert(pre_ops.skip(i as int).skip(1) =~= pre_ops.skip(i as int + 1));
            }
            if is_write {
                writes = writes + 1;
            }
        }
        let ghost total_writes = spec_writes_in(pre_ops);
        proof {
            assert(pre_ops.skip(0) =~= pre_ops);
        }

        let mut k: usize = 0;
        while k < operations.len()
            invariant
                k <= pre_ops.len(),
                pre_ops == old(operations)@,
                operations@.len() == pre_ops.len(),
                forall|j: int| 0 <= j < k ==> spec_op_match(#[trigger] pre_ops[j], operations@[j]),
                forall|j: int| k <= j < pre_ops.len() ==> operations@[j] == pre_ops[j],
                spec_disable_run(d0),
                after_setup == old(self)@.regs + d0 + spec_xfer_init_events(tar@),
                v0 == (I2cView { regs: after_setup, st: old(self)@.st }),
                self@.regs == after_setup + tail,
                spec_msg_events_only(tail),
                total_writes == spec_writes_in(pre_ops),
                writes as int == spec_writes_in(pre_ops.skip(k as int)),
                spec_ops_chain(
                    v0,
                    self@,
                    pre_ops.take(k as int),
                    operations@.take(k as int),
                    total_writes,
                    Ok::<(), Error>(()),
                ),
            decreases pre_ops.len() - k,
        {
            let is_write = match &operations[k] {
                I2cOperation::Write(_) => true,
                I2cOperation::Read(_) => false,
            };

            if is_write {
                proof {
                    assert(pre_ops.skip(k as int)[0] == pre_ops[k as int]);
                    assert(pre_ops.skip(k as int).skip(1) =~= pre_ops.skip(k as int + 1));
                    lemma_writes_in_nonneg(pre_ops.skip(k as int + 1));
                    lemma_writes_in_split(pre_ops, k as int);
                }
                writes = if writes > 0 {
                    writes - 1
                } else {
                    0
                };
                let last_msg = writes == 0;
                let ghost prev = self@;
                let ghost wseq: Seq<u8> = match pre_ops[k as int] {
                    I2cOperation::Write(b) => b@,
                    I2cOperation::Read(b) => b@,
                };
                // Both arms feed the write path: this branch is only reached
                // for a write operation, and the buffer type is the same
                // either way.
                let step = match &operations[k] {
                    I2cOperation::Write(buf) => self.write_msg(buf.as_slice(), last_msg),
                    I2cOperation::Read(buf) => self.write_msg(buf.as_slice(), last_msg),
                };
                proof {
                    let stepped = choose|tx_limit: int|
                        {
                            &&& 0 <= tx_limit <= prev.st.tx_fifo_depth
                            &&& self@.regs == prev.regs + #[trigger] spec_write_msg_events(
                                prev.st,
                                wseq,
                                last_msg,
                                tx_limit,
                            )
                            &&& spec_write_msg_post(prev.st, self@.st, wseq, last_msg, tx_limit)
                        };
                    lemma_write_events_are_msg_events(prev.st, wseq, last_msg, stepped);
                    lemma_msg_events_concat(
                        tail,
                        spec_write_msg_events(prev.st, wseq, last_msg, stepped),
                    );
                    tail = tail + spec_write_msg_events(prev.st, wseq, last_msg, stepped);
                    assert(self@.regs =~= after_setup + tail);

                    // Extend the walk relation by this write step.
                    assert(last_msg == (total_writes - spec_writes_in(
                        pre_ops.take(k as int),
                    ) == 1));
                    assert(spec_write_step(prev, self@, wseq, last_msg));
                    lemma_chain_snoc_write(
                        v0,
                        prev,
                        self@,
                        pre_ops.take(k as int),
                        operations@.take(k as int),
                        pre_ops[k as int],
                        wseq,
                        total_writes,
                    );
                    assert(pre_ops.take(k as int + 1) =~= pre_ops.take(k as int).push(
                        pre_ops[k as int],
                    ));
                    assert(operations@.take(k as int + 1) =~= operations@.take(k as int).push(
                        pre_ops[k as int],
                    ));
                }
                if let Err(e) = step {
                    proof {
                        assert forall|j2: int| 0 <= j2 < pre_ops.len() implies spec_op_match(
                            pre_ops[j2],
                            operations@[j2],
                        ) by {
                            if j2 >= k {
                                assert(operations@[j2] == pre_ops[j2]);
                            }
                        }
                        assert(self@.regs =~= old(self)@.regs + d0 + spec_xfer_init_events(
                            tar@,
                        ) + tail);
                    }
                    return Err(e);
                }
            } else {
                // Drain into a scratch buffer holding the segment's current
                // bytes, so that an undrained tail keeps its contents, then
                // put the filled segment back.
                let mut local: Vec<u8> = Vec::new();
                let n = match &operations[k] {
                    I2cOperation::Read(buf) => buf.len(),
                    I2cOperation::Write(_) => 0,
                };
                let mut j: usize = 0;
                while j < n
                    invariant
                        j <= n,
                        k < operations@.len(),
                        local@.len() == j,
                        (match operations@[k as int] {
                            I2cOperation::Read(b) => n == b@.len() && local@ == b@.subrange(
                                0,
                                j as int,
                            ),
                            I2cOperation::Write(_) => n == 0,
                        }),
                    decreases n - j,
                {
                    let b = match &operations[k] {
                        I2cOperation::Read(buf) => buf[j],
                        I2cOperation::Write(_) => 0,
                    };
                    local.push(b);
                    j = j + 1;
                }

                proof {
                    assert(pre_ops.skip(k as int)[0] == pre_ops[k as int]);
                    assert(pre_ops.skip(k as int).skip(1) =~= pre_ops.skip(k as int + 1));
                }
                let ghost prev = self@;
                let ghost local_pre = local@;
                let ghost bpre: Seq<u8> = match pre_ops[k as int] {
                    I2cOperation::Read(x) => x@,
                    I2cOperation::Write(x) => x@,
                };
                proof {
                    assert(bpre.subrange(0, n as int) =~= bpre);
                    assert(local_pre == bpre);
                }
                let step = self.read_msg(&mut local);
                proof {
                    if prev.st.rx_outstanding >= prev.st.rx_fifo_depth {
                        assert(self@.regs =~= after_setup + tail);
                    } else {
                        let acks = choose|acks: Seq<RegEvent>|
                            {
                                &&& spec_acks_only(acks)
                                &&& self@.regs == prev.regs + seq![
                                    RegEvent::DataCmd(spec_read_cmd(prev.st.master_cfg)),
                                ] + acks
                                &&& match step {
                                    Result::Err(e) => {
                                        &&& e == Error::Other
                                        &&& self@.st == prev.st
                                        &&& local@ == local_pre
                                    },
                                    Result::Ok(u) => exists|drained: int, leftover: int|
                                        spec_read_msg_post(
                                            prev.st,
                                            self@.st,
                                            local_pre,
                                            local@,
                                            drained,
                                            leftover,
                                        ),
                                }
                            };
                        let issued = seq![RegEvent::DataCmd(spec_read_cmd(prev.st.master_cfg))];
                        assert(spec_msg_events_only(issued)) by {
                            assert(issued[0] is DataCmd);
                        }
                        lemma_msg_events_concat(tail, issued);
                        lemma_acks_are_msg_events(acks);
                        lemma_msg_events_concat(tail + issued, acks);
                        tail = tail + issued + acks;
                        assert(self@.regs =~= after_setup + tail);
                    }
                }
                let ghost local_post = local@;
                let ghost ops_before = operations@;
                operations[k] = I2cOperation::Read(local);
                proof {
                    assert(operations@.take(k as int) =~= ops_before.take(k as int));
                }
                if let Err(e) = step {
                    proof {
                        assert(spec_op_match(pre_ops[k as int], operations@[k as int]));
                        assert forall|j2: int| 0 <= j2 < pre_ops.len() implies spec_op_match(
                            pre_ops[j2],
                            operations@[j2],
                        ) by {
                            if j2 > k {
                                assert(operations@[j2] == pre_ops[j2]);
                            }
                        }
                        assert(self@.regs =~= old(self)@.regs + d0 + spec_xfer_init_events(
                            tar@,
                        ) + tail);

                        // The failing read ends the walk: assemble the full
                        // relation from the finished prefix, this step, and
                        // the untouched remainder.
                        assert(operations@.skip(k as int)[0] == operations@[k as int]);
                        assert(pre_ops.skip(k as int)[0] == pre_ops[k as int]);
                        assert(operations@.skip(k as int).skip(1) =~= pre_ops.skip(
                            k as int,
                        ).skip(1));
                        lemma_chain_err_tail(
                            v0,
                            prev,
                            self@,
                            pre_ops.take(k as int),
                            operations@.take(k as int),
                            pre_ops.skip(k as int),
                            operations@.skip(k as int),
                            bpre,
                            local_post,
                            total_writes,
                            e,
                        );
                        assert(pre_ops.take(k as int) + pre_ops.skip(k as int) =~= pre_ops);
                        assert(operations@.take(k as int) + operations@.skip(k as int)
                            =~= operations@);
                        assert(v0 == (I2cView {
                            regs: old(self)@.regs + d0 + spec_xfer_init_events(tar@),
                            st: old(self)@.st,
                        }));
                    }
                    return Err(e);
                }
                proof {
                    // Extend the walk relation by this successful read step.
                    assert(spec_read_step(prev, self@, bpre, local_post, Ok::<(), Error>(())));
                    lemma_chain_snoc_read(
                        v0,
                        prev,
                        self@,
                        pre_ops.take(k as int),
                        operations@.take(k as int),
                        pre_ops[k as int],
                        operations@[k as int],
                        bpre,
                        local_post,
                        total_writes,
                    );
                    assert(pre_ops.take(k as int + 1) =~= pre_ops.take(k as int).push(
                        pre_ops[k as int],
                    ));
                    assert(operations@.take(k as int + 1) =~= operations@.take(k as int).push(
                        operations@[k as int],
                    ));
                }
            }
            k = k + 1;
        }

        proof {
            assert(self@.regs =~= old(self)@.regs + d0 + spec_xfer_init_events(tar@) + tail);
            assert(pre_ops.take(pre_ops.len() as int) =~= pre_ops);
            assert(operations@.take(pre_ops.len() as int) =~= operations@);
            assert(v0 == (I2cView {
                regs: old(self)@.regs + d0 + spec_xfer_init_events(tar@),
                st: old(self)@.st,
            }));
            assert(spec_ops_chain(
                (I2cView {
                    regs: old(self)@.regs + d0 + spec_xfer_init_events(tar@),
                    st: old(self)@.st,
                }),
                self@,
                old(operations)@,
                operations@,
                spec_writes_in(old(operations)@),
                Ok::<(), Error>(()),
            ));
        }

        Ok(())
    }

    /// Performs one master transaction with a 7-bit target address: builds
    /// the target-address register value, runs transfer setup, and walks
    /// the operation list in order, reporting the first error a read or
    /// write path raised.
    pub fn transaction(&mut self, address: u8, operations: &mut Vec<I2cOperation>) -> (r:
        Result<(), Error>)
        ensures
            spec_ops_shape(old(operations)@, final(operations)@),
            exists|d: Seq<RegEvent>, rest: Seq<RegEvent>|
                spec_disable_run(d) && spec_msg_events_only(rest) && final(self)@.regs == old(
                    self,
                )@.regs + d + spec_xfer_init_events(spec_tar_7bit(address)) + rest,
            exists|d: Seq<RegEvent>|
                spec_disable_run(d) && spec_ops_chain(
                    (I2cView {
                        regs: old(self)@.regs + d + spec_xfer_init_events(spec_tar_7bit(address)),
                        st: old(self)@.st,
                    }),
                    final(self)@,
                    old(operations)@,
                    final(operations)@,
                    spec_writes_in(old(operations)@),
                    r,
                ),
            r != Ok::<(), Error>(()) ==> r == Err::<(), Error>(Error::Overrun) || r == Err::<
                (),
                Error,
            >(Error::Other),
    {
        let tar = I2cTar::from_bits(address as u32);
        let r = self.run_operations(tar, operations);
        proof {
            let (d, rest) = choose|d: Seq<RegEvent>, rest: Seq<RegEvent>|
                spec_disable_run(d) && spec_msg_events_only(rest) && self@.regs == old(
                    self,
                )@.regs + d + spec_xfer_init_events(tar@) + rest;
            assert(spec_msg_events_only(rest) && self@.regs == old(self)@.regs + d
                + spec_xfer_init_events(spec_tar_7bit(address)) + rest);
            let d2 = choose|d2: Seq<RegEvent>|
                spec_disable_run(d2) && spec_ops_chain(
                    (I2cView {
                        regs: old(self)@.regs + d2 + spec_xfer_init_events(tar@),
                        st: old(self)@.st,
                    }),
                    self@,
                    old(operations)@,
                    operations@,
                    spec_writes_in(old(operations)@),
                    r,
                );
            assert(spec_ops_chain(
                (I2cView {
                    regs: old(self)@.regs + d2 + spec_xfer_init_events(spec_tar_7bit(address)),
                    st: old(self)@.st,
                }),
                self@,
                old(operations)@,
                operations@,
                spec_writes_in(old(operations)@),
                r,
            ));
        }
        r
    }

    /// Performs one master transaction with a 10-bit target address: as
    /// [`transaction`](Self::transaction), with the 10-bit-mode flag set in
    /// the target-address register value.
    pub fn transaction_10bit(&mut self, address: u16, operations: &mut Vec<I2cOperation>) -> (r:
        Result<(), Error>)
        ensures
            spec_ops_shape(old(operations)@, final(operations)@),
            exists|d: Seq<RegEvent>, rest: Seq<RegEvent>|
                spec_disable_run(d) && spec_msg_events_only(rest) && final(self)@.regs == old(
                    self,
                )@.regs + d + spec_xfer_init_events(spec_tar_10bit(address)) + rest,
            exists|d: Seq<RegEvent>|
                spec_disable_run(d) && spec_ops_chain(
                    (I2cView {
                        regs: old(self)@.regs + d + spec_xfer_init_events(spec_tar_10bit(address)),
                        st: old(self)@.st,
                    }),
                    final(self)@,
                    old(operations)@,
                    final(operations)@,
                    spec_writes_in(old(operations)@),
                    r,
                ),
            r != Ok::<(), Error>(()) ==> r == Err::<(), Error>(Error::Overrun) || r == Err::<
                (),
                Error,
            >(Error::Other),
    {
        let tar = I2cTar::from_bits(address as u32).or(I2cTar::mode_10bit());
        let r = self.run_operations(tar, operations);
        proof {
            let (d, rest) = choose|d: Seq<RegEvent>, rest: Seq<RegEvent>|
                spec_disable_run(d) && spec_msg_events_only(rest) && self@.regs == old(
                    self,
                )@.regs + d + spec_xfer_init_events(tar@) + rest;
            assert(spec_msg_events_only(rest) && self@.regs == old(self)@.regs + d
                + spec_xfer_init_events(spec_tar_10bit(address)) + rest);
            let d2 = choose|d2: Seq<RegEvent>|
                spec_disable_run(d2) && spec_ops_chain(
                    (I2cView {
                        regs: old(self)@.regs + d2 + spec_xfer_init_events(tar@),
                        st: old(self)@.st,
                    }),
                    self@,
                    old(operations)@,
                    operations@,
                    spec_writes_in(old(operations)@),
                    r,
                );
            assert(spec_ops_chain(
                (I2cView {
                    regs: old(self)@.regs + d2 + spec_xfer_init_events(spec_tar_10bit(address)),
                    st: old(self)@.st,
                }),
                self@,
                old(operations)@,
                operations@,
                spec_writes_in(old(operations)@),
                r,
            ));
        }
        r
    }

    /// Configures the transmit/receive FIFO thresholds and writes the master
    /// control value to the control register: exactly the three register
    /// writes of [`spec_fifo_cfg_events`], in that order.
    pub fn configure_fifo_master(&mut self)
        ensures
            final(self)@.regs == old(self)@.regs + spec_fifo_cfg_events(old(self)@.st),
            final(self)@.st == old(self)@.st,
    {
        let depth = self.tx_fifo_depth / 2;

        // Configure the transmit/receive FIFO threshold levels.
        self.i2c.set_tx_tl(depth);
        self.i2c.set_rx_tl(0);

        // Configure the controller for master operation.
        self.i2c.set_con(self.master_cfg);

        proof {
            assert(self@.regs =~= old(self)@.regs + spec_fifo_cfg_events(old(self)@.st));
        }
    }
}

} // verus!
