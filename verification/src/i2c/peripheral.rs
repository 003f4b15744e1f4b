//! Register access capability of the two-wire bus controller.
//!
//! The transaction engine owns one controller instance and reaches its
//! hardware registers only through the [`I2cPeripheral`] trait: one get/set
//! pair per physical register, implemented once per physical controller.
//!
//! The trait carries a specification-level model: a log of the register
//! accesses that change hardware state ([`RegEvent`]). Every setter appends
//! exactly one event, and the side-effecting status-clear reads append their
//! own events; plain reads leave the log alone and promise nothing of their
//! result, because the hardware is free to return anything. The engine's
//! contracts are stated over this log: they say exactly which events each
//! call appends.

use vstd::prelude::*;
use crate::i2c::registers::{
    I2cCon, I2cTar, I2cSar, I2cRawInterruptStatus, I2cInterruptStatus, I2cInterruptMask,
    I2cClearInterrupt, I2cEnable, I2cEnableStatus, I2cDataCmd, I2cTxAbortSource,
    I2C_INTR_RX_UNDER, I2C_INTR_RX_OVER, I2C_INTR_TX_OVER, I2C_INTR_RD_REQ, I2C_INTR_TX_ABRT,
    I2C_INTR_RX_DONE, I2C_INTR_ACTIVITY, I2C_INTR_STOP_DET, I2C_INTR_START_DET,
    I2C_INTR_GEN_CALL,
};

verus! {

/// One state-changing access to a controller register: a register write, or
/// one of the side-effecting interrupt-acknowledge reads.
///
/// Register writes carry the raw word written.
#[derive(Clone, Copy, Debug, PartialEq, Eq, Structural)]
pub enum RegEvent {
    /// Write to the control register.
    Con(u32),
    /// Write to the target-address register.
    Tar(u32),
    /// Write to the slave-address register.
    Sar(u32),
    /// Write to the transmit FIFO threshold register.
    TxTl(u32),
    /// Write to the receive FIFO threshold register.
    RxTl(u32),
    /// Write to the standard-speed clock high-count register.
    SsSclHcnt(u32),
    /// Write to the standard-speed clock low-count register.
    SsSclLcnt(u32),
    /// Write to the fast-speed clock high-count register.
    FsSclHcnt(u32),
    /// Write to the fast-speed clock low-count register.
    FsSclLcnt(u32),
    /// Write to the high-speed clock high-count register.
    HsSclHcnt(u32),
    /// Write to the high-speed clock low-count register.
    HsSclLcnt(u32),
    /// Write to the SDA hold-time register.
    SdaHold(u32),
    /// Write to the interrupt mask register.
    IntrMask(u32),
    /// Write to the aggregate interrupt-clear register.
    ClearIntrWrite(u32),
    /// Write to the enable register.
    Enable(u32),
    /// Write to the enable-status register.
    EnableStatus(u32),
    /// Write to the transmit FIFO level register.
    Txflr(u32),
    /// Write to the receive FIFO level register.
    Rxflr(u32),
    /// Write to the FIFO data-command register.
    DataCmd(u32),
    /// Read of the aggregate interrupt-clear register, which acknowledges
    /// every pending interrupt at once.
    ClearIntrRead,
    /// Acknowledge of the receive-underflow interrupt through its dedicated
    /// clear register.
    ClearRxUnder,
    /// Acknowledge of the receive-overflow interrupt through its dedicated
    /// clear register.
    ClearRxOver,
    /// Acknowledge of the transmit-overflow interrupt through its dedicated
    /// clear register.
    ClearTxOver,
    /// Acknowledge of the read-request interrupt through its dedicated clear
    /// register.
    ClearRdReq,
    /// Acknowledge of the transmit-abort interrupt through its dedicated
    /// clear register; this zeroes the abort-source register.
    ClearTxAbort,
    /// Acknowledge of the receive-done interrupt through its dedicated clear
    /// register.
    ClearRxDone,
    /// Acknowledge of the activity interrupt through its dedicated clear
    /// register.
    ClearActivity,
    /// Acknowledge of the stop-detected interrupt through its dedicated
    /// clear register.
    ClearStopDet,
    /// Acknowledge of the start-detected interrupt through its dedicated
    /// clear register.
    ClearStartDet,
    /// Acknowledge of the general-call interrupt through its dedicated clear
    /// register.
    ClearGenCall,
    /// Capture of the abort-source register, which must happen before the
    /// transmit-abort interrupt is acknowledged.
    AbortSourceRead,
}

/// The register access log of a controller capability: the sequence of
/// state-changing accesses made so far, oldest first.
pub type RegLog = Seq<RegEvent>;

/// A single optional event: the one-event sequence when `cond` holds, and
/// the empty sequence otherwise.
pub open spec fn event_if(cond: bool, ev: RegEvent) -> Seq<RegEvent> {
    if cond {
        seq![ev]
    } else {
        Seq::empty()
    }
}

/// Whether a register access is an interrupt acknowledge (or the abort
/// source capture that belongs to one): the only accesses an interrupt
/// drain makes.
pub open spec fn spec_is_ack_event(e: RegEvent) -> bool {
    match e {
        RegEvent::ClearRxUnder => true,
        RegEvent::ClearRxOver => true,
        RegEvent::ClearTxOver => true,
        RegEvent::ClearRdReq => true,
        RegEvent::ClearTxAbort => true,
        RegEvent::ClearRxDone => true,
        RegEvent::ClearActivity => true,
        RegEvent::ClearStopDet => true,
        RegEvent::ClearStartDet => true,
        RegEvent::ClearGenCall => true,
        RegEvent::AbortSourceRead => true,
        _ => false,
    }
}

/// Holds when every access in `s` is an interrupt acknowledge: no register
/// of the controller is written.
pub open spec fn spec_acks_only(s: Seq<RegEvent>) -> bool {
    forall|i: int| 0 <= i < s.len() ==> spec_is_ack_event(#[trigger] s[i])
}

/// Acknowledge-only sequences are closed under concatenation.
pub proof fn lemma_acks_only_concat(a: Seq<RegEvent>, b: Seq<RegEvent>)
    requires
        spec_acks_only(a),
        spec_acks_only(b),
    ensures
        spec_acks_only(a + b),
{
    assert forall|i: int| 0 <= i < (a + b).len() implies spec_is_ack_event((a + b)[i]) by {
        if i < a.len() {
            assert((a + b)[i] == a[i]);
        } else {
            assert((a + b)[i] == b[i - a.len()]);
        }
    }
}

/// An optional single acknowledge event is an acknowledge-only sequence.
pub proof fn lemma_acks_only_event_if(cond: bool, e: RegEvent)
    requires
        spec_is_ack_event(e),
    ensures
        spec_acks_only(event_if(cond, e)),
{
}

/// The acknowledge events for the receive/transmit error bits and the
/// abort bit of a masked interrupt status `stat`, in acknowledge order. The
/// abort source is captured immediately before the abort acknowledge.
pub open spec fn spec_ack_events_head(stat: u32) -> Seq<RegEvent> {
    event_if(stat & I2C_INTR_RX_UNDER != 0, RegEvent::ClearRxUnder)
        + event_if(stat & I2C_INTR_RX_OVER != 0, RegEvent::ClearRxOver)
        + event_if(stat & I2C_INTR_TX_OVER != 0, RegEvent::ClearTxOver)
        + event_if(stat & I2C_INTR_RD_REQ != 0, RegEvent::ClearRdReq)
        + event_if(stat & I2C_INTR_TX_ABRT != 0, RegEvent::AbortSourceRead)
        + event_if(stat & I2C_INTR_TX_ABRT != 0, RegEvent::ClearTxAbort)
}

/// The acknowledge events for the completion and bus-condition bits of a
/// masked interrupt status `stat`, in acknowledge order.
pub open spec fn spec_ack_events_tail(stat: u32) -> Seq<RegEvent> {
    event_if(stat & I2C_INTR_RX_DONE != 0, RegEvent::ClearRxDone)
        + event_if(stat & I2C_INTR_ACTIVITY != 0, RegEvent::ClearActivity)
        + event_if(stat & I2C_INTR_STOP_DET != 0, RegEvent::ClearStopDet)
        + event_if(stat & I2C_INTR_START_DET != 0, RegEvent::ClearStartDet)
        + event_if(stat & I2C_INTR_GEN_CALL != 0, RegEvent::ClearGenCall)
}

/// The exact sequence of acknowledge events that draining a masked interrupt
/// status of `stat` produces: each asserted bit is acknowledged through its
/// dedicated clear register, and the abort source is captured immediately
/// before the abort acknowledge.
pub open spec fn spec_ack_events(stat: u32) -> Seq<RegEvent> {
    spec_ack_events_head(stat) + spec_ack_events_tail(stat)
}

/// Generic register access for the two-wire bus controller.
///
/// One implementation exists per physical controller instance; the engine
/// takes exclusive ownership of one of them. Setters are fire-and-forget:
/// they promise only the event they append to the access log. Getters
/// re-read hardware and promise nothing of the value they return.
pub trait I2cPeripheral: Sized {
    /// The log of state-changing register accesses made so far.
    spec fn log(&self) -> RegLog;

    /// Reads the control register.
    fn get_con(&self) -> I2cCon;

    /// Writes the control register.
    fn set_con(&mut self, val: I2cCon)
        ensures
            final(self).log() == old(self).log().push(RegEvent::Con(val@)),
    ;

    /// Reads the target-address register.
    fn get_tar(&self) -> I2cTar;

    /// Writes the target-address register.
    fn set_tar(&mut self, val: I2cTar)
        ensures
            final(self).log() == old(self).log().push(RegEvent::Tar(val@)),
    ;

    /// Reads the slave-address register.
    fn get_sar(&self) -> I2cSar;

    /// Writes the slave-address register.
    fn set_sar(&mut self, val: I2cSar)
        ensures
            final(self).log() == old(self).log().push(RegEvent::Sar(val@)),
    ;

    /// Reads the transmit FIFO threshold register.
    fn get_tx_tl(&self) -> u32;

    /// Writes the transmit FIFO threshold register.
    fn set_tx_tl(&mut self, val: u32)
        ensures
            final(self).log() == old(self).log().push(RegEvent::TxTl(val)),
    ;

    /// Reads the receive FIFO threshold register.
    fn get_rx_tl(&self) -> u32;

    /// Writes the receive FIFO threshold register.
    fn set_rx_tl(&mut self, val: u32)
        ensures
            final(self).log() == old(self).log().push(RegEvent::RxTl(val)),
    ;

    /// Reads the standard-speed clock high-count register.
    fn get_ss_scl_hcnt(&self) -> u32;

    /// Writes the standard-speed clock high-count register.
    fn set_ss_scl_hcnt(&mut self, val: u32)
        ensures
            final(self).log() == old(self).log().push(RegEvent::SsSclHcnt(val)),
    ;

    /// Reads the standard-speed clock low-count register.
    fn get_ss_scl_lcnt(&self) -> u32;

    /// Writes the standard-speed clock low-count register.
    fn set_ss_scl_lcnt(&mut self, val: u32)
        ensures
            final(self).log() == old(self).log().push(RegEvent::SsSclLcnt(val)),
    ;

    /// Reads the fast-speed clock high-count register.
    fn get_fs_scl_hcnt(&self) -> u32;

    /// Writes the fast-speed clock high-count register.
    fn set_fs_scl_hcnt(&mut self, val: u32)
        ensures
            final(self).log() == old(self).log().push(RegEvent::FsSclHcnt(val)),
    ;

    /// Reads the fast-speed clock low-count register.
    fn get_fs_scl_lcnt(&self) -> u32;

    /// Writes the fast-speed clock low-count register.
    fn set_fs_scl_lcnt(&mut self, val: u32)
        ensures
            final(self).log() == old(self).log().push(RegEvent::FsSclLcnt(val)),
    ;

    /// Reads the high-speed clock high-count register.
    fn get_hs_scl_hcnt(&self) -> u32;

    /// Writes the high-speed clock high-count register.
    fn set_hs_scl_hcnt(&mut self, val: u32)
        ensures
            final(self).log() == old(self).log().push(RegEvent::HsSclHcnt(val)),
    ;

    /// Reads the high-speed clock low-count register.
    fn get_hs_scl_lcnt(&self) -> u32;

    /// Writes the high-speed clock low-count register.
    fn set_hs_scl_lcnt(&mut self, val: u32)
        ensures
            final(self).log() == old(self).log().push(RegEvent::HsSclLcnt(val)),
    ;

    /// Reads the SDA hold-time register.
    fn get_sda_hold(&self) -> u32;

    /// Writes the SDA hold-time register.
    fn set_sda_hold(&mut self, val: u32)
        ensures
            final(self).log() == old(self).log().push(RegEvent::SdaHold(val)),
    ;

    /// Reads the raw (unmasked) interrupt status register.
    fn get_raw_interrupt_stat(&self) -> I2cRawInterruptStatus;

    /// Reads the masked interrupt status register.
    fn get_interrupt_stat(&self) -> I2cInterruptStatus;

    /// Reads the interrupt mask register.
    fn get_interrupt_mask(&self) -> I2cInterruptMask;

    /// Writes the interrupt mask register.
    fn set_interrupt_mask(&mut self, val: I2cInterruptMask)
        ensures
            final(self).log() == old(self).log().push(RegEvent::IntrMask(val@)),
    ;

    /// Reads the aggregate interrupt-clear register, acknowledging every
    /// pending interrupt at once.
    ///
    /// Interrupts that arrive between a status read and this read are
    /// acknowledged unseen, so the drain-and-acknowledge helper
    /// [`I2cPeripheral::read_clear_interrupt`] uses the dedicated per-bit
    /// clear registers instead.
    fn get_clear_interrupt(&mut self) -> (r: I2cClearInterrupt)
        ensures
            final(self).log() == old(self).log().push(RegEvent::ClearIntrRead),
    ;

    /// Writes the aggregate interrupt-clear register.
    fn set_clear_interrupt(&mut self, val: I2cClearInterrupt)
        ensures
            final(self).log() == old(self).log().push(RegEvent::ClearIntrWrite(val@)),
    ;

    /// Acknowledges the receive-underflow interrupt through its dedicated
    /// clear register.
    fn get_clear_rx_under(&mut self) -> (r: u32)
        ensures
            final(self).log() == old(self).log().push(RegEvent::ClearRxUnder),
    ;

    /// Acknowledges the receive-overflow interrupt through its dedicated
    /// clear register.
    fn get_clear_rx_over(&mut self) -> (r: u32)
        ensures
            final(self).log() == old(self).log().push(RegEvent::ClearRxOver),
    ;

    /// Acknowledges the transmit-overflow interrupt through its dedicated
    /// clear register.
    fn get_clear_tx_over(&mut self) -> (r: u32)
        ensures
            final(self).log() == old(self).log().push(RegEvent::ClearTxOver),
    ;

    /// Acknowledges the read-request interrupt through its dedicated clear
    /// register.
    fn get_clear_rd_req(&mut self) -> (r: u32)
        ensures
            final(self).log() == old(self).log().push(RegEvent::ClearRdReq),
    ;

    /// Acknowledges the transmit-abort interrupt through its dedicated clear
    /// register, zeroing the abort-source register as a side effect.
    fn get_clear_tx_abort(&mut self) -> (r: u32)
        ensures
            final(self).log() == old(self).log().push(RegEvent::ClearTxAbort),
    ;

    /// Acknowledges the receive-done interrupt through its dedicated clear
    /// register.
    fn get_clear_rx_done(&mut self) -> (r: u32)
        ensures
            final(self).log() == old(self).log().push(RegEvent::ClearRxDone),
    ;

    /// Acknowledges the activity interrupt through its dedicated clear
    /// register.
    fn get_clear_activity(&mut self) -> (r: u32)
        ensures
            final(self).log() == old(self).log().push(RegEvent::ClearActivity),
    ;

    /// Acknowledges the stop-detected interrupt through its dedicated clear
    /// register.
    fn get_clear_stop_det(&mut self) -> (r: u32)
        ensures
            final(self).log() == old(self).log().push(RegEvent::ClearStopDet),
    ;

    /// Acknowledges the start-detected interrupt through its dedicated clear
    /// register.
    fn get_clear_start_det(&mut self) -> (r: u32)
        ensures
            final(self).log() == old(self).log().push(RegEvent::ClearStartDet),
    ;

    /// Acknowledges the general-call interrupt through its dedicated clear
    /// register.
    fn get_clear_gen_call(&mut self) -> (r: u32)
        ensures
            final(self).log() == old(self).log().push(RegEvent::ClearGenCall),
    ;

    /// Reads the enable register.
    fn get_enable(&self) -> I2cEnable;

    /// Writes the enable register.
    fn set_enable(&mut self, val: I2cEnable)
        ensures
            final(self).log() == old(self).log().push(RegEvent::Enable(val@)),
    ;

    /// Reads the enable-status register.
    fn get_enable_status(&self) -> I2cEnableStatus;

    /// Writes the enable-status register.
    fn set_enable_status(&mut self, val: I2cEnableStatus)
        ensures
            final(self).log() == old(self).log().push(RegEvent::EnableStatus(val@)),
    ;

    /// Reads the transmit FIFO level register: the current occupancy of the
    /// transmit FIFO.
    fn get_txflr(&self) -> u32;

    /// Writes the transmit FIFO level register.
    fn set_txflr(&mut self, val: u32)
        ensures
            final(self).log() == old(self).log().push(RegEvent::Txflr(val)),
    ;

    /// Reads the receive FIFO level register: the current occupancy of the
    /// receive FIFO.
    fn get_rxflr(&self) -> u32;

    /// Writes the receive FIFO level register.
    fn set_rxflr(&mut self, val: u32)
        ensures
            final(self).log() == old(self).log().push(RegEvent::Rxflr(val)),
    ;

    /// Reads the FIFO data-command register, popping one word from the
    /// receive FIFO.
    fn get_data_cmd(&self) -> I2cDataCmd;

    /// Writes the FIFO data-command register, enqueuing one command word.
    fn set_data_cmd(&mut self, val: I2cDataCmd)
        ensures
            final(self).log() == old(self).log().push(RegEvent::DataCmd(val@)),
    ;

    /// Reads the abort-source register.
    ///
    /// The hardware zeroes this register when the transmit-abort interrupt
    /// is acknowledged, so the read is recorded in the access log: its place
    /// relative to [`RegEvent::ClearTxAbort`] is what makes a captured value
    /// meaningful.
    fn get_tx_abort_source(&mut self) -> (r: I2cTxAbortSource)
        ensures
            final(self).log() == old(self).log().push(RegEvent::AbortSourceRead),
    ;

}

/// Reads the masked interrupt status once and acknowledges each asserted
/// bit through that bit's dedicated clear register.
///
/// The aggregate clear register is not used here: it could silently swallow
/// interrupts that arrive between the status read and the clear. For the
/// abort bit, the abort-source register is captured before the acknowledge
/// zeroes it; the captured value is returned beside the status.
pub fn read_clear_interrupt<P: I2cPeripheral>(p: &mut P) -> (r: (I2cInterruptStatus,
    I2cTxAbortSource))
    ensures
        final(p).log() == old(p).log() + spec_ack_events(r.0@),
        spec_acks_only(spec_ack_events(r.0@)),
{
    let stat = p.get_interrupt_stat();
    let tx_abort_source = ack_error_bits(p, stat);
    ack_completion_bits(p, stat);
    proof {
        assert(p.log() =~= old(p).log() + spec_ack_events(stat@));
        lemma_acks_only_concat(spec_ack_events_head(stat@), spec_ack_events_tail(stat@));
    }
    (stat, tx_abort_source)
}

/// Acknowledges the receive/transmit error bits and the abort bit of `stat`
/// through their dedicated clear registers, capturing the abort source
/// before its acknowledge zeroes it.
fn ack_error_bits<P: I2cPeripheral>(p: &mut P, stat: I2cInterruptStatus) -> (src:
    I2cTxAbortSource)
    ensures
        final(p).log() == old(p).log() + spec_ack_events_head(stat@),
        spec_acks_only(spec_ack_events_head(stat@)),
{
    let ghost mut acc: Seq<RegEvent> = Seq::empty();
    proof {
        assert(spec_acks_only(acc));
    }
    if stat.is_set(I2cInterruptStatus::rx_under()) {
        p.get_clear_rx_under();
    }
    proof {
        lemma_acks_only_event_if(stat@ & I2C_INTR_RX_UNDER != 0, RegEvent::ClearRxUnder);
        lemma_acks_only_concat(acc, event_if(stat@ & I2C_INTR_RX_UNDER != 0, RegEvent::ClearRxUnder));
        acc = acc + event_if(stat@ & I2C_INTR_RX_UNDER != 0, RegEvent::ClearRxUnder);
        assert(spec_acks_only(acc));
        assert(p.log() =~= old(p).log() + acc);
    }
    if stat.is_set(I2cInterruptStatus::rx_over()) {
        p.get_clear_rx_over();
    }
    proof {
        lemma_acks_only_event_if(stat@ & I2C_INTR_RX_OVER != 0, RegEvent::ClearRxOver);
        lemma_acks_only_concat(acc, event_if(stat@ & I2C_INTR_RX_OVER != 0, RegEvent::ClearRxOver));
        acc = acc + event_if(stat@ & I2C_INTR_RX_OVER != 0, RegEvent::ClearRxOver);
        assert(spec_acks_only(acc));
        assert(p.log() =~= old(p).log() + acc);
    }
    if stat.is_set(I2cInterruptStatus::tx_over()) {
        p.get_clear_tx_over();
    }
    proof {
        lemma_acks_only_event_if(stat@ & I2C_INTR_TX_OVER != 0, RegEvent::ClearTxOver);
        lemma_acks_only_concat(acc, event_if(stat@ & I2C_INTR_TX_OVER != 0, RegEvent::ClearTxOver));
        acc = acc + event_if(stat@ & I2C_INTR_TX_OVER != 0, RegEvent::ClearTxOver);
        assert(spec_acks_only(acc));
        assert(p.log() =~= old(p).log() + acc);
    }
    if stat.is_set(I2cInterruptStatus::rd_req()) {
        p.get_clear_rd_req();
    }
    proof {
        lemma_acks_only_event_if(stat@ & I2C_INTR_RD_REQ != 0, RegEvent::ClearRdReq);
        lemma_acks_only_concat(acc, event_if(stat@ & I2C_INTR_RD_REQ != 0, RegEvent::ClearRdReq));
        acc = acc + event_if(stat@ & I2C_INTR_RD_REQ != 0, RegEvent::ClearRdReq);
        assert(spec_acks_only(acc));
        assert(p.log() =~= old(p).log() + acc);
    }
    let src = if stat.is_set(I2cInterruptStatus::tx_abrt()) {
        // The abort-source register is zeroed by the acknowledge below, so
        // capture it first.
        let src = p.get_tx_abort_source();
        p.get_clear_tx_abort();
        src
    } else {
        I2cTxAbortSource::none()
    };
    proof {
        lemma_acks_only_event_if(stat@ & I2C_INTR_TX_ABRT != 0, RegEvent::AbortSourceRead);
        lemma_acks_only_concat(acc, event_if(stat@ & I2C_INTR_TX_ABRT != 0,
            RegEvent::AbortSourceRead));
        acc = acc + event_if(stat@ & I2C_INTR_TX_ABRT != 0, RegEvent::AbortSourceRead);
        assert(spec_acks_only(acc));
        lemma_acks_only_event_if(stat@ & I2C_INTR_TX_ABRT != 0, RegEvent::ClearTxAbort);
        lemma_acks_only_concat(acc, event_if(stat@ & I2C_INTR_TX_ABRT != 0,
            RegEvent::ClearTxAbort));
        acc = acc + event_if(stat@ & I2C_INTR_TX_ABRT != 0, RegEvent::ClearTxAbort);
        assert(spec_acks_only(acc));
        assert(p.log() =~= old(p).log() + acc);
        assert(acc =~= spec_ack_events_head(stat@));
    }
    src
}

/// Acknowledges the completion and bus-condition bits of `stat` through
/// their dedicated clear registers.
fn ack_completion_bits<P: I2cPeripheral>(p: &mut P, stat: I2cInterruptStatus)
    ensures
        final(p).log() == old(p).log() + spec_ack_events_tail(stat@),
        spec_acks_only(spec_ack_events_tail(stat@)),
{
    let ghost mut acc: Seq<RegEvent> = Seq::empty();
    proof {
        assert(spec_acks_only(acc));
    }
    if stat.is_set(I2cInterruptStatus::rx_done()) {
        p.get_clear_rx_done();
    }
    proof {
        lemma_acks_only_event_if(stat@ & I2C_INTR_RX_DONE != 0, RegEvent::ClearRxDone);
        lemma_acks_only_concat(acc, event_if(stat@ & I2C_INTR_RX_DONE != 0, RegEvent::ClearRxDone));
        acc = acc + event_if(stat@ & I2C_INTR_RX_DONE != 0, RegEvent::ClearRxDone);
        assert(spec_acks_only(acc));
        assert(p.log() =~= old(p).log() + acc);
    }
    if stat.is_set(I2cInterruptStatus::activity()) {
        p.get_clear_activity();
    }
    proof {
        lemma_acks_only_event_if(stat@ & I2C_INTR_ACTIVITY != 0, RegEvent::ClearActivity);
        lemma_acks_only_concat(acc, event_if(stat@ & I2C_INTR_ACTIVITY != 0, RegEvent::ClearActivity));
        acc = acc + event_if(stat@ & I2C_INTR_ACTIVITY != 0, RegEvent::ClearActivity);
        assert(spec_acks_only(acc));
        assert(p.log() =~= old(p).log() + acc);
    }
    if stat.is_set(I2cInterruptStatus::stop_det()) {
        p.get_clear_stop_det();
    }
    proof {
        lemma_acks_only_event_if(stat@ & I2C_INTR_STOP_DET != 0, RegEvent::ClearStopDet);
        lemma_acks_only_concat(acc, event_if(stat@ & I2C_INTR_STOP_DET != 0, RegEvent::ClearStopDet));
        acc = acc + event_if(stat@ & I2C_INTR_STOP_DET != 0, RegEvent::ClearStopDet);
        assert(spec_acks_only(acc));
        assert(p.log() =~= old(p).log() + acc);
    }
    if stat.is_set(I2cInterruptStatus::start_det()) {
        p.get_clear_start_det();
    }
    proof {
        lemma_acks_only_event_if(stat@ & I2C_INTR_START_DET != 0, RegEvent::ClearStartDet);
        lemma_acks_only_concat(acc, event_if(stat@ & I2C_INTR_START_DET != 0, RegEvent::ClearStartDet));
        acc = acc + event_if(stat@ & I2C_INTR_START_DET != 0, RegEvent::ClearStartDet);
        assert(spec_acks_only(acc));
        assert(p.log() =~= old(p).log() + acc);
    }
    if stat.is_set(I2cInterruptStatus::gen_call()) {
        p.get_clear_gen_call();
    }
    proof {
        lemma_acks_only_event_if(stat@ & I2C_INTR_GEN_CALL != 0, RegEvent::ClearGenCall);
        lemma_acks_only_concat(acc, event_if(stat@ & I2C_INTR_GEN_CALL != 0, RegEvent::ClearGenCall));
        acc = acc + event_if(stat@ & I2C_INTR_GEN_CALL != 0, RegEvent::ClearGenCall);
        assert(spec_acks_only(acc));
        assert(p.log() =~= old(p).log() + acc);
        assert(acc =~= spec_ack_events_tail(stat@));
    }
}

} // verus!
