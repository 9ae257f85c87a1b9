//! The controller: the public operation surface and the retrying exchange
//! loop that every operation goes through.

use vstd::prelude::*;

use crate::address::{Address, Zone, MAX_SLOT};
use crate::command::{CommandV, DataBuffer, EccCommand, EccResponse, KeyType, ResponseV};
use crate::config::{
    merge_config_half, select_config_half, spec_merged_half, spec_selected_half, KeyConfig,
    SlotConfig,
};
use crate::digest::{sha256, sha256_of};
use crate::error::Error;
use crate::retry::{
    run_trace, trace_applied, trace_error, trace_result, trace_result_unit, RunOutcome,
};
use crate::transport::{EventV, ExchangeOutcome, OutcomeV, Transport, COMMAND_FLAG};
use vstd::seq_lib::lemma_seq_skip_of_skip;

verus! {

/// The nine-byte serial extracted from a config-zone window: bytes
/// `[0..4)` followed by bytes `[8..13)`.
pub open spec fn spec_serial(window: Seq<u8>) -> Seq<u8>
    recommends
        window.len() >= 13,
{
    window.subrange(0, 4) + window.subrange(8, 13)
}

/// Which byte of the lock window at config word `(2, 5)` carries a zone's
/// lock state.
pub open spec fn spec_lock_byte(zone: Zone) -> int {
    match zone {
        Zone::Config => 3,
        Zone::Data => 2,
    }
}

/// The retry budget of an ordinary operation.  Internal steps of a
/// composite sequence use a budget of one instead: retrying a mid-sequence
/// step without restarting the whole sequence risks inconsistent device
/// state.
pub const CMD_RETRIES: u8 = 10;

/// The controller.  It owns the transport handle for its entire lifetime;
/// the device behind it processes one command at a time.
pub struct Ecc {
    pub transport: Transport,
}

impl Ecc {
    /// Open a controller on the bus named by `_path` at `_address`.  No
    /// physical bus backs this crate, so the transport starts with an empty
    /// script: every exchange fails and every operation times out.
    pub fn from_path(_path: &str, _address: u16) -> (r: Result<Ecc, Error>)
        ensures
            r matches Ok(ecc) && ecc.transport.wf() && ecc.transport.pos == 0
                && ecc.transport.remaining() == Seq::<OutcomeV>::empty()
                && ecc.transport.events_v() == Seq::<EventV>::empty(),
    {
        Ok(Ecc { transport: Transport::empty() })
    }

    /// A controller over an already scripted transport.
    pub fn from_transport(transport: Transport) -> (r: Ecc)
        ensures
            r.transport == transport,
    {
        Ecc { transport }
    }

    /// One logical command exchange with bounded retry: frame, wake, wait
    /// the command's execution duration, send and receive, decode and
    /// classify; retry transport failures and recoverable device errors
    /// while attempts remain.  When `sleep` is set, the device is put to
    /// sleep after a data response and only then: an exchange that ends in
    /// an error leaves the device awake.  The whole behaviour is the trace
    /// [`run_trace`] computes from the scripted outcomes.
    pub fn send_command_retries(
        &mut self,
        command: &EccCommand,
        sleep: bool,
        retries: u8,
    ) -> (r: Result<Vec<u8>, Error>)
        requires
            old(self).transport.wf(),
        ensures
            final(self).transport.wf(),
            ({
                let t = run_trace(old(self).transport.remaining(), retries as nat, command@, sleep);
                trace_applied(old(self).transport, final(self).transport, t) && trace_result(t, r)
            }),
    {
        let ghost pre = old(self).transport;
        let ghost cmd = command@;
        let ghost t = run_trace(pre.remaining(), retries as nat, cmd, sleep);
        let mut i: u8 = 0;
        while i < retries
            invariant
                self.transport.wf(),
                pre == old(self).transport,
                pre.wf(),
                i <= retries,
                cmd == command@,
                self.transport.script == pre.script,
                self.transport.pos >= pre.pos,
                t == run_trace(pre.remaining(), retries as nat, cmd, sleep),
                ({
                    let tcur = run_trace(
                        self.transport.remaining(),
                        (retries - i) as nat,
                        cmd,
                        sleep,
                    );
                    &&& t.outcome == tcur.outcome
                    &&& t.attempts == i + tcur.attempts
                    &&& t.consumed == self.transport.pos - pre.pos + tcur.consumed
                    &&& pre.events_v() + t.events == self.transport.events_v() + tcur.events
                }),
            decreases retries - i,
        {
            let ghost rem = self.transport.remaining();
            let ghost b = (retries - i) as nat;
            let ghost tcur = run_trace(rem, b, cmd, sleep);
            let ghost ev_pre = self.transport.events_v();
            let ghost pos_pre = self.transport.pos;
            let ghost sent = seq![EventV::Wake, EventV::Exchange(COMMAND_FLAG, cmd)];

            self.transport.send_wake();
            let flag = self.transport.command_flag();
            let duration = self.transport.command_duration(command);
            let out = self.transport.exchange(flag, command, duration);
            proof {
                assert(self.transport.events_v() =~= ev_pre + sent);
                if rem.len() > 0 {
                    lemma_seq_skip_of_skip(self.transport.script_v(), pos_pre as int, 1);
                    assert(self.transport.remaining() =~= rem.skip(1));
                } else {
                    assert(self.transport.remaining() =~= rem);
                }
            }
            match out {
                ExchangeOutcome::TransportFail => {
                    proof {
                        let rest = run_trace(
                            self.transport.remaining(),
                            (b - 1) as nat,
                            cmd,
                            sleep,
                        );
                        assert(tcur.events == sent + rest.events);
                        assert((ev_pre + sent) + rest.events =~= ev_pre + (sent + rest.events));
                    }
                    i = i + 1;
                },
                ExchangeOutcome::Malformed => {
                    proof {
                        assert(self.transport.events_v() =~= pre.events_v() + t.events);
                    }
                    return Err(Error::Decode);
                },
                ExchangeOutcome::Respond(resp) => match resp {
                    EccResponse::Data(d) => {
                        if sleep {
                            self.transport.send_sleep();
                            proof {
                                assert(self.transport.events_v() =~= (ev_pre + sent).push(
                                    EventV::Sleep,
                                ));
                                assert((ev_pre + sent).push(EventV::Sleep) =~= ev_pre + sent.push(
                                    EventV::Sleep,
                                ));
                            }
                        }
                        proof {
                            assert(self.transport.events_v() =~= pre.events_v() + t.events);
                        }
                        return Ok(d);
                    },
                    EccResponse::Error(e) => {
                        if e.is_recoverable() && i + 1 < retries {
                            proof {
                                let rest = run_trace(
                                    self.transport.remaining(),
                                    (b - 1) as nat,
                                    cmd,
                                    sleep,
                                );
                                assert(tcur.events == sent + rest.events);
                                assert((ev_pre + sent) + rest.events =~= ev_pre + (sent
                                    + rest.events));
                            }
                            i = i + 1;
                        } else {
                            proof {
                                assert(self.transport.events_v() =~= pre.events_v() + t.events);
                            }
                            return Err(Error::Ecc(e));
                        }
                    },
                },
            }
        }
        proof {
            assert(self.transport.events_v() + Seq::<EventV>::empty() =~= self.transport.events_v());
            assert(self.transport.events_v() =~= pre.events_v() + t.events);
        }
        Err(Error::Timeout)
    }

    /// Read the four-byte register at `address` and return the two-byte
    /// field selected by the slot's parity.
    fn read_config_field(&mut self, address: Address, slot: u8) -> (r: Result<u16, Error>)
        requires
            old(self).transport.wf(),
        ensures
            final(self).transport.wf(),
            ({
                let t = run_trace(
                    old(self).transport.remaining(),
                    CMD_RETRIES as nat,
                    (CommandV::Read { read_32: false, address }),
                    true,
                );
                &&& trace_applied(old(self).transport, final(self).transport, t)
                &&& match t.outcome {
                    RunOutcome::Data(d) => if d.len() >= 4 {
                        r matches Ok(v) && v == spec_selected_half(d, slot)
                    } else {
                        r == Err::<u16, Error>(Error::Decode)
                    },
                    _ => trace_error(t, r),
                }
            }),
    {
        let data = match self.read(false, &address) {
            Ok(d) => d,
            Err(e) => {
                return Err(e);
            },
        };
        if data.len() < 4 {
            return Err(Error::Decode);
        }
        Ok(select_config_half(&data, slot))
    }

    /// Read the shared register at `address`, replace the two-byte field
    /// selected by the slot's parity with `value`, and write all four bytes
    /// back; the paired slot's half is written back unchanged.
    fn write_config_field(&mut self, address: Address, slot: u8, value: u16) -> (r: Result<
        (),
        Error,
    >)
        requires
            old(self).transport.wf(),
        ensures
            final(self).transport.wf(),
            ({
                let s0 = old(self).transport.remaining();
                let t1 = run_trace(
                    s0,
                    CMD_RETRIES as nat,
                    (CommandV::Read { read_32: false, address }),
                    true,
                );
                match t1.outcome {
                    RunOutcome::Data(d) => if d.len() >= 4 {
                        let t2 = run_trace(
                            s0.skip(t1.consumed as int),
                            CMD_RETRIES as nat,
                            (CommandV::Write {
                                address,
                                data: spec_merged_half(d, slot, value),
                            }),
                            true,
                        );
                        &&& final(self).transport.script == old(self).transport.script
                        &&& final(self).transport.pos == old(self).transport.pos + t1.consumed
                            + t2.consumed
                        &&& final(self).transport.events_v() == old(self).transport.events_v()
                            + t1.events + t2.events
                        &&& trace_result_unit(t2, r)
                    } else {
                        trace_applied(old(self).transport, final(self).transport, t1) && r
                            == Err::<(), Error>(Error::Decode)
                    },
                    _ => trace_applied(old(self).transport, final(self).transport, t1)
                        && trace_error(t1, r),
                }
            }),
    {
        let ghost pre = self.transport;
        let data = match self.read(false, &address) {
            Ok(d) => d,
            Err(e) => {
                return Err(e);
            },
        };
        if data.len() < 4 {
            return Err(Error::Decode);
        }
        proof {
            let t1 = run_trace(
                pre.remaining(),
                CMD_RETRIES as nat,
                (CommandV::Read { read_32: false, address }),
                true,
            );
            lemma_seq_skip_of_skip(pre.script_v(), pre.pos as int, t1.consumed as int);
            assert(self.transport.remaining() =~= pre.remaining().skip(t1.consumed as int));
        }
        let merged = merge_config_half(&data, slot, value);
        match self.write(&address, merged.as_slice()) {
            Ok(_) => Ok(()),
            Err(e) => Err(e),
        }
    }

    /// The slot-configuration field of `slot`.  An invalid slot is rejected
    /// before any exchange.
    pub fn get_slot_config(&mut self, slot: u8) -> (r: Result<SlotConfig, Error>)
        requires
            old(self).transport.wf(),
        ensures
            final(self).transport.wf(),
            slot > MAX_SLOT ==> *final(self) == *old(self) && r == Err::<SlotConfig, Error>(
                Error::InvalidSlot(slot),
            ),
            slot <= MAX_SLOT ==> ({
                let t = run_trace(
                    old(self).transport.remaining(),
                    CMD_RETRIES as nat,
                    (CommandV::Read { read_32: false, address: Address::spec_slot_config(slot) }),
                    true,
                );
                &&& trace_applied(old(self).transport, final(self).transport, t)
                &&& match t.outcome {
                    RunOutcome::Data(d) => if d.len() >= 4 {
                        r matches Ok(c) && c == (SlotConfig { bits: spec_selected_half(d, slot) })
                    } else {
                        r == Err::<SlotConfig, Error>(Error::Decode)
                    },
                    _ => trace_error(t, r),
                }
            }),
    {
        let address = match Address::slot_config(slot) {
            Ok(a) => a,
            Err(e) => {
                return Err(e);
            },
        };
        match self.read_config_field(address, slot) {
            Ok(bits) => Ok(SlotConfig { bits }),
            Err(e) => Err(e),
        }
    }

    /// Set the slot-configuration field of `slot` to `config`, leaving the
    /// paired slot's field byte-for-byte unchanged.  An invalid slot is
    /// rejected before any exchange.
    pub fn set_slot_config(&mut self, slot: u8, config: &SlotConfig) -> (r: Result<(), Error>)
        requires
            old(self).transport.wf(),
        ensures
            final(self).transport.wf(),
            slot > MAX_SLOT ==> *final(self) == *old(self) && r == Err::<(), Error>(
                Error::InvalidSlot(slot),
            ),
            slot <= MAX_SLOT ==> ({
                let s0 = old(self).transport.remaining();
                let a = Address::spec_slot_config(slot);
                let t1 = run_trace(
                    s0,
                    CMD_RETRIES as nat,
                    (CommandV::Read { read_32: false, address: a }),
                    true,
                );
                match t1.outcome {
                    RunOutcome::Data(d) => if d.len() >= 4 {
                        let t2 = run_trace(
                            s0.skip(t1.consumed as int),
                            CMD_RETRIES as nat,
                            (CommandV::Write {
                                address: a,
                                data: spec_merged_half(d, slot, config.bits),
                            }),
                            true,
                        );
                        &&& final(self).transport.script == old(self).transport.script
                        &&& final(self).transport.pos == old(self).transport.pos + t1.consumed
                            + t2.consumed
                        &&& final(self).transport.events_v() == old(self).transport.events_v()
                            + t1.events + t2.events
                        &&& trace_result_unit(t2, r)
                    } else {
                        trace_applied(old(self).transport, final(self).transport, t1) && r
                            == Err::<(), Error>(Error::Decode)
                    },
                    _ => trace_applied(old(self).transport, final(self).transport, t1)
                        && trace_error(t1, r),
                }
            }),
    {
        let address = match Address::slot_config(slot) {
            Ok(a) => a,
            Err(e) => {
                return Err(e);
            },
        };
        self.write_config_field(address, slot, config.bits)
    }

    /// The key-configuration field of `slot`.  An invalid slot is rejected
    /// before any exchange.
    pub fn get_key_config(&mut self, slot: u8) -> (r: Result<KeyConfig, Error>)
        requires
            old(self).transport.wf(),
        ensures
            final(self).transport.wf(),
            slot > MAX_SLOT ==> *final(self) == *old(self) && r == Err::<KeyConfig, Error>(
                Error::InvalidSlot(slot),
            ),
            slot <= MAX_SLOT ==> ({
                let t = run_trace(
                    old(self).transport.remaining(),
                    CMD_RETRIES as nat,
                    (CommandV::Read { read_32: false, address: Address::spec_key_config(slot) }),
                    true,
                );
                &&& trace_applied(old(self).transport, final(self).transport, t)
                &&& match t.outcome {
                    RunOutcome::Data(d) => if d.len() >= 4 {
                        r matches Ok(c) && c == (KeyConfig { bits: spec_selected_half(d, slot) })
                    } else {
                        r == Err::<KeyConfig, Error>(Error::Decode)
                    },
                    _ => trace_error(t, r),
                }
            }),
    {
        let address = match Address::key_config(slot) {
            Ok(a) => a,
            Err(e) => {
                return Err(e);
            },
        };
        match self.read_config_field(address, slot) {
            Ok(bits) => Ok(KeyConfig { bits }),
            Err(e) => Err(e),
        }
    }

    /// Set the key-configuration field of `slot` to `config`, leaving the
    /// paired slot's field byte-for-byte unchanged.  An invalid slot is
    /// rejected before any exchange.
    pub fn set_key_config(&mut self, slot: u8, config: &KeyConfig) -> (r: Result<(), Error>)
        requires
            old(self).transport.wf(),
        ensures
            final(self).transport.wf(),
            slot > MAX_SLOT ==> *final(self) == *old(self) && r == Err::<(), Error>(
                Error::InvalidSlot(slot),
            ),
            slot <= MAX_SLOT ==> ({
                let s0 = old(self).transport.remaining();
                let a = Address::spec_key_config(slot);
                let t1 = run_trace(
                    s0,
                    CMD_RETRIES as nat,
                    (CommandV::Read { read_32: false, address: a }),
                    true,
                );
                match t1.outcome {
                    RunOutcome::Data(d) => if d.len() >= 4 {
                        let t2 = run_trace(
                            s0.skip(t1.consumed as int),
                            CMD_RETRIES as nat,
                            (CommandV::Write {
                                address: a,
                                data: spec_merged_half(d, slot, config.bits),
                            }),
                            true,
                        );
                        &&& final(self).transport.script == old(self).transport.script
                        &&& final(self).transport.pos == old(self).transport.pos + t1.consumed
                            + t2.consumed
                        &&& final(self).transport.events_v() == old(self).transport.events_v()
                            + t1.events + t2.events
                        &&& trace_result_unit(t2, r)
                    } else {
                        trace_applied(old(self).transport, final(self).transport, t1) && r
                            == Err::<(), Error>(Error::Decode)
                    },
                    _ => trace_applied(old(self).transport, final(self).transport, t1)
                        && trace_error(t1, r),
                }
            }),
    {
        let address = match Address::key_config(slot) {
            Ok(a) => a,
            Err(e) => {
                return Err(e);
            },
        };
        self.write_config_field(address, slot, config.bits)
    }

    /// Single-shot info command.
    pub fn get_info(&mut self) -> (r: Result<Vec<u8>, Error>)
        requires
            old(self).transport.wf(),
        ensures
            final(self).transport.wf(),
            ({
                let t = run_trace(
                    old(self).transport.remaining(),
                    CMD_RETRIES as nat,
                    CommandV::Info,
                    true,
                );
                trace_applied(old(self).transport, final(self).transport, t) && trace_result(t, r)
            }),
    {
        self.send_command(&EccCommand::Info)
    }

    /// Single-shot key generation in `slot`.
    pub fn genkey(&mut self, key_type: KeyType, slot: u8) -> (r: Result<Vec<u8>, Error>)
        requires
            old(self).transport.wf(),
        ensures
            final(self).transport.wf(),
            ({
                let t = run_trace(
                    old(self).transport.remaining(),
                    CMD_RETRIES as nat,
                    (CommandV::GenKey { key_type, slot }),
                    true,
                );
                trace_applied(old(self).transport, final(self).transport, t) && trace_result(t, r)
            }),
    {
        self.send_command(&EccCommand::GenKey { key_type, slot })
    }

    /// Single-shot on-device random generation.
    pub fn random(&mut self) -> (r: Result<Vec<u8>, Error>)
        requires
            old(self).transport.wf(),
        ensures
            final(self).transport.wf(),
            ({
                let t = run_trace(
                    old(self).transport.remaining(),
                    CMD_RETRIES as nat,
                    CommandV::Random,
                    true,
                );
                trace_applied(old(self).transport, final(self).transport, t) && trace_result(t, r)
            }),
    {
        self.send_command(&EccCommand::Random)
    }

    /// Single-shot load of `data` into the volatile buffer `target`.
    pub fn nonce(&mut self, target: DataBuffer, data: &[u8]) -> (r: Result<(), Error>)
        requires
            old(self).transport.wf(),
        ensures
            final(self).transport.wf(),
            ({
                let t = run_trace(
                    old(self).transport.remaining(),
                    CMD_RETRIES as nat,
                    (CommandV::Nonce { target, data: data@ }),
                    true,
                );
                trace_applied(old(self).transport, final(self).transport, t) && trace_result_unit(
                    t,
                    r,
                )
            }),
    {
        let payload = vstd::slice::slice_to_vec(data);
        match self.send_command(&EccCommand::Nonce { target, data: payload }) {
            Ok(_) => Ok(()),
            Err(e) => Err(e),
        }
    }

    /// Single-shot key agreement against the peer public key `(x, y)` using
    /// the private key in `key_slot`.
    pub fn ecdh(&mut self, key_slot: u8, x: &[u8], y: &[u8]) -> (r: Result<Vec<u8>, Error>)
        requires
            old(self).transport.wf(),
        ensures
            final(self).transport.wf(),
            ({
                let t = run_trace(
                    old(self).transport.remaining(),
                    CMD_RETRIES as nat,
                    (CommandV::Ecdh { x: x@, y: y@, slot: key_slot }),
                    true,
                );
                trace_applied(old(self).transport, final(self).transport, t) && trace_result(t, r)
            }),
    {
        let px = vstd::slice::slice_to_vec(x);
        let py = vstd::slice::slice_to_vec(y);
        self.send_command(&EccCommand::Ecdh { x: px, y: py, slot: key_slot })
    }

    /// Single-shot lock of `zone`; irreversible on a physical device.
    pub fn set_locked(&mut self, zone: Zone) -> (r: Result<(), Error>)
        requires
            old(self).transport.wf(),
        ensures
            final(self).transport.wf(),
            ({
                let t = run_trace(
                    old(self).transport.remaining(),
                    CMD_RETRIES as nat,
                    (CommandV::Lock { zone }),
                    true,
                );
                trace_applied(old(self).transport, final(self).transport, t) && trace_result_unit(
                    t,
                    r,
                )
            }),
    {
        match self.send_command(&EccCommand::Lock { zone }) {
            Ok(_) => Ok(()),
            Err(e) => Err(e),
        }
    }

    /// Raw read of the four-byte word at `address`, or of its whole
    /// 32-byte block when `read_32` is set.
    pub fn read(&mut self, read_32: bool, address: &Address) -> (r: Result<Vec<u8>, Error>)
        requires
            old(self).transport.wf(),
        ensures
            final(self).transport.wf(),
            ({
                let t = run_trace(
                    old(self).transport.remaining(),
                    CMD_RETRIES as nat,
                    (CommandV::Read { read_32, address: *address }),
                    true,
                );
                trace_applied(old(self).transport, final(self).transport, t) && trace_result(t, r)
            }),
    {
        self.send_command(&EccCommand::Read { read_32, address: *address })
    }

    /// Raw write of `bytes` to the word at `address`.
    pub fn write(&mut self, address: &Address, bytes: &[u8]) -> (r: Result<(), Error>)
        requires
            old(self).transport.wf(),
        ensures
            final(self).transport.wf(),
            ({
                let t = run_trace(
                    old(self).transport.remaining(),
                    CMD_RETRIES as nat,
                    (CommandV::Write { address: *address, data: bytes@ }),
                    true,
                );
                trace_applied(old(self).transport, final(self).transport, t) && trace_result_unit(
                    t,
                    r,
                )
            }),
    {
        let data = vstd::slice::slice_to_vec(bytes);
        match self.send_command(&EccCommand::Write { address: *address, data }) {
            Ok(_) => Ok(()),
            Err(e) => Err(e),
        }
    }

    /// The nine-byte serial number: bytes `[0..4)` and `[8..13)` of the
    /// first config-zone block.  Per the device's data sheet the first two
    /// bytes are always `0x01 0x23` and the last is always `0xEE`.
    pub fn get_serial(&mut self) -> (r: Result<Vec<u8>, Error>)
        requires
            old(self).transport.wf(),
        ensures
            final(self).transport.wf(),
            ({
                let t = run_trace(
                    old(self).transport.remaining(),
                    CMD_RETRIES as nat,
                    (CommandV::Read { read_32: true, address: Address::spec_config(0, 0) }),
                    true,
                );
                &&& trace_applied(old(self).transport, final(self).transport, t)
                &&& match t.outcome {
                    RunOutcome::Data(d) => if d.len() >= 13 {
                        r matches Ok(v) && v@ == spec_serial(d)
                    } else {
                        r == Err::<Vec<u8>, Error>(Error::Decode)
                    },
                    _ => trace_error(t, r),
                }
            }),
    {
        let address = match Address::config(0, 0) {
            Ok(a) => a,
            Err(e) => {
                return Err(e);
            },
        };
        let data = match self.read(true, &address) {
            Ok(d) => d,
            Err(e) => {
                return Err(e);
            },
        };
        if data.len() < 13 {
            return Err(Error::Decode);
        }
        let mut serial: Vec<u8> = Vec::new();
        serial.push(data[0]);
        serial.push(data[1]);
        serial.push(data[2]);
        serial.push(data[3]);
        serial.push(data[8]);
        serial.push(data[9]);
        serial.push(data[10]);
        serial.push(data[11]);
        serial.push(data[12]);
        proof {
            assert(serial@ =~= spec_serial(data@));
        }
        Ok(serial)
    }

    /// Whether `zone` is locked: the zone's fixed byte in the lock window
    /// at config word `(2, 5)` differs from the unlocked sentinel `0x55`.
    pub fn get_locked(&mut self, zone: &Zone) -> (r: Result<bool, Error>)
        requires
            old(self).transport.wf(),
        ensures
            final(self).transport.wf(),
            ({
                let t = run_trace(
                    old(self).transport.remaining(),
                    CMD_RETRIES as nat,
                    (CommandV::Read { read_32: false, address: Address::spec_config(2, 5) }),
                    true,
                );
                &&& trace_applied(old(self).transport, final(self).transport, t)
                &&& match t.outcome {
                    RunOutcome::Data(d) => if d.len() >= 4 {
                        r matches Ok(locked) && locked == (d[spec_lock_byte(*zone)] != 0x55)
                    } else {
                        r == Err::<bool, Error>(Error::Decode)
                    },
                    _ => trace_error(t, r),
                }
            }),
    {
        let address = match Address::config(2, 5) {
            Ok(a) => a,
            Err(e) => {
                return Err(e);
            },
        };
        let data = match self.read(false, &address) {
            Ok(d) => d,
            Err(e) => {
                return Err(e);
            },
        };
        if data.len() < 4 {
            return Err(Error::Decode);
        }
        match zone {
            Zone::Config => Ok(data[3] != 0x55),
            Zone::Data => Ok(data[2] != 0x55),
        }
    }

    /// Sign `data` with the key in `key_slot`: a three-step sequence over
    /// shared volatile device state, each step a single attempt.  The
    /// device generates a random seed, the SHA-256 digest of `data` is
    /// loaded into the message-digest buffer, and the buffered digest is
    /// signed.  Sleep is suppressed between the steps so the volatile state
    /// survives; any failed step aborts the whole sequence.
    pub fn sign(&mut self, key_slot: u8, data: &[u8]) -> (r: Result<Vec<u8>, Error>)
        requires
            old(self).transport.wf(),
        ensures
            final(self).transport.wf(),
            ({
                let s0 = old(self).transport.remaining();
                let t1 = run_trace(s0, 1, CommandV::Random, false);
                let t2 = run_trace(
                    s0.skip(t1.consumed as int),
                    1,
                    (CommandV::Nonce {
                        target: DataBuffer::MessageDigest,
                        data: sha256_of(data@),
                    }),
                    false,
                );
                let t3 = run_trace(
                    s0.skip(t1.consumed as int).skip(t2.consumed as int),
                    1,
                    (CommandV::Sign { source: DataBuffer::MessageDigest, slot: key_slot }),
                    true,
                );
                if !(t1.outcome is Data) {
                    trace_applied(old(self).transport, final(self).transport, t1) && trace_error(
                        t1,
                        r,
                    )
                } else if !(t2.outcome is Data) {
                    &&& final(self).transport.script == old(self).transport.script
                    &&& final(self).transport.pos == old(self).transport.pos + t1.consumed
                        + t2.consumed
                    &&& final(self).transport.events_v() == old(self).transport.events_v()
                        + t1.events + t2.events
                    &&& trace_error(t2, r)
                } else {
                    &&& final(self).transport.script == old(self).transport.script
                    &&& final(self).transport.pos == old(self).transport.pos + t1.consumed
                        + t2.consumed + t3.consumed
                    &&& final(self).transport.events_v() == old(self).transport.events_v()
                        + t1.events + t2.events + t3.events
                    &&& trace_result(t3, r)
                }
            }),
    {
        let ghost pre = self.transport;
        match self.send_command_retries(&EccCommand::Random, false, 1) {
            Ok(_) => (),
            Err(e) => {
                return Err(e);
            },
        };
        proof {
            let t1 = run_trace(pre.remaining(), 1, CommandV::Random, false);
            lemma_seq_skip_of_skip(pre.script_v(), pre.pos as int, t1.consumed as int);
            assert(self.transport.remaining() =~= pre.remaining().skip(t1.consumed as int));
        }
        let ghost mid1 = self.transport;
        let digest = sha256(data);
        match self.send_command_retries(
            &EccCommand::Nonce { target: DataBuffer::MessageDigest, data: digest },
            false,
            1,
        ) {
            Ok(_) => (),
            Err(e) => {
                return Err(e);
            },
        };
        proof {
            let t2 = run_trace(
                mid1.remaining(),
                1,
                (CommandV::Nonce { target: DataBuffer::MessageDigest, data: sha256_of(data@) }),
                false,
            );
            lemma_seq_skip_of_skip(mid1.script_v(), mid1.pos as int, t2.consumed as int);
            assert(self.transport.remaining() =~= mid1.remaining().skip(t2.consumed as int));
        }
        self.send_command_retries(
            &EccCommand::Sign { source: DataBuffer::MessageDigest, slot: key_slot },
            true,
            1,
        )
    }

    /// One exchange with the default retry budget, sleeping after success.
    pub fn send_command(&mut self, command: &EccCommand) -> (r: Result<Vec<u8>, Error>)
        requires
            old(self).transport.wf(),
        ensures
            final(self).transport.wf(),
            ({
                let t = run_trace(
                    old(self).transport.remaining(),
                    CMD_RETRIES as nat,
                    command@,
                    true,
                );
                trace_applied(old(self).transport, final(self).transport, t) && trace_result(t, r)
            }),
    {
        self.send_command_retries(command, true, CMD_RETRIES)
    }
}

/// For any config window that satisfies the device's serial contract, the
/// extracted serial is nine bytes whose first two and last byte are the
/// fixed constants of the data sheet.
pub proof fn lemma_serial_fixed_bytes(window: Seq<u8>)
    requires
        window.len() >= 13,
        window[0] == 0x01,
        window[1] == 0x23,
        window[12] == 0xEE,
    ensures
        spec_serial(window).len() == 9,
        spec_serial(window)[0] == 0x01,
        spec_serial(window)[1] == 0x23,
        spec_serial(window)[8] == 0xEE,
{
}

/// A signing sequence whose three steps all answer with data issues
/// exactly three exchanges, in order — random, digest load, sign — and
/// the only sleep comes after the third: the volatile device state is
/// preserved between the steps.
pub proof fn lemma_sign_exchange_sequence(s: Seq<OutcomeV>, digest: Seq<u8>, key_slot: u8)
    requires
        s.len() >= 3,
        s[0] matches OutcomeV::Respond(ResponseV::Data(d0)),
        s[1] matches OutcomeV::Respond(ResponseV::Data(d1)),
        s[2] matches OutcomeV::Respond(ResponseV::Data(d2)),
    ensures
        ({
            let t1 = run_trace(s, 1, CommandV::Random, false);
            let t2 = run_trace(
                s.skip(1),
                1,
                (CommandV::Nonce { target: DataBuffer::MessageDigest, data: digest }),
                false,
            );
            let t3 = run_trace(
                s.skip(1).skip(1),
                1,
                (CommandV::Sign { source: DataBuffer::MessageDigest, slot: key_slot }),
                true,
            );
            &&& t1.consumed == 1 && t2.consumed == 1 && t3.consumed == 1
            &&& t1.attempts == 1 && t2.attempts == 1 && t3.attempts == 1
            &&& t1.outcome is Data && t2.outcome is Data && t3.outcome is Data
            &&& t1.events + t2.events + t3.events == seq![
                EventV::Wake,
                EventV::Exchange(COMMAND_FLAG, CommandV::Random),
                EventV::Wake,
                EventV::Exchange(
                    COMMAND_FLAG,
                    (CommandV::Nonce { target: DataBuffer::MessageDigest, data: digest }),
                ),
                EventV::Wake,
                EventV::Exchange(
                    COMMAND_FLAG,
                    (CommandV::Sign { source: DataBuffer::MessageDigest, slot: key_slot }),
                ),
                EventV::Sleep,
            ]
        }),
{
    assert(s.skip(1)[0] == s[1]);
    assert(s.skip(1).skip(1)[0] == s[2]) by {
        lemma_seq_skip_of_skip(s, 1, 1);
    }
    let t1 = run_trace(s, 1, CommandV::Random, false);
    let t2 = run_trace(
        s.skip(1),
        1,
        (CommandV::Nonce { target: DataBuffer::MessageDigest, data: digest }),
        false,
    );
    let t3 = run_trace(
        s.skip(1).skip(1),
        1,
        (CommandV::Sign { source: DataBuffer::MessageDigest, slot: key_slot }),
        true,
    );
    assert(t1.events + t2.events + t3.events =~= seq![
        EventV::Wake,
        EventV::Exchange(COMMAND_FLAG, CommandV::Random),
        EventV::Wake,
        EventV::Exchange(
            COMMAND_FLAG,
            (CommandV::Nonce { target: DataBuffer::MessageDigest, data: digest }),
        ),
        EventV::Wake,
        EventV::Exchange(
            COMMAND_FLAG,
            (CommandV::Sign { source: DataBuffer::MessageDigest, slot: key_slot }),
        ),
        EventV::Sleep,
    ]);
}

} // verus!
