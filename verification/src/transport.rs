//! The scripted transport: one physical exchange at a time, replayed from a
//! fixed script and logged event by event.
//!
//! The transport owns no real bus.  A script lists, in order, what the next
//! send/receive attempts come back with; once the script runs out, every
//! further attempt fails at the transport level.  Everything the controller
//! does to the device — wake signals, framed exchanges, sleep signals — is
//! appended to the event log, so a caller can replay exactly what was sent
//! and in which order.

use vstd::prelude::*;

use crate::command::{CommandV, EccCommand, EccResponse, ResponseV};

verus! {

/// The protocol flag byte prefixed to every command frame.
pub const COMMAND_FLAG: u8 = 3;

/// What one scripted send/receive attempt comes back with.
#[derive(Debug, PartialEq)]
pub enum ExchangeOutcome {
    /// The exchange itself failed: no response, or a bus error.
    TransportFail,
    /// Response bytes arrived but do not decode.
    Malformed,
    /// A decoded response.
    Respond(EccResponse),
}

/// The mathematical image of a scripted outcome.
pub enum OutcomeV {
    TransportFail,
    Malformed,
    Respond(ResponseV),
}

impl View for ExchangeOutcome {
    type V = OutcomeV;

    open spec fn view(&self) -> OutcomeV {
        match self {
            ExchangeOutcome::TransportFail => OutcomeV::TransportFail,
            ExchangeOutcome::Malformed => OutcomeV::Malformed,
            ExchangeOutcome::Respond(resp) => OutcomeV::Respond(resp@),
        }
    }
}

impl Clone for ExchangeOutcome {
    fn clone(&self) -> (r: Self)
        ensures
            r@ == self@,
    {
        match self {
            ExchangeOutcome::TransportFail => ExchangeOutcome::TransportFail,
            ExchangeOutcome::Malformed => ExchangeOutcome::Malformed,
            ExchangeOutcome::Respond(resp) => ExchangeOutcome::Respond(resp.clone()),
        }
    }
}

/// One logged action on the bus.
#[derive(Debug, PartialEq)]
pub enum Event {
    /// The device was signalled to wake.
    Wake,
    /// A frame — the flag byte and a command — was sent and a reply awaited.
    Exchange(u8, EccCommand),
    /// The device was put to sleep, discarding its volatile buffers.
    Sleep,
}

/// The mathematical image of a logged action.
pub enum EventV {
    Wake,
    Exchange(u8, CommandV),
    Sleep,
}

impl View for Event {
    type V = EventV;

    open spec fn view(&self) -> EventV {
        match self {
            Event::Wake => EventV::Wake,
            Event::Exchange(flag, command) => EventV::Exchange(*flag, command@),
            Event::Sleep => EventV::Sleep,
        }
    }
}

/// The transport handle the controller owns for its whole lifetime.
pub struct Transport {
    /// The outcomes the coming exchanges are answered with, in order.
    pub script: Vec<ExchangeOutcome>,
    /// How many scripted outcomes have been consumed.
    pub pos: usize,
    /// Every action taken on the bus so far, oldest first.
    pub events: Vec<Event>,
}

impl Transport {
    pub open spec fn wf(self) -> bool {
        self.pos <= self.script.len()
    }

    /// The whole script, as outcome images.
    pub open spec fn script_v(self) -> Seq<OutcomeV> {
        self.script@.map_values(|o: ExchangeOutcome| o@)
    }

    /// The scripted outcomes not yet consumed.
    pub open spec fn remaining(self) -> Seq<OutcomeV> {
        self.script_v().skip(self.pos as int)
    }

    /// The event log, as action images.
    pub open spec fn events_v(self) -> Seq<EventV> {
        self.events@.map_values(|e: Event| e@)
    }

    /// A transport that will answer exchanges from `script`.
    pub fn new(script: Vec<ExchangeOutcome>) -> (r: Self)
        ensures
            r.wf(),
            r.script == script,
            r.pos == 0,
            r.remaining() == script@.map_values(|o: ExchangeOutcome| o@),
            r.events_v() == Seq::<EventV>::empty(),
    {
        let r = Transport { script, pos: 0, events: Vec::new() };
        proof {
            assert(r.remaining() =~= r.script_v());
            assert(r.events_v() =~= Seq::<EventV>::empty());
        }
        r
    }

    /// A transport with nothing scripted: every exchange fails.
    pub fn empty() -> (r: Self)
        ensures
            r.wf(),
            r.pos == 0,
            r.remaining() == Seq::<OutcomeV>::empty(),
            r.events_v() == Seq::<EventV>::empty(),
    {
        let r = Transport::new(Vec::new());
        proof {
            assert(r.remaining() =~= Seq::<OutcomeV>::empty());
        }
        r
    }

    /// The flag byte that frames every command.
    pub fn command_flag(&self) -> (r: u8)
        ensures
            r == COMMAND_FLAG,
    {
        COMMAND_FLAG
    }

    /// Signal the device to wake.
    pub fn send_wake(&mut self)
        requires
            old(self).wf(),
        ensures
            final(self).wf(),
            final(self).script == old(self).script,
            final(self).pos == old(self).pos,
            final(self).events_v() == old(self).events_v().push(EventV::Wake),
    {
        self.events.push(Event::Wake);
        proof {
            assert(self.events_v() =~= old(self).events_v().push(EventV::Wake));
        }
    }

    /// Put the device to sleep, best effort.
    pub fn send_sleep(&mut self)
        requires
            old(self).wf(),
        ensures
            final(self).wf(),
            final(self).script == old(self).script,
            final(self).pos == old(self).pos,
            final(self).events_v() == old(self).events_v().push(EventV::Sleep),
    {
        self.events.push(Event::Sleep);
        proof {
            assert(self.events_v() =~= old(self).events_v().push(EventV::Sleep));
        }
    }

    /// The device's expected execution latency for `command`, in
    /// microseconds.
    pub fn command_duration(&self, command: &EccCommand) -> (r: u32)
        ensures
            r == spec_command_duration(command@),
    {
        match command {
            EccCommand::Info => 1000,
            EccCommand::GenKey { .. } => 115000,
            EccCommand::Read { .. } => 1000,
            EccCommand::Write { .. } => 26000,
            EccCommand::Lock { .. } => 32000,
            EccCommand::Random => 23000,
            EccCommand::Nonce { .. } => 7000,
            EccCommand::Sign { .. } => 60000,
            EccCommand::Ecdh { .. } => 58000,
        }
    }

    /// One framed send/receive: the frame is logged, the next scripted
    /// outcome is consumed and returned.  An exhausted script answers with a
    /// transport failure and consumes nothing.  The simulated exchange does
    /// not wait out `_duration_micros`.
    pub fn exchange(&mut self, flag: u8, command: &EccCommand, _duration_micros: u32) -> (r:
        ExchangeOutcome)
        requires
            old(self).wf(),
        ensures
            final(self).wf(),
            final(self).script == old(self).script,
            final(self).events_v() == old(self).events_v().push(
                EventV::Exchange(flag, command@),
            ),
            old(self).remaining().len() == 0 ==> r@ == OutcomeV::TransportFail
                && final(self).pos == old(self).pos,
            old(self).remaining().len() > 0 ==> r@ == old(self).remaining()[0]
                && final(self).pos == old(self).pos + 1,
    {
        self.events.push(Event::Exchange(flag, command.clone()));
        proof {
            assert(self.events_v() =~= old(self).events_v().push(
                EventV::Exchange(flag, command@),
            ));
        }
        if self.pos < self.script.len() {
            let out = self.script[self.pos].clone();
            self.pos = self.pos + 1;
            out
        } else {
            ExchangeOutcome::TransportFail
        }
    }
}

/// Datasheet worst-case execution time for a command, in microseconds.
pub open spec fn spec_command_duration(c: CommandV) -> u32 {
    match c {
        CommandV::Info => 1000,
        CommandV::GenKey { .. } => 115000,
        CommandV::Read { .. } => 1000,
        CommandV::Write { .. } => 26000,
        CommandV::Lock { .. } => 32000,
        CommandV::Random => 23000,
        CommandV::Nonce { .. } => 7000,
        CommandV::Sign { .. } => 60000,
        CommandV::Ecdh { .. } => 58000,
    }
}

} // verus!
