//! The command bus: an in-process publish/subscribe substrate with a fixed,
//! statically known set of command kinds.
//!
//! Delivery is fire-and-forget and at most once per currently subscribed
//! consumer; publishing mutates nothing and never blocks, and a command
//! published while nobody subscribes to its kind is silently dropped, not an
//! error.

use vstd::prelude::*;
use crate::command::Command;
use crate::command::CommandKind;

verus! {

/// One command handed to one subscribed consumer.
#[derive(Clone, Copy, PartialEq, Eq, Structural, Debug)]
pub struct Delivery {
    pub consumer: u64,
    pub command: Command,
}

/// Subscriber lists per command kind, each consumer at most once.
pub struct CommandBus {
    start_subs: Vec<u64>,
    stop_subs: Vec<u64>,
    actuate_subs: Vec<u64>,
    peer_subs: Vec<u64>,
}

impl CommandBus {
    /// The consumers subscribed to a kind, in subscription order.
    pub closed spec fn subs_for(self, k: CommandKind) -> Seq<u64> {
        match k {
            CommandKind::StartSession => self.start_subs@,
            CommandKind::StopSession => self.stop_subs@,
            CommandKind::Actuate => self.actuate_subs@,
            CommandKind::PeerRegistered => self.peer_subs@,
        }
    }

    pub open spec fn subscribed(self, k: CommandKind, consumer: u64) -> bool {
        self.subs_for(k).contains(consumer)
    }

    pub open spec fn wf(self) -> bool {
        forall|k: CommandKind| (#[trigger] self.subs_for(k)).no_duplicates()
    }

    /// A bus with no subscribers at all.
    pub fn new() -> (r: CommandBus)
        ensures
            r.wf(),
            forall|k: CommandKind| (#[trigger] r.subs_for(k)).len() == 0,
    {
        CommandBus {
            start_subs: Vec::new(),
            stop_subs: Vec::new(),
            actuate_subs: Vec::new(),
            peer_subs: Vec::new(),
        }
    }

    fn list_for(&self, k: CommandKind) -> (r: &Vec<u64>)
        ensures
            r@ == self.subs_for(k),
    {
        match k {
            CommandKind::StartSession => &self.start_subs,
            CommandKind::StopSession => &self.stop_subs,
            CommandKind::Actuate => &self.actuate_subs,
            CommandKind::PeerRegistered => &self.peer_subs,
        }
    }

    fn contains_consumer(&self, k: CommandKind, consumer: u64) -> (b: bool)
        ensures
            b == self.subscribed(k, consumer),
    {
        let list = self.list_for(k);
        let mut i: usize = 0;
        while i < list.len()
            invariant
                i <= list@.len(),
                list@ == self.subs_for(k),
                forall|j: int| 0 <= j < i ==> self.subs_for(k)[j] != consumer,
            decreases list@.len() - i,
        {
            if list[i] == consumer {
                return true;
            }
            i += 1;
        }
        false
    }

    /// Subscribes a consumer to one command kind; already-subscribed
    /// consumers are left as they are, so no consumer is ever delivered to
    /// twice for one publish.
    pub fn subscribe(&mut self, k: CommandKind, consumer: u64)
        requires
            old(self).wf(),
        ensures
            final(self).wf(),
            old(self).subscribed(k, consumer) ==> *final(self) == *old(self),
            !old(self).subscribed(k, consumer) ==> final(self).subs_for(k) == old(self).subs_for(
                k,
            ).push(consumer),
            forall|k2: CommandKind| k2 != k ==> final(self).subs_for(k2) == old(self).subs_for(k2),
            final(self).subscribed(k, consumer),
    {
        if self.contains_consumer(k, consumer) {
            return;
        }
        match k {
            CommandKind::StartSession => self.start_subs.push(consumer),
            CommandKind::StopSession => self.stop_subs.push(consumer),
            CommandKind::Actuate => self.actuate_subs.push(consumer),
            CommandKind::PeerRegistered => self.peer_subs.push(consumer),
        }
        proof {
            let pre = *old(self);
            assert(self.subs_for(k) == pre.subs_for(k).push(consumer));
            assert forall|k2: CommandKind| k2 != k implies #[trigger] self.subs_for(k2)
                == pre.subs_for(k2) by {}
            assert(self.subs_for(k)[self.subs_for(k).len() - 1] == consumer);
            assert forall|k2: CommandKind| (#[trigger] self.subs_for(k2)).no_duplicates() by {
                if k2 == k {
                    let s = pre.subs_for(k);
                    assert(forall|j: int| 0 <= j < s.len() ==> #[trigger] s[j] != consumer) by {
                        assert(!s.contains(consumer));
                    }
                }
            }
        }
    }

    /// Publishes one command: one delivery per consumer currently subscribed
    /// to its kind, in subscription order, each consumer at most once. The
    /// bus itself is untouched — publishing never blocks — and with no
    /// subscriber the command is dropped by producing no deliveries.
    pub fn publish(&self, cmd: &Command) -> (ds: Vec<Delivery>)
        requires
            self.wf(),
        ensures
            ds@.len() == self.subs_for(cmd.kind_spec()).len(),
            forall|i: int|
                0 <= i < ds@.len() ==> (#[trigger] ds@[i]) == (Delivery {
                    consumer: self.subs_for(cmd.kind_spec())[i],
                    command: *cmd,
                }),
            ds@.map_values(|d: Delivery| d.consumer).no_duplicates(),
    {
        let kind = cmd.kind();
        let list = self.list_for(kind);
        let mut ds: Vec<Delivery> = Vec::new();
        let mut i: usize = 0;
        while i < list.len()
            invariant
                i <= list@.len(),
                list@ == self.subs_for(cmd.kind_spec()),
                ds@.len() == i,
                forall|j: int|
                    0 <= j < i ==> (#[trigger] ds@[j]) == (Delivery {
                        consumer: self.subs_for(cmd.kind_spec())[j],
                        command: *cmd,
                    }),
            decreases list@.len() - i,
        {
            ds.push(Delivery { consumer: list[i], command: *cmd });
            i += 1;
        }
        proof {
            let subs = self.subs_for(cmd.kind_spec());
            let consumers = ds@.map_values(|d: Delivery| d.consumer);
            assert(consumers.len() == subs.len());
            assert forall|a: int, b: int|
                0 <= a < consumers.len() && 0 <= b < consumers.len() && a != b
                implies consumers[a] != consumers[b] by {
                assert(consumers[a] == subs[a]);
                assert(consumers[b] == subs[b]);
            }
        }
        ds
    }
}

} // verus!
