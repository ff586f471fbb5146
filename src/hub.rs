//! The bridge's shared state: the store and the bus, and what happens when
//! a command is submitted, a report comes in or a subscriber connects.

use vstd::prelude::*;
use crate::bus::{Bus, BusModel, RecvModel, Received};
use crate::frame::{ByteOrder, frame_of};
use crate::message::encode_message;
use vstd::utf8::encode_utf8;
use crate::command::{sync_script_command, sync_script_text};
use crate::message::MessageKind;
use crate::store::{Script, StateStore, StoreModel, TabInfo, after_report, upserted};

verus! {

/// How many messages the bus keeps for subscribers that fall behind.
pub const BUS_CAPACITY: usize = 100;

/// What the writer towards the peer does next.
#[derive(Debug)]
pub enum Outbound {
    /// Write this frame.
    Frame(Vec<u8>),
    /// The writer fell behind and lost this many messages.
    Lagged(u64),
    /// Nothing to write yet.
    Idle,
    /// The writer is not subscribed.
    Closed,
    /// The next message is too long for a frame; it is skipped.
    TooLong,
}

/// The store and the bus of one bridge.
pub struct AppState {
    pub store: StateStore,
    pub bus: Bus,
}

/// The bus after an attempt to publish `msg`: unchanged only when no more
/// messages can be numbered.
pub open spec fn after_publish(b: BusModel, msg: Seq<char>) -> BusModel {
    if b.history.len() < u64::MAX {
        b.published(msg)
    } else {
        b
    }
}

impl AppState {
    pub open spec fn wf(&self) -> bool {
        self.store.wf() && self.bus.wf()
    }

    /// An empty store and a bus keeping `BUS_CAPACITY` messages.
    pub fn new() -> (r: AppState)
        ensures
            r.wf(),
            r.bus@.capacity == BUS_CAPACITY,
            r.bus@.history.len() == 0,
            r.bus@.cursors.len() == 0,
            r.store@.tabs.len() == 0,
            r.store@.scripts.len() == 0,
            r.store@.rules.len() == 0,
            r.store@.results.len() == 0,
    {
        AppState { store: StateStore::new(), bus: Bus::new(BUS_CAPACITY) }
    }

    /// Publishes a message on the bus. Returns false, and publishes
    /// nothing, only once `u64::MAX` messages have been published.
    pub fn publish(&mut self, msg: String) -> (r: bool)
        requires
            old(self).wf(),
        ensures
            final(self).wf(),
            r == (old(self).bus@.history.len() < u64::MAX),
            final(self).bus@ == after_publish(old(self).bus@, msg@),
            final(self).store@ == old(self).store@,
    {
        if self.bus.can_publish() {
            self.bus.publish(msg);
            true
        } else {
            false
        }
    }

    /// Takes in a report from the peer or from a subscriber.
    pub fn ingest(&mut self, kind: MessageKind, tabs: Option<Vec<TabInfo>>, text: String)
        requires
            old(self).wf(),
        ensures
            final(self).wf(),
            final(self).bus@ == old(self).bus@,
            final(self).store@ == after_report(
                old(self).store@,
                kind,
                match tabs {
                    Some(t) => Some(t@),
                    None => None,
                },
                text,
            ),
    {
        self.store.apply_report(kind, tabs, text);
    }

    /// Registers a script and announces it on the bus as a `sync_script`
    /// command.
    pub fn sync_script(&mut self, script: Script)
        requires
            old(self).wf(),
        ensures
            final(self).wf(),
            final(self).store@ == (StoreModel {
                scripts: upserted(old(self).store@.scripts, script),
                ..old(self).store@
            }),
            final(self).bus@ == after_publish(old(self).bus@, sync_script_text(script)),
    {
        let text = sync_script_command(&script);
        self.store.upsert_script(script);
        self.publish(text);
    }

    /// Joins a new subscriber to the bus and returns its id with the
    /// `sync_script` commands of every registered script, in order, for it
    /// to receive before live traffic. `None`, and no change, exactly when no
    /// subscriber id is left.
    pub fn connect(&mut self) -> (r: Option<(usize, Vec<String>)>)
        requires
            old(self).wf(),
        ensures
            final(self).wf(),
            final(self).store@ == old(self).store@,
            r is None <==> old(self).bus@.cursors.len() == usize::MAX,
            r is None ==> final(self).bus@ == old(self).bus@,
            r matches Some((id, snapshot)) ==> {
                &&& id == old(self).bus@.cursors.len()
                &&& final(self).bus@ == old(self).bus@.subscribed()
                &&& snapshot@.len() == old(self).store@.scripts.len()
                &&& forall|i: int|
                    0 <= i < snapshot@.len() ==> #[trigger] snapshot@[i]@ == sync_script_text(
                        old(self).store@.scripts[i],
                    )
            },
    {
        if self.bus.subscriber_count() == usize::MAX {
            return None;
        }
        let scripts = self.store.scripts();
        let mut snapshot: Vec<String> = Vec::new();
        let mut i: usize = 0;
        while i < scripts.len()
            invariant
                i <= scripts@.len(),
                scripts@ == self.store@.scripts,
                snapshot@.len() == i,
                forall|k: int|
                    0 <= k < i ==> #[trigger] snapshot@[k]@ == sync_script_text(scripts@[k]),
            decreases scripts@.len() - i,
        {
            let t = sync_script_command(&scripts[i]);
            snapshot.push(t);
            i += 1;
        }
        let id = self.bus.subscribe();
        Some((id, snapshot))
    }

    /// The next step of the writer towards the peer, subscribed as `id`:
    /// the frame of the next message it receives from the bus.
    pub fn next_frame(&mut self, id: usize, order: ByteOrder) -> (r: Outbound)
        requires
            old(self).wf(),
        ensures
            final(self).wf(),
            final(self).store@ == old(self).store@,
            final(self).bus@ == old(self).bus@.after_recv(id as int),
            match old(self).bus@.recv_outcome(id as int) {
                RecvModel::Message(m) => if encode_utf8(m).len() <= u32::MAX {
                    r matches Outbound::Frame(f) && f@ == frame_of(encode_utf8(m), order)
                } else {
                    r is TooLong
                },
                RecvModel::Lagged(n) => r matches Outbound::Lagged(k) && k == n,
                RecvModel::Empty => r is Idle,
                RecvModel::Closed => r is Closed,
            },
    {
        match self.bus.recv(id) {
            Received::Message(m) => match encode_message(m.as_str(), order) {
                Ok(f) => Outbound::Frame(f),
                Err(_) => Outbound::TooLong,
            },
            Received::Lagged(n) => Outbound::Lagged(n),
            Received::Empty => Outbound::Idle,
            Received::Closed => Outbound::Closed,
        }
    }
}

} // verus!
