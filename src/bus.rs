//! The command bus: a bounded broadcast channel of message texts. Every
//! subscriber sees, in order, the messages published after it subscribed;
//! one that falls more than the capacity behind skips to the oldest message
//! still kept, and publishers never wait for anyone.

use vstd::prelude::*;

verus! {

/// What a bus is: every message ever published, how many of the newest it
/// keeps, and where each subscriber stands.
pub struct BusModel {
    /// How many messages the bus keeps.
    pub capacity: nat,
    /// Every message published, in order; message `k` has sequence number `k`.
    pub history: Seq<Seq<char>>,
    /// The sequence number of the oldest message still kept.
    pub first: nat,
    /// For each subscriber, by id, the sequence number it reads next, or
    /// `None` once it has left.
    pub cursors: Seq<Option<nat>>,
}

/// What a subscriber gets when it reads.
pub enum RecvModel {
    Message(Seq<char>),
    Lagged(nat),
    Empty,
    Closed,
}

/// The outcome of a read by a subscriber.
#[derive(Debug)]
pub enum Received {
    /// The next message.
    Message(String),
    /// The subscriber had fallen behind: this many messages were lost, and
    /// it now stands at the oldest message kept.
    Lagged(u64),
    /// Nothing new has been published.
    Empty,
    /// No such subscriber.
    Closed,
}

impl View for Received {
    type V = RecvModel;

    open spec fn view(&self) -> RecvModel {
        match self {
            Received::Message(s) => RecvModel::Message(s@),
            Received::Lagged(n) => RecvModel::Lagged(*n as nat),
            Received::Empty => RecvModel::Empty,
            Received::Closed => RecvModel::Closed,
        }
    }
}

impl BusModel {
    pub open spec fn wf(self) -> bool {
        &&& self.capacity > 0
        &&& self.first <= self.history.len()
        &&& self.history.len() - self.first <= self.capacity
        &&& forall|id: int|
            0 <= id < self.cursors.len() && #[trigger] self.cursors[id] is Some
                ==> self.cursors[id]->Some_0 <= self.history.len()
    }

    /// The bus after `msg` is published: it joins the history, and the
    /// oldest kept message is let go once more than the capacity are kept.
    pub open spec fn published(self, msg: Seq<char>) -> BusModel {
        let history = self.history.push(msg);
        BusModel {
            history,
            first: if history.len() - self.first > self.capacity {
                self.first + 1
            } else {
                self.first
            },
            ..self
        }
    }

    /// The bus after each of `msgs` is published, in order.
    pub open spec fn published_all(self, msgs: Seq<Seq<char>>) -> BusModel
        decreases msgs.len(),
    {
        if msgs.len() == 0 {
            self
        } else {
            self.published_all(msgs.drop_last()).published(msgs.last())
        }
    }

    /// The bus after a new subscriber joins, at the end of the history.
    pub open spec fn subscribed(self) -> BusModel {
        BusModel { cursors: self.cursors.push(Some(self.history.len())), ..self }
    }

    /// The bus after subscriber `id` leaves.
    pub open spec fn unsubscribed(self, id: int) -> BusModel {
        if 0 <= id < self.cursors.len() {
            BusModel { cursors: self.cursors.update(id, None), ..self }
        } else {
            self
        }
    }

    /// Whether `id` is a current subscriber.
    pub open spec fn is_subscriber(self, id: int) -> bool {
        0 <= id < self.cursors.len() && self.cursors[id] is Some
    }

    /// The messages that subscriber `id` has yet to read, in order.
    pub open spec fn pending(self, id: int) -> Seq<Seq<char>> {
        if self.is_subscriber(id) {
            let c = self.cursors[id]->Some_0;
            let from = if c < self.first {
                self.first
            } else {
                c
            };
            self.history.subrange(from as int, self.history.len() as int)
        } else {
            Seq::empty()
        }
    }

    /// What subscriber `id` gets when it reads.
    pub open spec fn recv_outcome(self, id: int) -> RecvModel {
        if !self.is_subscriber(id) {
            RecvModel::Closed
        } else {
            let c = self.cursors[id]->Some_0;
            if c < self.first {
                RecvModel::Lagged((self.first - c) as nat)
            } else if c == self.history.len() {
                RecvModel::Empty
            } else {
                RecvModel::Message(self.history[c as int])
            }
        }
    }

    /// The bus after subscriber `id` reads.
    pub open spec fn after_recv(self, id: int) -> BusModel {
        if !self.is_subscriber(id) {
            self
        } else {
            let c = self.cursors[id]->Some_0;
            if c < self.first {
                BusModel { cursors: self.cursors.update(id, Some(self.first)), ..self }
            } else if c == self.history.len() {
                self
            } else {
                BusModel { cursors: self.cursors.update(id, Some(c + 1)), ..self }
            }
        }
    }
}

pub open spec fn cursor_view(c: Option<u64>) -> Option<nat> {
    match c {
        Some(x) => Some(x as nat),
        None => None,
    }
}

/// A bounded broadcast channel of message texts.
pub struct Bus {
    capacity: usize,
    /// The newest messages, oldest first.
    retained: Vec<String>,
    /// How many messages were ever published.
    next_seq: u64,
    cursors: Vec<Option<u64>>,
    history: Ghost<Seq<Seq<char>>>,
}

impl View for Bus {
    type V = BusModel;

    closed spec fn view(&self) -> BusModel {
        BusModel {
            capacity: self.capacity as nat,
            history: self.history@,
            first: (self.next_seq - self.retained@.len()) as nat,
            cursors: self.cursors@.map_values(|c: Option<u64>| cursor_view(c)),
        }
    }
}

impl Bus {
    /// Whether the bus is in a state that its operations keep: its model is
    /// well formed, and its buffer agrees with the model.
    pub open spec fn wf(&self) -> bool {
        self@.wf() && self.buffer_agrees()
    }

    /// The kept messages are the newest of the history, and the message
    /// counter is the length of the history.
    pub closed spec fn buffer_agrees(&self) -> bool {
        &&& self.retained@.len() <= self.next_seq
        &&& self.history@.len() == self.next_seq
        &&& forall|i: int|
            0 <= i < self.retained@.len() ==> #[trigger] self.retained@[i]@ == self.history@[self.next_seq
                - self.retained@.len() + i]
    }

    /// An empty bus that keeps up to `capacity` messages.
    pub fn new(capacity: usize) -> (r: Bus)
        requires
            capacity > 0,
        ensures
            r.wf(),
            r@.capacity == capacity,
            r@.history.len() == 0,
            r@.first == 0,
            r@.cursors.len() == 0,
    {
        let r = Bus {
            capacity,
            retained: Vec::new(),
            next_seq: 0,
            cursors: Vec::new(),
            history: Ghost(Seq::empty()),
        };
        assert(r@.cursors =~= Seq::<Option<nat>>::empty());
        r
    }

    /// Whether another message can be numbered: false only after `u64::MAX`
    /// messages.
    pub fn can_publish(&self) -> (r: bool)
        requires
            self.wf(),
        ensures
            r == (self@.history.len() < u64::MAX),
    {
        self.next_seq < u64::MAX
    }

    /// How many subscribers ever joined, those that left included.
    pub fn subscriber_count(&self) -> (r: usize)
        ensures
            r == self@.cursors.len(),
    {
        self.cursors.len()
    }

    /// Joins the bus; the new subscriber sees only what is published from
    /// now on.
    pub fn subscribe(&mut self) -> (id: usize)
        requires
            old(self).wf(),
            old(self)@.cursors.len() < usize::MAX,
        ensures
            final(self).wf(),
            final(self)@ == old(self)@.subscribed(),
            id == old(self)@.cursors.len(),
    {
        let id = self.cursors.len();
        self.cursors.push(Some(self.next_seq));
        assert(self@.cursors =~= old(self)@.cursors.push(Some(old(self)@.history.len())));
        id
    }

    /// Leaves the bus.
    pub fn unsubscribe(&mut self, id: usize)
        requires
            old(self).wf(),
        ensures
            final(self).wf(),
            final(self)@ == old(self)@.unsubscribed(id as int),
    {
        if id < self.cursors.len() {
            self.cursors.set(id, None);
            assert(self@.cursors =~= old(self)@.cursors.update(id as int, None));
        }
    }

    /// Publishes a message to every current subscriber. Never waits and
    /// never fails, whoever is or is not reading.
    pub fn publish(&mut self, msg: String)
        requires
            old(self).wf(),
            old(self)@.history.len() < u64::MAX,
        ensures
            final(self).wf(),
            final(self)@ == old(self)@.published(msg@),
    {
        let ghost old_first = self@.first;
        if self.retained.len() == self.capacity {
            self.retained.remove(0);
        }
        let ghost m = msg@;
        self.retained.push(msg);
        self.next_seq = self.next_seq + 1;
        self.history = Ghost(self.history@.push(m));
        assert(self@.history == old(self)@.history.push(m));
        assert forall|i: int| 0 <= i < self.retained@.len() implies #[trigger] self.retained@[i]@
            == self.history@[self.next_seq - self.retained@.len() + i] by {
            if i < self.retained@.len() - 1 {
                if old(self).retained@.len() == old(self).capacity {
                    assert(self.retained@[i] == old(self).retained@[i + 1]);
                } else {
                    assert(self.retained@[i] == old(self).retained@[i]);
                }
            }
        }
        assert(self@ == old(self)@.published(m));
    }

    /// Reads the next message for subscriber `id`. A subscriber that had
    /// fallen behind is told how many messages it lost and moves to the
    /// oldest message still kept.
    pub fn recv(&mut self, id: usize) -> (r: Received)
        requires
            old(self).wf(),
        ensures
            final(self).wf(),
            r@ == old(self)@.recv_outcome(id as int),
            final(self)@ == old(self)@.after_recv(id as int),
    {
        if id >= self.cursors.len() {
            return Received::Closed;
        }
        let c = match self.cursors[id] {
            Some(c) => c,
            None => return Received::Closed,
        };
        assert(self@.cursors[id as int] == Some(c as nat));
        let first = self.next_seq - self.retained.len() as u64;
        if c < first {
            self.cursors.set(id, Some(first));
            assert(self@.cursors =~= old(self)@.cursors.update(id as int, Some(first as nat)));
            Received::Lagged(first - c)
        } else if c == self.next_seq {
            Received::Empty
        } else {
            let msg = self.retained[(c - first) as usize].clone();
            self.cursors.set(id, Some(c + 1));
            assert(self@.cursors =~= old(self)@.cursors.update(id as int, Some((c + 1) as nat)));
            Received::Message(msg)
        }
    }
}

/// Every subscriber present at a publish, and not so far behind that the
/// message would push its own unread ones out, gets the message after all
/// it had yet to read.
pub proof fn lemma_fan_out(m: BusModel, msg: Seq<char>, id: int)
    requires
        m.wf(),
        m.is_subscriber(id),
        m.pending(id).len() < m.capacity,
    ensures
        m.published(msg).pending(id) == m.pending(id).push(msg),
        m.published(msg).wf(),
{
    let p = m.published(msg);
    assert(p.pending(id) =~= m.pending(id).push(msg));
}

/// Every subscriber present before a run of publishes, with room for them
/// all, has exactly those messages pending after what it had, in the order
/// they were published.
pub proof fn lemma_fan_out_in_order(m: BusModel, msgs: Seq<Seq<char>>, id: int)
    requires
        m.wf(),
        m.is_subscriber(id),
        m.pending(id).len() + msgs.len() <= m.capacity,
    ensures
        m.published_all(msgs).pending(id) == m.pending(id) + msgs,
        m.published_all(msgs).wf(),
        m.published_all(msgs).cursors == m.cursors,
        m.published_all(msgs).capacity == m.capacity,
    decreases msgs.len(),
{
    if msgs.len() == 0 {
        assert(m.pending(id) + msgs =~= m.pending(id));
    } else {
        let prev = msgs.drop_last();
        lemma_fan_out_in_order(m, prev, id);
        let mid = m.published_all(prev);
        assert(mid.pending(id).len() == m.pending(id).len() + prev.len());
        lemma_fan_out(mid, msgs.last(), id);
        assert(m.pending(id) + prev + seq![msgs.last()] =~= m.pending(id) + msgs);
        assert(m.pending(id) + prev.push(msgs.last()) =~= m.pending(id) + msgs);
    }
}

/// A subscriber that joins sees nothing of what was published before it.
pub proof fn lemma_no_replay(m: BusModel)
    requires
        m.wf(),
    ensures
        m.subscribed().pending(m.cursors.len() as int) == Seq::<Seq<char>>::empty(),
        m.subscribed().wf(),
{
    assert(m.subscribed().pending(m.cursors.len() as int) =~= Seq::<Seq<char>>::empty());
}

/// A subscriber that is not behind reads its pending messages in order: it
/// gets the first, and the rest stay pending.
pub proof fn lemma_receive_in_order(m: BusModel, id: int)
    requires
        m.wf(),
        m.is_subscriber(id),
        m.cursors[id]->Some_0 >= m.first,
        m.pending(id).len() > 0,
    ensures
        m.recv_outcome(id) == RecvModel::Message(m.pending(id)[0]),
        m.after_recv(id).pending(id) == m.pending(id).drop_first(),
        m.after_recv(id).wf(),
{
    assert(m.after_recv(id).pending(id) =~= m.pending(id).drop_first());
}

/// A subscriber that fell behind is told so, without loss of the bus's
/// state, and afterwards has pending exactly the messages the bus still
/// keeps: a contiguous run at the end of the history, no longer than the
/// capacity, starting with the oldest kept message.
pub proof fn lemma_lag_recovery(m: BusModel, id: int)
    requires
        m.wf(),
        m.is_subscriber(id),
        m.cursors[id]->Some_0 < m.first,
    ensures
        m.recv_outcome(id) == RecvModel::Lagged((m.first - m.cursors[id]->Some_0) as nat),
        m.after_recv(id).history == m.history,
        m.after_recv(id).pending(id) == m.history.subrange(m.first as int, m.history.len() as int),
        m.after_recv(id).pending(id).len() <= m.capacity,
        m.after_recv(id).wf(),
{
}

} // verus!
