//! The demultiplexer: registration tables, consulted in a fixed order, and a
//! bounded buffer for the frames that nobody claimed.

use crate::channel::{
    bounded_capacity, bounded_pair, bounded_sender_clone, fanout_rx_chan, fanout_sender,
    fanout_sender_clone, fanout_subscribe, fanout_tx_chan, mpsc_rx_chan, mpsc_tx_chan, notice_rx_chan,
    notice_sender, notice_sender_clone, notice_subscribe, notice_tx_chan, oneshot_pair,
    oneshot_rx_chan, oneshot_tx_chan,
};
use crate::frame::{is_service_method, service_method_code, Frame, JobId, Notification};
use crate::ring::{evicted, last_n, lemma_pushes_keep_last, pushed, pushed_all, RingBuffer};
use crate::table::Table;
use steam_vent_proto::MsgKind;
use tokio::sync::{broadcast, mpsc, oneshot};
use vstd::prelude::*;

verus! {

/// How many frames nobody claimed are kept.
pub const UNMATCHED_CAPACITY: usize = 32;

/// The bound of a streaming reply channel.
pub const STREAM_CAPACITY: usize = 16;

/// The capacity of a fan-out channel.
pub const FANOUT_CAPACITY: usize = 16;

/// Where a frame goes, in order of precedence.
#[derive(Clone, Copy, Debug, PartialEq, Eq)]
pub enum Route {
    /// The single-answer registration for its correlation id.
    OnceById,
    /// The streaming registration for its correlation id.
    ManyById,
    /// The single-answer registration for its kind.
    OnceByKind,
    /// A service-method frame: it is decoded and goes by its event name.
    Notification,
    /// The fan-out registration for its kind.
    ByKind,
    /// Nobody claimed it: the buffer of unmatched frames.
    Unmatched,
}

/// The registrations of a filter, each key with the sender stored for it, and
/// its unmatched frames.
pub struct FilterView {
    pub once_ids: Map<u64, oneshot::Sender<Frame>>,
    pub many_ids: Map<u64, mpsc::Sender<Frame>>,
    pub once_kinds: Map<i32, oneshot::Sender<Frame>>,
    pub kinds: Map<i32, broadcast::Sender<Frame>>,
    pub names: Map<Seq<char>, broadcast::Sender<Notification>>,
    pub unmatched: Seq<Frame>,
}

impl FilterView {
    /// The route of a frame with correlation id `id` and kind code `kind`.
    pub open spec fn route_of(self, id: u64, kind: i32) -> Route {
        if self.once_ids.contains_key(id) {
            Route::OnceById
        } else if self.many_ids.contains_key(id) {
            Route::ManyById
        } else if self.once_kinds.contains_key(kind) {
            Route::OnceByKind
        } else if kind == service_method_code() {
            Route::Notification
        } else if self.kinds.contains_key(kind) {
            Route::ByKind
        } else {
            Route::Unmatched
        }
    }

    /// The state after frame `f` is dispatched: a single-answer registration
    /// that takes it is consumed, and an unmatched frame is buffered.
    pub open spec fn routed(self, f: Frame) -> FilterView {
        match self.route_of(f.job_id.0, f.kind.0) {
            Route::OnceById => FilterView { once_ids: self.once_ids.remove(f.job_id.0), ..self },
            Route::OnceByKind => FilterView { once_kinds: self.once_kinds.remove(f.kind.0), ..self },
            Route::Unmatched => FilterView {
                unmatched: pushed(self.unmatched, UNMATCHED_CAPACITY as nat, f),
                ..self
            },
            _ => self,
        }
    }

    /// The state after every frame of `fs` is dispatched, in order.
    pub open spec fn routed_all(self, fs: Seq<Frame>) -> FilterView
        decreases fs.len(),
    {
        if fs.len() == 0 {
            self
        } else {
            self.routed(fs[0]).routed_all(fs.drop_first())
        }
    }

    pub open spec fn with_once_id(self, id: u64, tx: oneshot::Sender<Frame>) -> FilterView {
        FilterView { once_ids: self.once_ids.insert(id, tx), ..self }
    }

    pub open spec fn with_many_id(self, id: u64, tx: mpsc::Sender<Frame>) -> FilterView {
        FilterView { many_ids: self.many_ids.insert(id, tx), ..self }
    }

    pub open spec fn without_many_id(self, id: u64) -> FilterView {
        FilterView { many_ids: self.many_ids.remove(id), ..self }
    }

    pub open spec fn with_once_kind(self, kind: i32, tx: oneshot::Sender<Frame>) -> FilterView {
        FilterView { once_kinds: self.once_kinds.insert(kind, tx), ..self }
    }

    pub open spec fn with_kind(self, kind: i32, tx: broadcast::Sender<Frame>) -> FilterView {
        FilterView { kinds: self.kinds.insert(kind, tx), ..self }
    }

    pub open spec fn with_name(self, name: Seq<char>, tx: broadcast::Sender<Notification>) -> FilterView {
        FilterView { names: self.names.insert(name, tx), ..self }
    }

    pub open spec fn drained(self) -> FilterView {
        FilterView { unmatched: Seq::empty(), ..self }
    }
}

/// A single-answer registration for `id` takes the first frame with that id,
/// through the sender registered for it, and is consumed by it: a second frame
/// with `id` goes elsewhere.
pub proof fn lemma_once_by_id_answers_once(
    v: FilterView,
    id: u64,
    tx: oneshot::Sender<Frame>,
    first: Frame,
    second: Frame,
)
    requires
        first.job_id.0 == id,
        second.job_id.0 == id,
    ensures
        v.with_once_id(id, tx).route_of(id, first.kind.0) == Route::OnceById,
        v.with_once_id(id, tx).once_ids[id] == tx,
        !v.with_once_id(id, tx).routed(first).once_ids.contains_key(id),
        v.with_once_id(id, tx).routed(first).route_of(id, second.kind.0) != Route::OnceById,
{
}

proof fn lemma_stream_keeps_state(w: FilterView, id: u64, fs: Seq<Frame>)
    requires
        !w.once_ids.contains_key(id),
        w.many_ids.contains_key(id),
        forall|i: int| 0 <= i < fs.len() ==> (#[trigger] fs[i]).job_id.0 == id,
    ensures
        w.routed_all(fs) == w,
    decreases fs.len(),
{
    if fs.len() > 0 {
        assert(fs[0].job_id.0 == id);
        assert(w.routed(fs[0]) == w);
        let rest = fs.drop_first();
        assert forall|i: int| 0 <= i < rest.len() implies (#[trigger] rest[i]).job_id.0 == id by {
            assert(rest[i] == fs[i + 1]);
        }
        lemma_stream_keeps_state(w, id, rest);
    }
}

/// While a streaming registration for `id` stands, and no single-answer one
/// for `id`, every frame with `id` goes to it, in arrival order, and it stays
/// registered with the same sender; once it is completed, no frame with `id`
/// goes to it.
pub proof fn lemma_stream_until_complete(
    v: FilterView,
    id: u64,
    tx: mpsc::Sender<Frame>,
    fs: Seq<Frame>,
    later: Frame,
)
    requires
        !v.once_ids.contains_key(id),
        forall|i: int| 0 <= i < fs.len() ==> (#[trigger] fs[i]).job_id.0 == id,
        later.job_id.0 == id,
    ensures
        forall|i: int|
            0 <= i < fs.len() ==> v.with_many_id(id, tx).routed_all(fs.take(i)).route_of(
                id,
                (#[trigger] fs[i]).kind.0,
            ) == Route::ManyById,
        v.with_many_id(id, tx).routed_all(fs) == v.with_many_id(id, tx),
        v.with_many_id(id, tx).many_ids[id] == tx,
        v.with_many_id(id, tx).routed_all(fs).without_many_id(id).route_of(id, later.kind.0)
            != Route::ManyById,
{
    let w = v.with_many_id(id, tx);
    lemma_stream_keeps_state(w, id, fs);
    assert forall|i: int| 0 <= i < fs.len() implies w.routed_all(fs.take(i)).route_of(
        id,
        (#[trigger] fs[i]).kind.0,
    ) == Route::ManyById by {
        let p = fs.take(i);
        assert forall|j: int| 0 <= j < p.len() implies (#[trigger] p[j]).job_id.0 == id by {
            assert(p[j] == fs[j]);
        }
        lemma_stream_keeps_state(w, id, p);
    }
}

/// A frame of a subscribed kind that nothing of higher precedence claims goes
/// to the fan-out sender registered for that kind.
pub proof fn lemma_kind_fanout(v: FilterView, kind: i32, tx: broadcast::Sender<Frame>, f: Frame)
    requires
        f.kind.0 == kind,
        kind != service_method_code(),
        !v.once_ids.contains_key(f.job_id.0),
        !v.many_ids.contains_key(f.job_id.0),
        !v.once_kinds.contains_key(kind),
    ensures
        v.with_kind(kind, tx).route_of(f.job_id.0, kind) == Route::ByKind,
        v.with_kind(kind, tx).kinds[kind] == tx,
        v.with_kind(kind, tx).routed(f) == v.with_kind(kind, tx),
{
}

/// A single-answer registration for `kind` takes only the first frame of that
/// kind; the second goes to the fan-out registration for `kind` if there is
/// one, and to the unmatched buffer otherwise.
pub proof fn lemma_once_kind_first_only(
    v: FilterView,
    kind: i32,
    tx: oneshot::Sender<Frame>,
    first: Frame,
    second: Frame,
)
    requires
        first.kind.0 == kind,
        second.kind.0 == kind,
        kind != service_method_code(),
        !v.once_ids.contains_key(first.job_id.0),
        !v.many_ids.contains_key(first.job_id.0),
        !v.once_ids.contains_key(second.job_id.0),
        !v.many_ids.contains_key(second.job_id.0),
    ensures
        v.with_once_kind(kind, tx).route_of(first.job_id.0, kind) == Route::OnceByKind,
        v.with_once_kind(kind, tx).once_kinds[kind] == tx,
        v.with_once_kind(kind, tx).routed(first).route_of(second.job_id.0, kind) == (if v.kinds.contains_key(
            kind,
        ) {
            Route::ByKind
        } else {
            Route::Unmatched
        }),
{
}

/// A service-method frame that nothing of higher precedence claims goes by its
/// decoded event name alone: it leaves every registration as it was and never
/// reaches the unmatched buffer, whatever the decoding gives.
pub proof fn lemma_notification_not_buffered(v: FilterView, f: Frame)
    requires
        f.kind.0 == service_method_code(),
        !v.once_ids.contains_key(f.job_id.0),
        !v.many_ids.contains_key(f.job_id.0),
        !v.once_kinds.contains_key(f.kind.0),
    ensures
        v.route_of(f.job_id.0, f.kind.0) == Route::Notification,
        v.routed(f) == v,
{
}

/// A frame whose correlation id has a single-answer registration goes there,
/// whatever other registrations its kind has, and leaves them as they were.
pub proof fn lemma_id_takes_precedence(v: FilterView, f: Frame)
    requires
        v.once_ids.contains_key(f.job_id.0),
    ensures
        v.route_of(f.job_id.0, f.kind.0) == Route::OnceById,
        v.routed(f).kinds == v.kinds,
        v.routed(f).once_kinds == v.once_kinds,
        v.routed(f).many_ids == v.many_ids,
        v.routed(f).unmatched == v.unmatched,
{
}

proof fn lemma_unmatched_pushes(v: FilterView, fs: Seq<Frame>)
    requires
        forall|i: int| 0 <= i < fs.len() ==> v.route_of((#[trigger] fs[i]).job_id.0, fs[i].kind.0) == Route::Unmatched,
    ensures
        v.routed_all(fs) == (FilterView {
            unmatched: pushed_all(v.unmatched, UNMATCHED_CAPACITY as nat, fs),
            ..v
        }),
    decreases fs.len(),
{
    if fs.len() > 0 {
        assert(v.route_of(fs[0].job_id.0, fs[0].kind.0) == Route::Unmatched);
        let v1 = v.routed(fs[0]);
        let rest = fs.drop_first();
        assert forall|i: int| 0 <= i < rest.len() implies v1.route_of((#[trigger] rest[i]).job_id.0, rest[i].kind.0) == Route::Unmatched by {
            assert(rest[i] == fs[i + 1]);
        }
        lemma_unmatched_pushes(v1, rest);
    }
}

/// Frames that match no registration are buffered in arrival order, and the
/// buffer then holds exactly the last `UNMATCHED_CAPACITY` of what it held and
/// what arrived; the registrations are left as they were.
pub proof fn lemma_unmatched_buffered(v: FilterView, fs: Seq<Frame>)
    requires
        v.unmatched.len() <= UNMATCHED_CAPACITY,
        forall|i: int| 0 <= i < fs.len() ==> v.route_of((#[trigger] fs[i]).job_id.0, fs[i].kind.0) == Route::Unmatched,
    ensures
        v.routed_all(fs).unmatched == last_n(v.unmatched + fs, UNMATCHED_CAPACITY as nat),
        v.routed_all(fs).drained() == v.drained(),
{
    lemma_unmatched_pushes(v, fs);
    lemma_pushes_keep_last(v.unmatched, UNMATCHED_CAPACITY as nat, fs);
}

/// Where a dispatched frame goes: the sender to hand it to, with the frame, or
/// what is left for the caller to do.
pub enum Dispatch {
    /// For the single-answer registration of its correlation id; that
    /// registration is consumed.
    Answer(oneshot::Sender<Frame>, Frame),
    /// For the streaming registration of its correlation id; the send waits for
    /// room.
    Stream(mpsc::Sender<Frame>, Frame),
    /// For the single-answer registration of its kind; that registration is
    /// consumed.
    AnswerKind(oneshot::Sender<Frame>, Frame),
    /// A service-method frame: decode it and pass the result to
    /// `route_notification`.
    Decode(Frame),
    /// For the fan-out registration of its kind.
    Broadcast(broadcast::Sender<Frame>, Frame),
    /// Buffered as unmatched; the frame evicted to make room, if any.
    Unmatched(Option<Frame>),
}

impl Dispatch {
    pub open spec fn route(&self) -> Route {
        match self {
            Dispatch::Answer(_, _) => Route::OnceById,
            Dispatch::Stream(_, _) => Route::ManyById,
            Dispatch::AnswerKind(_, _) => Route::OnceByKind,
            Dispatch::Decode(_) => Route::Notification,
            Dispatch::Broadcast(_, _) => Route::ByKind,
            Dispatch::Unmatched(_) => Route::Unmatched,
        }
    }
}

/// A filter for incoming frames: consumers register by correlation id, by kind
/// or by notification name, and each frame goes to at most one registration.
pub struct MessageFilter {
    job_id_filters: Table<u64, oneshot::Sender<Frame>>,
    job_id_multi_filters: Table<u64, mpsc::Sender<Frame>>,
    notification_filters: Table<String, broadcast::Sender<Notification>>,
    kind_filters: Table<i32, broadcast::Sender<Frame>>,
    oneshot_kind_filters: Table<i32, oneshot::Sender<Frame>>,
    rest: RingBuffer<Frame>,
}

impl MessageFilter {
    pub closed spec fn view(&self) -> FilterView {
        FilterView {
            once_ids: self.job_id_filters@,
            many_ids: self.job_id_multi_filters@,
            once_kinds: self.oneshot_kind_filters@,
            kinds: self.kind_filters@,
            names: self.notification_filters@,
            unmatched: self.rest@,
        }
    }

    pub closed spec fn well_formed(&self) -> bool {
        &&& self.job_id_filters.well_formed()
        &&& self.job_id_multi_filters.well_formed()
        &&& self.notification_filters.well_formed()
        &&& self.kind_filters.well_formed()
        &&& self.oneshot_kind_filters.well_formed()
        &&& self.rest.well_formed()
        &&& self.rest.capacity_spec() == UNMATCHED_CAPACITY
        &&& self.rest@.len() <= UNMATCHED_CAPACITY
    }

    /// A filter with no registrations and no buffered frames.
    pub fn new() -> (r: Self)
        ensures
            r.well_formed(),
            r@.once_ids == Map::<u64, oneshot::Sender<Frame>>::empty(),
            r@.many_ids == Map::<u64, mpsc::Sender<Frame>>::empty(),
            r@.once_kinds == Map::<i32, oneshot::Sender<Frame>>::empty(),
            r@.kinds == Map::<i32, broadcast::Sender<Frame>>::empty(),
            r@.names == Map::<Seq<char>, broadcast::Sender<Notification>>::empty(),
            r@.unmatched == Seq::<Frame>::empty(),
    {
        MessageFilter {
            job_id_filters: Table::new(),
            job_id_multi_filters: Table::new(),
            notification_filters: Table::new(),
            kind_filters: Table::new(),
            oneshot_kind_filters: Table::new(),
            rest: RingBuffer::new(UNMATCHED_CAPACITY),
        }
    }

    /// Routes one frame by the fixed precedence of `FilterView::route_of`, and
    /// returns the sender that is registered for it together with the frame.
    /// A single-answer registration that takes the frame is consumed; an
    /// unmatched frame is buffered.
    pub fn dispatch(&mut self, frame: Frame) -> (r: Dispatch)
        requires
            old(self).well_formed(),
        ensures
            final(self).well_formed(),
            final(self)@ == old(self)@.routed(frame),
            r.route() == old(self)@.route_of(frame.job_id.0, frame.kind.0),
            r matches Dispatch::Answer(tx, f) ==> tx == old(self)@.once_ids[frame.job_id.0] && f == frame,
            r matches Dispatch::Stream(tx, f) ==> f == frame && mpsc_tx_chan(tx) == mpsc_tx_chan(
                old(self)@.many_ids[frame.job_id.0],
            ) && bounded_capacity(tx) == bounded_capacity(old(self)@.many_ids[frame.job_id.0]),
            r matches Dispatch::AnswerKind(tx, f) ==> tx == old(self)@.once_kinds[frame.kind.0] && f
                == frame,
            r matches Dispatch::Decode(f) ==> f == frame,
            r matches Dispatch::Broadcast(tx, f) ==> f == frame && fanout_tx_chan(tx) == fanout_tx_chan(
                old(self)@.kinds[frame.kind.0],
            ),
            r matches Dispatch::Unmatched(e) ==> e == evicted(
                old(self)@.unmatched,
                UNMATCHED_CAPACITY as nat,
                frame,
            ),
    {
        let id = frame.job_id.0;
        let kind = frame.kind;
        let code = kind.0;
        match self.job_id_filters.remove(&id) {
            Some(tx) => {
                return Dispatch::Answer(tx, frame);
            },
            None => {
                assert(self.job_id_filters@ =~= old(self).job_id_filters@);
            },
        }
        if let Some(tx) = self.job_id_multi_filters.get(&id) {
            return Dispatch::Stream(bounded_sender_clone(tx), frame);
        }
        match self.oneshot_kind_filters.remove(&code) {
            Some(tx) => {
                return Dispatch::AnswerKind(tx, frame);
            },
            None => {
                assert(self.oneshot_kind_filters@ =~= old(self).oneshot_kind_filters@);
            },
        }
        if is_service_method(kind) {
            return Dispatch::Decode(frame);
        }
        if let Some(tx) = self.kind_filters.get(&code) {
            return Dispatch::Broadcast(fanout_sender_clone(tx), frame);
        }
        let evicted_frame = self.rest.push(frame);
        Dispatch::Unmatched(evicted_frame)
    }

    /// Takes the decoded form of a frame that `dispatch` returned as `Decode`,
    /// and returns the sender registered for its event name together with it.
    /// Nothing is returned when decoding failed (`None`) or nobody subscribed
    /// to that name: the frame is then dropped.
    pub fn route_notification(&self, decoded: Option<Notification>) -> (r: Option<
        (broadcast::Sender<Notification>, Notification),
    >)
        requires
            self.well_formed(),
        ensures
            r.is_some() == (decoded matches Some(n) && self@.names.contains_key(n.job_name@)),
            r matches Some(p) ==> decoded == Some(p.1) && notice_tx_chan(p.0) == notice_tx_chan(
                self@.names[p.1.job_name@],
            ),
    {
        match decoded {
            Some(n) => match self.notification_filters.get(&n.job_name) {
                Some(tx) => Some((notice_sender_clone(tx), n)),
                None => None,
            },
            None => None,
        }
    }

    /// Registers a single-answer consumer for the frame with correlation id
    /// `id`, replacing any earlier one for the same id; the returned receiver
    /// reads the channel of the sender stored for `id`.
    pub fn on_job_id(&mut self, id: JobId) -> (r: oneshot::Receiver<Frame>)
        requires
            old(self).well_formed(),
        ensures
            final(self).well_formed(),
            final(self)@ == old(self)@.with_once_id(id.0, final(self)@.once_ids[id.0]),
            oneshot_tx_chan(final(self)@.once_ids[id.0]) == oneshot_rx_chan(r),
    {
        let (tx, rx) = oneshot_pair();
        self.job_id_filters.insert(id.0, tx);
        rx
    }

    /// Registers a streaming consumer for every frame with correlation id `id`,
    /// until `complete_job_id_multi`, replacing any earlier one for the same
    /// id; its channel holds `STREAM_CAPACITY` frames, and the returned
    /// receiver reads the channel of the sender stored for `id`.
    pub fn on_job_id_multi(&mut self, id: JobId) -> (r: mpsc::Receiver<Frame>)
        requires
            old(self).well_formed(),
        ensures
            final(self).well_formed(),
            final(self)@ == old(self)@.with_many_id(id.0, final(self)@.many_ids[id.0]),
            mpsc_tx_chan(final(self)@.many_ids[id.0]) == mpsc_rx_chan(r),
            bounded_capacity(final(self)@.many_ids[id.0]) == STREAM_CAPACITY,
    {
        let (tx, rx) = bounded_pair(STREAM_CAPACITY);
        self.job_id_multi_filters.insert(id.0, tx);
        rx
    }

    /// Ends the streaming registration for `id`, if there is one.
    pub fn complete_job_id_multi(&mut self, id: JobId)
        requires
            old(self).well_formed(),
        ensures
            final(self).well_formed(),
            final(self)@ == old(self)@.without_many_id(id.0),
    {
        let _ = self.job_id_multi_filters.remove(&id.0);
    }

    /// Subscribes to the notifications named `job_name`. The fan-out channel for
    /// that name is made on first use and then kept: the returned receiver
    /// reads the channel of the sender stored for the name.
    pub fn on_notification(&mut self, job_name: &str) -> (r: broadcast::Receiver<Notification>)
        requires
            old(self).well_formed(),
        ensures
            final(self).well_formed(),
            old(self)@.names.contains_key(job_name@) ==> final(self)@ == old(self)@,
            !old(self)@.names.contains_key(job_name@) ==> final(self)@ == old(self)@.with_name(
                job_name@,
                final(self)@.names[job_name@],
            ),
            notice_tx_chan(final(self)@.names[job_name@]) == notice_rx_chan(r),
    {
        let name = String::from_str(job_name);
        match self.notification_filters.get(&name) {
            Some(tx) => notice_subscribe(tx),
            None => {
                let tx = notice_sender(FANOUT_CAPACITY);
                let rx = notice_subscribe(&tx);
                self.notification_filters.insert(name, tx);
                rx
            },
        }
    }

    /// Subscribes to the frames of `kind`. The fan-out channel for that kind is
    /// made on first use and then kept: the returned receiver reads the channel
    /// of the sender stored for the kind.
    pub fn on_kind(&mut self, kind: MsgKind) -> (r: broadcast::Receiver<Frame>)
        requires
            old(self).well_formed(),
        ensures
            final(self).well_formed(),
            old(self)@.kinds.contains_key(kind.0) ==> final(self)@ == old(self)@,
            !old(self)@.kinds.contains_key(kind.0) ==> final(self)@ == old(self)@.with_kind(
                kind.0,
                final(self)@.kinds[kind.0],
            ),
            fanout_tx_chan(final(self)@.kinds[kind.0]) == fanout_rx_chan(r),
    {
        let code = kind.0;
        match self.kind_filters.get(&code) {
            Some(tx) => fanout_subscribe(tx),
            None => {
                let tx = fanout_sender(FANOUT_CAPACITY);
                let rx = fanout_subscribe(&tx);
                self.kind_filters.insert(code, tx);
                rx
            },
        }
    }

    /// Registers a single-answer consumer for the next frame of `kind`,
    /// replacing any earlier one for the same kind; the returned receiver reads
    /// the channel of the sender stored for `kind`.
    pub fn one_kind(&mut self, kind: MsgKind) -> (r: oneshot::Receiver<Frame>)
        requires
            old(self).well_formed(),
        ensures
            final(self).well_formed(),
            final(self)@ == old(self)@.with_once_kind(kind.0, final(self)@.once_kinds[kind.0]),
            oneshot_tx_chan(final(self)@.once_kinds[kind.0]) == oneshot_rx_chan(r),
    {
        let (tx, rx) = oneshot_pair();
        self.oneshot_kind_filters.insert(kind.0, tx);
        rx
    }

    /// Removes and returns the buffered unmatched frames, oldest first.
    pub fn unprocessed(&mut self) -> (r: Vec<Frame>)
        requires
            old(self).well_formed(),
        ensures
            final(self).well_formed(),
            r@ == old(self)@.unmatched,
            final(self)@ == old(self)@.drained(),
    {
        let r = self.rest.take();
        assert(self@ =~= old(self)@.drained());
        r
    }
}

} // verus!
