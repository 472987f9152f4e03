//! What a sender does while the receiving server is down: which packets it
//! posts, which ones it keeps for later, what it reports after each post, and
//! when it gives up.

use vstd::prelude::*;

verus! {

/// The state of a sender, as contracts see it.
pub struct BacklogState<T> {
    /// The packets kept, oldest first.
    pub items: Seq<T>,
    /// Whether the last post reached the server.
    pub online: bool,
}

/// What a post carries in a turn whose packet is `current`: that packet alone
/// while the server is online; the kept packets followed by it while offline.
pub open spec fn posted<T>(s: BacklogState<T>, current: T) -> Seq<T> {
    if s.online {
        seq![current]
    } else {
        s.items.push(current)
    }
}

/// The state after a turn whose post was delivered or not: a delivered post
/// while online changes nothing; a delivered post while offline carried every
/// kept packet and the current one, so nothing stays kept and the server is
/// online; after a failed post the current packet is kept and the server is
/// offline.
pub open spec fn settle_state<T>(s: BacklogState<T>, current: T, delivered: bool) -> BacklogState<
    T,
> {
    if delivered {
        if s.online {
            s
        } else {
            BacklogState { items: Seq::empty(), online: true }
        }
    } else {
        BacklogState { items: s.items.push(current), online: false }
    }
}

/// The state while a post is under way: offline, the current packet is
/// already kept, as it is part of the post.
pub open spec fn staged_state<T>(s: BacklogState<T>, current: T) -> BacklogState<T> {
    if s.online {
        s
    } else {
        BacklogState { items: s.items.push(current), online: false }
    }
}

/// The state after the result of a post; `alone` is the packet posted alone
/// (while online), if any.
pub open spec fn settled_state<T>(s: BacklogState<T>, alone: Option<T>, delivered: bool) -> BacklogState<T> {
    if delivered {
        if s.online {
            s
        } else {
            BacklogState { items: Seq::empty(), online: true }
        }
    } else {
        BacklogState {
            items: match alone {
                Some(x) => s.items.push(x),
                None => s.items,
            },
            online: false,
        }
    }
}

/// The state after a run of failed turns.
pub open spec fn fail_all<T>(s: BacklogState<T>, currents: Seq<T>) -> BacklogState<T>
    decreases currents.len(),
{
    if currents.len() == 0 {
        s
    } else {
        settle_state(fail_all(s, currents.drop_last()), currents.last(), false)
    }
}

/// A sender that keeps, while the server is down, the packets it could not
/// deliver, up to a capacity: once the capacity is reached the sender stops.
pub struct Backlog<T> {
    items: Vec<T>,
    online: bool,
    capacity: usize,
}

impl<T> View for Backlog<T> {
    type V = BacklogState<T>;

    closed spec fn view(&self) -> BacklogState<T> {
        BacklogState { items: self.items@, online: self.online }
    }
}

impl<T> Backlog<T> {
    /// The number of packets after which the sender stops.
    pub closed spec fn capacity(&self) -> nat {
        self.capacity as nat
    }

    /// The backlog never holds more packets than its capacity.
    pub closed spec fn well_formed(&self) -> bool {
        self.items@.len() <= self.capacity
    }

    /// An empty backlog of a server taken to be online.
    pub fn new(capacity: usize) -> (b: Backlog<T>)
        ensures
            b@.items.len() == 0,
            b@.online,
            b.capacity() == capacity,
            b.well_formed(),
    {
        Backlog { items: Vec::new(), online: true, capacity }
    }

    /// The empty backlog of a replay: it keeps up to `replay_capacity(shutdown)`
    /// missed packets.
    pub fn for_replay(shutdown: bool) -> (b: Backlog<T>)
        ensures
            b@.items.len() == 0,
            b@.online,
            b.capacity() == replay_capacity_spec(shutdown),
            b.well_formed(),
    {
        Backlog::new(replay_capacity(shutdown))
    }

    /// Whether the backlog holds as many packets as its capacity: the sender stops.
    pub fn is_full(&self) -> (full: bool)
        ensures
            full == (self@.items.len() == self.capacity()),
    {
        self.items.len() == self.capacity
    }

    /// Whether the server is taken to be online.
    pub fn is_online(&self) -> (online: bool)
        ensures
            online == self@.online,
    {
        self.online
    }

    /// The kept packets, oldest first.
    pub fn kept(&self) -> (items: &Vec<T>)
        ensures
            items@ == self@.items,
    {
        &self.items
    }

    /// Starts a turn with packet `current`. While online the packet is
    /// returned, to be posted alone; while offline it is kept after the other
    /// kept packets, and the post carries all of them (`kept`).
    pub fn stage(&mut self, current: T) -> (alone: Option<T>)
        requires
            old(self)@.items.len() != old(self).capacity(),
        ensures
            final(self)@ == staged_state(old(self)@, current),
            alone == if old(self)@.online {
                Some(current)
            } else {
                None
            },
            posted(old(self)@, current) == match alone {
                Some(x) => seq![x],
                None => final(self)@.items,
            },
            final(self).capacity() == old(self).capacity(),
            old(self).well_formed() ==> final(self).well_formed(),
    {
        if self.online {
            Some(current)
        } else {
            self.items.push(current);
            None
        }
    }

    /// Replaces the kept packets by as many others (the same packets, with
    /// fields brought up to date before they are posted again).
    pub fn refresh(&mut self, items: Vec<T>)
        requires
            items@.len() == old(self)@.items.len(),
        ensures
            final(self)@.items == items@,
            final(self)@.online == old(self)@.online,
            final(self).capacity() == old(self).capacity(),
            old(self).well_formed() ==> final(self).well_formed(),
    {
        self.items = items;
    }

    /// Takes the status that another sender to the same server recorded.
    pub fn set_online(&mut self, online: bool)
        ensures
            final(self)@.items == old(self)@.items,
            final(self)@.online == online,
            final(self).capacity() == old(self).capacity(),
            old(self).well_formed() ==> final(self).well_formed(),
    {
        self.online = online;
    }

    /// Records the result of the post of a turn; `alone` is what `stage`
    /// returned. Returns whether the status is to be reported (every time but
    /// when a post succeeds while online).
    pub fn settle(&mut self, alone: Option<T>, delivered: bool) -> (report: bool)
        requires
            alone is Some ==> old(self)@.items.len() != old(self).capacity(),
        ensures
            final(self)@ == settled_state(old(self)@, alone, delivered),
            final(self).capacity() == old(self).capacity(),
            old(self).well_formed() ==> final(self).well_formed(),
            report == !(delivered && old(self)@.online),
    {
        if delivered {
            if self.online {
                false
            } else {
                self.items = Vec::new();
                self.online = true;
                true
            }
        } else {
            match alone {
                Some(x) => {
                    self.items.push(x);
                },
                None => {},
            }
            self.online = false;
            true
        }
    }
}

/// A turn (staging its packet, then settling the result of the post) moves a
/// sender as `settle_state` says, when no other sender changes the status
/// meanwhile.
pub proof fn law_turn<T>(s: BacklogState<T>, current: T, delivered: bool)
    ensures
        settled_state(
            staged_state(s, current),
            if s.online {
                Some(current)
            } else {
                None
            },
            delivered,
        ) == settle_state(s, current, delivered),
{
}

/// How many missed packets a replay keeps while its server is down: 20 when
/// shutdown is enabled (the setting that bounds what is stored), 10
/// otherwise. A replay gives up when a packet would have to be kept beyond
/// that number.
pub open spec fn replay_capacity_spec(shutdown: bool) -> nat {
    if shutdown {
        20
    } else {
        10
    }
}

/// How many missed packets a replay keeps while its server is down.
pub fn replay_capacity(shutdown: bool) -> (capacity: usize)
    ensures
        capacity == replay_capacity_spec(shutdown),
{
    if shutdown {
        20
    } else {
        10
    }
}

/// With shutdown enabled, a replay whose posts keep failing keeps every missed
/// packet up to 20: after `k` failed turns from an online sender with nothing
/// kept, `k` packets are kept, and the replay is full (gives up) only when
/// `k` reaches 20, that is when a 21st would have to be kept.
pub proof fn law_replay_keeps_up_to_twenty<T>(missed: Seq<T>)
    requires
        0 < missed.len() <= replay_capacity_spec(true),
    ensures
        fail_all(BacklogState { items: Seq::empty(), online: true }, missed).items == missed,
        (fail_all(BacklogState { items: Seq::empty(), online: true }, missed).items.len()
            == replay_capacity_spec(true)) <==> missed.len() == 20,
{
    let s0 = BacklogState::<T> { items: Seq::empty(), online: true };
    law_failures_kept_in_order(s0, missed);
    assert(s0.items + missed =~= missed);
}

/// A backlog never holds more packets than its capacity.
pub proof fn law_backlog_bounded<T>(b: Backlog<T>)
    requires
        b.well_formed(),
    ensures
        b@.items.len() <= b.capacity(),
{
}

/// While posts fail, every packet that could not be posted is kept, in the
/// order of the failures, after those kept before, and the server is taken to
/// be offline.
pub proof fn law_failures_kept_in_order<T>(s: BacklogState<T>, currents: Seq<T>)
    requires
        currents.len() > 0,
    ensures
        fail_all(s, currents).items == s.items + currents,
        !fail_all(s, currents).online,
    decreases currents.len(),
{
    if currents.len() == 1 {
        assert(currents.drop_last() =~= Seq::<T>::empty());
        assert(fail_all(s, currents.drop_last()) == s);
        assert(s.items + currents =~= s.items.push(currents.last()));
    } else {
        law_failures_kept_in_order(s, currents.drop_last());
        let before = fail_all(s, currents.drop_last());
        assert(fail_all(s, currents).items == before.items.push(currents.last()));
        assert(s.items + currents =~= (s.items + currents.drop_last()).push(currents.last()));
    }
}

/// No missed packet is lost: after posts failed for `missed` (from an online
/// sender with nothing kept), the post that reaches the server again carries
/// every missed packet, in order, followed by the packet of that turn; then
/// nothing stays kept and the server is online.
pub proof fn law_reconnect_posts_all_missed<T>(missed: Seq<T>, current: T)
    requires
        missed.len() > 0,
    ensures
        posted(fail_all(BacklogState { items: Seq::empty(), online: true }, missed), current)
            == missed.push(current),
        settle_state(
            fail_all(BacklogState { items: Seq::empty(), online: true }, missed),
            current,
            true,
        ) == (BacklogState::<T> { items: Seq::empty(), online: true }),
{
    let s0 = BacklogState::<T> { items: Seq::empty(), online: true };
    law_failures_kept_in_order(s0, missed);
    assert(s0.items + missed =~= missed);
}

/// While the server is online and posts succeed, nothing is kept.
pub proof fn law_online_success_keeps_nothing<T>(s: BacklogState<T>, current: T)
    requires
        s.online,
    ensures
        settle_state(s, current, true) == s,
        posted(s, current) == seq![current],
{
}

/// The result of a post.
pub enum PostResult {
    /// The server answered, with this status text.
    Answered(String),
    /// The post failed, with this error text.
    Failed(String),
}

/// What a session reports after a post: each part given replaces the one it had.
pub struct StatusReport {
    pub code: Option<i8>,
    pub ok_msg: Option<String>,
    pub err_msg: Option<String>,
    pub timestamp: Option<String>,
}

/// The report after a post of a sender that keeps missed packets: the code
/// becomes 1 when an answer comes after an outage and 0 after a failure (it
/// stays 1 when an answer comes while online); when the sender reports
/// messages, the status or the error text and the time of the report.
pub open spec fn report_spec(
    result: PostResult,
    online_before: bool,
    messages: bool,
    now: String,
) -> StatusReport {
    match result {
        PostResult::Answered(s) => StatusReport {
            code: if online_before {
                None
            } else {
                Some(1i8)
            },
            ok_msg: if messages {
                Some(s)
            } else {
                None
            },
            err_msg: None,
            timestamp: if messages {
                Some(now)
            } else {
                None
            },
        },
        PostResult::Failed(e) => StatusReport {
            code: Some(0i8),
            ok_msg: None,
            err_msg: if messages {
                Some(e)
            } else {
                None
            },
            timestamp: if messages {
                Some(now)
            } else {
                None
            },
        },
    }
}

/// The report after a post of a sender that keeps missed packets.
pub fn status_report(result: PostResult, online_before: bool, messages: bool, now: String) -> (r:
    StatusReport)
    ensures
        r == report_spec(result, online_before, messages, now),
{
    match result {
        PostResult::Answered(s) => StatusReport {
            code: if online_before {
                None
            } else {
                Some(1)
            },
            ok_msg: if messages {
                Some(s)
            } else {
                None
            },
            err_msg: None,
            timestamp: if messages {
                Some(now)
            } else {
                None
            },
        },
        PostResult::Failed(e) => StatusReport {
            code: Some(0),
            ok_msg: None,
            err_msg: if messages {
                Some(e)
            } else {
                None
            },
            timestamp: if messages {
                Some(now)
            } else {
                None
            },
        },
    }
}

/// The code a session holds for a sender: 1 while online, 0 while offline.
pub open spec fn code_of(online: bool) -> i8 {
    if online {
        1
    } else {
        0
    }
}

/// After each post, a session that held the code of its sender's status holds
/// 1 and the status text when the server answered, 0 and the error text when
/// the post failed, and the time of the report; its code is again that of the
/// sender's status.
pub proof fn law_report_follows_post<T>(
    s: BacklogState<T>,
    current: T,
    held: i8,
    result: PostResult,
    now: String,
)
    requires
        held == code_of(s.online),
    ensures
        ({
            let r = report_spec(result, s.online, true, now);
            let delivered = result is Answered;
            let code = match r.code {
                Some(c) => c,
                None => held,
            };
            &&& code == code_of(settle_state(s, current, delivered).online)
            &&& (result matches PostResult::Answered(t) ==> code == 1 && r.ok_msg == Some(t))
            &&& (result matches PostResult::Failed(e) ==> code == 0 && r.err_msg == Some(e))
            &&& r.timestamp == Some(now)
        }),
{
}

/// Whether or not a sender reports messages, the code a session holds after
/// a post is that of the sender's new status: an answer after an outage sets
/// it back to 1, an answer while online leaves the held 1, and a failed post
/// sets it to 0. Without messages, nothing else is reported.
pub proof fn law_code_follows_every_post<T>(
    s: BacklogState<T>,
    current: T,
    held: i8,
    result: PostResult,
    messages: bool,
    now: String,
)
    requires
        held == code_of(s.online),
    ensures
        ({
            let r = report_spec(result, s.online, messages, now);
            let code = match r.code {
                Some(c) => c,
                None => held,
            };
            &&& code == code_of(settle_state(s, current, result is Answered).online)
            &&& (result is Answered && !s.online ==> r.code == Some(1i8))
            &&& (result is Answered && s.online ==> code == 1)
            &&& (result is Failed ==> r.code == Some(0i8))
            &&& (!messages ==> r.ok_msg is None && r.err_msg is None && r.timestamp is None)
        }),
{
}

/// What a track sender does after a post of its pending tracks.
pub struct FlushStep {
    /// Whether the simulation stops.
    pub stop: bool,
    /// What the session reports, if anything (nothing when the simulation
    /// stops right after a first failure).
    pub report: Option<StatusReport>,
}

/// The pending tracks of a live simulation, posted in batches. A delivered
/// batch is dropped; after a failure the tracks stay pending. With shutdown
/// enabled, a simulation whose server is down stops once 20 tracks are
/// pending, instead of keeping more.
pub struct TrackBatch<T> {
    pending: Vec<T>,
    online: bool,
    shutdown: bool,
}

/// The number of pending tracks at which a failing simulation stops, when
/// shutdown is enabled.
pub const SHUTDOWN_PENDING: usize = 20;

impl<T> View for TrackBatch<T> {
    type V = BacklogState<T>;

    closed spec fn view(&self) -> BacklogState<T> {
        BacklogState { items: self.pending@, online: self.online }
    }
}

/// The pending tracks after a post of all of them: dropped when it was
/// delivered (the server is then online), kept when it failed (the server is
/// then offline).
pub open spec fn flushed_state<T>(s: BacklogState<T>, delivered: bool) -> BacklogState<T> {
    if delivered {
        BacklogState { items: Seq::empty(), online: true }
    } else {
        BacklogState { items: s.items, online: false }
    }
}

/// Whether a failed post of `pending` tracks stops the simulation.
pub open spec fn stops_after_failure(pending: nat, shutdown: bool) -> bool {
    pending >= SHUTDOWN_PENDING && shutdown
}

/// Whether a track is refused (and the simulation stops): shutdown is
/// enabled, the server is down and 20 tracks are already pending.
pub open spec fn refuses_track(pending: nat, online: bool, shutdown: bool) -> bool {
    shutdown && !online && pending >= SHUTDOWN_PENDING
}

/// What a track sender reports after a post: an answer sets the status text
/// and time (and the code 1 after an outage); a failure sets the error text
/// and time, and the code 0 when it is the first failure, except that a first
/// failure that stops the simulation reports nothing.
pub open spec fn flush_report_spec(
    result: PostResult,
    online_before: bool,
    stop: bool,
    now: String,
) -> Option<StatusReport> {
    match result {
        PostResult::Answered(s) => Some(
            StatusReport {
                code: if online_before {
                    None
                } else {
                    Some(1i8)
                },
                ok_msg: Some(s),
                err_msg: None,
                timestamp: Some(now),
            },
        ),
        PostResult::Failed(e) => if online_before {
            if stop {
                None
            } else {
                Some(StatusReport { code: Some(0i8), ok_msg: None, err_msg: Some(e), timestamp: Some(now) })
            }
        } else {
            Some(StatusReport { code: None, ok_msg: None, err_msg: Some(e), timestamp: Some(now) })
        },
    }
}

impl<T> TrackBatch<T> {
    /// Whether the simulation stops when too many tracks are pending.
    pub closed spec fn shutdown(&self) -> bool {
        self.shutdown
    }

    /// No pending track, and the server taken to be online.
    pub fn new(shutdown: bool) -> (b: TrackBatch<T>)
        ensures
            b@.items.len() == 0,
            b@.online,
            b.shutdown() == shutdown,
    {
        TrackBatch { pending: Vec::new(), online: true, shutdown }
    }

    /// Whether the server is taken to be online.
    pub fn is_online(&self) -> (online: bool)
        ensures
            online == self@.online,
    {
        self.online
    }

    /// Adds a track to those pending, unless it is refused; returns whether it
    /// was added (a refused track stops the simulation).
    pub fn push(&mut self, track: T) -> (added: bool)
        ensures
            added == !refuses_track(old(self)@.items.len(), old(self)@.online, old(self).shutdown()),
            final(self)@.items == if added {
                old(self)@.items.push(track)
            } else {
                old(self)@.items
            },
            final(self)@.online == old(self)@.online,
            final(self).shutdown() == old(self).shutdown(),
    {
        if self.shutdown && !self.online && self.pending.len() >= SHUTDOWN_PENDING {
            false
        } else {
            self.pending.push(track);
            true
        }
    }

    /// The pending tracks, oldest first.
    pub fn pending(&self) -> (items: &Vec<T>)
        ensures
            items@ == self@.items,
    {
        &self.pending
    }

    /// Takes the status that another sender to the same server recorded.
    pub fn set_online(&mut self, online: bool)
        ensures
            final(self)@.items == old(self)@.items,
            final(self)@.online == online,
            final(self).shutdown() == old(self).shutdown(),
    {
        self.online = online;
    }

    /// Records the result of a post of all pending tracks, and says whether
    /// the simulation stops and what the session reports.
    pub fn flushed(&mut self, result: PostResult, now: String) -> (step: FlushStep)
        ensures
            final(self)@ == flushed_state(old(self)@, result is Answered),
            step.stop == (result is Failed && stops_after_failure(
                old(self)@.items.len(),
                old(self).shutdown(),
            )),
            step.report == flush_report_spec(result, old(self)@.online, step.stop, now),
            final(self).shutdown() == old(self).shutdown(),
    {
        let online_before = self.online;
        match result {
            PostResult::Answered(s) => {
                self.pending = Vec::new();
                self.online = true;
                FlushStep {
                    stop: false,
                    report: Some(
                        StatusReport {
                            code: if online_before {
                                None
                            } else {
                                Some(1)
                            },
                            ok_msg: Some(s),
                            err_msg: None,
                            timestamp: Some(now),
                        },
                    ),
                }
            },
            PostResult::Failed(e) => {
                self.online = false;
                let stop = self.pending.len() >= SHUTDOWN_PENDING && self.shutdown;
                let report = if online_before {
                    if stop {
                        None
                    } else {
                        Some(
                            StatusReport {
                                code: Some(0),
                                ok_msg: None,
                                err_msg: Some(e),
                                timestamp: Some(now),
                            },
                        )
                    }
                } else {
                    Some(StatusReport { code: None, ok_msg: None, err_msg: Some(e), timestamp: Some(now) })
                };
                FlushStep { stop, report }
            },
        }
    }
}

/// Tracks that could not be posted stay pending, in order, with those added
/// after them, until a post is delivered; a delivered post leaves none.
pub proof fn law_pending_tracks_survive_failures<T>(s: BacklogState<T>, track: T)
    ensures
        flushed_state(
            BacklogState { items: flushed_state(s, false).items.push(track), online: false },
            false,
        ).items == s.items.push(track),
        flushed_state(s, true).items.len() == 0,
        flushed_state(s, true).online,
{
}

/// With shutdown enabled, while the server is down the simulation never keeps
/// more than 20 tracks: a failed post that does not stop it leaves fewer than
/// 20, and a track is added while offline only when fewer than 20 are pending.
pub proof fn law_offline_buffer_at_most_twenty<T>(s: BacklogState<T>, track: T)
    ensures
        !stops_after_failure(s.items.len(), true) ==> flushed_state(s, false).items.len() < 20,
        !s.online && s.items.len() <= 20 && !refuses_track(s.items.len(), s.online, true) ==> s.items.push(
            track,
        ).len() <= 20,
{
}

} // verus!
