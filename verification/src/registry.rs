//! The table of running sessions: one slot per session, each holding the URL
//! that the session posts to and what it last reported.

use vstd::prelude::*;
use crate::text::same_text;
use crate::backlog::{
    code_of, law_report_follows_post, report_spec, settle_state, BacklogState, PostResult,
    StatusReport,
};

verus! {

/// What a running session reports.
pub struct Session {
    /// The URL that the session posts to.
    pub url: String,
    /// 1 while the server answers, 0 after a failed post.
    pub code: i8,
    /// The last error message.
    pub err_msg: String,
    /// The last success message.
    pub ok_msg: String,
    /// When the session last reported.
    pub timestamp: String,
}

/// A copy of a session.
pub fn copy_session(s: &Session) -> (c: Session)
    ensures
        c == *s,
{
    Session {
        url: s.url.clone(),
        code: s.code,
        err_msg: s.err_msg.clone(),
        ok_msg: s.ok_msg.clone(),
        timestamp: s.timestamp.clone(),
    }
}

/// Whether a slot holds a session that posts to `url`.
pub open spec fn holds(slot: Option<Session>, url: Seq<char>) -> bool {
    slot matches Some(s) && s.url@ == url
}

/// The slots of the table, and the next slot to be given out.
pub struct RegistryState {
    pub slots: Seq<Option<Session>>,
    pub next: nat,
}

/// Sessions are given slots in order, each slot once; slots not given out yet
/// are empty.
pub open spec fn registry_ok(r: RegistryState) -> bool {
    &&& r.next <= r.slots.len()
    &&& forall|i: int| r.next <= i < r.slots.len() ==> #[trigger] r.slots[i] is None
}

/// The first slot that holds a session posting to `url`.
pub open spec fn first_holding(slots: Seq<Option<Session>>, url: Seq<char>, i: int) -> bool {
    &&& 0 <= i < slots.len()
    &&& holds(slots[i], url)
    &&& forall|j: int| 0 <= j < i ==> !holds(#[trigger] slots[j], url)
}

/// Whether some slot holds a session posting to `url`.
pub open spec fn any_holding(slots: Seq<Option<Session>>, url: Seq<char>) -> bool {
    exists|i: int| 0 <= i < slots.len() && holds(#[trigger] slots[i], url)
}

/// The table with every session posting to `url` removed.
pub open spec fn without(slots: Seq<Option<Session>>, url: Seq<char>) -> Seq<Option<Session>> {
    Seq::new(slots.len(), |i: int| if holds(slots[i], url) { None } else { slots[i] })
}

/// A fresh session: code 1 and empty messages.
pub open spec fn fresh_session(s: Session, url: Seq<char>) -> bool {
    s.url@ == url && s.code == 1 && s.err_msg@.len() == 0 && s.ok_msg@.len() == 0
        && s.timestamp@.len() == 0
}

/// The table of running sessions.
pub struct Registry {
    slots: Vec<Option<Session>>,
    next: usize,
}

impl View for Registry {
    type V = RegistryState;

    closed spec fn view(&self) -> RegistryState {
        RegistryState { slots: self.slots@, next: self.next as nat }
    }
}

impl Registry {
    /// A table of `capacity` empty slots.
    pub fn new(capacity: usize) -> (r: Registry)
        ensures
            r@.slots.len() == capacity,
            r@.next == 0,
            forall|i: int| 0 <= i < capacity ==> #[trigger] r@.slots[i] is None,
            registry_ok(r@),
    {
        let mut slots: Vec<Option<Session>> = Vec::new();
        let mut i: usize = 0;
        while i < capacity
            invariant
                i <= capacity,
                slots@.len() == i,
                forall|j: int| 0 <= j < i ==> #[trigger] slots@[j] is None,
            decreases capacity - i,
        {
            slots.push(None);
            i = i + 1;
        }
        Registry { slots, next: 0 }
    }

    /// The number of slots.
    pub fn capacity(&self) -> (n: usize)
        ensures
            n == self@.slots.len(),
    {
        self.slots.len()
    }

    /// Whether a slot is still free to be given out.
    pub fn can_register(&self) -> (free: bool)
        ensures
            free == (self@.next < self@.slots.len()),
    {
        self.next < self.slots.len()
    }

    /// The session in a slot, if any.
    pub fn session(&self, index: usize) -> (s: Option<&Session>)
        requires
            index < self@.slots.len(),
        ensures
            match s {
                Some(x) => self@.slots[index as int] == Some(*x),
                None => self@.slots[index as int] is None,
            },
    {
        match &self.slots[index] {
            Some(x) => Some(x),
            None => None,
        }
    }

    /// The first slot that holds a session posting to `url`.
    pub fn find(&self, url: &str) -> (found: Option<usize>)
        ensures
            match found {
                Some(i) => first_holding(self@.slots, url@, i as int),
                None => !any_holding(self@.slots, url@),
            },
    {
        let mut i: usize = 0;
        while i < self.slots.len()
            invariant
                i <= self@.slots.len(),
                forall|j: int| 0 <= j < i ==> !holds(#[trigger] self@.slots[j], url@),
            decreases self@.slots.len() - i,
        {
            match &self.slots[i] {
                Some(s) => {
                    if same_text(s.url.as_str(), url) {
                        return Some(i);
                    }
                },
                None => {},
            }
            i = i + 1;
        }
        None
    }

    /// Gives the next slot to a fresh session posting to `url`, and returns it.
    pub fn register(&mut self, url: String) -> (index: usize)
        requires
            old(self)@.next < old(self)@.slots.len(),
        ensures
            index == old(self)@.next,
            final(self)@.next == old(self)@.next + 1,
            final(self)@.slots.len() == old(self)@.slots.len(),
            forall|i: int| 0 <= i < old(self)@.slots.len() && i != index ==> #[trigger] final(self)@.slots[i]
                == old(self)@.slots[i],
            final(self)@.slots[index as int] matches Some(s) && fresh_session(s, url@),
            registry_ok(old(self)@) ==> registry_ok(final(self)@),
    {
        let index = self.next;
        let cap = self.slots.len();
        assert(index < cap);
        let following = index + 1;
        let session = Session {
            url,
            code: 1,
            err_msg: String::new(),
            ok_msg: String::new(),
            timestamp: String::new(),
        };
        self.slots.set(index, Some(session));
        self.next = following;
        index
    }

    /// Empties the first slot that holds a session posting to `url`, and
    /// returns it (the session is aborted).
    pub fn abort(&mut self, url: &str) -> (found: Option<usize>)
        ensures
            match found {
                Some(i) => first_holding(old(self)@.slots, url@, i as int) && final(self)@.slots
                    == old(self)@.slots.update(i as int, None),
                None => !any_holding(old(self)@.slots, url@) && final(self)@.slots == old(
                    self,
                )@.slots,
            },
            final(self)@.next == old(self)@.next,
            registry_ok(old(self)@) ==> registry_ok(final(self)@),
    {
        let found = self.find(url);
        match found {
            Some(i) => {
                self.slots.set(i, None);
            },
            None => {},
        }
        found
    }

    /// Empties every slot that holds a session posting to `url` (its work is done).
    pub fn release(&mut self, url: &str)
        ensures
            final(self)@.slots == without(old(self)@.slots, url@),
            final(self)@.next == old(self)@.next,
            registry_ok(old(self)@) ==> registry_ok(final(self)@),
    {
        let ghost before = self@.slots;
        let mut i: usize = 0;
        while i < self.slots.len()
            invariant
                self@.slots.len() == before.len(),
                i <= before.len(),
                self@.next == old(self)@.next,
                registry_ok(old(self)@) ==> registry_ok(self@),
                before == old(self)@.slots,
                forall|j: int| 0 <= j < i ==> #[trigger] self@.slots[j] == without(before, url@)[j],
                forall|j: int| i <= j < before.len() ==> #[trigger] self@.slots[j] == before[j],
            decreases before.len() - i,
        {
            let clear = match &self.slots[i] {
                Some(s) => same_text(s.url.as_str(), url),
                None => false,
            };
            if clear {
                self.slots.set(i, None);
            }
            i = i + 1;
        }
        assert(self@.slots =~= without(before, url@));
    }

    /// Sets, in every slot that holds a session posting to `url`, the code,
    /// and the success or the error message with the time of the report.
    pub fn report(
        &mut self,
        url: &str,
        code: Option<i8>,
        ok_msg: Option<String>,
        err_msg: Option<String>,
        timestamp: Option<String>,
    )
        ensures
            final(self)@.next == old(self)@.next,
            final(self)@.slots.len() == old(self)@.slots.len(),
            registry_ok(old(self)@) ==> registry_ok(final(self)@),
            forall|j: int|
                0 <= j < old(self)@.slots.len() ==> #[trigger] final(self)@.slots[j] == if holds(
                    old(self)@.slots[j],
                    url@,
                ) {
                    Some(reported(old(self)@.slots[j]->0, code, ok_msg, err_msg, timestamp))
                } else {
                    old(self)@.slots[j]
                },
    {
        let ghost before = self@.slots;
        let mut i: usize = 0;
        while i < self.slots.len()
            invariant
                self@.slots.len() == before.len(),
                i <= before.len(),
                self@.next == old(self)@.next,
                registry_ok(old(self)@) ==> registry_ok(self@),
                before == old(self)@.slots,
                forall|j: int|
                    0 <= j < i ==> #[trigger] self@.slots[j] == if holds(before[j], url@) {
                        Some(reported(before[j]->0, code, ok_msg, err_msg, timestamp))
                    } else {
                        before[j]
                    },
                forall|j: int| i <= j < before.len() ==> #[trigger] self@.slots[j] == before[j],
            decreases before.len() - i,
        {
            let updated = match &self.slots[i] {
                Some(s) => {
                    if same_text(s.url.as_str(), url) {
                        Some(apply_report(s, &code, &ok_msg, &err_msg, &timestamp))
                    } else {
                        None
                    }
                },
                None => None,
            };
            match updated {
                Some(s) => {
                    self.slots.set(i, Some(s));
                },
                None => {},
            }
            i = i + 1;
        }
    }

    /// Reports, in every slot that holds a session posting to `url`.
    pub fn report_status(&mut self, url: &str, r: StatusReport)
        ensures
            final(self)@.next == old(self)@.next,
            final(self)@.slots.len() == old(self)@.slots.len(),
            registry_ok(old(self)@) ==> registry_ok(final(self)@),
            forall|j: int|
                0 <= j < old(self)@.slots.len() ==> #[trigger] final(self)@.slots[j] == if holds(
                    old(self)@.slots[j],
                    url@,
                ) {
                    Some(reported_status(old(self)@.slots[j]->0, r))
                } else {
                    old(self)@.slots[j]
                },
    {
        self.report(url, r.code, r.ok_msg, r.err_msg, r.timestamp);
    }

    /// Reports in one slot.
    pub fn report_status_at(&mut self, index: usize, r: StatusReport)
        requires
            index < old(self)@.slots.len(),
        ensures
            final(self)@.next == old(self)@.next,
            registry_ok(old(self)@) ==> registry_ok(final(self)@),
            final(self)@.slots == match old(self)@.slots[index as int] {
                Some(s) => old(self)@.slots.update(index as int, Some(reported_status(s, r))),
                None => old(self)@.slots,
            },
    {
        self.report_at(index, r.code, r.ok_msg, r.err_msg, r.timestamp);
    }

    /// Sets the report of the session in a slot.
    pub fn report_at(
        &mut self,
        index: usize,
        code: Option<i8>,
        ok_msg: Option<String>,
        err_msg: Option<String>,
        timestamp: Option<String>,
    )
        requires
            index < old(self)@.slots.len(),
        ensures
            final(self)@.next == old(self)@.next,
            registry_ok(old(self)@) ==> registry_ok(final(self)@),
            final(self)@.slots == match old(self)@.slots[index as int] {
                Some(s) => old(self)@.slots.update(
                    index as int,
                    Some(reported(s, code, ok_msg, err_msg, timestamp)),
                ),
                None => old(self)@.slots,
            },
    {
        let updated = match &self.slots[index] {
            Some(s) => Some(apply_report(s, &code, &ok_msg, &err_msg, &timestamp)),
            None => None,
        };
        match updated {
            Some(s) => {
                self.slots.set(index, Some(s));
            },
            None => {},
        }
    }

    /// The sessions of the occupied slots, in slot order.
    pub fn sessions(&self) -> (all: Vec<Session>)
        ensures
            all@ == occupied(self@.slots),
    {
        let mut all: Vec<Session> = Vec::new();
        let mut i: usize = 0;
        while i < self.slots.len()
            invariant
                i <= self@.slots.len(),
                all@ == occupied(self@.slots.subrange(0, i as int)),
            decreases self@.slots.len() - i,
        {
            match &self.slots[i] {
                Some(s) => {
                    all.push(copy_session(s));
                },
                None => {},
            }
            assert(self@.slots.subrange(0, i + 1 as int).drop_last() =~= self@.slots.subrange(
                0,
                i as int,
            ));
            i = i + 1;
        }
        assert(self@.slots.subrange(0, self@.slots.len() as int) =~= self@.slots);
        all
    }
}

/// The sessions of the occupied slots, in slot order.
pub open spec fn occupied(slots: Seq<Option<Session>>) -> Seq<Session>
    decreases slots.len(),
{
    if slots.len() == 0 {
        seq![]
    } else {
        let rest = occupied(slots.drop_last());
        match slots.last() {
            Some(s) => rest.push(s),
            None => rest,
        }
    }
}

/// The sessions listed for the events stream are exactly those of the
/// occupied slots, each as it stands in its slot (same URL, code, messages
/// and time): every occupied slot's session is listed, and every listed
/// session is that of an occupied slot.
pub proof fn law_listing_is_occupied_slots(slots: Seq<Option<Session>>)
    ensures
        forall|i: int| 0 <= i < slots.len() && (#[trigger] slots[i]) is Some ==> occupied(
            slots,
        ).contains(slots[i]->0),
        forall|j: int| 0 <= j < occupied(slots).len() ==> exists|i: int|
            0 <= i < slots.len() && #[trigger] slots[i] == Some(#[trigger] occupied(slots)[j]),
    decreases slots.len(),
{
    if slots.len() > 0 {
        let rest = slots.drop_last();
        law_listing_is_occupied_slots(rest);
        let o = occupied(slots);
        let r = occupied(rest);
        assert forall|i: int| 0 <= i < slots.len() && (#[trigger] slots[i]) is Some implies o.contains(
            slots[i]->0,
        ) by {
            if i < slots.len() - 1 {
                assert(rest[i] == slots[i]);
                let k = choose|k: int| 0 <= k < r.len() && r[k] == slots[i]->0;
                assert(o[k] == r[k]);
            } else {
                assert(o[o.len() - 1] == slots[i]->0);
            }
        }
        assert forall|j: int| 0 <= j < o.len() implies exists|i: int|
            0 <= i < slots.len() && #[trigger] slots[i] == Some(#[trigger] o[j]) by {
            if j < r.len() {
                assert(o[j] == r[j]);
                let i = choose|i: int| 0 <= i < rest.len() && #[trigger] rest[i] == Some(r[j]);
                assert(slots[i] == rest[i]);
            } else {
                assert(slots[slots.len() - 1] == Some(o[j]));
            }
        }
    }
}

/// The listing keeps slot order: the sessions of two runs of slots are those
/// of the first run followed by those of the second; a run of one occupied
/// slot lists its session as it stands, and an empty slot lists nothing.
pub proof fn law_listing_keeps_slot_order(
    xs: Seq<Option<Session>>,
    ys: Seq<Option<Session>>,
    s: Session,
)
    ensures
        occupied(xs + ys) == occupied(xs) + occupied(ys),
        occupied(seq![Some(s)]) == seq![s],
        occupied(seq![None::<Session>]).len() == 0,
    decreases ys.len(),
{
    if ys.len() == 0 {
        assert(xs + ys =~= xs);
        assert(occupied(xs) + occupied(ys) =~= occupied(xs));
    } else {
        law_listing_keeps_slot_order(xs, ys.drop_last(), s);
        assert((xs + ys).drop_last() =~= xs + ys.drop_last());
        assert((xs + ys).last() == ys.last());
        match ys.last() {
            Some(t) => {
                assert(occupied(xs) + occupied(ys.drop_last()).push(t) =~= (occupied(xs)
                    + occupied(ys.drop_last())).push(t));
            },
            None => {},
        }
    }
    let one = seq![Some(s)];
    assert(one.drop_last() =~= Seq::<Option<Session>>::empty());
    assert(occupied(Seq::<Option<Session>>::empty()) =~= Seq::<Session>::empty());
    assert(occupied(one) =~= seq![s]);
    let none = seq![None::<Session>];
    assert(none.drop_last() =~= Seq::<Option<Session>>::empty());
}

/// A session after a report: each given part replaces the one it had.
pub open spec fn reported(
    s: Session,
    code: Option<i8>,
    ok_msg: Option<String>,
    err_msg: Option<String>,
    timestamp: Option<String>,
) -> Session {
    Session {
        url: s.url,
        code: match code {
            Some(c) => c,
            None => s.code,
        },
        ok_msg: match ok_msg {
            Some(m) => m,
            None => s.ok_msg,
        },
        err_msg: match err_msg {
            Some(m) => m,
            None => s.err_msg,
        },
        timestamp: match timestamp {
            Some(t) => t,
            None => s.timestamp,
        },
    }
}

fn pick(given: &Option<String>, kept: &String) -> (s: String)
    ensures
        s == match *given {
            Some(g) => g,
            None => *kept,
        },
{
    match given {
        Some(g) => g.clone(),
        None => kept.clone(),
    }
}

fn apply_report(
    s: &Session,
    code: &Option<i8>,
    ok_msg: &Option<String>,
    err_msg: &Option<String>,
    timestamp: &Option<String>,
) -> (r: Session)
    ensures
        r == reported(*s, *code, *ok_msg, *err_msg, *timestamp),
{
    Session {
        url: s.url.clone(),
        code: match code {
            Some(c) => *c,
            None => s.code,
        },
        ok_msg: pick(ok_msg, &s.ok_msg),
        err_msg: pick(err_msg, &s.err_msg),
        timestamp: pick(timestamp, &s.timestamp),
    }
}

/// After the work of a session is done and its URL released, no slot holds a
/// session posting to that URL, and the slots of the other sessions are as
/// they were.
pub proof fn law_release_removes_only_that_url(slots: Seq<Option<Session>>, url: Seq<char>)
    ensures
        !any_holding(without(slots, url), url),
        without(slots, url).len() == slots.len(),
        forall|i: int|
            0 <= i < slots.len() && !holds(slots[i], url) ==> #[trigger] without(slots, url)[i]
                == slots[i],
{
}

/// A session given a slot is found under its URL, at that slot or at an
/// earlier one.
pub proof fn law_registered_is_found(slots: Seq<Option<Session>>, index: int, s: Session)
    requires
        0 <= index < slots.len(),
    ensures
        any_holding(slots.update(index, Some(s)), s.url@),
        exists|i: int| 0 <= i <= index && first_holding(slots.update(index, Some(s)), s.url@, i),
{
    let updated = slots.update(index, Some(s));
    assert(holds(updated[index], s.url@));
    let first = choose_first(updated, s.url@, index);
}

proof fn choose_first(slots: Seq<Option<Session>>, url: Seq<char>, bound: int) -> (i: int)
    requires
        0 <= bound < slots.len(),
        holds(slots[bound], url),
    ensures
        0 <= i <= bound,
        first_holding(slots, url, i),
    decreases bound,
{
    if exists|j: int| 0 <= j < bound && holds(#[trigger] slots[j], url) {
        let j = choose|j: int| 0 <= j < bound && holds(#[trigger] slots[j], url);
        choose_first(slots, url, j)
    } else {
        bound
    }
}

/// Aborting a session empties exactly one slot, the first one that holds its
/// URL; every other slot is as it was.
pub proof fn law_abort_empties_one_slot(slots: Seq<Option<Session>>, url: Seq<char>, i: int)
    requires
        first_holding(slots, url, i),
    ensures
        slots.update(i, None)[i] is None,
        forall|j: int| 0 <= j < slots.len() && j != i ==> #[trigger] slots.update(i, None)[j]
            == slots[j],
{
}

/// In a well-kept table the next slot to be given out is empty: giving it to
/// a session never replaces another one.
pub proof fn law_next_slot_is_free(r: RegistryState)
    requires
        registry_ok(r),
        r.next < r.slots.len(),
    ensures
        r.slots[r.next as int] is None,
{
}

/// A report changes only the sessions posting to its URL, and never their URL.
pub proof fn law_report_keeps_url(
    s: Session,
    code: Option<i8>,
    ok_msg: Option<String>,
    err_msg: Option<String>,
    timestamp: Option<String>,
)
    ensures
        reported(s, code, ok_msg, err_msg, timestamp).url == s.url,
        code is None ==> reported(s, code, ok_msg, err_msg, timestamp).code == s.code,
{
}

/// A session after a report given as a `StatusReport`.
pub open spec fn reported_status(s: Session, r: StatusReport) -> Session {
    reported(s, r.code, r.ok_msg, r.err_msg, r.timestamp)
}

/// After each post of a sender that keeps missed packets, its session (which
/// held the code of the sender's status) holds code 1 and the status text
/// when the server answered, code 0 and the error text when the post failed,
/// and the time of the report; its code is again that of the sender's status.
pub proof fn law_session_after_post<T>(
    session: Session,
    s: BacklogState<T>,
    current: T,
    result: PostResult,
    now: String,
)
    requires
        session.code == code_of(s.online),
    ensures
        ({
            let after = reported_status(session, report_spec(result, s.online, true, now));
            &&& after.url == session.url
            &&& after.code == code_of(settle_state(s, current, result is Answered).online)
            &&& (result matches PostResult::Answered(t) ==> after.code == 1 && after.ok_msg == t)
            &&& (result matches PostResult::Failed(e) ==> after.code == 0 && after.err_msg == e)
            &&& after.timestamp == now
        }),
{
    law_report_follows_post(s, current, session.code, result, now);
}

/// A session and its sender after a run of posts: each post is reported, and
/// moves the sender, as the last one of the run says.
pub open spec fn session_run<T>(
    session: Session,
    s: BacklogState<T>,
    currents: Seq<T>,
    results: Seq<PostResult>,
    nows: Seq<String>,
) -> (Session, BacklogState<T>)
    decreases results.len(),
{
    if results.len() == 0 || currents.len() == 0 || nows.len() == 0 {
        (session, s)
    } else {
        let (before, st) = session_run(
            session,
            s,
            currents.drop_last(),
            results.drop_last(),
            nows.drop_last(),
        );
        (
            reported_status(before, report_spec(results.last(), st.online, true, nows.last())),
            settle_state(st, currents.last(), results.last() is Answered),
        )
    }
}

/// Over a whole run of posts, a session that starts with the code of its
/// sender's status (1 for a fresh session of an online sender) holds, after
/// each post, 1 and the status text when the server answered, 0 and the error
/// text when the post failed, and the time of that report; its code is always
/// that of the sender's status.
pub proof fn law_session_follows_every_post<T>(
    session: Session,
    s: BacklogState<T>,
    currents: Seq<T>,
    results: Seq<PostResult>,
    nows: Seq<String>,
)
    requires
        session.code == code_of(s.online),
        currents.len() == results.len(),
        nows.len() == results.len(),
    ensures
        ({
            let (after, st) = session_run(session, s, currents, results, nows);
            &&& after.url == session.url
            &&& after.code == code_of(st.online)
            &&& results.len() > 0 ==> {
                &&& (results.last() matches PostResult::Answered(t) ==> after.code == 1
                    && after.ok_msg == t)
                &&& (results.last() matches PostResult::Failed(e) ==> after.code == 0
                    && after.err_msg == e)
                &&& after.timestamp == nows.last()
            }
        }),
    decreases results.len(),
{
    if results.len() > 0 {
        law_session_follows_every_post(
            session,
            s,
            currents.drop_last(),
            results.drop_last(),
            nows.drop_last(),
        );
        let (before, st) = session_run(
            session,
            s,
            currents.drop_last(),
            results.drop_last(),
            nows.drop_last(),
        );
        law_session_after_post(before, st, currents.last(), results.last(), nows.last());
    }
}

} // verus!
