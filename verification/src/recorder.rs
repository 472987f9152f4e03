//! Recording of the notifications that the notification server posts: which
//! trip file receives them, and the bytes appended to it, so that each trip
//! between a `connect` and a `disconnect` event becomes one JSON array.

use vstd::prelude::*;
use vstd::string::StringSliceAdditionalSpecFns;
use vstd::utf8::{encode_utf8, is_char_boundary};
use crate::text::{append_bytes, decimal, push_decimal, same_text};

verus! {

/// The bytes of the prefix `trip_` of trip file names.
pub open spec fn trip_prefix() -> Seq<u8> {
    seq![116u8, 114u8, 105u8, 112u8, 95u8]
}

/// Whether a file name (as UTF-8 bytes) starts with `trip_`.
pub open spec fn has_trip_prefix(name: Seq<u8>) -> bool {
    name.len() >= 5 && name.subrange(0, 5) == trip_prefix()
}

/// The ten bytes of a trip file name that hold its date: those that end five
/// bytes before the end of the name (before `.json`).
pub open spec fn date_part(name: Seq<u8>) -> Seq<u8> {
    name.subrange(name.len() - 15, name.len() - 5)
}

/// Whether a file name is a trip file recorded on `date`.
pub open spec fn is_trip_of_date(name: Seq<u8>, date: Seq<u8>) -> bool {
    has_trip_prefix(name) && date_part(name) == date
}

/// Whether the date part of a name can be sliced out: a name with the prefix
/// `trip_` must be at least 15 bytes long, and the date part must start and
/// end on character boundaries.
pub open spec fn date_part_readable(name: Seq<u8>) -> bool {
    has_trip_prefix(name) ==> {
        &&& name.len() >= 15
        &&& is_char_boundary(name, name.len() - 15)
        &&& is_char_boundary(name, name.len() - 5)
    }
}

/// The UTF-8 bytes of a text.
pub open spec fn bytes_of(text: String) -> Seq<u8> {
    encode_utf8(text@)
}

/// Whether every name of a listing has a readable date part.
pub open spec fn listing_readable(names: Seq<String>) -> bool {
    forall|i: int| 0 <= i < names.len() ==> date_part_readable(#[trigger] bytes_of(names[i]))
}

/// How many names of a listing are trip files recorded on `date`.
pub open spec fn count_of_date(names: Seq<String>, date: Seq<u8>) -> nat
    decreases names.len(),
{
    if names.len() == 0 {
        0
    } else {
        count_of_date(names.drop_last(), date) + if is_trip_of_date(bytes_of(names.last()), date) {
            1nat
        } else {
            0nat
        }
    }
}

fn starts_with_trip(name: &[u8]) -> (found: bool)
    ensures
        found == has_trip_prefix(name@),
{
    if name.len() < 5 {
        return false;
    }
    let found = name[0] == 116u8 && name[1] == 114u8 && name[2] == 105u8 && name[3] == 112u8
        && name[4] == 95u8;
    if found {
        assert(name@.subrange(0, 5) =~= trip_prefix());
    } else {
        assert(name@.subrange(0, 5)[0] == name@[0]);
        assert(name@.subrange(0, 5)[1] == name@[1]);
        assert(name@.subrange(0, 5)[2] == name@[2]);
        assert(name@.subrange(0, 5)[3] == name@[3]);
        assert(name@.subrange(0, 5)[4] == name@[4]);
    }
    found
}

/// Whether the file name `name` is a trip file recorded on `date`.
pub fn is_trip_file_of(name: &str, date: &str) -> (dated: bool)
    requires
        date_part_readable(name.spec_bytes()),
    ensures
        dated == is_trip_of_date(name.spec_bytes(), date.spec_bytes()),
{
    let n = name.as_bytes();
    let d = date.as_bytes();
    if !starts_with_trip(n) {
        return false;
    }
    let len = n.len();
    let start = len - 15;
    if d.len() != 10 {
        assert(date_part(n@).len() == 10);
        return false;
    }
    let mut i: usize = 0;
    while i < 10
        invariant
            n@ == name.spec_bytes(),
            d@ == date.spec_bytes(),
            len == n@.len(),
            len >= 15,
            start == len - 15,
            d@.len() == 10,
            i <= 10,
            forall|j: int| 0 <= j < i ==> n@[start + j] == d@[j],
        decreases 10 - i,
    {
        if n[start + i] != d[i] {
            assert(date_part(n@)[i as int] == n@[start + i]);
            return false;
        }
        i = i + 1;
    }
    assert(date_part(n@) =~= d@);
    true
}

/// How many names of a directory listing are trip files recorded on `date`.
pub fn count_trips_of_date(names: &Vec<String>, date: &str) -> (count: usize)
    requires
        listing_readable(names@),
    ensures
        count == count_of_date(names@, date.spec_bytes()),
{
    let mut count: usize = 0;
    let mut i: usize = 0;
    while i < names.len()
        invariant
            listing_readable(names@),
            i <= names@.len(),
            count <= i,
            count == count_of_date(names@.subrange(0, i as int), date.spec_bytes()),
        decreases names@.len() - i,
    {
        let name = names[i].as_str();
        assert(date_part_readable(bytes_of(names@[i as int])));
        let dated = is_trip_file_of(name, date);
        assert(names@.subrange(0, i + 1 as int).drop_last() =~= names@.subrange(0, i as int));
        if dated {
            count = count + 1;
        }
        i = i + 1;
    }
    assert(names@.subrange(0, names@.len() as int) =~= names@);
    count
}

/// The name of a trip file: `trip_<index>_<date>.json`.
pub open spec fn trip_file_name(index: nat, date: Seq<char>) -> Seq<char> {
    "trip_"@ + decimal(index) + "_"@ + date + ".json"@
}

/// Builds the name `trip_<index>_<date>.json`.
pub fn make_trip_file_name(index: usize, date: &str) -> (name: String)
    ensures
        name@ == trip_file_name(index as nat, date@),
{
    let mut name = String::new();
    name.append("trip_");
    push_decimal(&mut name, index);
    name.append("_");
    name.append(date);
    name.append(".json");
    name
}

/// The name of the day's trip file, given how many trip files of the day
/// there are: index 1 when there is none, else their number.
pub fn day_file_name(count: usize, date: &str) -> (name: String)
    ensures
        name@ == trip_file_name(current_index(count as nat), date@),
{
    let index = if count == 0 {
        1
    } else {
        count
    };
    make_trip_file_name(index, date)
}

/// What is found on disk under the trip file name of the day.
pub enum TripFile {
    /// No such file.
    Missing,
    /// The file exists and is empty.
    Empty,
    /// The file holds a trip that is not closed yet (its text does not end with `]`).
    Unclosed,
    /// The file holds a closed trip (its text ends with `]`).
    Closed,
}

/// Where the notifications of a request are appended.
pub struct RecordTarget {
    /// The name of the file, in the uploads directory.
    pub file_name: String,
    /// Whether the file is created when it does not exist.
    pub create: bool,
    /// Whether a `connect` event writes the opening `[` of a trip.
    pub opens_with_bracket: bool,
}

/// The index in the name of the day's trip file, given how many trip files of
/// the day there are.
pub open spec fn current_index(count: nat) -> nat {
    if count == 0 {
        1
    } else {
        count
    }
}

/// The index of the file that receives the notifications.
pub open spec fn target_index(count: nat, found: TripFile) -> nat {
    match found {
        TripFile::Closed => count + 1,
        _ => current_index(count),
    }
}

/// Chooses the file that receives the notifications of a request: the day's
/// trip file, or, when that one holds a closed trip, the one with the next
/// index.
pub fn plan_target(count: usize, date: &str, found: TripFile) -> (target: RecordTarget)
    requires
        count < usize::MAX,
    ensures
        target.file_name@ == trip_file_name(target_index(count as nat, found), date@),
        target.create == (found is Missing || found is Closed),
        target.opens_with_bracket == !(found is Unclosed),
{
    let index = if count == 0 {
        1
    } else {
        count
    };
    match found {
        TripFile::Missing => RecordTarget {
            file_name: make_trip_file_name(index, date),
            create: true,
            opens_with_bracket: true,
        },
        TripFile::Empty => RecordTarget {
            file_name: make_trip_file_name(index, date),
            create: false,
            opens_with_bracket: true,
        },
        TripFile::Unclosed => RecordTarget {
            file_name: make_trip_file_name(index, date),
            create: false,
            opens_with_bracket: false,
        },
        TripFile::Closed => RecordTarget {
            file_name: make_trip_file_name(count + 1, date),
            create: true,
            opens_with_bracket: true,
        },
    }
}

/// What `payload.type` of a notification holds.
pub enum PayloadType {
    /// The payload has no `type` member (or is not an object).
    Absent,
    /// The member is a text.
    Text(String),
    /// The member is not a text.
    NonText,
}

/// A notification as the recorder reads it: the type of its payload, and the
/// JSON text of the whole notification.
pub struct Notification {
    pub payload_type: PayloadType,
    pub body: Vec<u8>,
}

/// The JSON value posted to the recorder.
pub enum Incoming {
    /// A single JSON object.
    Object,
    /// An array of notifications.
    Array(Vec<Notification>),
    /// Any other JSON value.
    Other,
}

/// How a posted value is answered.
pub enum RecordReply {
    /// `200 Processed JSON data successfully`.
    Processed,
    /// `400 Bad Request`.
    BadRequest,
    /// `200 Record Disabled`.
    Disabled,
}

pub open spec fn is_connect(t: PayloadType) -> bool {
    t matches PayloadType::Text(s) && s@ == "connect"@
}

pub open spec fn is_disconnect(t: PayloadType) -> bool {
    t matches PayloadType::Text(s) && s@ == "disconnect"@
}

proof fn lemma_kinds_differ()
    ensures
        "connect"@ != "disconnect"@,
{
    reveal_strlit("connect");
    reveal_strlit("disconnect");
    assert("connect"@.len() != "disconnect"@.len());
}

/// Whether a trip is being recorded after a notification of type `t`.
pub open spec fn started_after(started: bool, t: PayloadType) -> bool {
    if is_connect(t) {
        true
    } else if is_disconnect(t) {
        false
    } else {
        started
    }
}

/// The bytes appended for one notification: `[` for a `connect` (where the
/// file opens trips), the notification and `]` for a `disconnect`, and the
/// notification and `,` for every notification while a trip is recorded.
pub open spec fn written_for(started: bool, opens_with_bracket: bool, n: Notification) -> Seq<u8> {
    let t = n.payload_type;
    let head = if is_connect(t) {
        if opens_with_bracket {
            seq![91u8]
        } else {
            seq![]
        }
    } else if is_disconnect(t) {
        n.body@.push(93u8)
    } else {
        seq![]
    };
    let tail = if started_after(started, t) {
        n.body@.push(44u8)
    } else {
        seq![]
    };
    head + tail
}

/// The bytes appended for a sequence of notifications.
pub open spec fn written_for_all(
    started: bool,
    opens_with_bracket: bool,
    ns: Seq<Notification>,
) -> Seq<u8>
    decreases ns.len(),
{
    if ns.len() == 0 {
        seq![]
    } else {
        written_for_all(started, opens_with_bracket, ns.drop_last()) + written_for(
            started_after_all(started, ns.drop_last()),
            opens_with_bracket,
            ns.last(),
        )
    }
}

/// Whether a trip is being recorded after a sequence of notifications.
pub open spec fn started_after_all(started: bool, ns: Seq<Notification>) -> bool
    decreases ns.len(),
{
    if ns.len() == 0 {
        started
    } else {
        started_after(started_after_all(started, ns.drop_last()), ns.last().payload_type)
    }
}

/// Whether every notification of a sequence has no payload type, or a text one.
pub open spec fn types_readable(ns: Seq<Notification>) -> bool {
    forall|i: int| 0 <= i < ns.len() ==> !(#[trigger] ns[i].payload_type is NonText)
}

/// The state of the recorder that lasts from request to request: whether a
/// trip is being recorded.
pub struct Recorder {
    pub started: bool,
}

impl Recorder {
    /// A recorder that is not recording a trip.
    pub fn new() -> (recorder: Recorder)
        ensures
            !recorder.started,
    {
        Recorder { started: false }
    }

    /// Takes one notification and returns the bytes to append to the trip file.
    pub fn accept(&mut self, n: &Notification, opens_with_bracket: bool) -> (written: Vec<u8>)
        requires
            !(n.payload_type is NonText),
        ensures
            written@ == written_for(old(self).started, opens_with_bracket, *n),
            final(self).started == started_after(old(self).started, n.payload_type),
    {
        let mut written: Vec<u8> = Vec::new();
        let mut connect = false;
        let mut disconnect = false;
        match &n.payload_type {
            PayloadType::Text(s) => {
                if same_text(s.as_str(), "connect") {
                    connect = true;
                } else if same_text(s.as_str(), "disconnect") {
                    disconnect = true;
                }
            },
            _ => {},
        }
        proof {
            lemma_kinds_differ();
        }
        assert(connect == is_connect(n.payload_type));
        assert(disconnect == is_disconnect(n.payload_type));
        if connect {
            if opens_with_bracket {
                written.push(91u8);
            }
            self.started = true;
        } else if disconnect {
            append_bytes(&mut written, n.body.as_slice());
            written.push(93u8);
            self.started = false;
        }
        if self.started {
            append_bytes(&mut written, n.body.as_slice());
            written.push(44u8);
        }
        assert(written@ =~= written_for(old(self).started, opens_with_bracket, *n));
        written
    }

    /// Takes the notifications of a request, in order, and returns the bytes to
    /// append to the trip file.
    pub fn accept_all(&mut self, ns: &Vec<Notification>, opens_with_bracket: bool) -> (written:
        Vec<u8>)
        requires
            types_readable(ns@),
        ensures
            written@ == written_for_all(old(self).started, opens_with_bracket, ns@),
            final(self).started == started_after_all(old(self).started, ns@),
    {
        let ghost start = self.started;
        let mut written: Vec<u8> = Vec::new();
        let mut i: usize = 0;
        while i < ns.len()
            invariant
                types_readable(ns@),
                i <= ns@.len(),
                written@ == written_for_all(start, opens_with_bracket, ns@.subrange(0, i as int)),
                self.started == started_after_all(start, ns@.subrange(0, i as int)),
            decreases ns@.len() - i,
        {
            assert(!(ns@[i as int].payload_type is NonText));
            let more = self.accept(&ns[i], opens_with_bracket);
            append_bytes(&mut written, more.as_slice());
            assert(ns@.subrange(0, i + 1 as int).drop_last() =~= ns@.subrange(0, i as int));
            i = i + 1;
        }
        assert(ns@.subrange(0, ns@.len() as int) =~= ns@);
        written
    }

    /// Answers a posted value while recording is on: a single object is
    /// accepted and not written, an array is recorded notification by
    /// notification, and any other value is refused.
    pub fn record(&mut self, incoming: &Incoming, opens_with_bracket: bool) -> (answer: (
        RecordReply,
        Vec<u8>,
    ))
        requires
            incoming matches Incoming::Array(ns) ==> types_readable(ns@),
        ensures
            match *incoming {
                Incoming::Object => answer.0 is Processed && answer.1@.len() == 0
                    && final(self).started == old(self).started,
                Incoming::Other => answer.0 is BadRequest && answer.1@.len() == 0
                    && final(self).started == old(self).started,
                Incoming::Array(ns) => answer.0 is Processed && answer.1@ == written_for_all(
                    old(self).started,
                    opens_with_bracket,
                    ns@,
                ) && final(self).started == started_after_all(old(self).started, ns@),
            },
    {
        match incoming {
            Incoming::Object => (RecordReply::Processed, Vec::new()),
            Incoming::Other => (RecordReply::BadRequest, Vec::new()),
            Incoming::Array(ns) => {
                let written = self.accept_all(ns, opens_with_bracket);
                (RecordReply::Processed, written)
            },
        }
    }
}

/// Whether a payload type neither starts nor ends a trip.
pub open spec fn is_plain(t: PayloadType) -> bool {
    !is_connect(t) && !is_disconnect(t)
}

/// Whether no notification of a sequence starts or ends a trip (they may
/// have any other payload type, or none).
pub open spec fn no_markers(ns: Seq<Notification>) -> bool {
    forall|i: int| 0 <= i < ns.len() ==> is_plain(#[trigger] ns[i].payload_type)
}

/// Each notification of a sequence followed by a comma.
pub open spec fn comma_terminated(ns: Seq<Notification>) -> Seq<u8>
    decreases ns.len(),
{
    if ns.len() == 0 {
        seq![]
    } else {
        comma_terminated(ns.drop_last()) + ns.last().body@.push(44u8)
    }
}

proof fn lemma_written_split(
    started: bool,
    opens_with_bracket: bool,
    xs: Seq<Notification>,
    ys: Seq<Notification>,
)
    ensures
        written_for_all(started, opens_with_bracket, xs + ys) == written_for_all(
            started,
            opens_with_bracket,
            xs,
        ) + written_for_all(started_after_all(started, xs), opens_with_bracket, ys),
        started_after_all(started, xs + ys) == started_after_all(
            started_after_all(started, xs),
            ys,
        ),
    decreases ys.len(),
{
    if ys.len() == 0 {
        assert(xs + ys =~= xs);
    } else {
        lemma_written_split(started, opens_with_bracket, xs, ys.drop_last());
        assert((xs + ys).drop_last() =~= xs + ys.drop_last());
        assert((xs + ys).last() == ys.last());
    }
}

proof fn lemma_plain_inside_trip(opens_with_bracket: bool, ns: Seq<Notification>)
    requires
        no_markers(ns),
    ensures
        written_for_all(true, opens_with_bracket, ns) == comma_terminated(ns),
        started_after_all(true, ns),
    decreases ns.len(),
{
    if ns.len() > 0 {
        assert(no_markers(ns.drop_last()));
        assert(is_plain(ns.last().payload_type));
        lemma_plain_inside_trip(opens_with_bracket, ns.drop_last());
    }
}

proof fn lemma_plain_outside_trip(opens_with_bracket: bool, ns: Seq<Notification>)
    requires
        no_markers(ns),
    ensures
        written_for_all(false, opens_with_bracket, ns) == Seq::<u8>::empty(),
        !started_after_all(false, ns),
    decreases ns.len(),
{
    if ns.len() > 0 {
        assert(no_markers(ns.drop_last()));
        assert(is_plain(ns.last().payload_type));
        lemma_plain_outside_trip(opens_with_bracket, ns.drop_last());
    }
}

/// A trip posted as a `connect` notification, notifications that neither
/// start nor end a trip (whatever their payload type), and a `disconnect`
/// notification is appended, from any state, to a
/// file that opens trips as one JSON array: `[`, each notification but the
/// last followed by a comma, the last one, and `]`; afterwards no trip is
/// being recorded.
pub proof fn law_trip_is_json_array(
    started: bool,
    connect: Notification,
    middle: Seq<Notification>,
    disconnect: Notification,
)
    requires
        is_connect(connect.payload_type),
        is_disconnect(disconnect.payload_type),
        no_markers(middle),
    ensures
        written_for_all(started, true, seq![connect] + middle + seq![disconnect]) == seq![91u8]
            + comma_terminated(seq![connect] + middle) + disconnect.body@.push(93u8),
        !started_after_all(started, seq![connect] + middle + seq![disconnect]),
{
    lemma_kinds_differ();
    let first = seq![connect];
    assert(first.drop_last() =~= Seq::<Notification>::empty());
    assert(first.last() == connect);
    assert(written_for_all(started, true, first.drop_last()) == Seq::<u8>::empty());
    assert(started_after_all(started, first.drop_last()) == started);
    assert(written_for(started, true, connect) =~= seq![91u8] + connect.body@.push(44u8));
    assert(written_for_all(started, true, first) =~= seq![91u8] + connect.body@.push(44u8));
    assert(started_after_all(started, first));
    lemma_written_split(started, true, first, middle);
    lemma_plain_inside_trip(true, middle);
    let front = first + middle;
    let all = front + seq![disconnect];
    assert(all.drop_last() =~= front);
    assert(all.last() == disconnect);
    assert(comma_terminated(first) =~= connect.body@.push(44u8)) by {
        assert(first.drop_last() =~= Seq::<Notification>::empty());
        assert(first.last() == connect);
        assert(comma_terminated(first.drop_last()) == Seq::<u8>::empty());
    }
    lemma_comma_terminated_split(first, middle);
    assert(written_for_all(started, true, all) =~= seq![91u8] + comma_terminated(front)
        + disconnect.body@.push(93u8));
}

proof fn lemma_comma_terminated_split(xs: Seq<Notification>, ys: Seq<Notification>)
    ensures
        comma_terminated(xs + ys) == comma_terminated(xs) + comma_terminated(ys),
    decreases ys.len(),
{
    if ys.len() == 0 {
        assert(xs + ys =~= xs);
    } else {
        lemma_comma_terminated_split(xs, ys.drop_last());
        assert((xs + ys).drop_last() =~= xs + ys.drop_last());
    }
}

/// Outside a trip, notifications that neither start nor end a trip are not
/// written, and no trip starts.
pub proof fn law_plain_outside_trip_ignored(opens_with_bracket: bool, ns: Seq<Notification>)
    requires
        no_markers(ns),
    ensures
        written_for_all(false, opens_with_bracket, ns) == Seq::<u8>::empty(),
        !started_after_all(false, ns),
{
    lemma_plain_outside_trip(opens_with_bracket, ns);
}

/// Within a trip, each notification that neither starts nor ends a trip
/// (with or without a payload type) is written followed by a comma, and the
/// trip goes on.
pub proof fn law_plain_inside_trip_appended(opens_with_bracket: bool, ns: Seq<Notification>)
    requires
        no_markers(ns),
    ensures
        written_for_all(true, opens_with_bracket, ns) == comma_terminated(ns),
        started_after_all(true, ns),
{
    lemma_plain_inside_trip(opens_with_bracket, ns);
}

/// Recording a request in two parts writes the same bytes, and ends in the
/// same state, as recording it at once.
pub proof fn law_record_in_parts(
    started: bool,
    opens_with_bracket: bool,
    xs: Seq<Notification>,
    ys: Seq<Notification>,
)
    ensures
        written_for_all(started, opens_with_bracket, xs + ys) == written_for_all(
            started,
            opens_with_bracket,
            xs,
        ) + written_for_all(started_after_all(started, xs), opens_with_bracket, ys),
        started_after_all(started, xs + ys) == started_after_all(
            started_after_all(started, xs),
            ys,
        ),
{
    lemma_written_split(started, opens_with_bracket, xs, ys);
}

proof fn lemma_encode_concat(a: Seq<char>, b: Seq<char>)
    ensures
        encode_utf8(a + b) == encode_utf8(a) + encode_utf8(b),
    decreases a.len(),
{
    if a.len() == 0 {
        assert(a + b =~= b);
    } else {
        lemma_encode_concat(a.drop_first(), b);
        assert((a + b).drop_first() =~= a.drop_first() + b);
        assert((a + b)[0] == a[0]);
    }
}

/// A file named for a date by the recorder is counted among the trip files of
/// that date, for a date written as ten ASCII characters (`yyyy-mm-dd`).
pub proof fn law_named_file_counts_for_its_date(index: nat, date: Seq<char>)
    requires
        date.len() == 10,
        vstd::utf8::is_ascii_chars(date),
    ensures
        is_trip_of_date(encode_utf8(trip_file_name(index, date)), encode_utf8(date)),
{
    reveal_strlit("trip_");
    reveal_strlit("_");
    reveal_strlit(".json");
    let p = "trip_"@;
    let d = decimal(index);
    let u = "_"@;
    let j = ".json"@;
    assert(vstd::utf8::is_ascii_chars(p));
    assert(vstd::utf8::is_ascii_chars(j));
    vstd::utf8::is_ascii_chars_encode_utf8(p);
    vstd::utf8::is_ascii_chars_encode_utf8(j);
    vstd::utf8::is_ascii_chars_encode_utf8(date);
    lemma_encode_concat(p + d + u + date, j);
    lemma_encode_concat(p + d + u, date);
    lemma_encode_concat(p + d, u);
    lemma_encode_concat(p, d);
    let name = encode_utf8(trip_file_name(index, date));
    let ep = encode_utf8(p);
    let front = encode_utf8(p) + encode_utf8(d) + encode_utf8(u);
    assert(name == front + encode_utf8(date) + encode_utf8(j));
    assert(ep.len() == 5);
    assert(name.subrange(0, 5) =~= ep);
    assert(ep =~= trip_prefix());
    assert(encode_utf8(j).len() == 5);
    assert(date_part(name) =~= encode_utf8(date));
}

/// Whether a trip is being recorded is decided by the last notification that
/// starts or ends one: recording after a `connect`, not after a
/// `disconnect`; with no such notification the state is left as it was.
pub proof fn law_last_marker_decides(started: bool, ns: Seq<Notification>)
    ensures
        no_markers(ns) ==> started_after_all(started, ns) == started,
        forall|i: int|
            0 <= i < ns.len() && !is_plain(#[trigger] ns[i].payload_type) && (forall|j: int|
                i < j < ns.len() ==> is_plain(ns[j].payload_type)) ==> started_after_all(
                started,
                ns,
            ) == is_connect(ns[i].payload_type),
    decreases ns.len(),
{
    if ns.len() > 0 {
        let front = ns.drop_last();
        law_last_marker_decides(started, front);
        assert(no_markers(ns) ==> no_markers(front)) by {
            if no_markers(ns) {
                assert forall|k: int| 0 <= k < front.len() implies is_plain(
                    #[trigger] front[k].payload_type,
                ) by {
                    assert(front[k] == ns[k]);
                }
            }
        }
        assert forall|i: int|
            0 <= i < ns.len() && !is_plain(#[trigger] ns[i].payload_type) && (forall|j: int|
                i < j < ns.len() ==> is_plain(ns[j].payload_type)) implies started_after_all(
            started,
            ns,
        ) == is_connect(ns[i].payload_type) by {
            if i < ns.len() - 1 {
                assert(is_plain(ns[ns.len() - 1].payload_type));
                assert(front[i] == ns[i]);
                assert forall|j: int| i < j < front.len() implies is_plain(
                    front[j].payload_type,
                ) by {
                    assert(front[j] == ns[j]);
                }
            }
        }
    }
}

/// A name counts as a trip file of `date` only when it starts with `trip_`
/// and the whole ten bytes before its last five (`.json`) are `date`: a trip
/// of another day, month or year does not count.
pub proof fn law_counts_only_its_date(name: Seq<u8>, date: Seq<u8>)
    requires
        date_part_readable(name),
        is_trip_of_date(name, date),
    ensures
        name.len() >= 5,
        name.subrange(0, 5) == seq![116u8, 114u8, 105u8, 112u8, 95u8],
        date.len() == 10,
        name.len() >= 15,
        forall|j: int| 0 <= j < 10 ==> #[trigger] name[name.len() - 15 + j] == date[j],
{
    assert(date_part(name).len() == 10);
    assert forall|j: int| 0 <= j < 10 implies #[trigger] name[name.len() - 15 + j] == date[j] by {
        assert(date_part(name)[j] == name[name.len() - 15 + j]);
    }
}

/// The number of trip files of a date in a listing is the sum over its parts:
/// every name is examined, whatever comes before or after it.
pub proof fn law_count_adds_up(xs: Seq<String>, ys: Seq<String>, date: Seq<u8>)
    ensures
        count_of_date(xs + ys, date) == count_of_date(xs, date) + count_of_date(ys, date),
    decreases ys.len(),
{
    if ys.len() == 0 {
        assert(xs + ys =~= xs);
    } else {
        law_count_adds_up(xs, ys.drop_last(), date);
        assert((xs + ys).drop_last() =~= xs + ys.drop_last());
        assert((xs + ys).last() == ys.last());
    }
}

/// A listing of one name counts 1 when that name is a trip file of the date,
/// 0 otherwise.
pub proof fn law_count_of_one_name(name: String, date: Seq<u8>)
    ensures
        count_of_date(seq![name], date) == (if is_trip_of_date(bytes_of(name), date) {
            1nat
        } else {
            0nat
        }),
{
    let one = seq![name];
    assert(one.drop_last() =~= Seq::<String>::empty());
    assert(one.last() == name);
    assert(count_of_date(Seq::<String>::empty(), date) == 0);
}

/// Every notification received while a trip is recorded, or that starts one,
/// is appended followed by a comma; a `disconnect` appends itself followed by
/// `]`; a `connect` opens with `[` exactly where the file opens trips; and a
/// notification outside a trip appends nothing.
pub proof fn law_recorded_notifications_are_written(
    started: bool,
    opens_with_bracket: bool,
    n: Notification,
)
    ensures
        ({
            let w = written_for(started, opens_with_bracket, n);
            let t = n.payload_type;
            let b = n.body@;
            &&& (is_connect(t) || (started && !is_disconnect(t))) ==> (w.len() >= b.len() + 1
                && w.subrange(w.len() - (b.len() + 1), w.len() as int) == b.push(44u8))
            &&& is_connect(t) ==> w == (if opens_with_bracket {
                seq![91u8]
            } else {
                seq![]
            }) + b.push(44u8)
            &&& is_disconnect(t) ==> w == b.push(93u8)
            &&& (!is_connect(t) && !is_disconnect(t) && started) ==> w == b.push(44u8)
            &&& (!is_connect(t) && !is_disconnect(t) && !started) ==> w.len() == 0
        }),
{
    lemma_kinds_differ();
    let w = written_for(started, opens_with_bracket, n);
    let b = n.body@;
    if is_connect(n.payload_type) {
        let h: Seq<u8> = if opens_with_bracket { seq![91u8] } else { seq![] };
        assert(w == h + b.push(44u8));
        assert(w.subrange(w.len() - (b.len() + 1), w.len() as int) =~= b.push(44u8));
    } else if started && !is_disconnect(n.payload_type) {
        assert(w =~= b.push(44u8));
        assert(w.subrange(w.len() - (b.len() + 1), w.len() as int) =~= b.push(44u8));
    } else if is_disconnect(n.payload_type) {
        assert(w =~= b.push(93u8));
    }
}

} // verus!
