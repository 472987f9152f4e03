//! The settings of the simulator, and the switch that turns recording on and off.

use vstd::prelude::*;
use vstd::string::StringSliceAdditionalSpecFns;
use crate::recorder::{bytes_of, has_trip_prefix};
use crate::text::same_text;

verus! {

/// The value of the recording switch after a toggle: 1 when it was 0, and 0
/// otherwise.
pub open spec fn toggled(switch: usize) -> usize {
    if switch == 0 {
        1
    } else {
        0
    }
}

/// Toggles the recording switch.
pub fn record(switch: usize) -> (after: usize)
    ensures
        after == toggled(switch),
{
    if switch == 0 {
        1
    } else {
        0
    }
}

/// Toggling the recording switch twice brings it back, from either of its
/// two positions.
pub proof fn law_toggle_twice(switch: usize)
    requires
        switch <= 1,
    ensures
        toggled(switch) == 1 - switch,
        toggled(toggled(switch)) == switch,
{
}

/// Whether notifications are recorded with the switch in a given position.
pub open spec fn is_recording(switch: usize) -> bool {
    switch == 1
}

/// From a fresh start (the switch at 0), one toggle turns recording on, and a
/// second one turns it off again.
pub proof fn law_first_toggle_records()
    ensures
        is_recording(toggled(0)),
        !is_recording(toggled(toggled(0))),
{
}

/// Whether notifications are recorded: the switch is 1.
pub fn recording_on(switch: usize) -> (on: bool)
    ensures
        on == is_recording(switch),
{
    switch == 1
}

/// A setting that the configuration page can change.
pub enum Setting {
    /// The working directory.
    Dir,
    /// Whether a failing simulation stops.
    Shutdown,
    /// The IMEI that simulated packets carry.
    Imei,
    /// The number of sessions that can run.
    Threads,
}

impl Setting {
    /// The member of the posted configuration that holds the setting.
    pub fn json_field(&self) -> (name: &'static str)
        ensures
            name@ == match *self {
                Setting::Dir => "wd"@,
                Setting::Shutdown => "shutdown"@,
                Setting::Imei => "imei"@,
                Setting::Threads => "threads"@,
            },
    {
        match self {
            Setting::Dir => "wd",
            Setting::Shutdown => "shutdown",
            Setting::Imei => "imei",
            Setting::Threads => "threads",
        }
    }

    /// The environment variable that holds the setting.
    pub fn env_var(&self) -> (name: &'static str)
        ensures
            name@ == match *self {
                Setting::Dir => "DIR"@,
                Setting::Shutdown => "SHUTDOWN"@,
                Setting::Imei => "IMEI"@,
                Setting::Threads => "THREADS_NBR"@,
            },
    {
        match self {
            Setting::Dir => "DIR",
            Setting::Shutdown => "SHUTDOWN",
            Setting::Imei => "IMEI",
            Setting::Threads => "THREADS_NBR",
        }
    }
}

/// The new value of a setting: the requested one, when the setting is set
/// and holds another value; `None` (left as it is) otherwise.
pub fn setting_change(current: Option<&str>, requested: &str) -> (change: Option<String>)
    ensures
        (change matches Some(s) ==> s@ == requested@)
            && (change is Some <==> (current matches Some(c) && c@ != requested@)),
{
    match current {
        Some(c) => {
            if same_text(c, requested) {
                None
            } else {
                let mut s = String::new();
                s.append(requested);
                Some(s)
            }
        },
        None => None,
    }
}

/// Whether a failing simulation stops: the setting is `true`.
pub fn shutdown_enabled(value: Option<&str>) -> (enabled: bool)
    ensures
        enabled == (value matches Some(v) && v@ == "true"@),
{
    match value {
        Some(v) => same_text(v, "true"),
        None => false,
    }
}

/// The names of a listing that are trip files (start with `trip_`).
pub open spec fn trip_names(names: Seq<String>) -> Seq<String>
    decreases names.len(),
{
    if names.len() == 0 {
        seq![]
    } else {
        let rest = trip_names(names.drop_last());
        if has_trip_prefix(bytes_of(names.last())) {
            rest.push(names.last())
        } else {
            rest
        }
    }
}

/// Whether a file name is that of a trip file (starts with `trip_`).
pub fn is_trip_name(name: &str) -> (trip: bool)
    ensures
        trip == has_trip_prefix(name.spec_bytes()),
{
    let bytes = name.as_bytes();
    let trip = bytes.len() >= 5 && bytes[0] == 116u8 && bytes[1] == 114u8 && bytes[2] == 105u8
        && bytes[3] == 112u8 && bytes[4] == 95u8;
    proof {
        let b = name.spec_bytes();
        if b.len() >= 5 {
            if trip {
                assert(b.subrange(0, 5) =~= crate::recorder::trip_prefix());
            } else {
                assert(b.subrange(0, 5)[0] == b[0]);
                assert(b.subrange(0, 5)[1] == b[1]);
                assert(b.subrange(0, 5)[2] == b[2]);
                assert(b.subrange(0, 5)[3] == b[3]);
                assert(b.subrange(0, 5)[4] == b[4]);
            }
        }
    }
    trip
}

/// The names of a listing of the uploads directory that are trip files, in
/// the order of the listing.
pub fn trip_files(names: &Vec<String>) -> (trips: Vec<String>)
    ensures
        trips@ == trip_names(names@),
{
    let mut trips: Vec<String> = Vec::new();
    let mut i: usize = 0;
    while i < names.len()
        invariant
            i <= names@.len(),
            trips@ == trip_names(names@.subrange(0, i as int)),
        decreases names@.len() - i,
    {
        let trip = is_trip_name(names[i].as_str());
        if trip {
            trips.push(names[i].clone());
        }
        assert(names@.subrange(0, i + 1 as int).drop_last() =~= names@.subrange(0, i as int));
        i = i + 1;
    }
    assert(names@.subrange(0, names@.len() as int) =~= names@);
    trips
}

/// What a simulation request starts.
pub enum SimulationMode {
    /// A live simulation along a route (an API key was given).
    Live,
    /// The replay of one trip file (a file was chosen).
    ReplayFile,
    /// The replay of stored tracks and presences.
    ReplayArchive,
}

/// What a simulation request starts: a live simulation when an API key is
/// given, else the replay of the chosen file when one is chosen, else the
/// replay of the archive.
pub fn simulation_mode(key: &str, chosen_file: &str) -> (mode: SimulationMode)
    ensures
        key@.len() > 0 ==> mode is Live,
        key@.len() == 0 && chosen_file@.len() > 0 ==> mode is ReplayFile,
        key@.len() == 0 && chosen_file@.len() == 0 ==> mode is ReplayArchive,
{
    if !key.is_empty() {
        SimulationMode::Live
    } else if !chosen_file.is_empty() {
        SimulationMode::ReplayFile
    } else {
        SimulationMode::ReplayArchive
    }
}

} // verus!
