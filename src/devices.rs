//! The simulator listing: its JSON document, the device records it holds, and the choice of
//! the iOS runtime keys.

use vstd::prelude::*;

use crate::error::DeployError;
use crate::text::{contains, contains_str};

verus! {

/// A JSON value as the simulator listing holds it.
#[derive(Debug)]
pub enum JsonValue {
    Null,
    Bool(bool),
    /// A number, kept as its text.
    Number(String),
    Text(String),
    Array(Vec<JsonValue>),
    /// The members of an object, in the order of the document.
    Object(Vec<JsonMember>),
}

/// A named member of a JSON object.
#[derive(Debug)]
pub struct JsonMember {
    pub key: String,
    pub value: JsonValue,
}

/// Lifecycle state of a simulator instance.
#[derive(Clone, Copy, Debug, PartialEq, Eq, Structural)]
pub enum DeviceState {
    Shutdown,
    Booted,
}

/// A simulator instance as the listing describes it.
#[derive(Clone, Debug, PartialEq, Eq)]
pub struct SimulatorDevice {
    pub udid: String,
    pub name: String,
    pub state: DeviceState,
}

/// The mathematical content of a [`SimulatorDevice`].
pub struct SimulatorDeviceView {
    pub udid: Seq<char>,
    pub name: Seq<char>,
    pub state: DeviceState,
}

impl View for SimulatorDevice {
    type V = SimulatorDeviceView;

    open spec fn view(&self) -> SimulatorDeviceView {
        SimulatorDeviceView { udid: self.udid@, name: self.name@, state: self.state }
    }
}

/// The views of a sequence of devices.
pub open spec fn device_views(ds: Seq<SimulatorDevice>) -> Seq<SimulatorDeviceView> {
    ds.map_values(|d: SimulatorDevice| d@)
}

/// The value of the first member of an object named `key`.
pub open spec fn member(entries: Seq<JsonMember>, key: Seq<char>) -> Option<JsonValue>
    decreases entries.len(),
{
    if entries.len() == 0 {
        None
    } else if entries[0].key@ == key {
        Some(entries[0].value)
    } else {
        member(entries.drop_first(), key)
    }
}

/// The text of the member `key` of an object, where that member is a string.
pub open spec fn text_member(v: JsonValue, key: Seq<char>) -> Option<Seq<char>> {
    match v {
        JsonValue::Object(entries) => match member(entries@, key) {
            Some(JsonValue::Text(s)) => Some(s@),
            _ => None,
        },
        _ => None,
    }
}

/// The state that a listing names by `s`.
pub open spec fn state_named(s: Seq<char>) -> Option<DeviceState> {
    if s == "Shutdown"@ {
        Some(DeviceState::Shutdown)
    } else if s == "Booted"@ {
        Some(DeviceState::Booted)
    } else {
        None
    }
}

/// The device that a listing record describes: an object with string members `udid`, `name`
/// and `state`, the state being `Shutdown` or `Booted`; other members are ignored.
pub open spec fn device_record(v: JsonValue) -> Option<SimulatorDeviceView> {
    match (text_member(v, "udid"@), text_member(v, "name"@), text_member(v, "state"@)) {
        (Some(udid), Some(name), Some(s)) => match state_named(s) {
            Some(state) => Some(SimulatorDeviceView { udid, name, state }),
            None => None,
        },
        _ => None,
    }
}

/// The devices of the first `n` records of a list, where each of them is a device record.
pub open spec fn device_records(items: Seq<JsonValue>, n: int) -> Option<Seq<SimulatorDeviceView>>
    decreases n,
{
    if n <= 0 {
        Some(Seq::empty())
    } else {
        match (device_records(items, n - 1), device_record(items[n - 1])) {
            (Some(ds), Some(d)) => Some(ds.push(d)),
            _ => None,
        }
    }
}

/// The devices that the payload of a runtime key describes: a list of device records.
pub open spec fn device_list(v: JsonValue) -> Option<Seq<SimulatorDeviceView>> {
    match v {
        JsonValue::Array(items) => device_records(items@, items@.len() as int),
        _ => None,
    }
}

/// Whether a runtime key belongs to the iOS platform: its text holds `.iOS`.
pub open spec fn is_ios_key(key: Seq<char>) -> bool {
    contains(key, ".iOS"@)
}

/// The iOS devices of the first `n` runtime keys, in order, or the first iOS key whose
/// payload is not a list of device records.
pub open spec fn ios_devices(entries: Seq<JsonMember>, n: int) -> Result<
    Seq<SimulatorDeviceView>,
    Seq<char>,
>
    decreases n,
{
    if n <= 0 {
        Ok(Seq::empty())
    } else {
        match ios_devices(entries, n - 1) {
            Err(key) => Err(key),
            Ok(ds) => if is_ios_key(entries[n - 1].key@) {
                match device_list(entries[n - 1].value) {
                    Some(more) => Ok(ds + more),
                    None => Err(entries[n - 1].key@),
                }
            } else {
                Ok(ds)
            },
        }
    }
}

/// A listing in which some iOS runtime key holds a payload that is not a list of device
/// records yields no devices at all: the whole listing is refused.
pub proof fn lemma_malformed_ios_payload_refuses_listing(entries: Seq<JsonMember>, j: int)
    requires
        0 <= j < entries.len(),
        is_ios_key(entries[j].key@),
        device_list(entries[j].value) is None,
    ensures
        ios_devices(entries, entries.len() as int) is Err,
{
    if ios_devices(entries, j) is Err {
        lemma_ios_fail_later(entries, j, entries.len() as int);
    } else {
        assert(ios_devices(entries, j + 1) is Err);
        lemma_ios_fail_later(entries, j + 1, entries.len() as int);
    }
}

/// The runtime keys of a listing whose text holds `.iOS`, in their order.
pub open spec fn ios_entries(entries: Seq<JsonMember>) -> Seq<JsonMember> {
    entries.filter(|m: JsonMember| is_ios_key(m.key@))
}

/// Only keys whose text holds `.iOS` count: the listing yields what its iOS keys alone, in
/// their order, would yield.
pub proof fn lemma_only_ios_keys_count(entries: Seq<JsonMember>)
    ensures
        ios_devices(entries, entries.len() as int) == ios_devices(
            ios_entries(entries),
            ios_entries(entries).len() as int,
        ),
{
    lemma_ios_filtered_prefix(entries, entries.len() as int);
    assert(entries.subrange(0, entries.len() as int) =~= entries);
}

proof fn lemma_ios_filtered_prefix(entries: Seq<JsonMember>, n: int)
    requires
        0 <= n <= entries.len(),
    ensures
        ios_devices(entries, n) == ios_devices(
            ios_entries(entries.subrange(0, n)),
            ios_entries(entries.subrange(0, n)).len() as int,
        ),
    decreases n,
{
    let f = ios_entries(entries.subrange(0, n));
    if n == 0 {
        assert(f =~= Seq::<JsonMember>::empty()) by {
            reveal(Seq::filter);
        }
    } else {
        lemma_ios_filtered_prefix(entries, n - 1);
        let prev = ios_entries(entries.subrange(0, n - 1));
        assert(entries.subrange(0, n).drop_last() =~= entries.subrange(0, n - 1));
        assert(entries.subrange(0, n).last() == entries[n - 1]);
        reveal(Seq::filter);
        if is_ios_key(entries[n - 1].key@) {
            assert(f == prev.push(entries[n - 1]));
            lemma_ios_prefix(f, prev, prev.len() as int);
        } else {
            assert(f == prev);
        }
    }
}

proof fn lemma_ios_prefix(entries: Seq<JsonMember>, prefix: Seq<JsonMember>, n: int)
    requires
        0 <= n <= prefix.len(),
        prefix.len() <= entries.len(),
        forall|k: int| 0 <= k < prefix.len() ==> prefix[k] == entries[k],
    ensures
        ios_devices(entries, n) == ios_devices(prefix, n),
    decreases n,
{
    if n > 0 {
        lemma_ios_prefix(entries, prefix, n - 1);
    }
}

proof fn lemma_records_fail_later(items: Seq<JsonValue>, i: int, k: int)
    requires
        i <= k,
        device_records(items, i) is None,
    ensures
        device_records(items, k) is None,
    decreases k - i,
{
    if i < k {
        lemma_records_fail_later(items, i, k - 1);
    }
}

proof fn lemma_ios_fail_later(entries: Seq<JsonMember>, i: int, k: int)
    requires
        i <= k,
        ios_devices(entries, i) is Err,
    ensures
        ios_devices(entries, k) == ios_devices(entries, i),
    decreases k - i,
{
    if i < k {
        lemma_ios_fail_later(entries, i, k - 1);
    }
}

fn member_index(entries: &Vec<JsonMember>, key: &str) -> (r: Option<usize>)
    ensures
        match member(entries@, key@) {
            Some(v) => r is Some && r.unwrap() < entries@.len() && entries@[r.unwrap() as int].value == v,
            None => r is None,
        },
{
    let k = String::from_str(key);
    let mut i: usize = 0;
    assert(entries@.subrange(0, entries@.len() as int) =~= entries@);
    while i < entries.len()
        invariant
            k@ == key@,
            i <= entries@.len(),
            member(entries@, key@) == member(entries@.subrange(i as int, entries@.len() as int), key@),
        decreases entries@.len() - i,
    {
        let ghost rest = entries@.subrange(i as int, entries@.len() as int);
        assert(rest.drop_first() =~= entries@.subrange(i + 1, entries@.len() as int));
        if entries[i].key == k {
            return Some(i);
        }
        i = i + 1;
    }
    None
}

fn text_value<'a>(entries: &'a Vec<JsonMember>, key: &str) -> (r: Option<&'a String>)
    ensures
        match text_member(JsonValue::Object(*entries), key@) {
            Some(s) => r.is_some() && r.unwrap()@ == s,
            None => r.is_none(),
        },
{
    match member_index(entries, key) {
        Some(i) => match &entries[i].value {
            JsonValue::Text(s) => Some(s),
            _ => None,
        },
        None => None,
    }
}

fn state_value(s: &String) -> (r: Option<DeviceState>)
    ensures
        r == state_named(s@),
{
    if *s == String::from_str("Shutdown") {
        Some(DeviceState::Shutdown)
    } else if *s == String::from_str("Booted") {
        Some(DeviceState::Booted)
    } else {
        None
    }
}

/// Reads one device record of the listing.
pub fn parse_device(v: &JsonValue) -> (r: Option<SimulatorDevice>)
    ensures
        match device_record(*v) {
            Some(d) => r.is_some() && r.unwrap()@ == d,
            None => r.is_none(),
        },
{
    match v {
        JsonValue::Object(entries) => {
            let udid = text_value(entries, "udid");
            let name = text_value(entries, "name");
            let state = text_value(entries, "state");
            match (udid, name, state) {
                (Some(udid), Some(name), Some(s)) => match state_value(s) {
                    Some(state) => Some(SimulatorDevice { udid: udid.clone(), name: name.clone(), state }),
                    None => None,
                },
                _ => None,
            }
        },
        _ => None,
    }
}

/// Reads the payload of one runtime key: a list of device records.
pub fn parse_devices(v: &JsonValue) -> (r: Option<Vec<SimulatorDevice>>)
    ensures
        match device_list(*v) {
            Some(ds) => r.is_some() && device_views(r.unwrap()@) == ds,
            None => r.is_none(),
        },
{
    match v {
        JsonValue::Array(items) => {
            let mut out: Vec<SimulatorDevice> = Vec::new();
            let mut i: usize = 0;
            assert(device_views(out@) =~= Seq::empty());
            while i < items.len()
                invariant
                    *v == JsonValue::Array(*items),
                    i <= items@.len(),
                    device_records(items@, i as int) == Some(device_views(out@)),
                decreases items@.len() - i,
            {
                match parse_device(&items[i]) {
                    Some(d) => {
                        proof {
                            let old_out = out@;
                            assert(device_views(old_out.push(d)) =~= device_views(old_out).push(d@));
                        }
                        out.push(d);
                    },
                    None => {
                        proof {
                            assert(device_records(items@, i as int + 1) is None);
                            lemma_records_fail_later(items@, i as int + 1, items@.len() as int);
                        }
                        return None;
                    },
                }
                i = i + 1;
            }
            Some(out)
        },
        _ => None,
    }
}

/// The listing of simulators, grouped by runtime key.
pub struct SimulatorDevices {
    /// Each runtime key with its payload, in the order of the listing.
    pub devices: Vec<JsonMember>,
}

/// The runtime keys of a listing document: the members of the object named `devices` in the
/// top-level object; other members of the top-level object are ignored.
pub open spec fn listing_members(doc: JsonValue) -> Option<Seq<JsonMember>> {
    match doc {
        JsonValue::Object(members) => match member(members@, "devices"@) {
            Some(JsonValue::Object(runtimes)) => Some(runtimes@),
            _ => None,
        },
        _ => None,
    }
}

impl SimulatorDevices {
    /// Reads the listing from its document, `{"devices": {<runtime key>: <payload>, ...}}`.
    pub fn from_document(doc: JsonValue) -> (r: Option<SimulatorDevices>)
        ensures
            match listing_members(doc) {
                Some(ms) => r is Some && r.unwrap().devices@ == ms,
                None => r is None,
            },
    {
        match doc {
            JsonValue::Object(mut members) => match member_index(&members, "devices") {
                Some(i) => {
                    let JsonMember { key: _, value } = members.remove(i);
                    match value {
                        JsonValue::Object(runtimes) => Some(SimulatorDevices { devices: runtimes }),
                        _ => None,
                    }
                },
                None => None,
            },
            _ => None,
        }
    }

    /// The devices of every runtime key whose text holds `.iOS`, concatenated in the order of
    /// the keys; fails on the first such key whose payload is not a list of device records.
    pub fn ios(&self) -> (r: Result<Vec<SimulatorDevice>, DeployError>)
        ensures
            match ios_devices(self.devices@, self.devices@.len() as int) {
                Ok(ds) => r.is_ok() && device_views(r.unwrap()@) == ds,
                Err(key) => r.is_err() && (match r.unwrap_err() {
                    DeployError::MalformedListing { runtime_key } => runtime_key@ == key,
                    _ => false,
                }),
            },
    {
        let mut all_devices: Vec<SimulatorDevice> = Vec::new();
        let mut i: usize = 0;
        assert(device_views(all_devices@) =~= Seq::empty());
        while i < self.devices.len()
            invariant
                i <= self.devices@.len(),
                ios_devices(self.devices@, i as int) == Ok::<Seq<SimulatorDeviceView>, Seq<char>>(device_views(all_devices@)),
            decreases self.devices@.len() - i,
        {
            let key = &self.devices[i].key;
            if contains_str(key.as_str(), ".iOS") {
                match parse_devices(&self.devices[i].value) {
                    Some(mut devices) => {
                        proof {
                            assert(device_views(all_devices@ + devices@) =~= device_views(all_devices@) + device_views(devices@));
                        }
                        all_devices.append(&mut devices);
                    },
                    None => {
                        proof {
                            lemma_ios_fail_later(self.devices@, i as int + 1, self.devices@.len() as int);
                        }
                        return Err(DeployError::MalformedListing { runtime_key: key.clone() });
                    },
                }
            }
            i = i + 1;
        }
        Ok(all_devices)
    }
}

} // verus!
