//! The telemetry reader: from the three raw gateway responses of one
//! scrape — production, consumption, inverters — to a typed status
//! record, or the first failure.
//!
//! Every numeric field must be present and integer-valued; any missing or
//! wrong-typed field fails its whole phase, and any phase failure fails
//! the whole read: no partial status record is ever produced.  The
//! inverter phase requires a JSON array; with duplicate serial numbers,
//! the last occurrence's wattage wins.

use vstd::prelude::*;

use crate::fetch::FetchOutcome;
use crate::json::Json;
use crate::json::parse_json;

verus! {

/// The wattage last reported by each inverter, keyed by serial number.
///
/// Kept as a list of pairs with pairwise distinct keys; inserting an
/// existing key replaces its wattage in place, so the mapping holds the
/// last value written for each serial number.
#[derive(Debug)]
pub struct InverterMap {
    entries: Vec<(String, i64)>,
}

impl View for InverterMap {
    type V = Seq<(Seq<char>, i64)>;

    closed spec fn view(&self) -> Seq<(Seq<char>, i64)> {
        self.entries@.map_values(|p: (String, i64)| (p.0@, p.1))
    }
}

/// No two pairs of `s` carry the same key.
pub open spec fn unique_keys(s: Seq<(Seq<char>, i64)>) -> bool {
    forall|i: int, j: int| 0 <= i < j < s.len() ==> s[i].0 != s[j].0
}

/// `s` with `v` written under `k`: in place where `k` is already there,
/// appended where it is not.
pub open spec fn spec_upsert(s: Seq<(Seq<char>, i64)>, k: Seq<char>, v: i64) -> Seq<
    (Seq<char>, i64),
>
    decreases s.len(),
{
    if s.len() == 0 {
        seq![(k, v)]
    } else if s[0].0 == k {
        seq![(k, v)] + s.drop_first()
    } else {
        seq![s[0]] + spec_upsert(s.drop_first(), k, v)
    }
}

/// The wattage under `k` in `s`: the first pair that carries it.
pub open spec fn spec_get(s: Seq<(Seq<char>, i64)>, k: Seq<char>) -> Option<i64>
    decreases s.len(),
{
    if s.len() == 0 {
        Option::None
    } else if s[0].0 == k {
        Option::Some(s[0].1)
    } else {
        spec_get(s.drop_first(), k)
    }
}

/// Writing under a key that first appears at index `i` replaces that pair
/// and leaves the rest of the list as it was.
proof fn lemma_upsert_found(s: Seq<(Seq<char>, i64)>, k: Seq<char>, v: i64, i: int)
    requires
        0 <= i < s.len(),
        s[i].0 == k,
        forall|j: int| 0 <= j < i ==> s[j].0 != k,
    ensures
        spec_upsert(s, k, v) == s.update(i, (k, v)),
    decreases i,
{
    if i == 0 {
        assert(spec_upsert(s, k, v) =~= s.update(0, (k, v)));
    } else {
        lemma_upsert_found(s.drop_first(), k, v, i - 1);
        assert(spec_upsert(s, k, v) =~= s.update(i, (k, v)));
    }
}

/// Writing under a key that is absent appends the new pair.
proof fn lemma_upsert_absent(s: Seq<(Seq<char>, i64)>, k: Seq<char>, v: i64)
    requires
        forall|j: int| 0 <= j < s.len() ==> s[j].0 != k,
    ensures
        spec_upsert(s, k, v) == s.push((k, v)),
    decreases s.len(),
{
    if s.len() == 0 {
        assert(spec_upsert(s, k, v) =~= s.push((k, v)));
    } else {
        lemma_upsert_absent(s.drop_first(), k, v);
        assert(spec_upsert(s, k, v) =~= s.push((k, v)));
    }
}

/// After a write, the written key reads back as the written wattage.
pub proof fn lemma_get_after_upsert_same(s: Seq<(Seq<char>, i64)>, k: Seq<char>, v: i64)
    ensures
        spec_get(spec_upsert(s, k, v), k) == Option::Some(v),
    decreases s.len(),
{
    let u = spec_upsert(s, k, v);
    if s.len() == 0 {
        assert(u[0] == (k, v));
    } else if s[0].0 == k {
        assert(u[0] == (k, v));
    } else {
        lemma_get_after_upsert_same(s.drop_first(), k, v);
        assert(u[0] == s[0]);
        assert(u.drop_first() =~= spec_upsert(s.drop_first(), k, v));
    }
}

/// A write under one key leaves what every other key reads back unchanged.
pub proof fn lemma_get_after_upsert_other(
    s: Seq<(Seq<char>, i64)>,
    k: Seq<char>,
    v: i64,
    other: Seq<char>,
)
    requires
        other != k,
    ensures
        spec_get(spec_upsert(s, k, v), other) == spec_get(s, other),
    decreases s.len(),
{
    let u = spec_upsert(s, k, v);
    if s.len() == 0 {
        assert(u[0] == (k, v));
        assert(u.drop_first() =~= Seq::<(Seq<char>, i64)>::empty());
        assert(spec_get(u, other) == spec_get(u.drop_first(), other));
    } else if s[0].0 == k {
        assert(u[0] == (k, v));
        assert(u.drop_first() =~= s.drop_first());
        assert(spec_get(u, other) == spec_get(s.drop_first(), other));
        assert(spec_get(s, other) == spec_get(s.drop_first(), other));
    } else {
        lemma_get_after_upsert_other(s.drop_first(), k, v, other);
        assert(u[0] == s[0]);
        assert(u.drop_first() =~= spec_upsert(s.drop_first(), k, v));
        if s[0].0 == other {
            assert(spec_get(u, other) == Option::Some(s[0].1));
            assert(spec_get(s, other) == Option::Some(s[0].1));
        } else {
            assert(spec_get(u, other) == spec_get(spec_upsert(s.drop_first(), k, v), other));
            assert(spec_get(s, other) == spec_get(s.drop_first(), other));
        }
    }
}

/// A write keeps the keys pairwise distinct.
pub proof fn lemma_upsert_keeps_unique(s: Seq<(Seq<char>, i64)>, k: Seq<char>, v: i64)
    requires
        unique_keys(s),
    ensures
        unique_keys(spec_upsert(s, k, v)),
{
    if exists|i: int| 0 <= i < s.len() && s[i].0 == k {
        let first = spec_first_index(s, k);
        lemma_first_index(s, k);
        lemma_upsert_found(s, k, v, first);
        assert(s.update(first, (k, v))[first].0 == k);
    } else {
        lemma_upsert_absent(s, k, v);
    }
}

/// The least index at which `k` appears in `s` (meaningful only where it
/// does appear).
spec fn spec_first_index(s: Seq<(Seq<char>, i64)>, k: Seq<char>) -> int
    decreases s.len(),
{
    if s.len() == 0 {
        0
    } else if s[0].0 == k {
        0
    } else {
        1 + spec_first_index(s.drop_first(), k)
    }
}

/// Where `k` appears at all, it appears at its least index and nowhere
/// before it.
proof fn lemma_first_index(s: Seq<(Seq<char>, i64)>, k: Seq<char>)
    requires
        exists|i: int| 0 <= i < s.len() && s[i].0 == k,
    ensures
        0 <= spec_first_index(s, k) < s.len(),
        s[spec_first_index(s, k)].0 == k,
        forall|j: int| 0 <= j < spec_first_index(s, k) ==> s[j].0 != k,
    decreases s.len(),
{
    if s.len() == 0 {
    } else if s[0].0 == k {
    } else {
        let i0 = choose|i: int| 0 <= i < s.len() && s[i].0 == k;
        assert(s.drop_first()[i0 - 1].0 == k);
        lemma_first_index(s.drop_first(), k);
        assert forall|j: int| 0 <= j < spec_first_index(s, k) implies s[j].0 != k by {
            if j > 0 {
                assert(s.drop_first()[j - 1].0 != k);
            }
        }
    }
}

impl InverterMap {
    /// Pairwise distinct serial numbers: established empty, preserved by
    /// every insert.
    pub open spec fn wf(self) -> bool {
        unique_keys(self@)
    }

    /// The empty mapping.
    pub fn new() -> (r: InverterMap)
        ensures
            r@ == Seq::<(Seq<char>, i64)>::empty(),
            r.wf(),
    {
        let r = InverterMap { entries: Vec::new() };
        proof {
            assert(r@ =~= Seq::<(Seq<char>, i64)>::empty());
        }
        r
    }

    /// How many inverters the mapping holds.
    pub fn len(&self) -> (r: usize)
        ensures
            r == self@.len(),
    {
        self.entries.len()
    }

    /// The pair at position `i`, in insertion order of the serial numbers.
    pub fn entry_at(&self, i: usize) -> (r: (String, i64))
        requires
            i < self@.len(),
        ensures
            r.0@ == self@[i as int].0,
            r.1 == self@[i as int].1,
    {
        let p = &self.entries[i];
        (p.0.clone(), p.1)
    }

    /// The wattage recorded under `key`, if any.
    pub fn get(&self, key: &String) -> (r: Option<i64>)
        ensures
            r == spec_get(self@, key@),
    {
        let n = self.entries.len();
        let mut i: usize = 0;
        proof {
            assert(self@.skip(0) =~= self@);
        }
        while i < n
            invariant
                n == self.entries@.len(),
                i <= n,
                spec_get(self@, key@) == spec_get(self@.skip(i as int), key@),
                forall|j: int| 0 <= j < i ==> self@[j].0 != key@,
            decreases n - i,
        {
            if self.entries[i].0 == *key {
                return Option::Some(self.entries[i].1);
            }
            proof {
                assert(self@.skip(i as int).drop_first() =~= self@.skip(i + 1));
            }
            i += 1;
        }
        Option::None
    }

    /// Write `value` under `key`: in place where the serial number is
    /// already recorded, appended where it is not.
    pub fn insert(&mut self, key: String, value: i64)
        ensures
            final(self)@ == spec_upsert(old(self)@, key@, value),
            old(self).wf() ==> final(self).wf(),
    {
        let ghost kv = key@;
        let n = self.entries.len();
        let mut i: usize = 0;
        while i < n
            invariant
                n == self.entries@.len(),
                self.entries@ == old(self).entries@,
                self@ == old(self)@,
                i <= n,
                forall|j: int| 0 <= j < i ==> old(self)@[j].0 != kv,
                kv == key@,
            decreases n - i,
        {
            if self.entries[i].0 == key {
                proof {
                    assert(old(self)@[i as int].0 == kv);
                    lemma_upsert_found(old(self)@, kv, value, i as int);
                    if old(self).wf() {
                        lemma_upsert_keeps_unique(old(self)@, kv, value);
                    }
                }
                self.entries[i] = (key, value);
                proof {
                    assert(self@ =~= old(self)@.update(i as int, (kv, value)));
                }
                return ;
            }
            i += 1;
        }
        self.entries.push((key, value));
        proof {
            lemma_upsert_absent(old(self)@, kv, value);
            assert(self@ =~= old(self)@.push((kv, value)));
            if old(self).wf() {
                lemma_upsert_keeps_unique(old(self)@, kv, value);
            }
        }
    }
}

/// The three telemetry fetch phases of one read, in the order they run.
#[derive(Debug, Clone, Copy, PartialEq, Eq, Structural)]
pub enum Phase {
    Production,
    Consumption,
    Inverters,
}

/// Why one phase of a telemetry read failed.
#[derive(Debug)]
pub enum FetchErrorKind {
    /// The call itself failed, with the transport's message.
    Transport(String),
    /// The gateway answered with a non-success status.
    HttpStatus(u16),
    /// The response body is not valid JSON.
    BadJson,
    /// A required field is missing or not of the required type.
    BadField(String),
    /// The inverters response is not a JSON array.
    NotArray,
}

/// The model of a [`FetchErrorKind`], with the strings as sequences.
pub enum FetchErrorKindV {
    Transport(Seq<char>),
    HttpStatus(u16),
    BadJson,
    BadField(Seq<char>),
    NotArray,
}

impl View for FetchErrorKind {
    type V = FetchErrorKindV;

    open spec fn view(&self) -> FetchErrorKindV {
        match self {
            FetchErrorKind::Transport(m) => FetchErrorKindV::Transport(m@),
            FetchErrorKind::HttpStatus(c) => FetchErrorKindV::HttpStatus(*c),
            FetchErrorKind::BadJson => FetchErrorKindV::BadJson,
            FetchErrorKind::BadField(n) => FetchErrorKindV::BadField(n@),
            FetchErrorKind::NotArray => FetchErrorKindV::NotArray,
        }
    }
}

/// A telemetry read failure: which phase failed, and why.  The whole
/// read for the system is abandoned with it — no partial status exists.
#[derive(Debug)]
pub struct FetchError {
    pub phase: Phase,
    pub kind: FetchErrorKind,
}

/// The model of a [`FetchError`].
pub struct FetchErrorV {
    pub phase: Phase,
    pub kind: FetchErrorKindV,
}

impl View for FetchError {
    type V = FetchErrorV;

    open spec fn view(&self) -> FetchErrorV {
        FetchErrorV { phase: self.phase, kind: self.kind@ }
    }
}

/// The production and consumption field names, and the inverter entry
/// field names, as the gateway sends them.
pub open spec fn lifetime_key() -> Seq<char> {
    "wattHoursLifetime"@
}

pub open spec fn today_key() -> Seq<char> {
    "wattHoursToday"@
}

pub open spec fn now_key() -> Seq<char> {
    "wattsNow"@
}

pub open spec fn serial_key() -> Seq<char> {
    "serialNumber"@
}

pub open spec fn watts_key() -> Seq<char> {
    "lastReportWatts"@
}

/// What one phase's outcome yields before decoding: its parsed JSON body,
/// or the transport, status or parse failure.
pub open spec fn spec_phase_json(o: FetchOutcome) -> Result<Json, FetchErrorKindV> {
    match o {
        FetchOutcome::Transport(m) => Result::Err(FetchErrorKindV::Transport(m@)),
        FetchOutcome::HttpStatus(c) => Result::Err(FetchErrorKindV::HttpStatus(c)),
        FetchOutcome::Body(b) => match crate::json::parsed_json(b@) {
            Option::None => Result::Err(FetchErrorKindV::BadJson),
            Option::Some(j) => Result::Ok(j),
        },
    }
}

/// The integer under `key` in `j`, where `j` is an object whose field
/// `key` is an integer.
pub open spec fn spec_int_field(j: Json, key: Seq<char>) -> Option<i64> {
    match j.spec_lookup(key) {
        Json::Int(n) => Option::Some(n),
        _ => Option::None,
    }
}

/// The three numbers of a production or consumption object — lifetime,
/// today, now, checked in that order — or the name of the first field
/// that is missing or not an integer.
pub open spec fn spec_triple(j: Json) -> Result<(i64, i64, i64), Seq<char>> {
    if spec_int_field(j, lifetime_key()) is None {
        Result::Err(lifetime_key())
    } else if spec_int_field(j, today_key()) is None {
        Result::Err(today_key())
    } else if spec_int_field(j, now_key()) is None {
        Result::Err(now_key())
    } else {
        Result::Ok(
            (
                spec_int_field(j, lifetime_key())->Some_0,
                spec_int_field(j, today_key())->Some_0,
                spec_int_field(j, now_key())->Some_0,
            ),
        )
    }
}

/// What a production or consumption phase yields as a whole.
pub open spec fn spec_triple_phase(o: FetchOutcome) -> Result<(i64, i64, i64), FetchErrorKindV> {
    match spec_phase_json(o) {
        Result::Err(k) => Result::Err(k),
        Result::Ok(j) => match spec_triple(j) {
            Result::Ok(t) => Result::Ok(t),
            Result::Err(name) => Result::Err(FetchErrorKindV::BadField(name)),
        },
    }
}

/// One inverter entry: its serial number string and last-report wattage,
/// or the name of the field that is missing or wrongly typed.
pub open spec fn spec_inverter_entry(j: Json) -> Result<(Seq<char>, i64), FetchErrorKindV> {
    match j.spec_lookup(serial_key()) {
        Json::Str(s) => match j.spec_lookup(watts_key()) {
            Json::Int(n) => Result::Ok((s@, n)),
            _ => Result::Err(FetchErrorKindV::BadField(watts_key())),
        },
        _ => Result::Err(FetchErrorKindV::BadField(serial_key())),
    }
}

/// The inverter mapping an array decodes to, entry by entry in array
/// order, each written over any earlier entry with the same serial
/// number; or the first entry failure.
pub open spec fn spec_inverter_fold(elems: Seq<Json>) -> Result<
    Seq<(Seq<char>, i64)>,
    FetchErrorKindV,
>
    decreases elems.len(),
{
    if elems.len() == 0 {
        Result::Ok(Seq::empty())
    } else {
        match spec_inverter_fold(elems.drop_last()) {
            Result::Err(k) => Result::Err(k),
            Result::Ok(s) => match spec_inverter_entry(elems.last()) {
                Result::Err(k) => Result::Err(k),
                Result::Ok(e) => Result::Ok(spec_upsert(s, e.0, e.1)),
            },
        }
    }
}

/// What the inverters phase yields as a whole: its body must be a JSON
/// array, and every entry must decode.
pub open spec fn spec_inverters(o: FetchOutcome) -> Result<Seq<(Seq<char>, i64)>, FetchErrorKindV> {
    match spec_phase_json(o) {
        Result::Err(k) => Result::Err(k),
        Result::Ok(j) => match j {
            Json::Arr(elems) => spec_inverter_fold(elems@),
            _ => Result::Err(FetchErrorKindV::NotArray),
        },
    }
}

/// The model of an [`EnvoyStatus`]: its numbers, and the inverter
/// mapping as a list of pairs.
#[verifier::ext_equal]
pub struct EnvoyStatusV {
    pub online: bool,
    pub watt_hours_lifetime: i64,
    pub watt_hours_today: i64,
    pub watts_now: i64,
    pub watt_hours_lifetime_consumption: i64,
    pub watt_hours_today_consumption: i64,
    pub watts_now_consumption: i64,
    pub inverters: Seq<(Seq<char>, i64)>,
}

impl EnvoyStatusV {
    /// The record a read starts from: offline, all numbers zero, no
    /// inverters.
    pub open spec fn init() -> EnvoyStatusV {
        EnvoyStatusV {
            online: false,
            watt_hours_lifetime: 0,
            watt_hours_today: 0,
            watts_now: 0,
            watt_hours_lifetime_consumption: 0,
            watt_hours_today_consumption: 0,
            watts_now_consumption: 0,
            inverters: Seq::empty(),
        }
    }

    /// `self` with the production numbers set.
    pub open spec fn with_production(self, t: (i64, i64, i64)) -> EnvoyStatusV {
        EnvoyStatusV {
            watt_hours_lifetime: t.0,
            watt_hours_today: t.1,
            watts_now: t.2,
            ..self
        }
    }

    /// `self` with the consumption numbers set.
    pub open spec fn with_consumption(self, t: (i64, i64, i64)) -> EnvoyStatusV {
        EnvoyStatusV {
            watt_hours_lifetime_consumption: t.0,
            watt_hours_today_consumption: t.1,
            watts_now_consumption: t.2,
            ..self
        }
    }

    /// `self` with the inverter mapping set.
    pub open spec fn with_inverters(self, entries: Seq<(Seq<char>, i64)>) -> EnvoyStatusV {
        EnvoyStatusV { inverters: entries, ..self }
    }

    /// `self` marked online.
    pub open spec fn with_online(self, online: bool) -> EnvoyStatusV {
        EnvoyStatusV { online, ..self }
    }
}

/// The typed result of one telemetry read: production, consumption and
/// per-inverter numbers.  `online` is true only once all three phases
/// have succeeded.
#[derive(Debug)]
pub struct EnvoyStatus {
    pub online: bool,
    pub watt_hours_lifetime: i64,
    pub watt_hours_today: i64,
    pub watts_now: i64,
    pub watt_hours_lifetime_consumption: i64,
    pub watt_hours_today_consumption: i64,
    pub watts_now_consumption: i64,
    pub inverters: InverterMap,
}

impl View for EnvoyStatus {
    type V = EnvoyStatusV;

    open spec fn view(&self) -> EnvoyStatusV {
        EnvoyStatusV {
            online: self.online,
            watt_hours_lifetime: self.watt_hours_lifetime,
            watt_hours_today: self.watt_hours_today,
            watts_now: self.watts_now,
            watt_hours_lifetime_consumption: self.watt_hours_lifetime_consumption,
            watt_hours_today_consumption: self.watt_hours_today_consumption,
            watts_now_consumption: self.watts_now_consumption,
            inverters: self.inverters@,
        }
    }
}

impl EnvoyStatus {
    /// The record a read starts from: offline, all numbers zero, no
    /// inverters.
    pub fn new() -> (r: EnvoyStatus)
        ensures
            r@ == EnvoyStatusV::init(),
            r.inverters.wf(),
    {
        EnvoyStatus {
            online: false,
            watt_hours_lifetime: 0,
            watt_hours_today: 0,
            watts_now: 0,
            watt_hours_lifetime_consumption: 0,
            watt_hours_today_consumption: 0,
            watts_now_consumption: 0,
            inverters: InverterMap::new(),
        }
    }
}

/// What a whole read yields from its three phase outcomes: the status
/// record, or the first failing phase's error.  No partial record
/// exists: one bad field discards everything.
pub open spec fn spec_status(p: FetchOutcome, c: FetchOutcome, i: FetchOutcome) -> Result<
    EnvoyStatusV,
    FetchErrorV,
> {
    match spec_triple_phase(p) {
        Result::Err(k) => Result::Err(FetchErrorV { phase: Phase::Production, kind: k }),
        Result::Ok(pt) => match spec_triple_phase(c) {
            Result::Err(k) => Result::Err(FetchErrorV { phase: Phase::Consumption, kind: k }),
            Result::Ok(ct) => match spec_inverters(i) {
                Result::Err(k) => Result::Err(FetchErrorV { phase: Phase::Inverters, kind: k }),
                Result::Ok(entries) => Result::Ok(
                    EnvoyStatusV::init().with_production(pt).with_consumption(ct).with_inverters(
                        entries,
                    ).with_online(true),
                ),
            },
        },
    }
}

/// One phase's outcome reduced to its parsed body.
fn phase_body(outcome: &FetchOutcome) -> (r: Result<Json, FetchErrorKind>)
    ensures
        (match r {
            Result::Ok(j) => Result::Ok(j),
            Result::Err(k) => Result::Err(k@),
        }) == spec_phase_json(*outcome),
{
    match outcome {
        FetchOutcome::Transport(m) => Result::Err(FetchErrorKind::Transport(m.clone())),
        FetchOutcome::HttpStatus(c) => Result::Err(FetchErrorKind::HttpStatus(*c)),
        FetchOutcome::Body(b) => match parse_json(b.as_str()) {
            Option::Some(j) => Result::Ok(j),
            Option::None => Result::Err(FetchErrorKind::BadJson),
        },
    }
}

/// The integer under `key` in `j`, if there is one.
fn int_field(j: &Json, key: &String) -> (r: Option<i64>)
    ensures
        r == spec_int_field(*j, key@),
{
    match j.get(key) {
        Option::Some(v) => match v {
            Json::Int(n) => Option::Some(*n),
            _ => Option::None,
        },
        Option::None => Option::None,
    }
}

/// The three numbers of a production or consumption object, or the name
/// of the first field that fails.
fn read_triple(j: &Json) -> (r: Result<(i64, i64, i64), String>)
    ensures
        (match r {
            Result::Ok(t) => Result::Ok(t),
            Result::Err(name) => Result::Err(name@),
        }) == spec_triple(*j),
{
    let lifetime_name = "wattHoursLifetime".to_owned();
    let today_name = "wattHoursToday".to_owned();
    let now_name = "wattsNow".to_owned();
    let lifetime = match int_field(j, &lifetime_name) {
        Option::Some(n) => n,
        Option::None => {
            return Result::Err(lifetime_name);
        },
    };
    let today = match int_field(j, &today_name) {
        Option::Some(n) => n,
        Option::None => {
            return Result::Err(today_name);
        },
    };
    let now = match int_field(j, &now_name) {
        Option::Some(n) => n,
        Option::None => {
            return Result::Err(now_name);
        },
    };
    Result::Ok((lifetime, today, now))
}

/// One inverter entry's serial number and wattage, or the field that
/// fails.
fn read_inverter_entry(j: &Json) -> (r: Result<(String, i64), FetchErrorKind>)
    ensures
        (match r {
            Result::Ok(p) => Result::Ok((p.0@, p.1)),
            Result::Err(k) => Result::Err(k@),
        }) == spec_inverter_entry(*j),
{
    let serial_name = "serialNumber".to_owned();
    let watts_name = "lastReportWatts".to_owned();
    let serial = match j.get(&serial_name) {
        Option::Some(v) => match v {
            Json::Str(s) => s.clone(),
            _ => {
                return Result::Err(FetchErrorKind::BadField(serial_name));
            },
        },
        Option::None => {
            return Result::Err(FetchErrorKind::BadField(serial_name));
        },
    };
    let watts = match int_field(j, &watts_name) {
        Option::Some(n) => n,
        Option::None => {
            return Result::Err(FetchErrorKind::BadField(watts_name));
        },
    };
    Result::Ok((serial, watts))
}

/// A telemetry read in progress: the status record being filled from the
/// three phase outcomes.
pub struct EnvoyReader {
    status: EnvoyStatus,
}

impl EnvoyReader {
    /// Decode the production phase into the record.
    fn production(&mut self, outcome: &FetchOutcome) -> (r: Result<(), FetchError>)
        ensures
            r is Ok ==> (spec_triple_phase(*outcome) matches Result::Ok(t) && final(self).status@ == old(self).status@.with_production(t)),
            r matches Result::Err(e) ==> spec_triple_phase(*outcome) matches Result::Err(k) && e@
                == (FetchErrorV { phase: Phase::Production, kind: k }) && final(self).status@ == old(self).status@,
            final(self).status.inverters.wf() == old(self).status.inverters.wf(),
    {
        let j = match phase_body(outcome) {
            Result::Ok(j) => j,
            Result::Err(k) => {
                return Result::Err(FetchError { phase: Phase::Production, kind: k });
            },
        };
        match read_triple(&j) {
            Result::Ok(t) => {
                self.status.watt_hours_lifetime = t.0;
                self.status.watt_hours_today = t.1;
                self.status.watts_now = t.2;
                Result::Ok(())
            },
            Result::Err(name) => Result::Err(
                FetchError { phase: Phase::Production, kind: FetchErrorKind::BadField(name) },
            ),
        }
    }

    /// Decode the consumption phase into the record.
    fn consumption(&mut self, outcome: &FetchOutcome) -> (r: Result<(), FetchError>)
        ensures
            r is Ok ==> (spec_triple_phase(*outcome) matches Result::Ok(t) && final(self).status@ == old(self).status@.with_consumption(t)),
            r matches Result::Err(e) ==> spec_triple_phase(*outcome) matches Result::Err(k) && e@
                == (FetchErrorV { phase: Phase::Consumption, kind: k }) && final(self).status@
                == old(self).status@,
            final(self).status.inverters.wf() == old(self).status.inverters.wf(),
    {
        let j = match phase_body(outcome) {
            Result::Ok(j) => j,
            Result::Err(k) => {
                return Result::Err(FetchError { phase: Phase::Consumption, kind: k });
            },
        };
        match read_triple(&j) {
            Result::Ok(t) => {
                self.status.watt_hours_lifetime_consumption = t.0;
                self.status.watt_hours_today_consumption = t.1;
                self.status.watts_now_consumption = t.2;
                Result::Ok(())
            },
            Result::Err(name) => Result::Err(
                FetchError { phase: Phase::Consumption, kind: FetchErrorKind::BadField(name) },
            ),
        }
    }

    /// Decode the inverters phase into the record, entry by entry.
    fn inverters(&mut self, outcome: &FetchOutcome) -> (r: Result<(), FetchError>)
        requires
            old(self).status.inverters@ == Seq::<(Seq<char>, i64)>::empty(),
            old(self).status.inverters.wf(),
        ensures
            r is Ok ==> (spec_inverters(*outcome) matches Result::Ok(entries) && final(self).status@ == old(self).status@.with_inverters(entries) && final(self).status.inverters.wf()),
            r matches Result::Err(e) ==> spec_inverters(*outcome) matches Result::Err(k) && e@
                == (FetchErrorV { phase: Phase::Inverters, kind: k }),
    {
        let j = match phase_body(outcome) {
            Result::Ok(j) => j,
            Result::Err(k) => {
                return Result::Err(FetchError { phase: Phase::Inverters, kind: k });
            },
        };
        match j {
            Json::Arr(elems) => {
                let n = elems.len();
                let mut idx: usize = 0;
                proof {
                    assert(elems@.take(0) =~= Seq::<Json>::empty());
                }
                while idx < n
                    invariant
                        spec_phase_json(*outcome) == Result::<Json, FetchErrorKindV>::Ok(
                            Json::Arr(elems),
                        ),
                        n == elems@.len(),
                        idx <= n,
                        spec_inverter_fold(elems@.take(idx as int)) matches Result::Ok(s)
                            && self.status.inverters@ == s,
                        self.status.inverters.wf(),
                        self.status.online == old(self).status.online,
                        self.status.watt_hours_lifetime == old(self).status.watt_hours_lifetime,
                        self.status.watt_hours_today == old(self).status.watt_hours_today,
                        self.status.watts_now == old(self).status.watts_now,
                        self.status.watt_hours_lifetime_consumption == old(self).status.watt_hours_lifetime_consumption,
                        self.status.watt_hours_today_consumption == old(self).status.watt_hours_today_consumption,
                        self.status.watts_now_consumption == old(self).status.watts_now_consumption,
                    decreases n - idx,
                {
                    proof {
                        assert(elems@.take(idx + 1).drop_last() =~= elems@.take(idx as int));
                        assert(elems@.take(idx + 1).last() == elems@[idx as int]);
                    }
                    match read_inverter_entry(&elems[idx]) {
                        Result::Ok(p) => {
                            self.status.inverters.insert(p.0, p.1);
                        },
                        Result::Err(k) => {
                            proof {
                                assert(spec_inverter_entry(elems@[idx as int]) == Result::<(
                                    Seq<char>,
                                    i64,
                                ), FetchErrorKindV>::Err(k@));
                                assert(spec_inverter_fold(elems@.take(idx + 1)) == Result::<Seq<
                                    (Seq<char>, i64),
                                >, FetchErrorKindV>::Err(k@));
                                lemma_inverter_fold_err_prefix(elems@, idx + 1);
                                assert(spec_inverter_fold(elems@) == Result::<Seq<
                                    (Seq<char>, i64),
                                >, FetchErrorKindV>::Err(k@));
                                assert(spec_inverters(*outcome) == Result::<Seq<
                                    (Seq<char>, i64),
                                >, FetchErrorKindV>::Err(k@));
                            }
                            return Result::Err(
                                FetchError { phase: Phase::Inverters, kind: k },
                            );
                        },
                    }
                    idx += 1;
                }
                proof {
                    assert(elems@.take(n as int) =~= elems@);
                }
                Result::Ok(())
            },
            _ => Result::Err(FetchError { phase: Phase::Inverters, kind: FetchErrorKind::NotArray }),
        }
    }

    /// One whole telemetry read, from the three raw phase outcomes of a
    /// scrape to the typed status record or the first failure.
    pub fn status(production: &FetchOutcome, consumption: &FetchOutcome, inverters: &FetchOutcome)
        -> (r: Result<EnvoyStatus, FetchError>)
        ensures
            (match r {
                Result::Ok(st) => Result::Ok(st@),
                Result::Err(e) => Result::Err(e@),
            }) == spec_status(*production, *consumption, *inverters),
            r matches Result::Ok(st) ==> st.online && st.inverters.wf(),
    {
        let mut reader = EnvoyReader { status: EnvoyStatus::new() };
        match reader.production(production) {
            Result::Ok(_) => {},
            Result::Err(e) => {
                return Result::Err(e);
            },
        }
        match reader.consumption(consumption) {
            Result::Ok(_) => {},
            Result::Err(e) => {
                return Result::Err(e);
            },
        }
        match reader.inverters(inverters) {
            Result::Ok(_) => {},
            Result::Err(e) => {
                return Result::Err(e);
            },
        }
        reader.status.online = true;
        Result::Ok(reader.status)
    }
}

/// Law: a production or consumption object decodes if and only if all
/// three required fields are integers, and a failed decode names a field
/// that indeed is missing or wrongly typed — always the first such, in
/// the order lifetime, today, now.
pub proof fn lemma_triple_error_names_field(j: Json)
    ensures
        spec_triple(j) matches Result::Err(name) ==> spec_int_field(j, name) is None && (name
            == lifetime_key() || name == today_key() || name == now_key()),
        spec_triple(j) is Ok <==> (spec_int_field(j, lifetime_key()) is Some && spec_int_field(
            j,
            today_key(),
        ) is Some && spec_int_field(j, now_key()) is Some),
{
}

/// Law: a missing or wrongly typed field fails the whole read with an
/// error that names it, and the read yields no status record at all —
/// there is no partial one to observe.
pub proof fn lemma_missing_field_is_error(p: FetchOutcome, c: FetchOutcome, i: FetchOutcome)
    ensures
        (spec_phase_json(p) is Ok && spec_triple(spec_phase_json(p)->Ok_0) is Err) ==> spec_status(
            p,
            c,
            i,
        ) == Result::<EnvoyStatusV, FetchErrorV>::Err(
            FetchErrorV {
                phase: Phase::Production,
                kind: FetchErrorKindV::BadField(spec_triple(spec_phase_json(p)->Ok_0)->Err_0),
            },
        ),
        (spec_triple_phase(p) is Ok && spec_phase_json(c) is Ok && spec_triple(
            spec_phase_json(c)->Ok_0,
        ) is Err) ==> spec_status(p, c, i) == Result::<EnvoyStatusV, FetchErrorV>::Err(
            FetchErrorV {
                phase: Phase::Consumption,
                kind: FetchErrorKindV::BadField(spec_triple(spec_phase_json(c)->Ok_0)->Err_0),
            },
        ),
        (spec_triple_phase(p) is Ok && spec_triple_phase(c) is Ok && spec_inverters(i) is Err)
            ==> spec_status(p, c, i) == Result::<EnvoyStatusV, FetchErrorV>::Err(
            FetchErrorV { phase: Phase::Inverters, kind: spec_inverters(i)->Err_0 },
        ),
{
}

/// Where a whole inverter array folds without error, every entry of it
/// decodes without error.
pub proof fn lemma_inverter_fold_entries_ok(elems: Seq<Json>)
    requires
        spec_inverter_fold(elems) is Ok,
    ensures
        forall|i: int| 0 <= i < elems.len() ==> spec_inverter_entry(elems[i]) is Ok,
    decreases elems.len(),
{
    if elems.len() > 0 {
        lemma_inverter_fold_entries_ok(elems.drop_last());
        assert forall|i: int| 0 <= i < elems.len() implies spec_inverter_entry(
            elems[i],
        ) is Ok by {
            if i < elems.len() - 1 {
                assert(elems.drop_last()[i] == elems[i]);
            }
        }
    }
}

/// Law: where an inverter array decodes, the mapping holds, under each
/// serial number, exactly the wattage of its last occurrence in array
/// order.  `i` is the index of that last occurrence: no later entry
/// carries the same serial number.
pub proof fn lemma_last_occurrence_wins(elems: Seq<Json>, i: int, sn: Seq<char>, w: i64)
    requires
        spec_inverter_fold(elems) is Ok,
        0 <= i < elems.len(),
        spec_inverter_entry(elems[i]) == Result::<(Seq<char>, i64), FetchErrorKindV>::Ok((sn, w)),
        forall|j: int| i < j < elems.len() ==> spec_inverter_entry(elems[j])->Ok_0.0 != sn,
    ensures
        spec_get(spec_inverter_fold(elems)->Ok_0, sn) == Option::Some(w),
    decreases elems.len(),
{
    let prev = elems.drop_last();
    let last_entry = spec_inverter_entry(elems.last());
    lemma_inverter_fold_entries_ok(elems);
    if i == elems.len() - 1 {
        lemma_get_after_upsert_same(spec_inverter_fold(prev)->Ok_0, sn, w);
    } else {
        assert forall|j: int| i < j < prev.len() implies spec_inverter_entry(
            prev[j],
        )->Ok_0.0 != sn by {
            assert(prev[j] == elems[j]);
        }
        assert(prev[i] == elems[i]);
        lemma_last_occurrence_wins(prev, i, sn, w);
        assert(spec_inverter_entry(elems[elems.len() - 1])->Ok_0.0 != sn);
        lemma_get_after_upsert_other(
            spec_inverter_fold(prev)->Ok_0,
            last_entry->Ok_0.0,
            last_entry->Ok_0.1,
            sn,
        );
    }
}

/// A fold that fails on some prefix fails as a whole, with that same
/// first error.
proof fn lemma_inverter_fold_err_prefix(elems: Seq<Json>, i: int)
    requires
        0 <= i <= elems.len(),
        spec_inverter_fold(elems.take(i)) is Err,
    ensures
        spec_inverter_fold(elems) == spec_inverter_fold(elems.take(i)),
    decreases elems.len() - i,
{
    if i == elems.len() {
        assert(elems.take(i) =~= elems);
    } else {
        assert(elems.take(i + 1).drop_last() =~= elems.take(i));
        lemma_inverter_fold_err_prefix(elems, i + 1);
    }
}

} // verus!
