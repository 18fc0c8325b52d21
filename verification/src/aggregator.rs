//! The scrape aggregator: one pass over the configured systems, deciding
//! every metric value the scrape publishes.
//!
//! Each system's telemetry read yields a status record or a failure.  A
//! failure marks only that system offline — an explicit zero on its
//! online gauge, keyed by host and serial number — and never stops the
//! pass: every system is processed on every scrape.  A success publishes
//! the online gauge and all seven numbers, plus one value per inverter.
//! Pushing the values into the metrics registry, and encoding the
//! registry for the response, happen outside this crate; what is decided
//! here is the exact list of updates.

use vstd::prelude::*;

use crate::config::System;
use crate::envoy_reader::EnvoyStatus;
use crate::envoy_reader::EnvoyStatusV;
use crate::envoy_reader::FetchError;
use crate::envoy_reader::FetchErrorV;

verus! {

/// Which gauge one update sets.
#[derive(Debug, Clone, Copy, PartialEq, Eq, Structural)]
pub enum MetricName {
    Online,
    CurrentWatts,
    TodayWattHours,
    LifetimeWattHours,
    CurrentWattsConsumption,
    TodayWattHoursConsumption,
    LifetimeWattHoursConsumption,
    InverterLastWatts,
}

/// One gauge update of a scrape: the gauge, its labels — host, envoy
/// serial number, and for the per-inverter gauge the inverter's serial
/// number — and the value to set.
#[derive(Debug)]
pub struct MetricUpdate {
    pub name: MetricName,
    pub host: String,
    pub envoy: String,
    pub inverter: Option<String>,
    pub value: i64,
}

/// The model of a [`MetricUpdate`], with the labels as sequences.
pub struct MetricUpdateV {
    pub name: MetricName,
    pub host: Seq<char>,
    pub envoy: Seq<char>,
    pub inverter: Option<Seq<char>>,
    pub value: i64,
}

impl View for MetricUpdate {
    type V = MetricUpdateV;

    open spec fn view(&self) -> MetricUpdateV {
        MetricUpdateV {
            name: self.name,
            host: self.host@,
            envoy: self.envoy@,
            inverter: match self.inverter {
                Option::Some(ref s) => Option::Some(s@),
                Option::None => Option::None,
            },
            value: self.value,
        }
    }
}

/// The updates of `s`, element by element, as update models.
pub open spec fn spec_updates_view(s: Seq<MetricUpdate>) -> Seq<MetricUpdateV> {
    s.map_values(|u: MetricUpdate| u@)
}

/// One read result as its model.
pub open spec fn spec_read_view(x: Result<EnvoyStatus, FetchError>) -> Result<
    EnvoyStatusV,
    FetchErrorV,
> {
    match x {
        Result::Ok(st) => Result::Ok(st@),
        Result::Err(e) => Result::Err(e@),
    }
}

/// The read results of `s`, element by element, as models.
pub open spec fn spec_read_views(s: Seq<Result<EnvoyStatus, FetchError>>) -> Seq<
    Result<EnvoyStatusV, FetchErrorV>,
> {
    s.map_values(|x: Result<EnvoyStatus, FetchError>| spec_read_view(x))
}

/// A plain gauge update for `s`, with no inverter label.
pub open spec fn spec_gauge(name: MetricName, s: System, value: i64) -> MetricUpdateV {
    MetricUpdateV {
        name,
        host: s.host@,
        envoy: s.sn@,
        inverter: Option::None,
        value,
    }
}

/// The online gauge update for `s`.
pub open spec fn spec_online_update(s: System, value: i64) -> MetricUpdateV {
    spec_gauge(MetricName::Online, s, value)
}

/// The online value one read result decides: zero on failure, and on
/// success one exactly where the record says online.
pub open spec fn spec_online_value_of(r: Result<EnvoyStatusV, FetchErrorV>) -> i64 {
    match r {
        Result::Ok(st) => if st.online {
            1
        } else {
            0
        },
        Result::Err(_) => 0,
    }
}

/// The per-inverter updates of one successful read, in mapping order.
pub open spec fn spec_inverter_updates(s: System, entries: Seq<(Seq<char>, i64)>) -> Seq<
    MetricUpdateV,
> {
    entries.map_values(
        |e: (Seq<char>, i64)|
            MetricUpdateV {
                name: MetricName::InverterLastWatts,
                host: s.host@,
                envoy: s.sn@,
                inverter: Option::Some(e.0),
                value: e.1,
            },
    )
}

/// Every update one system contributes to a scrape: on failure only the
/// explicit offline mark; on success the online gauge, the seven
/// numbers in the order they are set, and one update per inverter.
pub open spec fn spec_system_updates(s: System, r: Result<EnvoyStatusV, FetchErrorV>) -> Seq<
    MetricUpdateV,
> {
    match r {
        Result::Err(_) => seq![spec_online_update(s, 0)],
        Result::Ok(st) => seq![
            spec_online_update(s, spec_online_value_of(r)),
            spec_gauge(MetricName::CurrentWatts, s, st.watts_now),
            spec_gauge(MetricName::LifetimeWattHours, s, st.watt_hours_lifetime),
            spec_gauge(MetricName::TodayWattHours, s, st.watt_hours_today),
            spec_gauge(MetricName::CurrentWattsConsumption, s, st.watts_now_consumption),
            spec_gauge(
                MetricName::LifetimeWattHoursConsumption,
                s,
                st.watt_hours_lifetime_consumption,
            ),
            spec_gauge(MetricName::TodayWattHoursConsumption, s, st.watt_hours_today_consumption),
        ] + spec_inverter_updates(s, st.inverters),
    }
}

/// Every update of one scrape pass: the systems' updates in registry
/// order.
pub open spec fn spec_scrape(
    systems: Seq<System>,
    results: Seq<Result<EnvoyStatusV, FetchErrorV>>,
) -> Seq<MetricUpdateV>
    decreases systems.len(),
{
    if systems.len() == 0 {
        Seq::empty()
    } else {
        spec_scrape(systems.drop_last(), results.drop_last()) + spec_system_updates(
            systems.last(),
            results.last(),
        )
    }
}

/// One plain gauge update, built from the system's labels.
fn gauge_update(name: MetricName, sys: &System, value: i64) -> (r: MetricUpdate)
    ensures
        r@ == spec_gauge(name, *sys, value),
{
    MetricUpdate {
        name,
        host: sys.host.clone(),
        envoy: sys.sn.clone(),
        inverter: Option::None,
        value,
    }
}

/// The updates one system contributes, from its read result.
fn system_updates(sys: &System, result: &Result<EnvoyStatus, FetchError>) -> (r: Vec<MetricUpdate>)
    ensures
        spec_updates_view(r@) == spec_system_updates(*sys, spec_read_view(*result)),
{
    let mut out: Vec<MetricUpdate> = Vec::new();
    match result {
        Result::Err(_) => {
            out.push(gauge_update(MetricName::Online, sys, 0));
            proof {
                assert(spec_updates_view(out@) =~= spec_system_updates(
                    *sys,
                    spec_read_view(*result),
                ));
            }
        },
        Result::Ok(st) => {
            let online_value: i64 = if st.online {
                1
            } else {
                0
            };
            out.push(gauge_update(MetricName::Online, sys, online_value));
            out.push(gauge_update(MetricName::CurrentWatts, sys, st.watts_now));
            out.push(gauge_update(MetricName::LifetimeWattHours, sys, st.watt_hours_lifetime));
            out.push(gauge_update(MetricName::TodayWattHours, sys, st.watt_hours_today));
            out.push(
                gauge_update(MetricName::CurrentWattsConsumption, sys, st.watts_now_consumption),
            );
            out.push(
                gauge_update(
                    MetricName::LifetimeWattHoursConsumption,
                    sys,
                    st.watt_hours_lifetime_consumption,
                ),
            );
            out.push(
                gauge_update(
                    MetricName::TodayWattHoursConsumption,
                    sys,
                    st.watt_hours_today_consumption,
                ),
            );
            let ghost seven = spec_updates_view(out@);
            proof {
                assert(seven =~= seq![
                    spec_online_update(*sys, spec_online_value_of(spec_read_view(*result))),
                    spec_gauge(MetricName::CurrentWatts, *sys, st@.watts_now),
                    spec_gauge(MetricName::LifetimeWattHours, *sys, st@.watt_hours_lifetime),
                    spec_gauge(MetricName::TodayWattHours, *sys, st@.watt_hours_today),
                    spec_gauge(
                        MetricName::CurrentWattsConsumption,
                        *sys,
                        st@.watts_now_consumption,
                    ),
                    spec_gauge(
                        MetricName::LifetimeWattHoursConsumption,
                        *sys,
                        st@.watt_hours_lifetime_consumption,
                    ),
                    spec_gauge(
                        MetricName::TodayWattHoursConsumption,
                        *sys,
                        st@.watt_hours_today_consumption,
                    ),
                ]);
            }
            let ghost entries = st.inverters@;
            let base_len = out.len();
            let n = st.inverters.len();
            let mut k: usize = 0;
            proof {
                assert(spec_inverter_updates(*sys, entries).take(0) =~= Seq::<
                    MetricUpdateV,
                >::empty());
                assert(spec_updates_view(out@) =~= seven + spec_inverter_updates(
                    *sys,
                    entries,
                ).take(0));
            }
            while k < n
                invariant
                    n == entries.len(),
                    k <= n,
                    entries == st.inverters@,
                    spec_updates_view(out@) == seven + spec_inverter_updates(*sys, entries).take(
                        k as int,
                    ),
                decreases n - k,
            {
                let entry = st.inverters.entry_at(k);
                let u = MetricUpdate {
                    name: MetricName::InverterLastWatts,
                    host: sys.host.clone(),
                    envoy: sys.sn.clone(),
                    inverter: Option::Some(entry.0),
                    value: entry.1,
                };
                proof {
                    assert(u@ == spec_inverter_updates(*sys, entries)[k as int]);
                }
                let ghost before = spec_updates_view(out@);
                out.push(u);
                proof {
                    assert(spec_updates_view(out@) =~= before.push(u@));
                    assert(spec_inverter_updates(*sys, entries).take(k + 1) =~= spec_inverter_updates(
                        *sys,
                        entries,
                    ).take(k as int).push(spec_inverter_updates(*sys, entries)[k as int]));
                    assert(spec_updates_view(out@) =~= seven + spec_inverter_updates(
                        *sys,
                        entries,
                    ).take(k + 1));
                }
                k += 1;
            }
            proof {
                assert(spec_inverter_updates(*sys, entries).take(n as int) =~= spec_inverter_updates(
                    *sys,
                    entries,
                ));
                assert(spec_updates_view(out@) =~= spec_system_updates(
                    *sys,
                    spec_read_view(*result),
                ));
            }
        },
    }
    out
}

/// One whole scrape pass: every system's read result becomes its gauge
/// updates, in registry order; a failed system is marked offline and the
/// pass continues — no system's failure hides another system's values.
pub fn scrape_updates(systems: &Vec<System>, results: &Vec<Result<EnvoyStatus, FetchError>>) -> (r:
    Vec<MetricUpdate>)
    requires
        systems@.len() == results@.len(),
    ensures
        spec_updates_view(r@) == spec_scrape(systems@, spec_read_views(results@)),
{
    let mut out: Vec<MetricUpdate> = Vec::new();
    let n = systems.len();
    let mut i: usize = 0;
    proof {
        assert(systems@.take(0) =~= Seq::<System>::empty());
        assert(spec_updates_view(out@) =~= spec_scrape(
            systems@.take(0),
            spec_read_views(results@).take(0),
        ));
    }
    while i < n
        invariant
            n == systems@.len(),
            n == results@.len(),
            i <= n,
            spec_updates_view(out@) == spec_scrape(
                systems@.take(i as int),
                spec_read_views(results@).take(i as int),
            ),
        decreases n - i,
    {
        let mut us = system_updates(&systems[i], &results[i]);
        let ghost us_view = spec_updates_view(us@);
        let ghost out_before = spec_updates_view(out@);
        out.append(&mut us);
        proof {
            assert(spec_updates_view(out@) =~= out_before + us_view);
            assert(systems@.take(i + 1).drop_last() =~= systems@.take(i as int));
            assert(spec_read_views(results@).take(i + 1).drop_last() =~= spec_read_views(
                results@,
            ).take(i as int));
            assert(systems@.take(i + 1).last() == systems@[i as int]);
            assert(spec_read_views(results@).take(i + 1).last() == spec_read_view(
                results@[i as int],
            ));
            assert(spec_updates_view(out@) =~= spec_scrape(
                systems@.take(i + 1),
                spec_read_views(results@).take(i + 1),
            ));
        }
        i += 1;
    }
    proof {
        assert(systems@.take(n as int) =~= systems@);
        assert(spec_read_views(results@).take(n as int) =~= spec_read_views(results@));
    }
    out
}

/// Whether `x` carries the labels of some system of the pass, and — if it
/// is an online update — is exactly that system's online update.
pub open spec fn spec_from_some_system(
    systems: Seq<System>,
    results: Seq<Result<EnvoyStatusV, FetchErrorV>>,
    x: MetricUpdateV,
) -> bool {
    exists|n: int|
        0 <= n < systems.len() && x.host == systems[n].host@ && x.envoy == systems[n].sn@ && (
        x.name == MetricName::Online ==> x == spec_online_update(
            systems[n],
            spec_online_value_of(results[n]),
        ))
}

/// One system's updates all carry its labels; the first is its online
/// update, and no other sets the online gauge.
proof fn lemma_system_updates_elements(s: System, r: Result<EnvoyStatusV, FetchErrorV>)
    ensures
        spec_system_updates(s, r).len() > 0,
        spec_system_updates(s, r)[0] == spec_online_update(s, spec_online_value_of(r)),
        forall|idx: int|
            0 <= idx < spec_system_updates(s, r).len() ==> (#[trigger] spec_system_updates(
                s,
                r,
            )[idx]).host == s.host@ && spec_system_updates(s, r)[idx].envoy == s.sn@,
        forall|idx: int|
            0 < idx < spec_system_updates(s, r).len() ==> (#[trigger] spec_system_updates(
                s,
                r,
            )[idx]).name != MetricName::Online,
{
    let us = spec_system_updates(s, r);
    match r {
        Result::Err(_) => {
        },
        Result::Ok(st) => {
            let seven: int = 7;
            assert forall|idx: int| 0 <= idx < us.len() implies (#[trigger] us[idx]).host == s.host@
                && us[idx].envoy == s.sn@ && (0 < idx ==> us[idx].name != MetricName::Online) by {
                if idx >= seven {
                    assert(us[idx] == spec_inverter_updates(s, st.inverters)[idx - seven]);
                }
            }
        },
    }
}

/// Every update of a scrape pass comes from some system of the pass.
proof fn lemma_scrape_elements(systems: Seq<System>, results: Seq<Result<EnvoyStatusV, FetchErrorV>>)
    requires
        systems.len() == results.len(),
    ensures
        forall|idx: int|
            0 <= idx < spec_scrape(systems, results).len() ==> spec_from_some_system(
                systems,
                results,
                #[trigger] spec_scrape(systems, results)[idx],
            ),
    decreases systems.len(),
{
    if systems.len() > 0 {
        let prev_s = systems.drop_last();
        let prev_r = results.drop_last();
        lemma_scrape_elements(prev_s, prev_r);
        lemma_system_updates_elements(systems.last(), results.last());
        let a = spec_scrape(prev_s, prev_r);
        let b = spec_system_updates(systems.last(), results.last());
        assert forall|idx: int| 0 <= idx < spec_scrape(systems, results).len() implies
            spec_from_some_system(systems, results, #[trigger] spec_scrape(systems, results)[idx]) by {
            let x = spec_scrape(systems, results)[idx];
            if idx < a.len() {
                assert(x == a[idx]);
                assert(spec_from_some_system(prev_s, prev_r, x));
                let n = choose|n: int|
                    0 <= n < prev_s.len() && x.host == prev_s[n].host@ && x.envoy == prev_s[n].sn@
                        && (x.name == MetricName::Online ==> x == spec_online_update(
                        prev_s[n],
                        spec_online_value_of(prev_r[n]),
                    ));
                assert(prev_s[n] == systems[n]);
                assert(prev_r[n] == results[n]);
                assert(0 <= n < systems.len() && x.host == systems[n].host@ && x.envoy
                    == systems[n].sn@ && (x.name == MetricName::Online ==> x == spec_online_update(
                    systems[n],
                    spec_online_value_of(results[n]),
                )));
            } else {
                assert(x == b[idx - a.len()]);
                let n = systems.len() - 1;
                assert(systems.last() == systems[n]);
                assert(results.last() == results[n]);
                if x.name == MetricName::Online {
                    assert(idx - a.len() == 0);
                }
                assert(0 <= n < systems.len() && x.host == systems[n].host@ && x.envoy
                    == systems[n].sn@ && (x.name == MetricName::Online ==> x == spec_online_update(
                    systems[n],
                    spec_online_value_of(results[n]),
                )));
            }
        }
    }
}

/// The pass publishes system `n`'s online update, whatever its result.
proof fn lemma_scrape_contains_online(
    systems: Seq<System>,
    results: Seq<Result<EnvoyStatusV, FetchErrorV>>,
    n: int,
)
    requires
        systems.len() == results.len(),
        0 <= n < systems.len(),
    ensures
        spec_scrape(systems, results).contains(
            spec_online_update(systems[n], spec_online_value_of(results[n])),
        ),
    decreases systems.len(),
{
    let a = spec_scrape(systems.drop_last(), results.drop_last());
    let b = spec_system_updates(systems.last(), results.last());
    let x = spec_online_update(systems[n], spec_online_value_of(results[n]));
    if n == systems.len() - 1 {
        lemma_system_updates_elements(systems.last(), results.last());
        assert(spec_scrape(systems, results)[a.len() as int] == b[0]);
        assert(spec_scrape(systems, results).contains(x));
    } else {
        lemma_scrape_contains_online(systems.drop_last(), results.drop_last(), n);
        assert(systems.drop_last()[n] == systems[n]);
        assert(results.drop_last()[n] == results[n]);
        let idx = a.lemma_contains_to_index(x);
        assert(spec_scrape(systems, results)[idx] == a[idx]);
        assert(spec_scrape(systems, results).contains(x));
    }
}

/// Law: where one system's read fails and every other system's read
/// succeeds online, the pass still processes all of them — each system's
/// online update is published — and only the failed system is marked
/// offline: it gets online zero and never online one, the others get
/// online one and never online zero.  The systems' host and serial
/// labels must be pairwise distinct, as the gauges are keyed by them.
pub proof fn lemma_failure_isolation(
    systems: Seq<System>,
    results: Seq<Result<EnvoyStatusV, FetchErrorV>>,
    k: int,
)
    requires
        systems.len() == results.len(),
        0 <= k < systems.len(),
        results[k] is Err,
        forall|n: int|
            0 <= n < results.len() && n != k ==> results[n] is Ok && results[n]->Ok_0.online,
        forall|m: int, n: int|
            0 <= m < n < systems.len() ==> !(systems[m].host@ == systems[n].host@ && systems[m].sn@
                == systems[n].sn@),
    ensures
        spec_scrape(systems, results).contains(spec_online_update(systems[k], 0)),
        forall|n: int|
            0 <= n < systems.len() && n != k ==> spec_scrape(systems, results).contains(
                spec_online_update(systems[n], 1),
            ),
        !spec_scrape(systems, results).contains(spec_online_update(systems[k], 1)),
        forall|n: int|
            0 <= n < systems.len() && n != k ==> !spec_scrape(systems, results).contains(
                spec_online_update(systems[n], 0),
            ),
{
    let us = spec_scrape(systems, results);
    lemma_scrape_elements(systems, results);
    lemma_scrape_contains_online(systems, results, k);
    assert forall|n: int| 0 <= n < systems.len() && n != k implies us.contains(
        spec_online_update(systems[n], 1),
    ) by {
        lemma_scrape_contains_online(systems, results, n);
    }
    assert forall|n: int, v: i64|
        0 <= n < systems.len() && v != spec_online_value_of(results[n]) implies !us.contains(
        spec_online_update(systems[n], v),
    ) by {
        if us.contains(spec_online_update(systems[n], v)) {
            let x = spec_online_update(systems[n], v);
            let idx = us.lemma_contains_to_index(x);
            assert(spec_from_some_system(systems, results, x));
            let m = choose|m: int|
                0 <= m < systems.len() && x.host == systems[m].host@ && x.envoy == systems[m].sn@
                    && (x.name == MetricName::Online ==> x == spec_online_update(
                    systems[m],
                    spec_online_value_of(results[m]),
                ));
            if m != n {
                if m < n {
                    assert(!(systems[m].host@ == systems[n].host@ && systems[m].sn@
                        == systems[n].sn@));
                } else {
                    assert(!(systems[n].host@ == systems[m].host@ && systems[n].sn@
                        == systems[m].sn@));
                }
                assert(false);
            }
            assert(x == spec_online_update(systems[n], spec_online_value_of(results[n])));
            assert(x.value == v);
            assert(false);
        }
    }
}

} // verus!
