use envoy_exporter::aggregator::MetricName;
use envoy_exporter::aggregator::MetricUpdate;
use envoy_exporter::aggregator::scrape_updates;
use envoy_exporter::config::IniSystem;
use envoy_exporter::config::System;
use envoy_exporter::envoy_reader::EnvoyReader;
use envoy_exporter::envoy_reader::EnvoyStatus;
use envoy_exporter::envoy_reader::FetchError;
use envoy_exporter::fetch::FetchOutcome;

fn body(s: &str) -> FetchOutcome {
    FetchOutcome::Body(s.to_owned())
}

fn system(host: &str, sn: &str) -> System {
    System {
        host: host.to_owned(),
        url: format!("http://{}.local", host),
        user: "me@example.org".to_owned(),
        pass: "hunter2".to_owned(),
        sn: sn.to_owned(),
        token: "tok".to_owned(),
    }
}

fn read(
    production: &str,
    consumption: &str,
    inverters: &str,
) -> Result<EnvoyStatus, FetchError> {
    EnvoyReader::status(&body(production), &body(consumption), &body(inverters))
}

fn good_read() -> Result<EnvoyStatus, FetchError> {
    read(
        "{\"wattHoursLifetime\":1000,\"wattHoursToday\":50,\"wattsNow\":300}",
        "{\"wattHoursLifetime\":2000,\"wattHoursToday\":75,\"wattsNow\":150}",
        "[{\"serialNumber\":\"S1\",\"lastReportWatts\":120}]",
    )
}

fn failed_read() -> Result<EnvoyStatus, FetchError> {
    // The inverters endpoint answers with an object instead of an array.
    read(
        "{\"wattHoursLifetime\":1000,\"wattHoursToday\":50,\"wattsNow\":300}",
        "{\"wattHoursLifetime\":2000,\"wattHoursToday\":75,\"wattsNow\":150}",
        "{}",
    )
}

fn online_updates<'a>(updates: &'a [MetricUpdate], host: &str) -> Vec<&'a MetricUpdate> {
    updates
        .iter()
        .filter(|u| u.name == MetricName::Online && u.host == host)
        .collect()
}

#[test]
fn one_failure_marks_only_that_system_offline() {
    let systems = vec![system("a", "100"), system("b", "200"), system("c", "300")];
    let results = vec![good_read(), failed_read(), good_read()];
    let updates = scrape_updates(&systems, &results);

    // Every system was processed: each has exactly one online update.
    for (host, expected) in [("a", 1), ("b", 0), ("c", 1)] {
        let online = online_updates(&updates, host);
        assert_eq!(online.len(), 1, "one online update for {}", host);
        assert_eq!(online[0].value, expected, "online value for {}", host);
    }

    // The failed system contributes nothing but its offline mark; the
    // others receive fresh values for all seven gauges and the inverter.
    let per_b: Vec<&MetricUpdate> = updates.iter().filter(|u| u.host == "b").collect();
    assert_eq!(per_b.len(), 1);
    assert_eq!(per_b[0].name, MetricName::Online);
    assert_eq!(per_b[0].envoy, "200");
    let per_a: Vec<&MetricUpdate> = updates.iter().filter(|u| u.host == "a").collect();
    assert_eq!(per_a.len(), 8);
}

#[test]
fn successful_system_publishes_all_values() {
    let systems = vec![system("a", "100")];
    let results = vec![good_read()];
    let updates = scrape_updates(&systems, &results);
    assert_eq!(updates.len(), 8);

    let expect = [
        (MetricName::Online, 1),
        (MetricName::CurrentWatts, 300),
        (MetricName::LifetimeWattHours, 1000),
        (MetricName::TodayWattHours, 50),
        (MetricName::CurrentWattsConsumption, 150),
        (MetricName::LifetimeWattHoursConsumption, 2000),
        (MetricName::TodayWattHoursConsumption, 75),
    ];
    for (i, (name, value)) in expect.iter().enumerate() {
        assert_eq!(updates[i].name, *name);
        assert_eq!(updates[i].value, *value);
        assert_eq!(updates[i].host, "a");
        assert_eq!(updates[i].envoy, "100");
        assert_eq!(updates[i].inverter, None);
    }
    assert_eq!(updates[7].name, MetricName::InverterLastWatts);
    assert_eq!(updates[7].inverter, Some("S1".to_owned()));
    assert_eq!(updates[7].value, 120);
}

#[test]
fn empty_registry_yields_no_updates() {
    let updates = scrape_updates(&Vec::new(), &Vec::new());
    assert!(updates.is_empty());
}

#[test]
fn duplicate_serials_publish_one_inverter_update() {
    let systems = vec![system("a", "100")];
    let results = vec![read(
        "{\"wattHoursLifetime\":1000,\"wattHoursToday\":50,\"wattsNow\":300}",
        "{\"wattHoursLifetime\":2000,\"wattHoursToday\":75,\"wattsNow\":150}",
        "[{\"serialNumber\":\"S1\",\"lastReportWatts\":120},\
         {\"serialNumber\":\"S1\",\"lastReportWatts\":125}]",
    )];
    let updates = scrape_updates(&systems, &results);
    let inverter: Vec<&MetricUpdate> = updates
        .iter()
        .filter(|u| u.name == MetricName::InverterLastWatts)
        .collect();
    assert_eq!(inverter.len(), 1);
    assert_eq!(inverter[0].inverter, Some("S1".to_owned()));
    assert_eq!(inverter[0].value, 125);
}

#[test]
fn token_attaches_to_configured_system() {
    let ini = IniSystem {
        host: "a".to_owned(),
        url: "http://a.local".to_owned(),
        user: "me@example.org".to_owned(),
        pass: "hunter2".to_owned(),
        sn: "100".to_owned(),
    };
    let sys = System::with_token(ini, "XYZ123".to_owned());
    assert_eq!(sys.host, "a");
    assert_eq!(sys.url, "http://a.local");
    assert_eq!(sys.user, "me@example.org");
    assert_eq!(sys.pass, "hunter2");
    assert_eq!(sys.sn, "100");
    assert_eq!(sys.token, "XYZ123");
}
