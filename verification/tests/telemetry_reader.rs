use envoy_exporter::envoy_reader::EnvoyReader;
use envoy_exporter::envoy_reader::EnvoyStatus;
use envoy_exporter::envoy_reader::FetchErrorKind;
use envoy_exporter::envoy_reader::Phase;
use envoy_exporter::fetch::FetchOutcome;

fn body(s: &str) -> FetchOutcome {
    FetchOutcome::Body(s.to_owned())
}

fn production_body() -> FetchOutcome {
    body("{\"wattHoursLifetime\":1000,\"wattHoursToday\":50,\"wattsNow\":300}")
}

fn consumption_body() -> FetchOutcome {
    body("{\"wattHoursLifetime\":2000,\"wattHoursToday\":75,\"wattsNow\":150}")
}

fn inverters_body() -> FetchOutcome {
    body(
        "[{\"serialNumber\":\"S1\",\"lastReportWatts\":120},\
         {\"serialNumber\":\"S1\",\"lastReportWatts\":125}]",
    )
}

#[test]
fn fresh_status_is_offline_and_zero() {
    let st = EnvoyStatus::new();
    assert!(!st.online);
    assert_eq!(st.watt_hours_lifetime, 0);
    assert_eq!(st.watt_hours_today, 0);
    assert_eq!(st.watts_now, 0);
    assert_eq!(st.watt_hours_lifetime_consumption, 0);
    assert_eq!(st.watt_hours_today_consumption, 0);
    assert_eq!(st.watts_now_consumption, 0);
    assert_eq!(st.inverters.len(), 0);
}

#[test]
fn full_read_decodes_all_three_phases() {
    let st = EnvoyReader::status(&production_body(), &consumption_body(), &inverters_body())
        .expect("all three phases decode");
    assert!(st.online);
    assert_eq!(st.watt_hours_lifetime, 1000);
    assert_eq!(st.watt_hours_today, 50);
    assert_eq!(st.watts_now, 300);
    assert_eq!(st.watt_hours_lifetime_consumption, 2000);
    assert_eq!(st.watt_hours_today_consumption, 75);
    assert_eq!(st.watts_now_consumption, 150);
    assert_eq!(st.inverters.len(), 1);
    assert_eq!(st.inverters.get(&"S1".to_owned()), Some(125));
}

#[test]
fn duplicate_serial_keeps_last_wattage() {
    let inverters = body(
        "[{\"serialNumber\":\"A\",\"lastReportWatts\":10},\
         {\"serialNumber\":\"B\",\"lastReportWatts\":20},\
         {\"serialNumber\":\"A\",\"lastReportWatts\":30}]",
    );
    let st = EnvoyReader::status(&production_body(), &consumption_body(), &inverters)
        .expect("all entries decode");
    assert_eq!(st.inverters.len(), 2);
    assert_eq!(st.inverters.get(&"A".to_owned()), Some(30));
    assert_eq!(st.inverters.get(&"B".to_owned()), Some(20));
    assert_eq!(st.inverters.get(&"C".to_owned()), None);
}

#[test]
fn missing_production_field_names_it() {
    let production = body("{\"wattHoursLifetime\":1000,\"wattHoursToday\":50}");
    let e = EnvoyReader::status(&production, &consumption_body(), &inverters_body())
        .expect_err("wattsNow is missing");
    assert_eq!(e.phase, Phase::Production);
    match e.kind {
        FetchErrorKind::BadField(name) => assert_eq!(name, "wattsNow"),
        other => panic!("unexpected error kind: {:?}", other),
    }
}

#[test]
fn wrong_typed_field_names_it() {
    let production = body(
        "{\"wattHoursLifetime\":\"a lot\",\"wattHoursToday\":50,\"wattsNow\":300}",
    );
    let e = EnvoyReader::status(&production, &consumption_body(), &inverters_body())
        .expect_err("wattHoursLifetime is a string");
    assert_eq!(e.phase, Phase::Production);
    match e.kind {
        FetchErrorKind::BadField(name) => assert_eq!(name, "wattHoursLifetime"),
        other => panic!("unexpected error kind: {:?}", other),
    }
}

#[test]
fn fractional_field_is_rejected() {
    let consumption = body("{\"wattHoursLifetime\":2000,\"wattHoursToday\":75,\"wattsNow\":1.5}");
    let e = EnvoyReader::status(&production_body(), &consumption, &inverters_body())
        .expect_err("wattsNow is fractional");
    assert_eq!(e.phase, Phase::Consumption);
    match e.kind {
        FetchErrorKind::BadField(name) => assert_eq!(name, "wattsNow"),
        other => panic!("unexpected error kind: {:?}", other),
    }
}

#[test]
fn missing_consumption_field_fails_consumption_phase() {
    let consumption = body("{\"wattHoursToday\":75,\"wattsNow\":150}");
    let e = EnvoyReader::status(&production_body(), &consumption, &inverters_body())
        .expect_err("wattHoursLifetime is missing");
    assert_eq!(e.phase, Phase::Consumption);
    match e.kind {
        FetchErrorKind::BadField(name) => assert_eq!(name, "wattHoursLifetime"),
        other => panic!("unexpected error kind: {:?}", other),
    }
}

#[test]
fn non_array_inverters_payload_fails() {
    let inverters = body("{\"serialNumber\":\"S1\",\"lastReportWatts\":120}");
    let e = EnvoyReader::status(&production_body(), &consumption_body(), &inverters)
        .expect_err("inverters payload is an object");
    assert_eq!(e.phase, Phase::Inverters);
    assert!(matches!(e.kind, FetchErrorKind::NotArray));
}

#[test]
fn bad_inverter_entry_names_its_field() {
    let inverters = body(
        "[{\"serialNumber\":\"S1\",\"lastReportWatts\":120},\
         {\"serialNumber\":7,\"lastReportWatts\":5}]",
    );
    let e = EnvoyReader::status(&production_body(), &consumption_body(), &inverters)
        .expect_err("second entry has a numeric serial");
    assert_eq!(e.phase, Phase::Inverters);
    match e.kind {
        FetchErrorKind::BadField(name) => assert_eq!(name, "serialNumber"),
        other => panic!("unexpected error kind: {:?}", other),
    }
}

#[test]
fn inverter_entry_without_watts_names_the_field() {
    let inverters = body("[{\"serialNumber\":\"S1\"}]");
    let e = EnvoyReader::status(&production_body(), &consumption_body(), &inverters)
        .expect_err("lastReportWatts is missing");
    assert_eq!(e.phase, Phase::Inverters);
    match e.kind {
        FetchErrorKind::BadField(name) => assert_eq!(name, "lastReportWatts"),
        other => panic!("unexpected error kind: {:?}", other),
    }
}

#[test]
fn transport_failure_fails_its_phase() {
    let e = EnvoyReader::status(
        &FetchOutcome::Transport("no route to host".to_owned()),
        &consumption_body(),
        &inverters_body(),
    )
    .expect_err("production transport failed");
    assert_eq!(e.phase, Phase::Production);
    assert!(matches!(e.kind, FetchErrorKind::Transport(m) if m == "no route to host"));
}

#[test]
fn bad_status_fails_its_phase() {
    let e = EnvoyReader::status(&production_body(), &consumption_body(), &FetchOutcome::HttpStatus(401))
        .expect_err("inverters endpoint refused the token");
    assert_eq!(e.phase, Phase::Inverters);
    assert!(matches!(e.kind, FetchErrorKind::HttpStatus(401)));
}

#[test]
fn unparseable_body_fails_its_phase() {
    let e = EnvoyReader::status(&body("<html>"), &consumption_body(), &inverters_body())
        .expect_err("production body is not JSON");
    assert_eq!(e.phase, Phase::Production);
    assert!(matches!(e.kind, FetchErrorKind::BadJson));
}

#[test]
fn empty_inverter_array_is_fine() {
    let st = EnvoyReader::status(&production_body(), &consumption_body(), &body("[]"))
        .expect("an empty array decodes");
    assert!(st.online);
    assert_eq!(st.inverters.len(), 0);
}

#[test]
fn non_object_production_body_names_first_field() {
    // Indexing a JSON array for a named field finds nothing, so the first
    // required field is reported missing.
    let e = EnvoyReader::status(&body("[1,2,3]"), &consumption_body(), &inverters_body())
        .expect_err("an array has no named fields");
    assert_eq!(e.phase, Phase::Production);
    match e.kind {
        FetchErrorKind::BadField(name) => assert_eq!(name, "wattHoursLifetime"),
        other => panic!("unexpected error kind: {:?}", other),
    }
}

#[test]
fn oversized_number_is_rejected() {
    let production = body(
        "{\"wattHoursLifetime\":99999999999999999999999999,\"wattHoursToday\":50,\"wattsNow\":300}",
    );
    let e = EnvoyReader::status(&production, &consumption_body(), &inverters_body())
        .expect_err("the lifetime number does not fit a 64-bit integer");
    assert_eq!(e.phase, Phase::Production);
    match e.kind {
        FetchErrorKind::BadField(name) => assert_eq!(name, "wattHoursLifetime"),
        other => panic!("unexpected error kind: {:?}", other),
    }
}

#[test]
fn later_duplicate_field_wins() {
    let production = body(
        "{\"wattHoursLifetime\":1,\"wattHoursToday\":2,\"wattsNow\":3,\"wattsNow\":4}",
    );
    let st = EnvoyReader::status(&production, &consumption_body(), &inverters_body())
        .expect("duplicate fields are legal JSON");
    assert_eq!(st.watts_now, 4);
}
