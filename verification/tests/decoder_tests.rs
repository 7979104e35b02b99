use ups_beep_decoder::decoder::{Decoder, Level};
use ups_beep_decoder::status::Status;

#[test]
fn scenario_on_battery_edges() {
    let mut d = Decoder::new();
    assert_eq!(d.handle_edge(Level::Low, 0), None); // beep begins
    assert_eq!(d.handle_edge(Level::High, 250), None); // beep 250 ms, no gap yet
    assert_eq!(d.handle_edge(Level::Low, 60250), None); // gap 60000 ms committed
    assert_eq!(d.handle_edge(Level::High, 60500), Some(Status::OnBattery));
    assert_eq!(d.last_beep_duration(), Some(250));
    assert_eq!(d.last_gap_duration(), Some(60000));
    assert_eq!(d.last_reported(), Some(Status::OnBattery));
}

#[test]
fn scenario_low_battery_edges() {
    let mut d = Decoder::new();
    assert_eq!(d.handle_edge(Level::Low, 0), None);
    assert_eq!(d.handle_edge(Level::High, 250), None);
    assert_eq!(d.handle_edge(Level::Low, 1250), None); // gap 1000 ms
    assert_eq!(d.handle_edge(Level::High, 1500), Some(Status::LowOnBattery));
}

#[test]
fn scenario_timeout_in_gap_is_on_mains() {
    let mut d = Decoder::new();
    assert_eq!(d.handle_edge(Level::Low, 0), None);
    assert_eq!(d.handle_edge(Level::High, 250), None);
    assert_eq!(d.handle_edge(Level::Low, 1250), None);
    assert_eq!(d.handle_edge(Level::High, 1500), Some(Status::LowOnBattery));
    // The line now sits high with no further edge: after the 3 s timeout the
    // stalled gap classifies as mains power.
    assert_eq!(d.handle_timeout(), Some(Status::OnMains));
    assert_eq!(d.last_reported(), Some(Status::OnMains));
    // A second timeout infers the same status and is deduplicated.
    assert_eq!(d.handle_timeout(), None);
}

#[test]
fn scenario_timeout_in_beep_is_over_temperature() {
    let mut d = Decoder::new();
    assert_eq!(d.handle_edge(Level::Low, 0), None);
    assert_eq!(d.handle_edge(Level::High, 250), None);
    assert_eq!(d.handle_edge(Level::Low, 1250), None);
    assert_eq!(d.handle_edge(Level::High, 1500), Some(Status::LowOnBattery));
    assert_eq!(d.handle_edge(Level::Low, 2500), None); // a beep begins and stalls
    assert_eq!(
        d.handle_timeout(),
        Some(Status::OverTemperatureOnBatteryOrInternalError)
    );
}

#[test]
fn scenario_glitch_causes_no_spurious_report() {
    let mut d = Decoder::new();
    let mut emissions: Vec<Status> = Vec::new();
    // A valid beep/gap cycle reporting OnBattery.
    for (level, t) in [
        (Level::Low, 0u64),
        (Level::High, 250),
        (Level::Low, 60250),
        (Level::High, 60500),
        // A 10 ms glitch right after the beep.
        (Level::Low, 60600),
        (Level::High, 60610),
        // The next valid cycle.
        (Level::Low, 120610),
        (Level::High, 120860),
    ] {
        if let Some(s) = d.handle_edge(level, t) {
            emissions.push(s);
        }
    }
    // The glitch neither produced an Unknown report nor corrupted the next
    // classification: OnBattery was reported exactly once.
    assert_eq!(emissions, vec![Status::OnBattery]);
    assert_eq!(d.last_reported(), Some(Status::OnBattery));
}

#[test]
fn scenario_unknown_reported_once() {
    let mut d = Decoder::new();
    let mut unknown_emissions = 0;
    // Beeps of 999 ms match no table row.
    let cycle = [(Level::Low, 0u64), (Level::High, 999), (Level::Low, 60999), (Level::High, 61998)];
    for (level, t) in cycle {
        if d.handle_edge(level, t) == Some(Status::Unknown) {
            unknown_emissions += 1;
        }
    }
    // Identical further cycles classify Unknown again but emit nothing.
    for (level, t) in [
        (Level::Low, 121998u64),
        (Level::High, 122997),
        (Level::Low, 182997),
        (Level::High, 183996),
    ] {
        if d.handle_edge(level, t) == Some(Status::Unknown) {
            unknown_emissions += 1;
        }
    }
    assert_eq!(unknown_emissions, 1);
    assert_eq!(d.last_reported(), Some(Status::Unknown));
}

#[test]
fn history_never_exceeds_capacity() {
    let mut d = Decoder::new();
    let mut t: u64 = 0;
    for _ in 0..40 {
        d.handle_edge(Level::Low, t);
        assert!(d.beep_history_len() <= 10);
        assert!(d.gap_history_len() <= 10);
        assert!(d.is_well_formed());
        t += 1000; // beep of 1000 ms
        d.handle_edge(Level::High, t);
        assert!(d.beep_history_len() <= 10);
        assert!(d.gap_history_len() <= 10);
        assert!(d.is_well_formed());
        t += 60000; // gap of 60000 ms
    }
    // Both histories are full and the newest measurement is the last entry.
    assert_eq!(d.beep_history_len(), 10);
    assert_eq!(d.gap_history_len(), 10);
    assert_eq!(d.last_beep_duration(), Some(1000));
    assert_eq!(d.last_gap_duration(), Some(60000));
}

#[test]
fn debounce_merges_short_beep() {
    let mut d = Decoder::new();
    assert_eq!(d.handle_edge(Level::Low, 0), None); // beep begins
    assert_eq!(d.handle_edge(Level::High, 40), None); // 40 ms: bounce, discarded
    assert_eq!(d.handle_edge(Level::Low, 140), None); // 100 ms gap: bounce too
    assert_eq!(d.handle_edge(Level::High, 440), None); // 300 ms beep committed
    // Only the long beep was recorded; the bounce left no entries.
    assert_eq!(d.beep_history_len(), 1);
    assert_eq!(d.gap_history_len(), 0);
    assert_eq!(d.last_beep_duration(), Some(300));
}

#[test]
fn spurious_retrigger_keeps_original_marker() {
    let mut d = Decoder::new();
    // Two falling edges in a row: the second must not move the beep start.
    assert_eq!(d.handle_edge(Level::Low, 0), None);
    assert_eq!(d.handle_edge(Level::Low, 100), None);
    assert_eq!(d.handle_edge(Level::High, 250), None);
    // The beep measures 250 ms from the first falling edge, not 150 ms.
    assert_eq!(d.last_beep_duration(), Some(250));
}

#[test]
fn report_gate_emits_each_status_once() {
    let mut d = Decoder::new();
    assert_eq!(d.update_and_report_status(Status::OnMains), Some(Status::OnMains));
    let mut extra = 0;
    for _ in 0..5 {
        if d.update_and_report_status(Status::OnMains).is_some() {
            extra += 1;
        }
    }
    assert_eq!(extra, 0);
    // A different status goes through, and the first one again after it.
    assert_eq!(d.update_and_report_status(Status::OnBattery), Some(Status::OnBattery));
    assert_eq!(d.update_and_report_status(Status::OnMains), Some(Status::OnMains));
}

#[test]
fn timeout_with_empty_history_reports_nothing() {
    let mut d = Decoder::new();
    assert_eq!(d.handle_timeout(), None);
    assert_eq!(d.last_reported(), None);
    // Even mid-beep, a timeout stays silent until a gap was ever measured.
    assert_eq!(d.handle_edge(Level::Low, 0), None);
    assert_eq!(d.handle_timeout(), None);
}

#[test]
fn accepts_time_rejects_clock_regression() {
    let mut d = Decoder::new();
    assert!(d.accepts_time(0));
    d.handle_edge(Level::Low, 100);
    assert!(!d.accepts_time(50));
    assert!(d.accepts_time(100));
    assert!(d.accepts_time(7000));
}

#[test]
fn fresh_decoder_is_empty_and_well_formed() {
    let d = Decoder::new();
    assert_eq!(d.beep_history_len(), 0);
    assert_eq!(d.gap_history_len(), 0);
    assert_eq!(d.last_beep_duration(), None);
    assert_eq!(d.last_gap_duration(), None);
    assert_eq!(d.last_reported(), None);
    assert!(d.is_well_formed());
}
