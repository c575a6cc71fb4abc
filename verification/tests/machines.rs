use sun2000::param::{passes_filter, Parameter, ParameterBlock};
use sun2000::scan::{
    expected_param_count, should_emit, ReadOutcome, ScanMachine, TransportErrorKind,
};
use sun2000::session::{SessionMachine, SessionState};
use sun2000::value::{FieldValue, ParamKind};

fn small_catalog() -> Vec<ParameterBlock> {
    vec![
        ParameterBlock::new(vec![
            Parameter::new("model_name", ParamKind::Text(None), None, None, 1, 30000, 3, true, true),
            Parameter::new(
                "rated_power",
                ParamKind::NumberU32(None),
                None,
                Some("W"),
                1,
                30003,
                2,
                true,
                true,
            ),
        ])
        .unwrap(),
        ParameterBlock::new(vec![Parameter::new(
            "alarm_1",
            ParamKind::NumberU16(None),
            None,
            Some("alarm_bitfield16"),
            1,
            32008,
            1,
            false,
            false,
        )])
        .unwrap(),
    ]
}

fn plain_param(name: &'static str, persist: bool, initial: bool) -> Parameter {
    Parameter::new(
        name,
        ParamKind::NumberU16(None),
        None,
        None,
        1,
        40000,
        1,
        initial,
        persist,
    )
}

#[test]
fn steady_filter_keeps_alarm_class_names() {
    // persist=false, but the name marks an alarm register
    assert!(passes_filter(&plain_param("alarm_1", false, false), false));
    assert!(passes_filter(&plain_param("state_3", false, false), false));
    assert!(passes_filter(&plain_param("device_status", false, false), false));
    assert!(passes_filter(&plain_param("fault_code", false, false), false));
    // persist=false and a plain name is excluded
    assert!(!passes_filter(&plain_param("foo", false, false), false));
    // persist=true is always kept
    assert!(!passes_filter(&plain_param("nb_optimizers", false, false), false));
    assert!(passes_filter(&plain_param("nb_online_optimizers", true, false), false));
}

#[test]
fn initial_filter_goes_by_the_initial_mark() {
    assert!(passes_filter(&plain_param("foo", false, true), true));
    assert!(!passes_filter(&plain_param("alarm_1", false, false), true));
}

#[test]
fn emission_is_steady_state_only() {
    assert!(should_emit(&plain_param("alarm_1", false, false), false));
    assert!(!should_emit(&plain_param("alarm_1", false, false), true));
    assert!(!should_emit(&plain_param("foo", false, false), false));
}

#[test]
fn expected_count_uses_steady_filter() {
    // model_name, rated_power and alarm_1 all pass the steady filter
    assert_eq!(expected_param_count(&small_catalog()), 3);
}

#[test]
fn bulk_plan_reads_whole_blocks() {
    let cat = small_catalog();
    let m = ScanMachine::new(&cat, false, false);
    let q = m.next_request().unwrap();
    assert_eq!(q.reg_address, 30000);
    assert_eq!(q.quantity, 5);
}

#[test]
fn partial_plan_reads_single_parameters() {
    let cat = small_catalog();
    let mut m = ScanMachine::new(&cat, true, false);
    let q = m.next_request().unwrap();
    assert_eq!(q.reg_address, 30000);
    assert_eq!(q.quantity, 3);
    m.feed(ReadOutcome::Data { words: vec![0x4142, 0x0043, 0], elapsed_ms: 1 });
    let q = m.next_request().unwrap();
    assert_eq!(q.reg_address, 30003);
    assert_eq!(q.quantity, 2);
}

#[test]
fn retry_exhaustion_skips_the_unit_only() {
    let cat = small_catalog();
    let mut m = ScanMachine::new(&cat, false, false);
    let first = m.next_request().unwrap();
    // three transient failures in a row exhaust the attempt cap
    m.feed(ReadOutcome::TimedOut);
    assert_eq!(m.next_request().unwrap(), first);
    m.feed(ReadOutcome::Failed { kind: TransportErrorKind::Other });
    assert_eq!(m.next_request().unwrap(), first);
    m.feed(ReadOutcome::TimedOut);
    // the unit is skipped; the scan goes on with the next block
    let second = m.next_request().unwrap();
    assert_eq!(second.reg_address, 32008);
    assert!(!m.aborted());
    assert_eq!(m.result_count(), 0);
    // the rest of the scan still succeeds
    m.feed(ReadOutcome::Data { words: vec![7], elapsed_ms: 1 });
    assert!(m.is_finished());
    assert!(!m.aborted());
    assert_eq!(m.result_count(), 1);
}

#[test]
fn transient_error_only_retries() {
    let cat = small_catalog();
    let mut m = ScanMachine::new(&cat, false, false);
    let first = m.next_request().unwrap();
    m.feed(ReadOutcome::Failed { kind: TransportErrorKind::Other });
    assert_eq!(m.next_request().unwrap(), first);
    assert!(!m.aborted());
}

#[test]
fn broken_pipe_aborts_the_scan() {
    let cat = small_catalog();
    let mut m = ScanMachine::new(&cat, false, false);
    m.feed(ReadOutcome::Failed { kind: TransportErrorKind::BrokenPipe });
    assert!(m.aborted());
    assert!(m.is_finished());
    assert!(m.next_request().is_none());
    assert_eq!(m.result_count(), 0);
}

#[test]
fn connection_reset_aborts_the_scan() {
    let cat = small_catalog();
    let mut m = ScanMachine::new(&cat, false, false);
    m.feed(ReadOutcome::Failed { kind: TransportErrorKind::ConnectionReset });
    assert!(m.aborted());
}

fn polling_machine(expected: usize) -> SessionMachine {
    let mut m = SessionMachine::new(expected, 0);
    assert!(m.connect_attempt(false));
    m.on_connect_result(true);
    m.on_initial_scan(false);
    m.on_discovery_done();
    assert!(matches!(m.state, SessionState::Polling));
    m
}

#[test]
fn count_mismatch_forces_reconnect() {
    let mut m = polling_machine(3);
    m.on_scan_result(2, false);
    assert!(matches!(m.state, SessionState::Disconnected));
    assert_eq!(m.poll_errors, 1);
    assert_eq!(m.poll_ok, 0);
}

#[test]
fn complete_scan_counts_a_success() {
    let mut m = polling_machine(3);
    m.on_scan_result(3, false);
    assert!(matches!(m.state, SessionState::Polling));
    assert_eq!(m.poll_ok, 1);
    assert_eq!(m.poll_errors, 0);
}

#[test]
fn aborted_scan_forces_reconnect() {
    let mut m = polling_machine(3);
    m.on_scan_result(3, true);
    assert!(matches!(m.state, SessionState::Disconnected));
    assert_eq!(m.poll_errors, 1);
}

#[test]
fn failed_connect_backs_off_and_retries() {
    let mut m = SessionMachine::new(3, 0);
    assert!(m.connect_attempt(false));
    m.on_connect_result(false);
    assert!(matches!(m.state, SessionState::Disconnected));
    // reconnection retries forever
    assert!(m.connect_attempt(false));
}

#[test]
fn cancellation_stops_the_session() {
    let mut m = SessionMachine::new(3, 0);
    assert!(!m.connect_attempt(true));
    assert!(matches!(m.state, SessionState::Terminated));
}

#[test]
fn fatal_initial_scan_reconnects() {
    let mut m = SessionMachine::new(3, 0);
    assert!(m.connect_attempt(false));
    m.on_connect_result(true);
    m.on_initial_scan(true);
    assert!(matches!(m.state, SessionState::Disconnected));
}

#[test]
fn poll_tick_cadence() {
    let mut m = polling_machine(3);
    // not yet due
    let plan = m.poll_tick(1500, false);
    assert!(!plan.run_scan && !plan.emit_stats && !plan.stop);
    // poll due after the interval
    let plan = m.poll_tick(2001, false);
    assert!(plan.run_scan && !plan.stop);
    // immediately afterwards it is no longer due
    let plan = m.poll_tick(2002, false);
    assert!(!plan.run_scan);
    // stats due after their own, much longer cadence
    let plan = m.poll_tick(3_602_002, false);
    assert!(plan.emit_stats && plan.run_scan);
    // cancellation dumps stats once more and stops without scanning
    let plan = m.poll_tick(3_602_003, true);
    assert!(plan.stop && plan.emit_stats && !plan.run_scan);
    assert!(matches!(m.state, SessionState::Terminated));
}

#[test]
fn daily_yield_is_tracked() {
    let mut m = polling_machine(3);
    let params = vec![
        Parameter::new("other", ParamKind::NumberU32(Some(9)), None, None, 1, 0, 2, false, true),
        Parameter::new(
            "daily_yield_energy",
            ParamKind::NumberU32(Some(1234)),
            None,
            Some("kWh"),
            100,
            32114,
            2,
            true,
            true,
        ),
    ];
    m.update_daily_yield(&params);
    assert_eq!(m.daily_yield_energy, Some(1234));
    m.update_daily_yield(&vec![]);
    assert_eq!(m.daily_yield_energy, Some(1234));
}

#[test]
fn bulk_scan_end_to_end() {
    // catalog: one block holding a 3-word text and a 2-word unsigned value
    let cat = vec![ParameterBlock::new(vec![
        Parameter::new("model_name", ParamKind::Text(None), None, None, 1, 30000, 3, true, true),
        Parameter::new(
            "rated_power",
            ParamKind::NumberU32(None),
            None,
            Some("W"),
            1,
            30003,
            2,
            true,
            true,
        ),
    ])
    .unwrap()];
    let mut m = ScanMachine::new(&cat, false, false);
    let q = m.next_request().unwrap();
    assert_eq!((q.reg_address, q.quantity), (30000, 5));
    // "ABC\0\0\0" followed by 0x00002710
    let newly = m.feed(ReadOutcome::Data {
        words: vec![0x4142, 0x4300, 0x0000, 0x0000, 0x2710],
        elapsed_ms: 12,
    });
    assert!(m.is_finished());
    assert!(!m.aborted());
    assert_eq!(newly.len(), 2);
    assert_eq!(m.result_count(), 2);
    let results = m.results();
    assert_eq!(results[0].name, "model_name");
    assert_eq!(results[0].get_text_value(), "ABC");
    assert_eq!(results[1].name, "rated_power");
    assert!(matches!(results[1].value, ParamKind::NumberU32(Some(10000))));
    assert_eq!(results[1].get_text_value(), "10000");
    assert!(matches!(
        results[1].get_influx_value(),
        FieldValue::SignedInteger(10000)
    ));
}

#[test]
fn short_bulk_response_skips_unreachable_parts() {
    let cat = small_catalog();
    let mut m = ScanMachine::new(&cat, false, false);
    // only three of the five words come back: the text still decodes,
    // the 32-bit value past the end is skipped
    m.feed(ReadOutcome::Data { words: vec![0x4142, 0x0043, 0], elapsed_ms: 1 });
    assert_eq!(m.result_count(), 1);
    assert_eq!(m.results()[0].name, "model_name");
}

#[test]
fn initial_scan_reads_every_block_but_decodes_the_marked() {
    let cat = small_catalog();
    let mut m = ScanMachine::new(&cat, false, true);
    // first block: both parameters are marked for the initial read
    let q = m.next_request().unwrap();
    assert_eq!(q.reg_address, 30000);
    m.feed(ReadOutcome::Data {
        words: vec![0x4142, 0x4300, 0x0000, 0x0000, 0x2710],
        elapsed_ms: 1,
    });
    assert_eq!(m.result_count(), 2);
    // second block is still read whole, but alarm_1 is not an
    // initial-read parameter, so nothing is decoded from it
    let q = m.next_request().unwrap();
    assert_eq!(q.reg_address, 32008);
    m.feed(ReadOutcome::Data { words: vec![1], elapsed_ms: 1 });
    assert!(m.is_finished());
    assert_eq!(m.result_count(), 2);
}

#[test]
fn full_catalog_steady_count() {
    let cat = sun2000::session::Sun2000::param_table().unwrap();
    // every parameter persists except nb_optimizers, whose name also
    // passes no name rule
    assert_eq!(expected_param_count(&cat), 152);
}
