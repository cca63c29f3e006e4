use sim7020::at_command::at_cgatt::{GPRSServiceState, GPRSServiceStatus};
use sim7020::at_command::at_cpin::{PINRequired, PinStatus};
use sim7020::at_command::at_csq::SignalQualityReport;
use sim7020::at_command::ate::Echo;
use sim7020::at_command::cmee::ReportMobileEquipmentErrorSetting;
use sim7020::at_command::csclk::CSCLKMode;
use sim7020::at_command::flow_control::ControlFlowStatus;
use sim7020::at_command::mqtt::MQTTSubscribe;
use sim7020::at_command::receive::socket_reception::SocketDataReception;
use sim7020::at_command::{AtRequest, AtResponse};
use sim7020::modem::{
    bytes_written, line_driven, BringUp, BringUpAction, Modem, Phase, ReadFault, ReadStep,
    SimUnlock, SleepChangeAction, SleepChangeStep, SleepModeChange, UnlockStep, WakeAction,
    AWAIT_TIME_FOR_POWER_UP, MAX_READ_RETRIES, MAX_UNLOCK_TRIES,
};
use sim7020::AtError;

#[test]
fn a_new_engine_is_idle_and_awake() {
    let modem = Modem::new();
    assert_eq!(modem.current_phase(), Phase::Idle);
    assert_eq!(modem.current_sleep_mode(), CSCLKMode::Disabled);
    assert_eq!(CSCLKMode::default(), CSCLKMode::Disabled);
}

#[test]
fn an_exchange_step_by_step() {
    let mut modem = Modem::new();
    let mut scratch = [0u8; 512];
    let command = GPRSServiceStatus;
    let bytes = modem.start_command(&command, &mut scratch).unwrap();
    assert_eq!(bytes, b"AT+CGATT?\r\n");
    assert_eq!(modem.current_phase(), Phase::Sending);
    assert_eq!(modem.command_written(true), Ok(()));
    assert_eq!(modem.current_phase(), Phase::Receiving);
    assert_eq!(modem.reply_bytes(b"\r\n+CGATT: 1"), ReadStep::More);
    assert_eq!(modem.reply_bytes(b""), ReadStep::More);
    assert_eq!(modem.reply_bytes(b"\r\n\r\nOK\r\n"), ReadStep::Complete);
    assert_eq!(modem.current_phase(), Phase::Replied);
    let response = modem.finish_command(&command).unwrap();
    assert_eq!(response.state, GPRSServiceState::Attached);
    assert_eq!(modem.current_phase(), Phase::Idle);
}

#[test]
fn an_exchange_in_the_untyped_interface() {
    let mut modem = Modem::new();
    let mut scratch = [0u8; 512];
    modem.start_command(&PINRequired, &mut scratch).unwrap();
    modem.command_written(true).unwrap();
    assert_eq!(modem.reply_bytes(b"+CPIN: READY\r\n\r\nOK\r\n"), ReadStep::Complete);
    assert!(matches!(modem.finish_reply(&PINRequired), Ok(AtResponse::PinStatus(PinStatus::Ready))));
    assert_eq!(modem.current_phase(), Phase::Idle);
}

#[test]
fn a_reply_that_does_not_decode_is_an_error_in_both_interfaces() {
    let mut modem = Modem::new();
    let mut scratch = [0u8; 512];
    modem.start_command(&PINRequired, &mut scratch).unwrap();
    modem.command_written(true).unwrap();
    assert_eq!(modem.reply_bytes(b"\r\nOK\r\n"), ReadStep::Complete);
    assert_eq!(modem.finish_reply(&PINRequired).unwrap_err(), AtError::AtParseError);
    let mut scratch = [0u8; 512];
    let (_, outcome) = modem.send_and_wait_response(&PINRequired, &mut scratch, b"\r\nOK\r\n").unwrap();
    assert_eq!(outcome, Err(AtError::AtParseError));
}

#[test]
fn a_whole_exchange() {
    let mut modem = Modem::new();
    let mut scratch = [0u8; 512];
    let (sent, outcome) = modem
        .send_and_wait_response(&SignalQualityReport, &mut scratch, b"\r\n+CSQ: 24,0\r\n\r\nOK\r\n")
        .unwrap();
    assert_eq!(sent, b"AT+CSQ\r\n");
    assert_eq!(outcome, Ok((24, 0)));
    assert_eq!(modem.current_phase(), Phase::Idle);
}

#[test]
fn the_four_kinds_of_failure_are_told_apart() {
    let mut modem = Modem::new();
    // transport
    let mut scratch = [0u8; 512];
    modem.start_command(&SignalQualityReport, &mut scratch).unwrap();
    assert_eq!(modem.command_written(false), Err(AtError::IOError));
    assert_eq!(modem.current_phase(), Phase::Idle);
    // framing
    let mut scratch = [0u8; 512];
    let (_, outcome) = modem.send_and_wait_response(&SignalQualityReport, &mut scratch, &[b'x'; 513]).unwrap();
    assert_eq!(outcome, Err(AtError::CapacityError));
    // remote failure, with the bytes consumed
    let mut scratch = [0u8; 512];
    let (_, outcome) = modem.send_and_wait_response(&SignalQualityReport, &mut scratch, b"\r\nERROR\r\n").unwrap();
    assert_eq!(outcome, Err(AtError::ErrorReply(9)));
    // decoding
    let mut scratch = [0u8; 512];
    let (_, outcome) = modem.send_and_wait_response(&SignalQualityReport, &mut scratch, b"\r\n+CSQ: x\r\n\r\nOK\r\n").unwrap();
    assert_eq!(outcome, Err(AtError::AtParseError));
    // a reply that never completes
    let mut scratch = [0u8; 512];
    let (_, outcome) = modem.send_and_wait_response(&SignalQualityReport, &mut scratch, b"\r\n+CSQ: 1,").unwrap();
    assert_eq!(outcome, Err(AtError::NotReady));
    assert_eq!(modem.current_phase(), Phase::Idle);
}

#[test]
fn a_command_that_does_not_fit_is_a_capacity_error() {
    let mut modem = Modem::new();
    let mut scratch = [0u8; 512];
    let topic = "t".repeat(600);
    let command = MQTTSubscribe { mqtt_id: 0, topic: &topic, qos: 1 };
    assert_eq!(modem.start_command(&command, &mut scratch).unwrap_err(), AtError::CapacityError);
    assert_eq!(modem.current_phase(), Phase::Idle);
}

#[test]
fn only_one_command_is_in_flight() {
    let mut modem = Modem::new();
    let mut scratch = [0u8; 512];
    modem.start_command(&SignalQualityReport, &mut scratch).unwrap();
    let mut other = [0u8; 512];
    assert_eq!(modem.start_command(&PINRequired, &mut other).unwrap_err(), AtError::IllegalModuleState);
    assert_eq!(modem.current_phase(), Phase::Sending);
    modem.command_written(true).unwrap();
    let mut other = [0u8; 512];
    assert_eq!(modem.start_command(&PINRequired, &mut other).unwrap_err(), AtError::IllegalModuleState);
    assert_eq!(modem.reply_bytes(b"\r\nOK\r\n"), ReadStep::Complete);
    let mut other = [0u8; 512];
    assert_eq!(modem.start_command(&PINRequired, &mut other).unwrap_err(), AtError::IllegalModuleState);
    let mut other = [0u8; 512];
    assert_eq!(
        modem.send_and_wait_response(&PINRequired, &mut other, b"").unwrap_err(),
        AtError::IllegalModuleState
    );
    assert_eq!(modem.current_phase(), Phase::Replied);
}

#[test]
fn steps_out_of_turn_are_refused() {
    let mut modem = Modem::new();
    assert_eq!(modem.command_written(true), Err(AtError::IllegalModuleState));
    assert_eq!(modem.reply_bytes(b"\r\nOK\r\n"), ReadStep::Failed(AtError::IllegalModuleState));
    assert_eq!(modem.read_failed(ReadFault::Interrupted), ReadStep::Failed(AtError::IllegalModuleState));
    assert_eq!(modem.finish_command(&SignalQualityReport).unwrap_err(), AtError::IllegalModuleState);
    assert_eq!(modem.finish_reply(&SignalQualityReport).unwrap_err(), AtError::IllegalModuleState);
    assert_eq!(modem.current_phase(), Phase::Idle);
    let mut scratch = [0u8; 512];
    modem.start_command(&SignalQualityReport, &mut scratch).unwrap();
    assert_eq!(modem.reply_bytes(b"x"), ReadStep::Failed(AtError::IllegalModuleState));
    assert_eq!(modem.finish_command(&SignalQualityReport).unwrap_err(), AtError::IllegalModuleState);
    assert_eq!(modem.current_phase(), Phase::Sending);
}

#[test]
fn transient_read_failures_are_retried_a_bounded_number_of_times() {
    let mut modem = Modem::new();
    let mut scratch = [0u8; 512];
    modem.start_command(&SignalQualityReport, &mut scratch).unwrap();
    modem.command_written(true).unwrap();
    for _ in 0..MAX_READ_RETRIES / 2 {
        assert_eq!(modem.read_failed(ReadFault::Interrupted), ReadStep::More);
        assert_eq!(modem.read_failed(ReadFault::TimedOut), ReadStep::More);
    }
    assert_eq!(MAX_READ_RETRIES, 16);
    assert_eq!(modem.read_failed(ReadFault::TimedOut), ReadStep::Failed(AtError::NotReady));
    assert_eq!(modem.current_phase(), Phase::Idle);
    assert!(ReadFault::Interrupted.transient());
    assert!(ReadFault::TimedOut.transient());
    assert!(!ReadFault::Other.transient());
}

#[test]
fn a_successful_read_renews_the_retries() {
    let mut modem = Modem::new();
    let mut scratch = [0u8; 512];
    modem.start_command(&SignalQualityReport, &mut scratch).unwrap();
    modem.command_written(true).unwrap();
    for _ in 0..MAX_READ_RETRIES {
        assert_eq!(modem.read_failed(ReadFault::Interrupted), ReadStep::More);
    }
    assert_eq!(modem.reply_bytes(b"\r\n+CSQ"), ReadStep::More);
    for _ in 0..MAX_READ_RETRIES {
        assert_eq!(modem.read_failed(ReadFault::Interrupted), ReadStep::More);
    }
    assert_eq!(modem.reply_bytes(b": 1,2\r\n\r\nOK\r\n"), ReadStep::Complete);
    assert_eq!(modem.finish_command(&SignalQualityReport), Ok((1, 2)));
}

#[test]
fn a_terminal_read_failure_ends_the_exchange() {
    let mut modem = Modem::new();
    let mut scratch = [0u8; 512];
    modem.start_command(&SignalQualityReport, &mut scratch).unwrap();
    modem.command_written(true).unwrap();
    assert_eq!(modem.read_failed(ReadFault::Other), ReadStep::Failed(AtError::NotReady));
    assert_eq!(modem.current_phase(), Phase::Idle);
}

#[test]
fn pushed_messages_are_taken_between_commands_only() {
    let mut modem = Modem::new();
    assert_eq!(modem.poll_unsolicited(Some(false)), Ok(false));
    assert_eq!(modem.poll_unsolicited(Some(true)), Ok(true));
    assert_eq!(modem.poll_unsolicited(None), Err(AtError::IOError));
    let message: SocketDataReception = modem.get_unsolicited_message(Some(b"+CSONMI: 2,4,beef")).unwrap();
    assert_eq!(message.socket_id, 2);
    assert_eq!(message.data.as_slice(), &[0xbe, 0xef]);
    assert_eq!(modem.get_unsolicited_message::<SocketDataReception>(None).unwrap_err(), AtError::IOError);
    assert_eq!(
        modem.get_unsolicited_message::<SocketDataReception>(Some(b"\r\nOK\r\n")).unwrap_err(),
        AtError::AtParseError
    );
    let mut scratch = [0u8; 512];
    modem.start_command(&SignalQualityReport, &mut scratch).unwrap();
    assert_eq!(modem.poll_unsolicited(Some(true)), Err(AtError::IllegalModuleState));
    assert_eq!(
        modem.get_unsolicited_message::<SocketDataReception>(Some(b"+CSONMI: 2,4,beef")).unwrap_err(),
        AtError::IllegalModuleState
    );
    modem.command_written(true).unwrap();
    assert_eq!(modem.poll_unsolicited(Some(true)), Err(AtError::IllegalModuleState));
    modem.reply_bytes(b"\r\nOK\r\n");
    assert_eq!(modem.poll_unsolicited(Some(false)), Err(AtError::IllegalModuleState));
}

fn changed(mode: CSCLKMode) -> SleepModeChange {
    SleepModeChange::begin(mode).advance(Ok(())).advance(Ok(()))
}

#[test]
fn a_sleep_mode_change_releases_the_wake_line_first() {
    let change = SleepModeChange::begin(CSCLKMode::HardwareControlled);
    assert_eq!(change.step, SleepChangeStep::ReleaseWake);
    assert!(matches!(change.action(), SleepChangeAction::DeassertWakeLine));
    let change = change.advance(Ok(()));
    assert_eq!(change.step, SleepChangeStep::SetMode);
    match change.action() {
        SleepChangeAction::Execute(command) => {
            assert_eq!(command.mode, CSCLKMode::HardwareControlled);
            let mut scratch = [0u8; 512];
            assert_eq!(command.get_command(&mut scratch).unwrap(), b"ATCSCLK=1\r\n");
        }
        _ => panic!("unexpected action"),
    }
    let change = change.advance(Ok(()));
    assert_eq!(change.step, SleepChangeStep::Done);
    assert_eq!(change.mode, CSCLKMode::HardwareControlled);
    assert!(matches!(change.action(), SleepChangeAction::Done));
    assert_eq!(change.advance(Err(AtError::IOError)), change);
}

#[test]
fn a_sleep_mode_change_fails_with_its_first_failure() {
    let begun = SleepModeChange::begin(CSCLKMode::SoftwareControlled);
    let failed = begun.advance(Err(AtError::IOError));
    assert_eq!(failed.step, SleepChangeStep::Failed(AtError::HALError));
    assert!(matches!(failed.action(), SleepChangeAction::Fail(AtError::HALError)));
    assert_eq!(failed.advance(Ok(())), failed);
    let failed = begun.advance(Ok(())).advance(Err(AtError::ErrorReply(9)));
    assert_eq!(failed.step, SleepChangeStep::Failed(AtError::ErrorReply(9)));
}

#[test]
fn sleep_mode_is_recorded_where_the_change_is_done() {
    let mut modem = Modem::new();
    let begun = SleepModeChange::begin(CSCLKMode::HardwareControlled);
    assert_eq!(modem.set_sleep_mode(begun), Err(AtError::IllegalModuleState));
    assert_eq!(modem.set_sleep_mode(begun.advance(Ok(()))), Err(AtError::IllegalModuleState));
    assert_eq!(
        modem.set_sleep_mode(begun.advance(Ok(())).advance(Err(AtError::ErrorReply(9)))),
        Err(AtError::ErrorReply(9))
    );
    assert_eq!(modem.current_sleep_mode(), CSCLKMode::Disabled);
    assert_eq!(modem.set_sleep_mode(changed(CSCLKMode::HardwareControlled)), Ok(()));
    assert_eq!(modem.current_sleep_mode(), CSCLKMode::HardwareControlled);
    assert_eq!(
        modem.set_sleep_mode(SleepModeChange::begin(CSCLKMode::Disabled).advance(Err(AtError::HALError))),
        Err(AtError::HALError)
    );
    assert_eq!(modem.current_sleep_mode(), CSCLKMode::HardwareControlled);
}

#[test]
fn sleeping_and_waking_follow_the_mode() {
    let mut modem = Modem::new();
    assert_eq!(modem.start_sleeping(), Err(AtError::IllegalModuleState));
    assert_eq!(modem.wake_up(), WakeAction::Nothing);
    modem.set_sleep_mode(changed(CSCLKMode::SoftwareControlled)).unwrap();
    assert_eq!(modem.start_sleeping(), Err(AtError::IllegalModuleState));
    assert_eq!(modem.wake_up(), WakeAction::SendProbes);
    modem.set_sleep_mode(changed(CSCLKMode::HardwareControlled)).unwrap();
    assert_eq!(modem.start_sleeping(), Ok(WakeAction::RaiseWakeLine));
    assert_eq!(modem.wake_up(), WakeAction::LowerWakeLine);
    assert_eq!(Modem::wake_probes(), b"AT\r\nAT\r\n");
}

#[test]
fn commands_of_the_engine() {
    assert_eq!(Modem::disable_echo().status, Echo::Disable);
    assert_eq!(Modem::enable_numeric_errors().setting, ReportMobileEquipmentErrorSetting::EnabledVerbose);
    assert_eq!(
        Modem::verbosity(ReportMobileEquipmentErrorSetting::Numeric).setting,
        ReportMobileEquipmentErrorSetting::Numeric
    );
    let mut scratch = [0u8; 512];
    assert_eq!(Modem::get_flow_control().get_command(&mut scratch).unwrap(), b"AT+IFC?\r\n");
    let flow = Modem::set_flow_control();
    assert_eq!((flow.ta_to_te, flow.te_to_ta), (ControlFlowStatus::Software, ControlFlowStatus::Software));
    let mut scratch = [0u8; 512];
    assert_eq!(Modem::ready().get_command(&mut scratch).unwrap(), b"AT\r\n");
    assert_eq!(line_driven(true), Ok(()));
    assert_eq!(line_driven(false), Err(AtError::HALError));
    assert_eq!(bytes_written(true), Ok(()));
    assert_eq!(bytes_written(false), Err(AtError::IOError));
}

#[test]
fn bring_up_runs_its_four_steps() {
    let state = BringUp::begin();
    assert!(matches!(state.action(), BringUpAction::AssertPowerLine));
    let state = state.advance(Ok(()));
    assert!(matches!(state.action(), BringUpAction::DeassertWakeLine));
    let state = state.advance(Ok(()));
    assert!(matches!(state.action(), BringUpAction::Wait(AWAIT_TIME_FOR_POWER_UP)));
    assert_eq!(AWAIT_TIME_FOR_POWER_UP, 10000);
    let state = state.advance(Ok(()));
    match state.action() {
        BringUpAction::Execute(command) => assert_eq!(command.status, Echo::Disable),
        _ => panic!("unexpected action"),
    }
    let state = state.advance(Ok(()));
    assert_eq!(state, BringUp::Ready);
    assert!(matches!(state.action(), BringUpAction::Done));
    assert_eq!(state.advance(Err(AtError::IOError)), BringUp::Ready);
}

#[test]
fn bring_up_fails_with_its_first_failure() {
    assert_eq!(BringUp::PowerOn.advance(Err(AtError::IOError)), BringUp::Failed(AtError::HALError));
    assert_eq!(BringUp::ReleaseWake.advance(Err(AtError::HALError)), BringUp::Failed(AtError::HALError));
    assert_eq!(BringUp::Settle.advance(Err(AtError::HALError)), BringUp::DisableEcho);
    assert_eq!(BringUp::DisableEcho.advance(Err(AtError::ErrorReply(9))), BringUp::Failed(AtError::ErrorReply(9)));
    assert_eq!(BringUp::DisableEcho.advance(Err(AtError::NotReady)), BringUp::Failed(AtError::NotReady));
    let failed = BringUp::Failed(AtError::NotReady);
    assert!(matches!(failed.action(), BringUpAction::Fail(AtError::NotReady)));
    assert_eq!(failed.advance(Ok(())), failed);
}

#[test]
fn a_ready_sim_needs_no_pin() {
    let attempt = SimUnlock::new(1234, None);
    assert_eq!(attempt.step, UnlockStep::Probe);
    assert_eq!(attempt.tries_left, MAX_UNLOCK_TRIES);
    assert_eq!(MAX_UNLOCK_TRIES, 1);
    let mut scratch = [0u8; 512];
    assert_eq!(attempt.probe_command().get_command(&mut scratch).unwrap(), b"AT+CPIN?\r\n");
    let attempt = attempt.on_status(Ok(PinStatus::Ready));
    assert_eq!(attempt.step, UnlockStep::Unlocked);
    assert_eq!(attempt.tries_left, 1);
}

#[test]
fn a_locked_sim_gets_the_pin_and_is_probed_again() {
    let attempt = SimUnlock::new(1234, None).on_status(Ok(PinStatus::SimPin));
    assert_eq!(attempt.step, UnlockStep::Enter);
    assert_eq!(attempt.tries_left, 0);
    assert_eq!(attempt.enter_command().pin, 1234);
    let attempt = attempt.on_entered(Ok(()));
    assert_eq!(attempt.step, UnlockStep::Probe);
    assert_eq!(attempt.on_status(Ok(PinStatus::Ready)).step, UnlockStep::Unlocked);
    assert_eq!(
        attempt.on_status(Ok(PinStatus::SimPin)).step,
        UnlockStep::Failed(AtError::IllegalPinStatus(PinStatus::SimPin))
    );
}

#[test]
fn the_pin_is_entered_as_often_as_allowed_and_no_more() {
    let mut attempt = SimUnlock::new(7, Some(3));
    let mut entered = 0;
    loop {
        attempt = attempt.on_status(Ok(PinStatus::SimPin));
        if attempt.step != UnlockStep::Enter {
            break;
        }
        entered += 1;
        attempt = attempt.on_entered(Ok(()));
    }
    assert_eq!(entered, 3);
    assert_eq!(attempt.step, UnlockStep::Failed(AtError::IllegalPinStatus(PinStatus::SimPin)));
    let never = SimUnlock::new(7, Some(0)).on_status(Ok(PinStatus::SimPin));
    assert_eq!(never.step, UnlockStep::Failed(AtError::IllegalPinStatus(PinStatus::SimPin)));
}

#[test]
fn other_sim_states_and_engine_failures_end_the_attempt() {
    let attempt = SimUnlock::new(1, None);
    assert_eq!(
        attempt.on_status(Ok(PinStatus::SimPuk)).step,
        UnlockStep::Failed(AtError::IllegalPinStatus(PinStatus::SimPuk))
    );
    assert_eq!(
        attempt.on_status(Ok(PinStatus::Unkown)).step,
        UnlockStep::Failed(AtError::IllegalPinStatus(PinStatus::Unkown))
    );
    assert_eq!(attempt.on_status(Err(AtError::NotReady)).step, UnlockStep::Failed(AtError::NotReady));
    let entering = attempt.on_status(Ok(PinStatus::SimPin));
    assert_eq!(
        entering.on_entered(Err(AtError::ErrorReply(9))).step,
        UnlockStep::Failed(AtError::ErrorReply(9))
    );
    // steps that are not due change nothing
    assert_eq!(attempt.on_entered(Ok(())), attempt);
    assert_eq!(entering.on_status(Ok(PinStatus::Ready)), entering);
    let done = attempt.on_status(Ok(PinStatus::Ready));
    assert_eq!(done.on_status(Ok(PinStatus::SimPin)), done);
    assert_eq!(done.on_entered(Ok(())), done);
}

#[test]
fn the_engine_decodes_a_reply_without_its_echo() {
    let mut modem = Modem::new();
    let mut scratch = [0u8; 512];
    let (_, outcome) = modem
        .send_and_wait_response(&GPRSServiceStatus, &mut scratch, b"AT+CGATT?\r\r\n+CGATT: 0\r\n\r\nOK\r\n")
        .unwrap();
    assert_eq!(outcome.unwrap().state, GPRSServiceState::Detached);
}

#[test]
fn a_raw_reply_is_copied_with_its_terminator() {
    let mut modem = Modem::new();
    let mut out = [0u8; 512];
    assert_eq!(modem.finish_raw(&mut out), Err(AtError::IllegalModuleState));
    assert_eq!(modem.expect_reply(), Ok(()));
    assert_eq!(modem.expect_reply(), Err(AtError::IllegalModuleState));
    assert_eq!(modem.current_phase(), Phase::Receiving);
    assert_eq!(modem.reply_bytes(b"abc\r\nOK\r\ntail"), ReadStep::Complete);
    assert_eq!(modem.finish_raw(&mut out), Ok(3));
    assert_eq!(&out[..9], b"abc\r\nOK\r\n");
    assert_eq!(out[9], 0);
    assert_eq!(modem.current_phase(), Phase::Idle);
}

#[test]
fn the_raw_bytes_of_a_failure_reply_can_be_read() {
    let mut modem = Modem::new();
    let mut scratch = [0u8; 512];
    modem.start_command(&SignalQualityReport, &mut scratch).unwrap();
    modem.command_written(true).unwrap();
    assert_eq!(
        modem.reply_bytes(b"\r\n+CME ERROR\r\nleft over"),
        ReadStep::Failed(AtError::ErrorReply(14))
    );
    assert_eq!(modem.raw_reply(), b"\r\n+CME ERROR\r\n");
    assert_eq!(modem.raw_reply().len(), 14);
}

#[test]
fn reads_that_bring_nothing_are_bounded() {
    let mut modem = Modem::new();
    let mut scratch = [0u8; 512];
    modem.start_command(&SignalQualityReport, &mut scratch).unwrap();
    modem.command_written(true).unwrap();
    for _ in 0..MAX_READ_RETRIES {
        assert_eq!(modem.reply_bytes(b""), ReadStep::More);
    }
    assert_eq!(modem.reply_bytes(b""), ReadStep::Failed(AtError::NotReady));
    assert_eq!(modem.current_phase(), Phase::Idle);
    let mut scratch = [0u8; 512];
    let (_, outcome) = modem.send_and_wait_response(&SignalQualityReport, &mut scratch, b"").unwrap();
    assert_eq!(outcome, Err(AtError::NotReady));
}

#[test]
fn empty_reads_and_failed_reads_share_the_retries() {
    let mut modem = Modem::new();
    let mut scratch = [0u8; 512];
    modem.start_command(&SignalQualityReport, &mut scratch).unwrap();
    modem.command_written(true).unwrap();
    for _ in 0..MAX_READ_RETRIES / 2 {
        assert_eq!(modem.reply_bytes(b""), ReadStep::More);
        assert_eq!(modem.read_failed(ReadFault::TimedOut), ReadStep::More);
    }
    assert_eq!(modem.read_failed(ReadFault::Interrupted), ReadStep::Failed(AtError::NotReady));
}

#[test]
fn an_exchange_can_be_abandoned() {
    let mut modem = Modem::new();
    let mut scratch = [0u8; 512];
    modem.start_command(&SignalQualityReport, &mut scratch).unwrap();
    modem.command_written(true).unwrap();
    modem.reply_bytes(b"\r\n+CSQ");
    modem.abandon();
    assert_eq!(modem.current_phase(), Phase::Idle);
    let mut scratch = [0u8; 512];
    let (_, outcome) = modem
        .send_and_wait_response(&SignalQualityReport, &mut scratch, b"\r\n+CSQ: 3,4\r\n\r\nOK\r\n")
        .unwrap();
    assert_eq!(outcome, Ok((3, 4)));
}

#[test]
fn a_reply_is_read_with_the_length_of_its_content() {
    let mut modem = Modem::new();
    let mut out = [0u8; 512];
    assert_eq!(modem.read_response(b"\r\n+CSQ: 24,0\r\n\r\nOK\r\n", &mut out), Ok(14));
    assert_eq!(&out[..14], b"\r\n+CSQ: 24,0\r\n");
    assert_eq!(&out[14..20], b"\r\nOK\r\n");
    assert_eq!(modem.read_response(b"\r\nERROR\r\n", &mut out), Err(AtError::ErrorReply(9)));
    assert_eq!(modem.read_response(b"no end", &mut out), Err(AtError::NotReady));
    assert_eq!(modem.read_response(&[b'x'; 600], &mut out), Err(AtError::CapacityError));
    assert_eq!(modem.current_phase(), Phase::Idle);
    let mut scratch = [0u8; 512];
    modem.start_command(&SignalQualityReport, &mut scratch).unwrap();
    assert_eq!(modem.read_response(b"\r\nOK\r\n", &mut out), Err(AtError::IllegalModuleState));
}

#[test]
fn a_whole_exchange_in_the_untyped_interface() {
    let mut modem = Modem::new();
    let mut scratch = [0u8; 512];
    let (sent, outcome) = modem
        .send_and_wait_reply(&SignalQualityReport, &mut scratch, b"\r\n+CSQ: 24,0\r\n\r\nOK\r\n")
        .unwrap();
    assert_eq!(sent, b"AT+CSQ\r\n");
    assert!(matches!(outcome, Ok(AtResponse::SignalQuality(24, 0))));
    let mut scratch = [0u8; 512];
    let (_, outcome) = modem
        .send_and_wait_reply(&SignalQualityReport, &mut scratch, b"\r\nERROR\r\n")
        .unwrap();
    assert_eq!(outcome.unwrap_err(), AtError::ErrorReply(9));
}

#[test]
fn a_new_engine_has_read_nothing() {
    let modem = Modem::new();
    assert_eq!(modem.raw_reply(), b"");
    assert_eq!(modem.current_phase(), Phase::Idle);
}

#[test]
fn a_framed_reply_is_acknowledged_whatever_stands_before_the_terminator() {
    let mut modem = Modem::new();
    for incoming in [
        &b"\r\nOK\r\n"[..],
        b"ATE0\r\r\nOK\r\n",
        b"ATE0\r\nOK\r\n",
        b"\r\n+CPIN: READY\r\n\r\nOK\r\n",
        b"text without line end\r\nOK\r\n",
    ] {
        let mut scratch = [0u8; 512];
        let (_, outcome) =
            modem.send_and_wait_response(&Modem::disable_echo(), &mut scratch, incoming).unwrap();
        assert_eq!(outcome, Ok(()), "incoming {:?}", incoming);
    }
}
