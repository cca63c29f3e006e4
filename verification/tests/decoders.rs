use at_commands::parser::CommandParser;
use sim7020::at_command::at::At;
use sim7020::at_command::at_cpin::{EnterPIN, PINRequired, PinStatus};
use sim7020::at_command::battery::BatteryCharge;
use sim7020::at_command::cgcontrdp::PDPContextReadDynamicsParameters;
use sim7020::at_command::clock::Clock;
use sim7020::at_command::cmee::{ReportMobileEquipmentError, ReportMobileEquipmentErrorSetting};
use sim7020::at_command::csclk::{CSCLKMode, SetCSCLKMode};
use sim7020::at_command::flow_control::{ControlFlowStatus, GetFlowControl};
use sim7020::at_command::http::{CreateHttpSession, GetHttpSessions, HttpSessionState};
use sim7020::at_command::ip_address::LocalIPAddress;
use sim7020::at_command::model_identification::ModelIdentification;
use sim7020::at_command::mqtt::{GetMQTTSession, MQTTSessionSettings, UsedState};
use sim7020::at_command::network_information::{
    NetworkFormat, NetworkInformation, NetworkMode, NetworkOperator,
};
use sim7020::at_command::network_registration_status::{
    NetworkRegistrationStatus, UnsolicitedResultCodes,
};
use sim7020::at_command::pdp_context::{PDPContext, PDPState};
use sim7020::at_command::power_saving_mode::{
    GetPowerSavingMode, PowerSavingModeState, SetPowerSavingMode,
};
use sim7020::at_command::sleep_indication::{SleepIndication, SleepIndicationStatus};
use sim7020::at_command::socket::CreateSocket;
use sim7020::at_command::socket::{Domain, Protocol, Type};
use sim7020::at_command::{
    ends_in_acknowledgement, parse_int_pair_reply, parse_int_reply, parse_text_reply, to_handle,
    verify_acknowledged, verify_ok, AtRequest, AtResponse,
};
use sim7020::AtError;

#[test]
fn reply_shapes() {
    assert_eq!(parse_int_reply(b"+A: 5\r\nOK", "+A: ", "\r\nOK"), Ok(5));
    assert_eq!(parse_int_reply(b"+A: 5\r\nOK trailing", "+A: ", "\r\nOK"), Ok(5));
    assert_eq!(parse_int_reply(b"+A: \r\nOK", "+A: ", "\r\nOK"), Err(AtError::AtParseError));
    assert_eq!(parse_int_reply(b"+A: 5\r\nNO", "+A: ", "\r\nOK"), Err(AtError::AtParseError));
    assert_eq!(parse_int_pair_reply(b"+A: 5, -6\r\nOK", "+A: ", "\r\nOK"), Ok((5, -6)));
    assert_eq!(parse_int_pair_reply(b"+A: 5\r\nOK", "+A: ", "\r\nOK"), Err(AtError::AtParseError));
    assert_eq!(parse_text_reply(b"+A: some text\r\nOK", "+A: ", "\r\nOK"), Ok("some text"));
    assert_eq!(parse_text_reply(b"+A: \r\nOK", "+A: ", "\r\nOK"), Ok(""));
    assert_eq!(parse_text_reply(b"+B: x\r\nOK", "+A: ", "\r\nOK"), Err(AtError::AtParseError));
}

#[test]
fn reply_shapes_agree_with_the_parser_combinators() {
    let replies: [&[u8]; 6] = [
        b"\r\n+CSQ: 24,0\r\n\r\nOK\r\n",
        b"\r\n+CSQ: 24 , 0 \r\n\r\nOK\r\n",
        b"\r\n+CSQ: +24,-3\r\n\r\nOK\r\n",
        b"\r\n+CSQ: 24\r\n\r\nOK\r\n",
        b"\r\n+CSQ: ,0\r\n\r\nOK\r\n",
        b"+CSQ: 24,0\r\n\r\nOK\r\n",
    ];
    for reply in replies {
        let theirs = CommandParser::parse(reply)
            .expect_identifier(b"\r\n+CSQ: ")
            .expect_int_parameter()
            .expect_int_parameter()
            .expect_identifier(b"\r\n\r\nOK\r\n")
            .finish()
            .ok();
        let ours = parse_int_pair_reply(reply, "\r\n+CSQ: ", "\r\n\r\nOK\r\n").ok();
        assert_eq!(ours, theirs);
    }
    let texts: [&[u8]; 4] = [
        b"+CPIN: READY\r\n\r\nOK\r\n",
        b"+CPIN: SIM PIN\r\n\r\nOK\r\n",
        b"+CPIN\r\n\r\nOK\r\n",
        b"+CPIN: \r\n\r\nOK\r\n",
    ];
    for reply in texts {
        let theirs = CommandParser::parse(reply)
            .expect_identifier(b"+CPIN: ")
            .expect_raw_string()
            .expect_identifier(b"\r\n\r\nOK")
            .finish()
            .ok()
            .map(|t| t.0);
        let ours = parse_text_reply(reply, "+CPIN: ", "\r\n\r\nOK").ok();
        assert_eq!(ours, theirs);
    }
}

#[test]
fn acknowledgements() {
    assert_eq!(verify_ok(b"\r\nOK\r\n"), Ok(()));
    assert_eq!(verify_ok(b"OK"), Ok(()));
    assert_eq!(verify_ok(b" \t\r\nOK"), Ok(()));
    assert_eq!(verify_ok(b"\r\nERROR\r\n"), Err(AtError::AtParseError));
    assert_eq!(verify_ok(b""), Err(AtError::AtParseError));
    assert_eq!(SetCSCLKMode { mode: CSCLKMode::Disabled }.parse_response_struct(b"\r\nOK\r\n"), Ok(()));
    assert_eq!(
        SetCSCLKMode { mode: CSCLKMode::Disabled }.parse_response_struct(b"\r\nNO\r\n"),
        Err(AtError::AtParseError)
    );
    assert_eq!(EnterPIN { pin: 1 }.parse_response_struct(b"\r\nOK\r\n"), Ok(()));
    assert_eq!(EnterPIN { pin: 1 }.parse_response_struct(b"anything"), Err(AtError::AtParseError));
    assert!(matches!(EnterPIN { pin: 1 }.parse_response(b"anything"), Ok(AtResponse::Okay)));
}

#[test]
fn handles_are_the_low_byte() {
    assert_eq!(to_handle(0), 0);
    assert_eq!(to_handle(5), 5);
    assert_eq!(to_handle(255), 255);
    assert_eq!(to_handle(256), 0);
    assert_eq!(to_handle(300), 44);
    assert_eq!(to_handle(-1), 255);
    let command = CreateSocket {
        domain: Domain::IPv4,
        connection_type: Type::TCP,
        protocol: Protocol::IP,
        cid: None,
    };
    assert_eq!(command.parse_response_struct(b"+CSOC: 300\r\nOK").unwrap().socket_id, 44);
    assert_eq!(command.parse_response_struct(b"+CSOC: x\r\nOK"), Err(AtError::AtParseError));
    assert_eq!(command.parse_response_struct(b"+CSOC: 1\r\n"), Err(AtError::AtParseError));
}

#[test]
fn pin_states() {
    let texts = [
        ("READY", PinStatus::Ready),
        ("SIM PIN", PinStatus::SimPin),
        ("SIM PUK", PinStatus::SimPuk),
        ("PH_SIM PIN", PinStatus::PhSimPin),
        ("PH_SIM PUK", PinStatus::PhSimPuk),
        ("SIM PIN2", PinStatus::SimPin2),
        ("SIM PUK2", PinStatus::SimPuk2),
        ("PH-NET PIN", PinStatus::PhNetPin),
        ("PH-NETSUB PIN", PinStatus::PhNetsubPin),
        ("PH-SP PIN", PinStatus::PhSpPin),
        ("PH-CORP PIN", PinStatus::PhCorpPin),
        ("ready", PinStatus::Unkown),
        ("", PinStatus::Unkown),
    ];
    for (text, status) in texts {
        assert_eq!(PinStatus::from(text), status);
        let reply = format!("+CPIN: {}\r\n\r\nOK\r\n", text);
        assert_eq!(PINRequired.parse_response_struct(reply.as_bytes()), Ok(status));
    }
}

#[test]
fn registration() {
    let circuit = sim7020::at_command::at_creg::NetworkRegistration;
    let response = circuit.parse_response_struct(b"\r\n+CREG: 0,1\r\n\r\nOK\r\n").unwrap();
    assert_eq!(response.unsolicited_result, UnsolicitedResultCodes::Disabled);
    assert_eq!(response.status, NetworkRegistrationStatus::RegisteredHomeNetwork);
    assert!(matches!(
        circuit.parse_response(b"\r\n+CREG: 1,2\r\n\r\nOK\r\n"),
        Ok(AtResponse::NetworkRegistration(
            UnsolicitedResultCodes::Enabled,
            NetworkRegistrationStatus::NotRegisteredSearching
        ))
    ));
    assert_eq!(circuit.parse_response_struct(b"\r\n+CREG: 3,1\r\n\r\nOK\r\n").unwrap_err(), AtError::AtParseError);
    assert_eq!(circuit.parse_response_struct(b"\r\n+CREG: 0,8\r\n\r\nOK\r\n").unwrap_err(), AtError::AtParseError);
    let packet = sim7020::at_command::network_registration_status::NetworkRegistration;
    let response = packet.parse_response_struct(b"\r\n+CGREG: 2,5\r\n\r\nOK\r\n").unwrap();
    assert_eq!(response.unsolicited, UnsolicitedResultCodes::EnabledVerbose);
    assert_eq!(response.status, NetworkRegistrationStatus::RegisteredRoaming);
    assert!(matches!(
        packet.parse_response(b"\r\n+CGREG: 0,7\r\n\r\nOK\r\n"),
        Ok(AtResponse::NetworkRegistrationStatus(
            UnsolicitedResultCodes::Disabled,
            NetworkRegistrationStatus::SMSOnlyRoaming
        ))
    ));
    for (code, status) in [
        (0, NetworkRegistrationStatus::NotRegistered),
        (3, NetworkRegistrationStatus::RegistrationDenied),
        (4, NetworkRegistrationStatus::Unknown),
        (6, NetworkRegistrationStatus::SMSOnlyHome),
    ] {
        assert_eq!(NetworkRegistrationStatus::from_code(code), Some(status));
        assert_eq!(status.code(), code);
    }
    assert_eq!(NetworkRegistrationStatus::from_code(-1), None);
}

#[test]
fn battery_and_error_reporting() {
    let status = BatteryCharge.parse_response_struct(b"\r\n+CBC: 87,3987\r\n\r\nOK\r\n").unwrap();
    assert_eq!((status.capacity_percent, status.voltage_millivolt), (87, 3987));
    assert!(matches!(
        BatteryCharge.parse_response(b"\r\n+CBC: 1,2\r\n\r\nOK\r\n"),
        Ok(AtResponse::BatteryCharge(_))
    ));
    assert_eq!(
        ReportMobileEquipmentError.parse_response_struct(b"\r\n+CMEE: 2\r\n\r\nOK\r\n"),
        Ok(ReportMobileEquipmentErrorSetting::EnabledVerbose)
    );
    assert_eq!(
        ReportMobileEquipmentError.parse_response_struct(b"\r\n+CMEE: 1\r\n\r\nOK\r\n"),
        Ok(ReportMobileEquipmentErrorSetting::Numeric)
    );
    assert_eq!(
        ReportMobileEquipmentError.parse_response_struct(b"\r\n+CMEE: 3\r\n\r\nOK\r\n"),
        Err(AtError::AtParseError)
    );
    assert_eq!(
        ReportMobileEquipmentError.parse_response_struct(b"\r\n+CMEE: 2\r\n\r\nOK\r"),
        Err(AtError::AtParseError)
    );
    assert!(matches!(
        ReportMobileEquipmentError.parse_response(b"\r\n+CMEE: 7\r\n\r\nOK\r\n"),
        Ok(AtResponse::ReportMobileEquipmentErrorSetting(7))
    ));
}

#[test]
fn power_saving_and_sleep_indication() {
    assert_eq!(
        GetPowerSavingMode.parse_response_struct(b"\r\n+CPSMS: 1\r\n\r\nOK\r\n"),
        Ok(PowerSavingModeState::Enabled)
    );
    assert_eq!(
        GetPowerSavingMode.parse_response_struct(b"\r\n+CPSMS: 3\r\n\r\nOK\r\n"),
        Err(AtError::AtParseError)
    );
    assert_eq!(
        SetPowerSavingMode.parse_response_struct(b"\r\n+CPSMS: 2,9\r\n\r\nOK\r\n"),
        Ok(PowerSavingModeState::Discard)
    );
    assert_eq!(
        SetPowerSavingMode.parse_response_struct(b"\r\n+CPSMS: 0\r\n\r\nOK\r\n"),
        Err(AtError::AtParseError)
    );
    assert!(matches!(
        GetPowerSavingMode.parse_response(b"\r\n+CPSMS: 0\r\n\r\nOK\r\n"),
        Ok(AtResponse::PowerSavingMode(PowerSavingModeState::Disabled))
    ));
    assert_eq!(
        SleepIndicationStatus.parse_response_struct(b"\r\n+CPSMSTATUS: 1\r\n\r\nOK\r\n"),
        Ok(SleepIndication::Enabled)
    );
    assert!(matches!(
        SleepIndicationStatus.parse_response(b"\r\n+CPSMSTATUS: 0\r\n\r\nOK\r\n"),
        Ok(AtResponse::SleepIndication(SleepIndication::Disabled))
    ));
}

#[test]
fn flow_control() {
    let response = GetFlowControl.parse_response_struct(b"\r\n+IFC: 1,2\r\n\r\nOK\r\n").unwrap();
    assert_eq!(response.dce_by_dte, ControlFlowStatus::Software);
    assert_eq!(response.dte_by_dce, ControlFlowStatus::Hardware);
    let echoed = GetFlowControl.parse_response_struct(b"AT+IFC?\r\r\n+IFC: 0,0\r\n\r\nOK\r\n").unwrap();
    assert_eq!(echoed.dce_by_dte, ControlFlowStatus::No);
    assert_eq!(echoed.dte_by_dce, ControlFlowStatus::No);
    assert_eq!(
        GetFlowControl.parse_response_struct(b"\r\n+IFC: 1,3\r\n\r\nOK\r\n").unwrap_err(),
        AtError::AtParseError
    );
    assert!(matches!(
        GetFlowControl.parse_response(b"\r\n+IFC: 2,1\r\n\r\nOK\r\n"),
        Ok(AtResponse::ControlFlow(ControlFlowStatus::Hardware, ControlFlowStatus::Software))
    ));
    assert_eq!(ControlFlowStatus::No.to_int(), 0);
    assert_eq!(ControlFlowStatus::Software.to_int(), 1);
    assert_eq!(ControlFlowStatus::Hardware.to_int(), 2);
}

#[test]
fn packet_data_context() {
    assert_eq!(PDPContext.parse_response_struct(b"\r\nOK\r\n"), Ok(None));
    assert_eq!(
        PDPContext.parse_response_struct(b"\r\n+CGACT: 1,1\r\n\r\nOK\r\n"),
        Ok(Some((PDPState::Activated, 1)))
    );
    assert_eq!(
        PDPContext.parse_response_struct(b"\r\n+CGACT: 0,3\r\n\r\nOK\r\n"),
        Ok(Some((PDPState::Deactivated, 3)))
    );
    assert_eq!(
        PDPContext.parse_response_struct(b"\r\n+CGACT: 2,1\r\n\r\nOK\r\n"),
        Err(AtError::AtParseError)
    );
    assert!(matches!(PDPContext.parse_response(b"\r\nOK\r\n"), Ok(AtResponse::PDPContext(None))));
}

#[test]
fn model_name() {
    let response = ModelIdentification {}.parse_response_struct(b"\r\nSIM7020E\r\n\r\nOK\r\n").unwrap();
    assert_eq!(&response.model, b"SIM7020E");
    let short = ModelIdentification {}.parse_response_struct(b"\r\nSIM800\r\n\r\nOK\r\n").unwrap();
    assert_eq!(&short.model, b"SIM800\0\0");
    assert_eq!(
        ModelIdentification {}.parse_response_struct(b"\r\nSIM7020EX\r\n\r\nOK\r\n").unwrap_err(),
        AtError::CapacityError
    );
    assert!(matches!(
        ModelIdentification {}.parse_response(b"\r\nM\r\n\r\nOK\r\n"),
        Ok(AtResponse::ModelIdentifier([b'M', 0, 0, 0, 0, 0, 0, 0]))
    ));
}

#[test]
fn operator() {
    let state = NetworkInformation
        .parse_response_struct(b"\r\n+COPS: 0,2,\"21401\",9\r\n\r\nOK\r\n")
        .unwrap();
    assert_eq!(state.mode, NetworkMode::Automatic);
    assert_eq!(state.format, NetworkFormat::Numeric);
    assert_eq!(state.operator.unwrap().as_str(), "21401");
    let bare = NetworkInformation.parse_response_struct(b"\r\n+COPS: 1\r\n\r\nOK\r\n").unwrap();
    assert_eq!(bare.mode, NetworkMode::Manual);
    assert_eq!(bare.format, NetworkFormat::Unknown);
    assert!(bare.operator.is_none());
    assert_eq!(
        NetworkInformation
            .parse_response_struct(b"\r\n+COPS: 0,0,\"a name of 17 byte\"\r\n\r\nOK\r\n")
            .unwrap_err(),
        AtError::CapacityError
    );
    assert!(NetworkInformation
        .parse_response_struct(b"\r\n+COPS: 0,0,\"a name of 16 byt\"\r\n\r\nOK\r\n")
        .is_ok());
    assert_eq!(
        NetworkInformation.parse_response_struct(b"\r\n+COPS: 2\r\n\r\nOK\r\n").unwrap_err(),
        AtError::AtParseError
    );
    assert_eq!(
        NetworkInformation.parse_response_struct(b"\r\n+COPS: 0,3\r\n\r\nOK\r\n").unwrap_err(),
        AtError::AtParseError
    );
    match NetworkInformation.parse_response(b"\r\n+COPS: 0,1,\"Long Operator Name\"\r\n\r\nOK\r\n") {
        Ok(AtResponse::NetworkInformationState(mode, format, Some(operator))) => {
            assert_eq!(mode, NetworkMode::Automatic);
            assert_eq!(format, NetworkFormat::ShortAlphanumeric);
            assert_eq!(operator, NetworkOperator(*b"Long Opera"));
        }
        _ => panic!("unexpected response"),
    }
    assert_eq!(NetworkOperator::from_text("abc"), NetworkOperator(*b"abc\0\0\0\0\0\0\0"));
    assert_eq!(NetworkFormat::from_code(0), Some(NetworkFormat::LongAlphanumeric));
    assert_eq!(NetworkFormat::from_field(None), Some(NetworkFormat::Unknown));
    assert_eq!(NetworkFormat::from_field(Some(9)), None);
}

#[test]
fn local_address() {
    let response = LocalIPAddress.parse_response_struct(b"\r\n+CIFSR: 10.0.0.1\r\n\r\nOK\r\n").unwrap();
    assert_eq!(response.ip.as_str(), "10.0.0.1");
    let longest = "2001:0db8:0000:0000:0000:ff00:0042:8329";
    assert_eq!(longest.len(), 39);
    let reply = format!("\r\n+CIFSR: {}\r\n\r\nOK\r\n", longest);
    assert_eq!(LocalIPAddress.parse_response_struct(reply.as_bytes()).unwrap().ip.as_str(), longest);
    let reply = format!("\r\n+CIFSR: {}0\r\n\r\nOK\r\n", longest);
    assert_eq!(LocalIPAddress.parse_response_struct(reply.as_bytes()).unwrap_err(), AtError::CapacityError);
    assert!(matches!(
        LocalIPAddress.parse_response(b"\r\n+CIFSR: 167772161\r\n\r\nOK\r\n"),
        Ok(AtResponse::LocalIPAddress(167772161))
    ));
    assert!(LocalIPAddress.parse_response(b"\r\n+CIFSR: 10.0.0.1\r\n\r\nOK\r\n").is_err());
}

#[test]
fn clock() {
    let reply = b"\r\n+CCLK: 00/01/01,00:07:50+32\r\n\r\nOK\r\n";
    assert_eq!(Clock {}.parse_response_struct(reply), Ok(946685270));
    assert!(matches!(Clock {}.parse_response(reply), Ok(AtResponse::NTPTimestamp(946685270))));
    assert_eq!(
        Clock {}.parse_response_struct(b"\r\n+CCLK: 24/02/29,12:00:00+00\r\n\r\nOK\r\n"),
        Ok(1709208000)
    );
    assert_eq!(
        Clock {}.parse_response_struct(b"\r\n+CCLK: 23/02/29,12:00:00+00\r\n\r\nOK\r\n"),
        Err(AtError::ParseClockError)
    );
    assert_eq!(
        Clock {}.parse_response_struct(b"\r\n+CCLK: 00/01/01,00:07\r\n\r\nOK\r\n"),
        Err(AtError::ParseClockError)
    );
    assert_eq!(
        Clock {}.parse_response_struct(b"\r\n+CCLK: not a date at all\r\n\r\nOK\r\n"),
        Err(AtError::ParseClockError)
    );
    assert_eq!(
        Clock {}.parse_response_struct("\r\n+CCLK: 00/01/01,00:07:5\u{fc}\r\n\r\nOK\r\n".as_bytes()),
        Err(AtError::ParseClockError)
    );
    assert_eq!(Clock {}.parse_response_struct(b"\r\n+CCLK\r\n\r\nOK\r\n"), Err(AtError::AtParseError));
}

#[test]
fn dynamic_parameters() {
    let command = PDPContextReadDynamicsParameters;
    assert!(command.parse_response_struct(b"\r\nOK\r\n").unwrap().is_none());
    assert!(matches!(command.parse_response(b"\r\nOK\r\n"), Ok(AtResponse::Okay)));
    let reply = b"\r\n+CGCONTRDP: 1,5,\"iot.apn\",\"10.0.0.2.255.255.255.0\",\"10.0.0.1\",\"8.8.8.8\",\"8.8.4.4\",1500,,3\r\n\r\nOK\r\n";
    let response = command.parse_response_struct(reply).unwrap().unwrap();
    assert_eq!(response.cid, 1);
    assert_eq!(response.bearer_id, 5);
    assert_eq!(response.apn.as_str(), "iot.apn");
    assert_eq!(response.local_address_and_subnet_mask.unwrap().as_str(), "10.0.0.2.255.255.255.0");
    assert_eq!(response.gateway_address.unwrap().as_str(), "10.0.0.1");
    assert_eq!(response.primary_dns_address.unwrap().as_str(), "8.8.8.8");
    assert_eq!(response.secondary_dns_address.unwrap().as_str(), "8.8.4.4");
    assert_eq!(response.ipv4_mtu, Some(1500));
    assert_eq!(response.non_ip_mtu, None);
    assert_eq!(response.serving_plmn_rate_control_value, Some(3));
    let least = command.parse_response_struct(b"\r\n+CGCONTRDP: 2,6,\"apn\"\r\n\r\nOK\r\n").unwrap().unwrap();
    assert_eq!((least.cid, least.bearer_id), (2, 6));
    assert_eq!(least.apn.as_str(), "apn");
    assert!(least.local_address_and_subnet_mask.is_none());
    assert!(least.gateway_address.is_none());
    assert!(least.primary_dns_address.is_none());
    assert!(least.secondary_dns_address.is_none());
    assert!(least.ipv4_mtu.is_none() && least.non_ip_mtu.is_none());
    assert_eq!(
        command.parse_response_struct(b"\r\n+CGCONTRDP: 2,6\r\n\r\nOK\r\n").unwrap_err(),
        AtError::AtParseError
    );
    let long_dns = format!(
        "\r\n+CGCONTRDP: 1,5,\"a\",\"l\",\"g\",\"{}\"\r\n",
        "d".repeat(129)
    );
    assert_eq!(command.parse_response_struct(long_dns.as_bytes()).unwrap_err(), AtError::CapacityError);
    let long_apn = format!("\r\n+CGCONTRDP: 1,5,\"{}\"\r\n", "a".repeat(256));
    assert_eq!(command.parse_response_struct(long_apn.as_bytes()).unwrap_err(), AtError::CapacityError);
    assert!(matches!(
        command.parse_response(b"\r\n+CGCONTRDP: 1,5,\"apn\",\"10.0.0.2\"\r\n\r\nOK\r\n"),
        Ok(AtResponse::PDPContextDynamicParameters(1, 5))
    ));
    assert!(command.parse_response(b"\r\n+CGCONTRDP: 1,5,\"apn\"\r\n\r\nOK\r\n").is_err());
}

#[test]
fn http_sessions() {
    let reply = b"\r\n+CHTTPCREATE: 0,1,http://a/\r\n+CHTTPCREATE: 1,0,(null)\r\n+CHTTPCREATE: 2,0,(null)\r\n+CHTTPCREATE: 3,1,https://b/\r\n\r\nOK\r\n";
    let sessions = GetHttpSessions {}.parse_response_struct(reply).unwrap();
    assert_eq!(sessions[0].http_client_id, 0);
    assert_eq!(sessions[0].state, HttpSessionState::Sucessfully);
    assert_eq!(sessions[0].host.as_str(), "http://a/");
    assert_eq!(sessions[1].http_client_id, 1);
    assert_eq!(sessions[1].state, HttpSessionState::Failed);
    assert_eq!(sessions[1].host.as_str(), "(null)");
    assert_eq!(sessions[2].http_client_id, 2);
    assert_eq!(sessions[3].http_client_id, 3);
    assert_eq!(sessions[3].state, HttpSessionState::Sucessfully);
    assert_eq!(sessions[3].host.as_str(), "https://b/");
    assert!(matches!(
        GetHttpSessions {}.parse_response(reply),
        Ok(AtResponse::HttpSessions(0, true, 1, false, 2, false, 3, true))
    ));
    let three = b"\r\n+CHTTPCREATE: 0,1,a\r\n+CHTTPCREATE: 1,0,b\r\n+CHTTPCREATE: 2,0,c\r\n\r\nOK\r\n";
    assert_eq!(GetHttpSessions {}.parse_response_struct(three).unwrap_err(), AtError::AtParseError);
    let bad_state = b"\r\n+CHTTPCREATE: 0,1,a\r\n+CHTTPCREATE: 1,2,b\r\n+CHTTPCREATE: 2,0,c\r\n+CHTTPCREATE: 3,0,d\r\n";
    assert_eq!(GetHttpSessions {}.parse_response_struct(bad_state).unwrap_err(), AtError::AtParseError);
    let long_host = format!(
        "\r\n+CHTTPCREATE: 0,1,{}\r\n+CHTTPCREATE: 1,0,b\r\n+CHTTPCREATE: 2,0,c\r\n+CHTTPCREATE: 3,0,d\r\n",
        "h".repeat(256)
    );
    assert_eq!(
        GetHttpSessions {}.parse_response_struct(long_host.as_bytes()).unwrap_err(),
        AtError::CapacityError
    );
    let create = CreateHttpSession { host: "h", user: None, password: None };
    assert_eq!(create.parse_response_struct(b"\r\n+CHTTPCREATE: 0\r\n\r\nOK\r\n").unwrap().client_id, 0);
    assert!(matches!(
        create.parse_response(b"\r\n+CHTTPCREATE: 4\r\n\r\nOK\r\n"),
        Ok(AtResponse::HTTPSessionCreated(4))
    ));
}

#[test]
fn mqtt_sessions() {
    let settings = MQTTSessionSettings::new("broker", 1883);
    assert_eq!(settings.parse_response_struct(b"\r\n+CMQNEW: 0\r\n\r\nOK\r\n"), Ok(0));
    assert_eq!(settings.parse_response_struct(b"+CMQNEW: 3\r\nOK"), Ok(3));
    assert_eq!(settings.parse_response_struct(b"\r\nOK\r\n"), Err(AtError::AtParseError));
    match (GetMQTTSession {}).parse_response(b"\r\n+CMQNEW: 0,1,broker.example\r\n\r\nOK\r\n") {
        Ok(AtResponse::MQTTSession(id, used, server)) => {
            assert_eq!(id, 0);
            assert_eq!(used, UsedState::Used);
            assert_eq!(&server[..14], b"broker.example");
            assert!(server[14..].iter().all(|b| *b == 0));
        }
        _ => panic!("unexpected response"),
    }
    let (id, used, server) = (GetMQTTSession {})
        .parse_response_struct(b"\r\n+CMQNEW: 1,0,(null)\r\n\r\nOK\r\n")
        .unwrap();
    assert_eq!((id, used), (1, UsedState::NotUsed));
    assert_eq!(&server[..6], b"(null)");
    let long = format!("\r\n+CMQNEW: 1,1,{}\r\n\r\nOK\r\n", "s".repeat(60));
    let (_, _, server) = (GetMQTTSession {}).parse_response_struct(long.as_bytes()).unwrap();
    assert_eq!(server, [b's'; 50]);
    assert_eq!(
        (GetMQTTSession {}).parse_response_struct(b"\r\n+CMQNEW: 1,2,x\r\n\r\nOK\r\n").unwrap_err(),
        AtError::AtParseError
    );
}

#[test]
fn startup_reply_of_the_probe() {
    let reply = b"AT\r\r\n+MATREADY\r\n\r\n+CFUN: 1\r\nAT\r\r\nOK\r\n";
    assert!(matches!(At {}.parse_response(reply), Ok(AtResponse::Okay)));
    assert!(At {}.parse_response(b"\r\nOK\r\n").is_err());
    assert_eq!(At {}.parse_response_struct(b"\r\nOK\r\n"), Ok(()));
}

#[test]
fn field_grammar_agrees_with_the_parser_combinators() {
    let replies: [&[u8]; 5] = [
        b"\r\n+COPS: 0,2,\"21401\",9\r\n\r\nOK\r\n",
        b"\r\n+COPS: 0\r\n\r\nOK\r\n",
        b"\r\n+COPS: 1, 0, \"Operator\" , 7\r\n\r\nOK\r\n",
        b"\r\n+COPS: 0,2,\"21401\"\r\n\r\nOK\r\n",
        b"\r\n+COPS: \r\n\r\nOK\r\n",
    ];
    for reply in replies {
        let theirs = CommandParser::parse(reply)
            .expect_identifier(b"\r\n+COPS: ")
            .expect_int_parameter()
            .expect_optional_int_parameter()
            .expect_optional_string_parameter()
            .expect_optional_int_parameter()
            .expect_identifier(b"\r\n\r\nOK")
            .finish()
            .ok();
        let ours = NetworkInformation.parse_response_struct(reply).ok();
        match (ours, theirs) {
            (Some(state), Some((mode, format, operator, _))) => {
                assert_eq!(state.mode.code(), mode);
                assert_eq!(state.format, NetworkFormat::from_field(format).unwrap());
                assert_eq!(state.operator.as_ref().map(|name| name.as_str()), operator);
            }
            (None, None) => {}
            _ => panic!("the two readings differ"),
        }
    }
}

#[test]
fn a_reply_ends_in_the_acknowledgement_where_its_last_line_is_ok() {
    for reply in [
        &b"OK"[..],
        b"\r\nOK\r\n",
        b"\r\nOK\r",
        b"\nOK",
        b"OK \t\r\n\x0c",
        b"\r\n+CEER: No cause information available\r\n\r\nOK\r\n",
        b"\r\nSIM7020E\r\n\r\nOK\r\n",
        b"+CSTT: \"CMNET\",\"\",\"\"\r\n\r\nOK\r\n",
        b"\r\n\r\nOK\r\n\r\nOK\r\n",
    ] {
        assert!(ends_in_acknowledgement(reply), "reply {:?}", reply);
        assert_eq!(verify_acknowledged(reply), Ok(()));
    }
}

#[test]
fn a_reply_without_a_last_line_ok_is_not_acknowledged() {
    for reply in [
        &b""[..],
        b"O",
        b"K",
        b"\r\n",
        b"anything",
        b"\r\nERROR\r\n",
        b"\r\nOK\r\nERROR\r\n",
        b"\r\nOK\r\n+CSONMI: 1,2,ab",
        b"\r\n+CEER: LOOK\r\n",
        b"xOK\r\n",
        b" OK\r\n",
        b"\r\nok\r\n",
        b"\r\nOK.\r\n",
        b"\r\nO K\r\n",
        b"\r\nOK\x0b",
    ] {
        assert!(!ends_in_acknowledgement(reply), "reply {:?}", reply);
        assert_eq!(verify_acknowledged(reply), Err(AtError::AtParseError));
    }
}
