use sim7020::at_command::at_cgatt::{GPRSServiceState, GPRSServiceStatus};
use sim7020::at_command::at_csq::SignalQualityReport;
use sim7020::at_command::mqtt::{
    MQTTError, MQTTMessage, MQTTSessionSettings, Mqtt, MqttStage,
};
use sim7020::at_command::receive::socket_reception::SocketDataReception;
use sim7020::at_command::receive::UnsolicitedMessage;
use sim7020::at_command::socket::SendSocketMessage;
use sim7020::at_command::{AtRequest, AtResponse};
use sim7020::AtError;

#[test]
fn attach_state_one_is_attached() {
    let data = b"\r\n+CGATT: 1\r\n\r\nOK\r\n";
    let response = GPRSServiceStatus.parse_response_struct(data).unwrap();
    assert_eq!(response.state, GPRSServiceState::Attached);
    match GPRSServiceStatus.parse_response(data).unwrap() {
        AtResponse::PacketDomainAttachmentState(state) => {
            assert_eq!(state, GPRSServiceState::Attached)
        }
        _ => panic!("unexpected response"),
    }
}

#[test]
fn attach_state_zero_is_detached_and_others_are_no_state() {
    let response = GPRSServiceStatus.parse_response_struct(b"\r\n+CGATT: 0\r\n\r\nOK\r\n").unwrap();
    assert_eq!(response.state, GPRSServiceState::Detached);
    assert_eq!(
        GPRSServiceStatus.parse_response_struct(b"\r\n+CGATT: 2\r\n\r\nOK\r\n").unwrap_err(),
        AtError::AtParseError
    );
}

#[test]
fn signal_quality_is_decoded() {
    let data = b"\r\n+CSQ: 24,0\r\n\r\nOK\r\n";
    assert_eq!(SignalQualityReport.parse_response_struct(data).unwrap(), (24, 0));
    match SignalQualityReport.parse_response(data).unwrap() {
        AtResponse::SignalQuality(strength, quality) => {
            assert_eq!((strength, quality), (24, 0));
        }
        _ => panic!("unexpected response"),
    }
}

#[test]
fn mqtt_create_yields_the_session_and_publish_needs_connect() {
    let settings = MQTTSessionSettings::new("broker.example", 1883);
    let reply = settings.parse_response(b"+CMQNEW: 3\r\nOK");
    match reply {
        Ok(AtResponse::MQTTSessionCreated(id)) => assert_eq!(id, 3),
        _ => panic!("unexpected response"),
    }
    let mqtt = Mqtt::new(&settings);
    assert!(mqtt.create_session_command().is_ok());
    let mqtt = mqtt.create_session(reply).unwrap();
    assert_eq!(mqtt.current_stage(), MqttStage::SessionCreated(3));
    let message = MQTTMessage {
        topic: "t",
        qos: 0,
        retained: false,
        dup: false,
        message: b"6869",
    };
    assert_eq!(mqtt.publish_command(&message).unwrap_err(), MQTTError::Disconnected);
    assert_eq!(mqtt.publish(Ok(AtResponse::Okay)).unwrap_err(), MQTTError::Disconnected);
}

#[test]
fn raw_bytes_travel_as_hex_and_come_back() {
    let payload = [0xDE, 0xAD, 0xBE, 0xEF];
    let command = SendSocketMessage { socket_id: 1, data: &payload };
    let mut buffer = [0u8; 512];
    let line = command.get_command(&mut buffer).unwrap();
    assert_eq!(line, b"AT+CSOSEND=1,8,deadbeef\r\n");
    let hex = &line[15..23];
    assert_eq!(hex, b"deadbeef");
    let mut push = b"+CSONMI: 1,8,".to_vec();
    push.extend_from_slice(hex);
    let received = SocketDataReception::decode(&push).unwrap();
    assert_eq!(received.data.as_slice(), &payload);
}
