#![allow(unused_imports)]
use can_flasher::cli::pit_diag::{ack_id, ack_timeout_message, acks, arm_result_line, parse_profile, Profile};
use can_flasher::protocol::CanFrame;

#[test]
fn parse_profile_accepts_ams_ecu_udv() {
        assert_eq!(parse_profile("ams").unwrap(), Profile::Ams);
        assert_eq!(parse_profile("ecu").unwrap(), Profile::Ecu);
        assert_eq!(parse_profile("udv").unwrap(), Profile::Udv);
    }

#[test]
fn parse_profile_rejects_unknown() {
        let err = parse_profile("xyz").unwrap_err().to_string();
        assert!(err.contains("xyz"), "message names the bad profile: {err}");
        assert!(parse_profile("").is_err());
    }


#[test]
fn arm_handshake_messages() {
    assert_eq!(ack_id(Profile::Ams), Some(0x7F1));
    assert_eq!(ack_id(Profile::Ecu), Some(0x7E1));
    assert_eq!(ack_id(Profile::Udv), None);
    let on = CanFrame::new(0x7F1, &[1]).unwrap();
    let off = CanFrame::new(0x7F1, &[0]).unwrap();
    assert!(acks(Profile::Ams, &on, true));
    assert!(!acks(Profile::Ams, &off, true));
    assert!(acks(Profile::Ams, &off, false));
    assert!(!acks(Profile::Ecu, &on, true));
    assert!(acks(Profile::Ecu, &CanFrame::new(0x7E1, &[1]).unwrap(), true));
    assert_eq!(
        ack_timeout_message(Profile::Ecu, false),
        "no disable ACK from ECU within 2000ms — is it on the bus, with pit-diag firmware?"
    );
    assert_eq!(arm_result_line(true, "ams", true), r#"{"profile":"ams","enabled":true}"#);
    assert_eq!(arm_result_line(false, "ecu", false), "✓ ecu pit-diag disarmed");
}
