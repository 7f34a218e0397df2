use ajour::metadata::Metadata;
use ajour::protocol::{Status, UpdateStatus};
use ajour::status::{
    format_progress, plain, same_state, update_status, Condition, ConditionStatus, Conditions,
    FirmwareStatus,
};
use ajour::text::{concat2, push_decimal, str_eq, text_or_else};

fn condition<'a>(status: &'a FirmwareStatus, kind: &str) -> Option<&'a ConditionStatus> {
    status.conditions.0.iter().find(|c| c.kind == kind).map(|c| &c.status)
}

fn metadata() -> Metadata {
    Metadata { version: b"1.2.3".to_vec(), checksum: String::new(), size: 200 }
}

#[test]
fn status_merge() {
    // the device has been sent the first 64 bytes and reports them
    let status = Status {
        version: b"1.0.0".to_vec(),
        correlation_id: None,
        mtu: Some(64),
        update: Some(UpdateStatus { version: b"1.2.3".to_vec(), offset: 64 }),
    };
    let mut fw = FirmwareStatus::default();
    update_status(&mut fw, &status, Ok(&metadata()));
    assert_eq!(fw.current, "1.0.0");
    assert_eq!(fw.target, "1.2.3");
    assert_eq!(condition(&fw, "InSync").unwrap().status, Some(false));
    let message = condition(&fw, "UpdateProgress").unwrap().message.clone().unwrap();
    assert_eq!(message, "32.00");
    let progress: f64 = message.parse().unwrap();
    assert!((progress - 100.0 * 64.0 / 200.0).abs() < 0.005);
}

#[test]
fn in_sync_clears_other_conditions() {
    let status = Status { version: b"1.2.3".to_vec(), correlation_id: None, mtu: None, update: None };
    let mut fw = FirmwareStatus {
        conditions: Conditions(vec![
            Condition { kind: "UpdateProgress".to_string(), status: plain(false), since: Some("t1".to_string()) },
            Condition { kind: "InSync".to_string(), status: plain(false), since: Some("t2".to_string()) },
        ]),
        current: "0".to_string(),
        target: "0".to_string(),
    };
    update_status(&mut fw, &status, Ok(&metadata()));
    assert_eq!(
        fw,
        FirmwareStatus {
            conditions: Conditions(vec![Condition { kind: "InSync".to_string(), status: plain(true), since: None }]),
            current: "1.2.3".to_string(),
            target: "1.2.3".to_string(),
        }
    );
}

#[test]
fn out_of_sync_keeps_other_conditions() {
    let status = Status { version: b"1.0.0".to_vec(), correlation_id: None, mtu: None, update: None };
    let other = Condition { kind: "Ready".to_string(), status: plain(true), since: Some("t0".to_string()) };
    let mut fw = FirmwareStatus {
        conditions: Conditions(vec![
            other.clone(),
            Condition { kind: "InSync".to_string(), status: plain(true), since: Some("t1".to_string()) },
        ]),
        current: String::new(),
        target: String::new(),
    };
    update_status(&mut fw, &status, Ok(&metadata()));
    assert_eq!(
        fw.conditions,
        Conditions(vec![other, Condition { kind: "InSync".to_string(), status: plain(false), since: None }])
    );
    assert!(condition(&fw, "UpdateProgress").is_none());
}

#[test]
fn store_error_is_recorded() {
    let status = Status { version: b"1.0.0".to_vec(), correlation_id: None, mtu: None, update: None };
    let mut fw = FirmwareStatus {
        conditions: Conditions(vec![Condition { kind: "UpdateProgress".to_string(), status: plain(true), since: Some("t1".to_string()) }]),
        current: String::new(),
        target: "1.2.3".to_string(),
    };
    update_status(&mut fw, &status, Err("registry unreachable".to_string()));
    assert_eq!(
        fw,
        FirmwareStatus {
            conditions: Conditions(vec![Condition {
                kind: "InSync".to_string(),
                status: ConditionStatus {
                    status: Some(false),
                    reason: Some("registry unreachable".to_string()),
                    message: Some("Error retrieving firmware metadata".to_string()),
                },
                since: None,
            }]),
            current: "1.0.0".to_string(),
            target: "Unknown".to_string(),
        }
    );
}

#[test]
fn versions_that_are_no_text_are_unknown() {
    let status = Status { version: vec![0xff, 0xfe], correlation_id: None, mtu: None, update: None };
    let mut fw = FirmwareStatus::default();
    let md = Metadata { version: vec![0xc0], checksum: String::new(), size: 1 };
    update_status(&mut fw, &status, Ok(&md));
    assert_eq!(fw.current, "Unknown");
    assert_eq!(fw.target, "Unknown");
    assert_eq!(text_or_else(b"caf\xc3\xa9", "Unknown"), "café");
    assert_eq!(text_or_else(b"\xc3", "Unknown"), "Unknown");
    assert_eq!(text_or_else(b"", "Unknown"), "");
}

#[test]
fn progress_has_two_decimal_places() {
    assert_eq!(format_progress(64, 200), "32.00");
    assert_eq!(format_progress(0, 200), "0.00");
    assert_eq!(format_progress(200, 200), "100.00");
    assert_eq!(format_progress(1, 3), "33.33");
    assert_eq!(format_progress(2, 3), "66.67");
    assert_eq!(format_progress(1, 200), "0.50");
    assert_eq!(format_progress(1, 16), "6.25");
    assert_eq!(format_progress(1, 10000), "0.01");
    assert_eq!(format_progress(1, 20000), "0.01");
    assert_eq!(format_progress(1, 20001), "0.00");
    assert_eq!(format_progress(300, 200), "150.00");
    assert_eq!(format_progress(u32::MAX, 1), "429496729500.00");
    assert_eq!(format_progress(0, 0), "NaN");
    assert_eq!(format_progress(5, 0), "inf");
}

#[test]
fn conditions_hold_one_of_each_kind() {
    let mut c = Conditions::new();
    assert_eq!(c, Conditions(vec![]));
    c.update("A", plain(true));
    c.update("B", plain(true));
    c.update("A", plain(false));
    assert_eq!(
        c,
        Conditions(vec![
            Condition { kind: "A".to_string(), status: plain(false), since: None },
            Condition { kind: "B".to_string(), status: plain(true), since: None },
        ])
    );
    c.clear();
    assert_eq!(c, Conditions(vec![]));
    assert_eq!(plain(true), ConditionStatus { status: Some(true), reason: None, message: None });
}

#[test]
fn a_condition_keeps_its_time_until_it_turns() {
    let at = |kind: &str, status: ConditionStatus, since: Option<&str>| Condition {
        kind: kind.to_string(),
        status,
        since: since.map(|t| t.to_string()),
    };
    let mut c = Conditions(vec![
        at("InSync", plain(false), Some("t1")),
        at("UpdateProgress", ConditionStatus { status: None, reason: None, message: Some("1.00".to_string()) }, Some("t2")),
    ]);
    // the same state again, with another message: the time stays
    let progress = ConditionStatus { status: None, reason: None, message: Some("2.00".to_string()) };
    c.update("UpdateProgress", progress.clone());
    c.update("InSync", plain(false));
    assert_eq!(
        c,
        Conditions(vec![at("InSync", plain(false), Some("t1")), at("UpdateProgress", progress.clone(), Some("t2"))])
    );
    // another state: the time is to be set anew
    c.update("InSync", plain(true));
    c.update("UpdateProgress", plain(false));
    assert_eq!(
        c,
        Conditions(vec![at("InSync", plain(true), None), at("UpdateProgress", plain(false), None)])
    );
    // a condition that was cleared is new, whatever it said before
    let mut c = Conditions(vec![at("InSync", plain(true), Some("t1"))]);
    c.clear();
    c.update("InSync", plain(true));
    assert_eq!(c, Conditions(vec![at("InSync", plain(true), None)]));
    // so a device that stays behind keeps the time of `InSync`, and one that
    // stays in sync does not
    let metadata = metadata();
    let behind = Status { version: b"1.0.0".to_vec(), correlation_id: None, mtu: None, update: None };
    let mut fw = FirmwareStatus {
        conditions: Conditions(vec![at("InSync", plain(false), Some("t1"))]),
        current: String::new(),
        target: String::new(),
    };
    update_status(&mut fw, &behind, Ok(&metadata));
    assert_eq!(fw.conditions, Conditions(vec![at("InSync", plain(false), Some("t1"))]));
    let level = Status { version: b"1.2.3".to_vec(), correlation_id: None, mtu: None, update: None };
    let mut fw = FirmwareStatus {
        conditions: Conditions(vec![at("InSync", plain(true), Some("t1"))]),
        current: String::new(),
        target: String::new(),
    };
    update_status(&mut fw, &level, Ok(&metadata));
    assert_eq!(fw.conditions, Conditions(vec![at("InSync", plain(true), None)]));
    assert!(same_state(None, None) && same_state(Some(true), Some(true)));
    assert!(!same_state(None, Some(false)) && !same_state(Some(true), Some(false)));
}

#[test]
fn text_helpers() {
    assert!(str_eq("dfu", "dfu"));
    assert!(!str_eq("dfu", "dfU"));
    assert!(!str_eq("dfu", "df"));
    assert!(str_eq("", ""));
    assert_eq!(concat2("app-", "x"), "app-x");
    let mut out = String::from("n=");
    push_decimal(&mut out, 0);
    push_decimal(&mut out, 907);
    push_decimal(&mut out, u64::MAX);
    assert_eq!(out, "n=090718446744073709551615");
}
