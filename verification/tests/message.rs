use nodemcu_collector::message::{parse_from_string, MessageType, NetworkMsg};

/// The elapsed seconds of a message; `-1.0` where the line gave none that
/// reads as a number.
fn seconds(m: &NetworkMsg) -> f32 {
    match &m.time {
        Some(text) => text.parse::<f32>().unwrap_or(-1.0),
        None => -1.0,
    }
}

fn field(m: &NetworkMsg, name: &str) -> String {
    m.msg.mvals.get(name).unwrap().clone()
}

#[test]
fn test_parse_msgs() {
    let msg0 = String::from("");
    let n0 = parse_from_string(msg0);
    assert_eq!(n0.host, String::from(""));
    assert_eq!(seconds(&n0), -1.0);
    assert_eq!(n0.msg.mtype, MessageType::UnknownMessage);
    assert!(n0.msg.mvals.is_empty());

    let msg1 = String::from("ESP_D427A9: [2.89900] UP: 1.0:May 14 2017 01:34:24@192.168.1.29");
    let n1 = parse_from_string(msg1);
    assert_eq!(n1.host, String::from("ESP_D427A9"));
    assert_eq!(seconds(&n1), 2.899);
    assert_eq!(n1.msg.mtype, MessageType::NodeUp);
    assert_eq!(field(&n1, "version"), String::from("1.0"));
    assert_eq!(field(&n1, "builddate"), String::from("May 14 2017 01:34:24"));
    assert_eq!(field(&n1, "ip_addr"), String::from("192.168.1.29"));

    let msg2 = String::from("ESP_D427A9: [11.06000] AC:push: Code 200");
    let n2 = parse_from_string(msg2);
    assert_eq!(n2.host, String::from("ESP_D427A9"));
    assert_eq!(seconds(&n2), 11.06);
    assert_eq!(n2.msg.mtype, MessageType::AirCasting);
    assert_eq!(field(&n2, "command"), String::from("push"));
    assert_eq!(field(&n2, "http_code"), String::from("200"));

    let msg3 = String::from("ESP_D427A9: [11.06500] NTP: 2017-05-26T15:27:53.000+01:00 PM2.5: 12 UUID:d687fe3f-2d30-352d-0c21-ff3f2cea2040 sent:1");
    let n3 = parse_from_string(msg3);
    assert_eq!(n3.host, String::from("ESP_D427A9"));
    assert_eq!(seconds(&n3), 11.065);
    assert_eq!(n3.msg.mtype, MessageType::Ntp);
    assert_eq!(field(&n3, "datetime"), String::from("2017-05-26T15:27:53.000+01:00"));
    assert_eq!(field(&n3, "pm2.5"), String::from("12"));
    assert_eq!(field(&n3, "UUID"), String::from("d687fe3f-2d30-352d-0c21-ff3f2cea2040"));
    assert_eq!(field(&n3, "sent"), String::from("1"));

    let msg4 = String::from("ESP_D427A9: [11.15300] Loop: deepSleep: nextInterval=288.93; executionTime=11.07 ; slowDownFactor=1.04365; deepSleep(301.54)");
    let n4 = parse_from_string(msg4);
    assert_eq!(n4.host, String::from("ESP_D427A9"));
    assert_eq!(seconds(&n4), 11.153);
    assert_eq!(n4.msg.mtype, MessageType::Loop);
    assert_eq!(field(&n4, "action"), String::from("deepsleep"));
    assert_eq!(field(&n4, "slowdownfactor"), String::from("1.04365"));
    assert_eq!(field(&n4, "deepsleepduration"), String::from("301.54"));

    let msg5 = String::from("ESP_D427A9: [7.97900] NTPSyncEvent: 16:24:59 30/05/2017");
    let n5 = parse_from_string(msg5);
    assert_eq!(n5.host, String::from("ESP_D427A9"));
    assert_eq!(seconds(&n5), 7.979);
    assert_eq!(n5.msg.mtype, MessageType::NtpSync);
    assert_eq!(field(&n5, "ntpdate"), String::from("16:24:59 30/05/2017"));

    let msg6 = String::from("ESP_D427A9: [8.14600] SessionUUID: d687fe3f-2d30-352d-0c21-ff3f2cea2040");
    let n6 = parse_from_string(msg6);
    assert_eq!(n6.host, String::from("ESP_D427A9"));
    assert_eq!(seconds(&n6), 8.146);
    assert_eq!(n6.msg.mtype, MessageType::Session);
    assert_eq!(field(&n6, "UUID"), String::from("d687fe3f-2d30-352d-0c21-ff3f2cea2040"));

    let msg7 = String::from("ESP_D427A9: [4.07500] Loop: no NTP initial sync, waiting ... sleepWakeCycles=1 ntpErrors=2");
    let n7 = parse_from_string(msg7);
    assert_eq!(n7.host, String::from("ESP_D427A9"));
    assert_eq!(seconds(&n7), 4.075);
    assert_eq!(n7.msg.mtype, MessageType::Loop);
    assert_eq!(field(&n7, "action"), String::from("waitntp"));
    assert_eq!(field(&n7, "sleepwakecycles"), String::from("1"));
    assert_eq!(field(&n7, "ntperrors"), String::from("2"));
}

#[test]
fn line_without_colon_is_host_only() {
    let n = parse_from_string(String::from("just some words up"));
    assert_eq!(n.host, "just some words up");
    assert_eq!(n.time, None);
    assert_eq!(seconds(&n), -1.0);
    assert_eq!(n.msg.mtype, MessageType::UnknownMessage);
    assert!(n.msg.mvals.is_empty());
}

#[test]
fn line_without_payload_is_unknown() {
    let n = parse_from_string(String::from("host: UP:1.0"));
    assert_eq!(n.host, "host");
    assert_eq!(n.msg.mtype, MessageType::UnknownMessage);
    assert!(n.msg.mvals.is_empty());

    let n = parse_from_string(String::from("UP:1.0:x@y"));
    assert_eq!(n.host, "UP");
    assert_eq!(n.msg.mtype, MessageType::UnknownMessage);
}

#[test]
fn missing_bracket_gives_no_time() {
    let n = parse_from_string(String::from("h: 2.5] UP: 1:2@3"));
    assert_eq!(n.time, None);
    assert_eq!(n.msg.mtype, MessageType::NodeUp);
    let n = parse_from_string(String::from("h: [2.5 UP: 1:2@3"));
    assert_eq!(n.time, None);
    assert_eq!(seconds(&n), -1.0);
}

#[test]
fn closing_bracket_is_sought_behind_the_opening_one() {
    let n = parse_from_string(String::from("h: ] [1.5] UP: x"));
    assert_eq!(n.time, Some(String::from("1.5")));
    assert_eq!(seconds(&n), 1.5);
}

#[test]
fn literal_that_is_no_number_reads_as_absent() {
    let n = parse_from_string(String::from("h: [soon] UP: 1.0:d@i"));
    assert_eq!(n.time, Some(String::from("soon")));
    assert_eq!(seconds(&n), -1.0);
    assert_eq!(n.msg.mtype, MessageType::NodeUp);
    assert_eq!(field(&n, "ip_addr"), "i");
}

#[test]
fn bracket_in_host_is_not_the_time() {
    let n = parse_from_string(String::from("[9] h: x UP: 1"));
    assert_eq!(n.host, "[9] h");
    assert_eq!(n.time, None);
}

#[test]
fn identifier_case_does_not_matter() {
    for (line, kind) in [
        ("h: [1] up: a", MessageType::NodeUp),
        ("h: [1] Up: a", MessageType::NodeUp),
        ("h: [1] nTp: a", MessageType::Ntp),
        ("h: [1] LOOP: a", MessageType::Loop),
        ("h: [1] ntpsyncevent: a", MessageType::NtpSync),
        ("h: [1] SESSIONUUID: a", MessageType::Session),
        ("h: [1] Ac: a", MessageType::AirCasting),
        ("h: [1] other: a", MessageType::UnknownMessage),
        ("h: [1] : a", MessageType::UnknownMessage),
        ("h: [1] up : a", MessageType::UnknownMessage),
    ] {
        assert_eq!(parse_from_string(String::from(line)).msg.mtype, kind, "{}", line);
    }
}

#[test]
fn unknown_kind_has_no_fields() {
    let n = parse_from_string(String::from("h: [1] other: version:1 sleepWakeCycles=1"));
    assert_eq!(n.msg.mtype, MessageType::UnknownMessage);
    assert!(n.msg.mvals.is_empty());
}

#[test]
fn known_kind_without_remainder_has_no_fields() {
    let n = parse_from_string(String::from("h: [1] UP"));
    assert_eq!(n.msg.mtype, MessageType::NodeUp);
    assert!(n.msg.mvals.is_empty());
}

#[test]
fn ntpsync_line_with_marker_has_no_ntpdate() {
    let n = parse_from_string(String::from("h: [1] NTPSyncEvent: 16:24:59 -- 30/05/2017"));
    assert_eq!(n.msg.mtype, MessageType::NtpSync);
    assert!(n.msg.mvals.get("ntpdate").is_none());
    let n = parse_from_string(String::from("h: [1] NTPSyncEvent: a => b"));
    assert!(n.msg.mvals.is_empty());
}

#[test]
fn decoding_twice_gives_the_same_message() {
    let lines = [
        "",
        "ESP_D427A9: [11.06000] AC:push: Code 200",
        "ESP_D427A9: [4.07500] Loop: no NTP initial sync, waiting ... sleepWakeCycles=1 ntpErrors=2",
        "no colon here",
        "h: [x] \u{130}P: 1",
    ];
    for line in lines {
        let a = parse_from_string(String::from(line));
        let b = parse_from_string(String::from(line));
        assert_eq!(a.host, b.host);
        assert_eq!(a.time, b.time);
        assert_eq!(a.msg.mtype, b.msg.mtype);
        let (ea, eb) = (a.msg.mvals.entries(), b.msg.mvals.entries());
        assert_eq!(ea.len(), eb.len());
        for e in ea.iter() {
            assert_eq!(b.msg.mvals.get(&e.name), Some(&e.value));
        }
    }
}

#[test]
fn every_line_decodes() {
    let lines = [
        ":", "::", " ", "  ", "a:  ", "a: [", "a: []", "a:b c d:e", "\u{e9}: [1] UP: \u{fc}:x@y",
        "h: [1] Loop: deepSleep: ;;;;;;", "h: [1] NTP: PM2.5", "h: [1] AC::", "h: [1] Loop:  ",
    ];
    for line in lines {
        let n = parse_from_string(String::from(line));
        assert!(n.msg.mvals.entries().len() <= 5, "{}", line);
    }
}

#[test]
fn lowercase_is_the_one_of_the_standard_library() {
    // U+212A (Kelvin sign) has the lowercase `k`; the line names no known kind
    // anyway, and a command keeps what lowercasing made of it.
    let n = parse_from_string(String::from("h: [1] AC: \u{212a}EEP: x"));
    assert_eq!(field(&n, "command"), "keep");
    let n = parse_from_string(String::from("h: [1] AC:PU\u{17f}H: Code 1"));
    assert_eq!(field(&n, "command"), "pu\u{17f}h");
    assert!(n.msg.mvals.get("http_code").is_none());
}
