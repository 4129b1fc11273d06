use growbot::login_info::{resume_text, LoginInfo};
use growbot::text::{chars_of, decimal_string, find_value, parse_pairs, push_line, split_fields};

fn pair(k: &str, v: &str) -> (String, String) {
    (k.to_string(), v.to_string())
}

#[test]
fn push_line_appends_key_bar_value_newline() {
    let mut out = String::from("x");
    push_line(&mut out, "key", "value");
    push_line(&mut out, "", "");
    assert_eq!(out, "xkey|value\n|\n");
}

#[test]
fn decimal_string_of_numbers() {
    assert_eq!(decimal_string(0), "0");
    assert_eq!(decimal_string(7), "7");
    assert_eq!(decimal_string(10), "10");
    assert_eq!(decimal_string(209), "209");
    assert_eq!(decimal_string(17091), "17091");
    assert_eq!(decimal_string(u32::MAX), "4294967295");
}

#[test]
fn chars_of_keeps_every_character() {
    assert_eq!(chars_of("a|\u{e9}\n"), vec!['a', '|', '\u{e9}', '\n']);
    assert!(chars_of("").is_empty());
}

#[test]
fn parse_pairs_reads_lines() {
    assert_eq!(
        parse_pairs("server|1.2.3.4\nport|17091"),
        vec![pair("server", "1.2.3.4"), pair("port", "17091")]
    );
    assert_eq!(
        parse_pairs("server|1.2.3.4\nport|17091\n"),
        vec![pair("server", "1.2.3.4"), pair("port", "17091")]
    );
}

#[test]
fn parse_pairs_splits_at_the_first_bar() {
    assert_eq!(parse_pairs("meta|a|b|c"), vec![pair("meta", "a|b|c")]);
    assert_eq!(parse_pairs("|v\nk|"), vec![pair("", "v"), pair("k", "")]);
}

#[test]
fn parse_pairs_passes_over_lines_without_bar() {
    assert_eq!(parse_pairs("RTENDMARKERBS1001\n\nloginurl|x\nnothing"), vec![pair("loginurl", "x")]);
    assert!(parse_pairs("").is_empty());
    assert!(parse_pairs("\n\n").is_empty());
}

#[test]
fn parse_pairs_drops_carriage_return_before_newline() {
    assert_eq!(parse_pairs("a|1\r\nb|2\r"), vec![pair("a", "1"), pair("b", "2\r")]);
}

#[test]
fn parse_pairs_agrees_with_std_lines() {
    for text in ["a|b\nc|d", "x\r\ny|z\r\n", "k|v|w\n\n|\nq", "\r\n|\r", "é|ü\nñ|"] {
        let expected: Vec<(String, String)> = text
            .lines()
            .filter_map(|line| {
                let mut parts = line.splitn(2, '|');
                match (parts.next(), parts.next()) {
                    (Some(k), Some(v)) => Some((k.to_string(), v.to_string())),
                    _ => None,
                }
            })
            .collect();
        assert_eq!(parse_pairs(text), expected);
    }
}

#[test]
fn find_value_takes_the_last_pair() {
    let pairs = vec![pair("a", "1"), pair("b", "2"), pair("a", "3")];
    assert_eq!(find_value(&pairs, "a"), Some("3".to_string()));
    assert_eq!(find_value(&pairs, "b"), Some("2".to_string()));
    assert_eq!(find_value(&pairs, "c"), None);
}

#[test]
fn new_login_info_is_blank() {
    let info = LoginInfo::new();
    assert_eq!(info.uuid, "");
    assert_eq!(info.protocol, "");
    assert_eq!(info.tank_id_pass, "");
    assert_eq!(info, LoginInfo::default());
}

#[test]
fn handshake_lists_every_field_in_order() {
    let mut info = LoginInfo::new();
    let keys = [
        "UUIDToken", "protocol", "fhash", "mac", "requestedName", "hash2", "fz", "f", "player_age",
        "game_version", "lmode", "cbits", "rid", "GDPR", "hash", "category", "token",
        "total_playtime", "door_id", "klv", "meta", "platformID", "deviceVersion", "zf", "country",
        "user", "wk",
    ];
    for (i, key) in keys.iter().enumerate() {
        assert!(info.set(key, format!("v{}", i)));
    }
    let text = info.handshake();
    let mut expected = String::new();
    for (i, key) in keys.iter().enumerate() {
        expected.push_str(&format!("{}|v{}\n", key, i));
    }
    assert_eq!(text, expected);
    assert_eq!(text.lines().count(), 27);
    assert!(text.ends_with('\n'));
}

#[test]
fn handshake_of_blank_info() {
    let text = LoginInfo::new().handshake();
    assert!(text.starts_with("UUIDToken|\nprotocol|\nfhash|\n"));
    assert!(text.ends_with("user|\nwk|\n"));
    assert!(!text.contains("tankIDName"));
}

#[test]
fn request_body_lists_account_and_device_fields() {
    let mut info = LoginInfo::new();
    info.tank_id_name = "name".to_string();
    info.tank_id_pass = "pass".to_string();
    info.protocol = "209".to_string();
    info.zf = "z".to_string();
    let text = info.to_string();
    assert!(text.starts_with("tankIDName|name\ntankIDPass|pass\nrequestedName|\nf|\nprotocol|209\n"));
    assert!(text.ends_with("mac|\nwk|\nzf|z\n"));
    assert_eq!(text.lines().count(), 25);
    assert!(!text.contains("UUIDToken"));
}

#[test]
fn resume_text_has_three_lines() {
    assert_eq!(resume_text("abc"), "protocol|209\nltoken|abc\nplatformID|0,1,1\n");
    assert_eq!(resume_text(""), "protocol|209\nltoken|\nplatformID|0,1,1\n");
}

#[test]
fn set_knows_its_keys() {
    let mut info = LoginInfo::new();
    assert!(info.set("tankIDName", "n".to_string()));
    assert!(info.set("GDPR", "1".to_string()));
    assert!(!info.set("gdpr", "2".to_string()));
    assert!(!info.set("", "3".to_string()));
    assert_eq!(info.tank_id_name, "n");
    assert_eq!(info.gdpr, "1");
}

#[test]
fn update_reads_login_data() {
    let mut info = LoginInfo::new();
    info.country = "us".to_string();
    info.update("tankIDName|bot\ntankIDPass|secret\nunknown|x\nmac|02:00:00:00:00:00\nmac|aa\nnobar\n");
    assert_eq!(info.tank_id_name, "bot");
    assert_eq!(info.tank_id_pass, "secret");
    assert_eq!(info.mac, "aa");
    assert_eq!(info.country, "us");
    assert_eq!(info.uuid, "");
}

#[test]
fn split_fields_parts_at_bars() {
    assert_eq!(split_fields("name|pass"), vec!["name".to_string(), "pass".to_string()]);
    assert_eq!(split_fields("name"), vec!["name".to_string()]);
    assert_eq!(split_fields(""), vec![String::new()]);
    assert_eq!(split_fields("a||b|"), vec!["a".to_string(), String::new(), "b".to_string(), String::new()]);
    for text in ["x|y|z", "|", "||", "\u{e9}|\u{fc}", "no bars at all"] {
        let expected: Vec<String> = text.split('|').map(|part| part.to_string()).collect();
        assert_eq!(split_fields(text), expected);
    }
}
