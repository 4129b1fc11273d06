use growbot::bot::Bot;
use growbot::bot_info::{ELoginMethod, LogLevel};
use growbot::packet_handler::{handle, handle_game_packet, Event, Reaction};
use growbot::packet_type::EPacketType;
use growbot::proxy_manager::{Proxy, ProxyManager};
use growbot::session::{
    extract_links, links_from, percent_encode, read_token_check, token_check_outcome, Command,
    HttpReply, Reply, TokenCheck, TokenError, TokenRequest,
};
use growbot::tank_packet::{DecodeError, TankPacket};
use growbot::tank_packet_type::ETankPacketType;

fn bot(method: ELoginMethod, token: &str) -> Bot {
    let payload = vec!["user".to_string(), "pass".to_string(), "steamuser".to_string(), "steampass".to_string()];
    let mut bot = Bot::new(payload, "code".to_string(), method, token.to_string());
    bot.state.is_running = true;
    bot
}

fn ok(body: &str) -> Result<HttpReply, String> {
    Ok(HttpReply { status: 200, body: body.to_string() })
}

fn failed() -> Result<HttpReply, String> {
    Err("timed out".to_string())
}

fn status(status: u16, body: &str) -> Result<HttpReply, String> {
    Ok(HttpReply { status, body: body.to_string() })
}

fn line(level: LogLevel, text: &str) -> (LogLevel, String) {
    (level, text.to_string())
}

const PAGE: &str = "<a href=\"https://login.growtopiagame.com/apple/redirect?token=AAA\">apple</a>\n<a href=\"https://login.growtopiagame.com/google/redirect?token=BBB\">google</a>\n<a href=\"https://login.growtopiagame.com/player/growid/login?token=CCC\">legacy</a>";

#[test]
fn reconnect_with_a_valid_token_connects() {
    let mut bot = bot(ELoginMethod::STEAM, "old");
    match bot.reconnect(false) {
        Command::FetchServerData { url } => {
            assert_eq!(url, "https://www.growtopia1.com/growtopia/server_data.php")
        }
        other => panic!("unexpected {:?}", other),
    }
    let expected_form = bot.info.login_info.to_string();
    match bot.on_server_data(&ok("server|1.2.3.4\nport|17091")) {
        Command::CheckToken { refresh_token, client_data } => {
            assert_eq!(refresh_token, "old");
            assert_eq!(client_data, expected_form);
        }
        other => panic!("unexpected {:?}", other),
    }
    match bot.on_token_check(&ok("{\"status\":\"success\",\"token\":\"abc\"}")) {
        Command::Connect { ip, port } => {
            assert_eq!(ip, "1.2.3.4");
            assert_eq!(port, "17091");
        }
        other => panic!("unexpected {:?}", other),
    }
    assert_eq!(bot.info.token, "abc");
    assert_eq!(bot.info.status, "Connecting to the server");
}

#[test]
fn reconnect_uses_the_alternate_endpoint() {
    let mut bot = bot(ELoginMethod::LEGACY, "");
    match bot.reconnect(true) {
        Command::FetchServerData { url } => {
            assert_eq!(url, "https://www.growtopia2.com/growtopia/server_data.php")
        }
        other => panic!("unexpected {:?}", other),
    }
    assert_eq!(bot.to_http(false), "https://www.growtopia1.com/growtopia/server_data.php");
    assert_eq!(bot.info.status, "Fetching server data");
}

#[test]
fn failed_discovery_backs_off() {
    let mut bot = bot(ELoginMethod::LEGACY, "t");
    assert!(matches!(bot.on_server_data(&failed()), Command::Backoff));
    let reply = status(503, "server|x");
    assert!(matches!(bot.on_server_data(&reply), Command::Backoff));
    assert!(bot.info.server_data.is_empty());
}

#[test]
fn discovery_sets_meta_and_asks_for_links() {
    let mut bot = bot(ELoginMethod::LEGACY, "t");
    bot.info.login_info.tank_id_name = "a b".to_string();
    match bot.on_server_data(&ok("server|1.2.3.4\nport|17091\nmeta|m1\nRTENDMARKERBS1001")) {
        Command::FetchOAuthLinks { body } => {
            assert!(body.starts_with("tankIDName%7Ca%20b%0AtankIDPass%7C%0A"));
            assert!(body.contains("meta%7Cm1%0A"));
            assert!(!body.contains('|'));
            assert!(!body.contains('\n'));
        }
        other => panic!("unexpected {:?}", other),
    }
    assert_eq!(bot.info.login_info.meta, "m1");
    assert_eq!(bot.info.status, "Getting OAuth links");
    assert_eq!(bot.info.server_data.len(), 3);
}

#[test]
fn links_are_read_from_the_page() {
    let links = extract_links(PAGE);
    assert_eq!(
        links,
        vec![
            "https://login.growtopiagame.com/apple/redirect?token=AAA".to_string(),
            "https://login.growtopiagame.com/google/redirect?token=BBB".to_string(),
            "https://login.growtopiagame.com/player/growid/login?token=CCC".to_string(),
        ]
    );
    assert!(extract_links("<html>nothing here</html>").is_empty());
    assert!(extract_links("").is_empty());
}

#[test]
fn links_from_matches() {
    assert!(links_from(None).is_empty());
    assert_eq!(links_from(Some(vec!["a".to_string()])), vec!["a".to_string()]);
}

#[test]
fn oauth_reply_stores_links_and_goes_for_the_token() {
    let mut bot = bot(ELoginMethod::LEGACY, "");
    match bot.on_oauth_links(&ok(PAGE)) {
        Command::AcquireToken(TokenRequest::Legacy { url, username, password }) => {
            assert_eq!(url, "https://login.growtopiagame.com/player/growid/login?token=CCC");
            assert_eq!(username, "user");
            assert_eq!(password, "pass");
        }
        other => panic!("unexpected {:?}", other),
    }
    assert_eq!(bot.info.oauth_links.len(), 3);
    assert_eq!(bot.info.status, "Getting token");
}

#[test]
fn oauth_reply_without_links_is_no_error() {
    let mut bot = bot(ELoginMethod::GOOGLE, "");
    match bot.on_oauth_links(&ok("<html></html>")) {
        Command::AcquireToken(TokenRequest::Google { url, username, password }) => {
            assert_eq!(url, "");
            assert_eq!(username, "user");
            assert_eq!(password, "pass");
        }
        other => panic!("unexpected {:?}", other),
    }
    assert!(bot.info.oauth_links.is_empty());
}

#[test]
fn failed_oauth_request_backs_off() {
    let mut bot = bot(ELoginMethod::GOOGLE, "");
    assert!(matches!(bot.on_oauth_links(&failed()), Command::Backoff));
    let reply = status(404, PAGE);
    assert!(matches!(bot.on_oauth_links(&reply), Command::Backoff));
    assert!(bot.info.oauth_links.is_empty());
}

#[test]
fn token_check_reads_the_answer() {
    assert!(matches!(read_token_check("{\"status\":\"success\",\"token\":\"abc\"}"), TokenCheck::Valid(t) if t == "abc"));
    assert!(matches!(read_token_check("{\"status\":\"success\"}"), TokenCheck::Valid(t) if t.is_empty()));
    assert!(matches!(read_token_check("{\"status\":\"success\",\"token\":5}"), TokenCheck::Valid(t) if t.is_empty()));
    assert!(matches!(read_token_check("{\"status\":\"failed\",\"token\":\"abc\"}"), TokenCheck::Invalid));
    assert!(matches!(read_token_check("{\"token\":\"abc\"}"), TokenCheck::Invalid));
    assert!(matches!(read_token_check("not json"), TokenCheck::Invalid));
    assert!(matches!(read_token_check("[\"status\",\"success\"]"), TokenCheck::Invalid));
    assert!(matches!(read_token_check("success"), TokenCheck::Invalid));
}

#[test]
fn token_check_outcome_goes_by_the_status() {
    assert!(matches!(token_check_outcome(Some("success".to_string()), Some("x".to_string())), TokenCheck::Valid(t) if t == "x"));
    assert!(matches!(token_check_outcome(Some("success".to_string()), None), TokenCheck::Valid(t) if t.is_empty()));
    assert!(matches!(token_check_outcome(Some("Success".to_string()), Some("x".to_string())), TokenCheck::Invalid));
    assert!(matches!(token_check_outcome(None, Some("x".to_string())), TokenCheck::Invalid));
}

#[test]
fn failed_token_check_pauses() {
    let mut bot = bot(ELoginMethod::LEGACY, "old");
    assert!(matches!(bot.on_token_check(&failed()), Command::Pause));
    let reply = status(500, "{\"status\":\"success\",\"token\":\"abc\"}");
    assert!(matches!(bot.on_token_check(&reply), Command::Pause));
    assert_eq!(bot.info.token, "old");
}

#[test]
fn invalid_token_gets_a_new_one() {
    let mut bot = bot(ELoginMethod::GOOGLE, "old");
    bot.info.oauth_links = extract_links(PAGE);
    match bot.on_token_check(&ok("{\"status\":\"error\"}")) {
        Command::AcquireToken(TokenRequest::Google { url, .. }) => {
            assert_eq!(url, "https://login.growtopiagame.com/google/redirect?token=BBB")
        }
        other => panic!("unexpected {:?}", other),
    }
    assert_eq!(bot.info.token, "old");
}

#[test]
fn get_token_by_method() {
    let mut steam = bot(ELoginMethod::STEAM, "");
    match steam.get_token() {
        Ok(TokenRequest::Steam { recovery_code, username, password, steam_username, steam_password }) => {
            assert_eq!(recovery_code, "code");
            assert_eq!(username, "user");
            assert_eq!(password, "pass");
            assert_eq!(steam_username, "steamuser");
            assert_eq!(steam_password, "steampass");
        }
        other => panic!("unexpected {:?}", other),
    }
    assert_eq!(steam.info.login_info.platform_id, "15,1,0");
    assert_eq!(steam.info.status, "Getting token");
    let mut legacy = bot(ELoginMethod::LEGACY, "");
    assert!(matches!(legacy.get_token(), Ok(TokenRequest::Legacy { .. })));
    assert_eq!(legacy.info.login_info.platform_id, "");
}

#[test]
fn get_token_errors() {
    let mut apple = bot(ELoginMethod::APPLE, "");
    assert!(matches!(apple.get_token(), Err(TokenError::InvalidMethod)));
    let mut short = Bot::new(vec!["user".to_string()], String::new(), ELoginMethod::GOOGLE, String::new());
    assert!(matches!(short.get_token(), Err(TokenError::MissingCredentials)));
    let mut steam = Bot::new(vec!["a".to_string(), "b".to_string(), "c".to_string()], String::new(), ELoginMethod::STEAM, String::new());
    assert!(matches!(steam.get_token(), Err(TokenError::MissingCredentials)));
    let mut stuck = bot(ELoginMethod::APPLE, "");
    stuck.info.oauth_links = vec!["x".to_string()];
    assert!(matches!(stuck.on_server_data(&ok("server|s")), Command::Abort));
}

#[test]
fn on_token_keeps_a_token_that_is_not_empty() {
    let mut bot = bot(ELoginMethod::LEGACY, "old");
    bot.parse_server_data("server|9.9.9.9\nport|1\nport|2");
    match bot.on_token(Ok("new".to_string())) {
        Command::Connect { ip, port } => {
            assert_eq!(ip, "9.9.9.9");
            assert_eq!(port, "2");
        }
        other => panic!("unexpected {:?}", other),
    }
    assert_eq!(bot.info.token, "new");
    assert!(matches!(bot.on_token(Ok(String::new())), Command::Connect { .. }));
    assert_eq!(bot.info.token, "new");
    assert!(matches!(bot.on_token(Err("denied".to_string())), Command::Abort));
    assert_eq!(bot.info.token, "new");
}

#[test]
fn connect_gives_up_when_stopped() {
    let mut bot = bot(ELoginMethod::LEGACY, "old");
    bot.state.is_running = false;
    assert!(matches!(bot.connect_to_server(), Command::Abort));
    assert!(matches!(bot.on_token(Ok("new".to_string())), Command::Abort));
    bot.state.is_running = true;
    match bot.connect_to_server() {
        Command::Connect { ip, port } => {
            assert_eq!(ip, "");
            assert_eq!(port, "");
        }
        other => panic!("unexpected {:?}", other),
    }
}

#[test]
fn next_connection_follows_a_redirect() {
    let mut bot = bot(ELoginMethod::LEGACY, "old");
    bot.state.is_redirecting = true;
    bot.server.ip = "5.6.7.8".to_string();
    bot.server.port = 17_000;
    match bot.next_connection(false) {
        Command::Connect { ip, port } => {
            assert_eq!(ip, "5.6.7.8");
            assert_eq!(port, "17000");
        }
        other => panic!("unexpected {:?}", other),
    }
    bot.state.is_redirecting = false;
    assert!(matches!(bot.next_connection(false), Command::FetchServerData { .. }));
    bot.state.is_running = false;
    assert!(matches!(bot.next_connection(false), Command::Abort));
}

#[test]
fn relog_stops_and_starts_over() {
    let mut bot = bot(ELoginMethod::LEGACY, "old");
    bot.state.is_redirecting = true;
    bot.peer_id = Some(3);
    let (peer, command) = bot.relog(false);
    assert_eq!(peer, Some(3));
    assert!(matches!(command, Command::FetchServerData { .. }));
    assert!(!bot.state.is_running);
    assert!(!bot.state.is_redirecting);
}

#[test]
fn logon_reads_login_data() {
    let mut bot = Bot::new(Vec::new(), String::new(), ELoginMethod::LEGACY, String::new());
    assert!(!bot.logon("tankIDName|bot\nmac|aa\n"));
    assert!(bot.state.is_running);
    assert_eq!(bot.info.login_info.tank_id_name, "bot");
    assert_eq!(bot.info.login_info.mac, "aa");
    let mut other = Bot::new(Vec::new(), String::new(), ELoginMethod::LEGACY, String::new());
    assert!(other.logon(""));
    assert!(other.state.is_running);
    other.spoof("k".to_string(), "h".to_string(), "h2".to_string());
    assert_eq!(other.info.login_info.klv, "k");
    assert_eq!(other.info.login_info.hash, "h");
    assert_eq!(other.info.login_info.hash2, "h2");
    assert_eq!(other.info.status, "Spoofing core data");
}

#[test]
fn backoff_takes_exactly_its_seconds() {
    let mut bot = bot(ELoginMethod::LEGACY, "");
    assert_eq!(bot.sleep(5), 5);
    assert_eq!(bot.info.timeout, 0);
    assert_eq!(bot.sleep(0), 0);
    bot.begin_sleep(3);
    assert_eq!(bot.info.timeout, 3);
    let mut seconds = 0;
    while bot.tick() {
        seconds += 1;
        assert_eq!(bot.info.timeout, 3 - seconds);
    }
    assert_eq!(seconds, 3);
    assert!(!bot.tick());
    bot.begin_sleep(2);
    assert_eq!(bot.sleep(4), 6);
}

#[test]
fn backoff_saturates() {
    let mut bot = bot(ELoginMethod::LEGACY, "");
    bot.begin_sleep(u32::MAX);
    bot.begin_sleep(5);
    assert_eq!(bot.info.timeout, u32::MAX);
}

#[test]
fn status_ping_and_log() {
    let mut bot = bot(ELoginMethod::LEGACY, "");
    bot.set_status("Reconnecting...");
    assert_eq!(bot.info.status, "Reconnecting...");
    bot.set_ping(42);
    assert_eq!(bot.info.ping, 42);
    bot.set_ping(0x1_0000_0007);
    assert_eq!(bot.info.ping, 7);
    bot.log_info("a");
    bot.log_warn("b");
    bot.log_error("c");
    assert_eq!(
        bot.logs,
        vec![
            (LogLevel::Info, "a".to_string()),
            (LogLevel::Warn, "b".to_string()),
            (LogLevel::Error, "c".to_string()),
        ]
    );
}

#[test]
fn connect_and_disconnect_events() {
    let mut bot = bot(ELoginMethod::LEGACY, "");
    bot.on_connect(0);
    assert_eq!(bot.peer_id, Some(0));
    assert_eq!(bot.info.status, "Connected");
    assert_eq!(bot.disconnect(), Some(0));
    bot.on_disconnect();
    assert_eq!(bot.peer_id, None);
    assert_eq!(bot.info.status, "Disconnected");
    assert_eq!(
        bot.logs,
        vec![
            line(LogLevel::Info, "Connected to the server"),
            line(LogLevel::Warn, "Disconnected from the server"),
        ]
    );
}

#[test]
fn server_hello_while_redirecting_sends_the_handshake() {
    let mut bot = bot(ELoginMethod::LEGACY, "tok");
    bot.peer_id = Some(0);
    bot.state.is_redirecting = true;
    bot.info.login_info.update("UUIDToken|u\nprotocol|209\nwk|w\ntankIDName|hidden\n");
    match handle(&bot, EPacketType::NetMessageServerHello, &[]) {
        Reaction::Send(frame) => {
            assert_eq!(&frame[..4], &[2, 0, 0, 0]);
            let text = String::from_utf8(frame[4..].to_vec()).unwrap();
            assert_eq!(text, bot.info.login_info.handshake());
            let keys: Vec<&str> = text.lines().map(|l| l.split('|').next().unwrap()).collect();
            assert_eq!(
                keys,
                vec![
                    "UUIDToken", "protocol", "fhash", "mac", "requestedName", "hash2", "fz", "f",
                    "player_age", "game_version", "lmode", "cbits", "rid", "GDPR", "hash", "category",
                    "token", "total_playtime", "door_id", "klv", "meta", "platformID", "deviceVersion",
                    "zf", "country", "user", "wk",
                ]
            );
            assert!(text.starts_with("UUIDToken|u\nprotocol|209\n"));
            assert!(text.ends_with("wk|w\n"));
        }
        other => panic!("unexpected {:?}", other),
    }
}

#[test]
fn server_hello_resumes_the_session() {
    let mut bot = bot(ELoginMethod::LEGACY, "tok");
    bot.peer_id = Some(0);
    match handle(&bot, EPacketType::NetMessageServerHello, &[1, 2, 3]) {
        Reaction::Send(frame) => {
            assert_eq!(&frame[..4], &[2, 0, 0, 0]);
            assert_eq!(&frame[4..], "protocol|209\nltoken|tok\nplatformID|0,1,1\n".as_bytes());
        }
        other => panic!("unexpected {:?}", other),
    }
    bot.peer_id = None;
    assert!(matches!(handle(&bot, EPacketType::NetMessageServerHello, &[]), Reaction::Nothing));
}

#[test]
fn game_message_goes_to_the_log() {
    let bot = bot(ELoginMethod::LEGACY, "");
    match handle(&bot, EPacketType::NetMessageGameMessage, "action|log\nmsg|hi".as_bytes()) {
        Reaction::Message(text) => assert_eq!(text, "action|log\nmsg|hi"),
        other => panic!("unexpected {:?}", other),
    }
    match handle(&bot, EPacketType::NetMessageGameMessage, &[b'a', 0xFF, b'b']) {
        Reaction::Message(text) => assert_eq!(text, "a\u{FFFD}b"),
        other => panic!("unexpected {:?}", other),
    }
}

#[test]
fn other_kinds_lead_to_nothing() {
    let bot = bot(ELoginMethod::LEGACY, "");
    for kind in [EPacketType::NetMessageGenericText, EPacketType::NetMessageUnknown, EPacketType::NetMessageTrack, EPacketType::NetMessageError] {
        assert!(matches!(handle(&bot, kind, "x|y".as_bytes()), Reaction::Nothing));
    }
}

#[test]
fn call_function_is_handed_on_with_its_payload() {
    let mut packet = TankPacket::default();
    packet._type = ETankPacketType::NetGamePacketCallFunction;
    packet.net_id = 77;
    packet.extended_data_length = 4;
    let data = packet.encode(&[9, 8, 7, 6]).unwrap();
    match handle_game_packet(&data) {
        Reaction::CallFunction { packet: got, payload } => {
            assert_eq!(got, packet);
            assert_eq!(payload, vec![9, 8, 7, 6]);
        }
        other => panic!("unexpected {:?}", other),
    }
}

#[test]
fn unknown_action_kind_is_passed_over() {
    let bot = bot(ELoginMethod::LEGACY, "");
    let mut data = TankPacket::default().encode(&[]).unwrap();
    data[0] = 200;
    assert!(TankPacket::decode(&data).is_ok());
    assert!(matches!(handle(&bot, EPacketType::NetMessageGamePacket, &data), Reaction::Nothing));
    data[0] = 22;
    assert!(matches!(handle(&bot, EPacketType::NetMessageGamePacket, &data), Reaction::Nothing));
}

#[test]
fn malformed_game_packet_is_dropped() {
    let bot = bot(ELoginMethod::LEGACY, "");
    match handle(&bot, EPacketType::NetMessageGamePacket, &[1, 2, 3]) {
        Reaction::DecodeFailed { error, first_byte } => {
            assert_eq!(error, DecodeError::TooShort);
            assert_eq!(first_byte, Some(1));
        }
        other => panic!("unexpected {:?}", other),
    }
    match handle(&bot, EPacketType::NetMessageGamePacket, &[]) {
        Reaction::DecodeFailed { error, first_byte } => {
            assert_eq!(error, DecodeError::TooShort);
            assert_eq!(first_byte, None);
        }
        other => panic!("unexpected {:?}", other),
    }
    let mut data = TankPacket::default().encode(&[]).unwrap();
    data[52] = 1;
    assert!(matches!(
        handle(&bot, EPacketType::NetMessageGamePacket, &data),
        Reaction::DecodeFailed { error: DecodeError::LengthMismatch, first_byte: Some(0) }
    ));
}

#[test]
fn on_receive_splits_and_handles() {
    let mut bot = bot(ELoginMethod::LEGACY, "tok");
    bot.peer_id = Some(0);
    assert!(matches!(bot.on_receive(&[1, 0, 0]), Reaction::Nothing));
    assert!(matches!(bot.on_receive(&[1, 0, 0, 0]), Reaction::Send(_)));
    assert!(matches!(bot.on_receive(&[3, 0, 0, 0, b'h', b'i']), Reaction::Message(t) if t == "hi"));
    let mut frame = vec![4, 0, 0, 0];
    let mut packet = TankPacket::default();
    packet._type = ETankPacketType::NetGamePacketCallFunction;
    frame.extend_from_slice(&packet.encode(&[]).unwrap());
    assert!(matches!(bot.on_receive(&frame), Reaction::CallFunction { .. }));
}

fn proxy(ip: &str) -> Proxy {
    Proxy { ip: ip.to_string(), port: 1080, username: "u".to_string(), password: "p".to_string() }
}

#[test]
fn proxy_serves_three_bots() {
    let mut pool = ProxyManager::new();
    pool.add(proxy("10.0.0.1"));
    pool.add(proxy("10.0.0.2"));
    for name in ["a", "b", "c"] {
        let (index, claimed) = pool.claim(name).unwrap();
        assert_eq!(index, 0);
        assert_eq!(claimed.ip, "10.0.0.1");
        assert_eq!(claimed.port, 1080);
        assert_eq!(claimed.username, "u");
        assert_eq!(claimed.password, "p");
    }
    assert_eq!(pool.proxies[0].whos_using, vec!["a".to_string(), "b".to_string(), "c".to_string()]);
    let (index, claimed) = pool.claim("d").unwrap();
    assert_eq!(index, 1);
    assert_eq!(claimed.ip, "10.0.0.2");
    assert_eq!(pool.proxies[0].whos_using.len(), 3);
    assert_eq!(pool.proxies[1].whos_using, vec!["d".to_string()]);
}

#[test]
fn full_pool_gives_nothing() {
    let mut pool = ProxyManager::new();
    assert!(pool.claim("a").is_none());
    pool.add(proxy("10.0.0.1"));
    for name in ["a", "b", "c"] {
        assert!(pool.claim(name).is_some());
    }
    assert!(pool.claim("d").is_none());
    assert_eq!(pool.proxies[0].whos_using.len(), 3);
}

#[test]
fn percent_encode_keeps_unreserved_bytes() {
    assert_eq!(percent_encode("AZaz09-._~"), "AZaz09-._~");
    assert_eq!(percent_encode(""), "");
    assert_eq!(percent_encode("a|b\nc d"), "a%7Cb%0Ac%20d");
    assert_eq!(percent_encode("\u{e9}/+"), "%C3%A9%2F%2B");
    assert_eq!(percent_encode("\u{0}\u{7f}"), "%00%7F");
}

#[test]
fn retry_repeats_the_request_while_running() {
    let mut bot = bot(ELoginMethod::LEGACY, "");
    let request = Command::FetchServerData { url: "u".to_string() };
    assert!(matches!(bot.retry(request.clone()), Command::FetchServerData { url } if url == "u"));
    bot.state.is_running = false;
    assert!(matches!(bot.retry(request), Command::Abort));
}

#[test]
fn process_events_by_kind() {
    let mut bot = bot(ELoginMethod::LEGACY, "tok");
    assert!(bot.state.is_running);
    let (reaction, serving) = bot.process_events(&Some(Event::Connect { peer: 0 }));
    assert!(matches!(reaction, Reaction::Nothing));
    assert!(serving);
    assert_eq!(bot.peer_id, Some(0));
    let (reaction, serving) = bot.process_events(&Some(Event::Receive { data: vec![1, 0, 0, 0] }));
    assert!(matches!(reaction, Reaction::Send(_)));
    assert!(serving);
    let (reaction, serving) = bot.process_events(&Some(Event::Receive { data: vec![1, 0] }));
    assert!(matches!(reaction, Reaction::Nothing));
    assert!(serving);
    let (reaction, serving) = bot.process_events(&None);
    assert!(matches!(reaction, Reaction::Nothing));
    assert!(serving);
    let (reaction, serving) = bot.process_events(&Some(Event::Disconnect));
    assert!(matches!(reaction, Reaction::Nothing));
    assert!(!serving);
    assert_eq!(bot.peer_id, None);
    assert_eq!(bot.info.status, "Disconnected");
}

#[test]
fn process_events_stops_with_the_running_flag() {
    let mut bot = bot(ELoginMethod::LEGACY, "tok");
    bot.peer_id = Some(0);
    bot.state.is_running = false;
    let (reaction, serving) = bot.process_events(&None);
    assert!(matches!(reaction, Reaction::Nothing));
    assert!(!serving);
    let (reaction, serving) = bot.process_events(&Some(Event::Receive { data: vec![1, 0, 0, 0] }));
    assert!(matches!(reaction, Reaction::Send(_)));
    assert!(!serving);
    let (_, serving) = bot.process_events(&Some(Event::Connect { peer: 4 }));
    assert!(!serving);
    assert_eq!(bot.peer_id, Some(4));
    let (_, serving) = bot.process_events(&Some(Event::Disconnect));
    assert!(!serving);
    assert!(matches!(bot.next_connection(false), Command::Abort));
    let mut fresh = Bot::new(Vec::new(), String::new(), ELoginMethod::LEGACY, String::new());
    let (_, serving) = fresh.process_events(&Some(Event::Receive { data: vec![3, 0, 0, 0, b'x'] }));
    assert!(!serving);
}

#[test]
fn any_status_of_success_is_read() {
    let mut bot = bot(ELoginMethod::STEAM, "old");
    let reply = status(204, "");
    assert!(matches!(bot.on_server_data(&reply), Command::CheckToken { .. }));
    assert!(HttpReply { status: 200, body: String::new() }.is_success());
    assert!(HttpReply { status: 299, body: String::new() }.is_success());
    assert!(!HttpReply { status: 199, body: String::new() }.is_success());
    assert!(!HttpReply { status: 300, body: String::new() }.is_success());
    let moved = status(302, "server|x");
    assert!(matches!(bot.on_server_data(&moved), Command::Backoff));
}

#[test]
fn answer_goes_by_the_request() {
    let mut bot = bot(ELoginMethod::STEAM, "old");
    let request = bot.reconnect(false);
    let request = bot.answer(&request, Reply::Http(ok("server|1.2.3.4\nport|17091")));
    assert!(matches!(request, Command::CheckToken { .. }));
    let request = bot.answer(&request, Reply::Http(ok("{\"status\":\"failed\"}")));
    assert!(matches!(request, Command::AcquireToken(TokenRequest::Steam { .. })));
    let done = bot.answer(&request, Reply::Token(Ok("fresh".to_string())));
    assert!(matches!(done, Command::Connect { ip, port } if ip == "1.2.3.4" && port == "17091"));
    assert_eq!(bot.info.token, "fresh");
    assert!(bot.logs.len() == 1 && bot.logs[0] == line(LogLevel::Error, "Token is invalid"));
    assert!(matches!(bot.answer(&request, Reply::Http(failed())), Command::Abort));
    assert!(matches!(bot.answer(&Command::Pause, Reply::Token(Err("denied".to_string()))), Command::Abort));
    assert_eq!(bot.info.token, "fresh");
    assert_eq!(bot.logs.len(), 3);
    assert_eq!(bot.logs[2], line(LogLevel::Error, "The answer fits no request"));
}

#[test]
fn failed_requests_go_to_the_log() {
    let mut bot = bot(ELoginMethod::LEGACY, "old");
    bot.on_server_data(&failed());
    bot.on_server_data(&status(503, ""));
    bot.on_oauth_links(&failed());
    bot.on_oauth_links(&status(404, ""));
    bot.on_token_check(&failed());
    bot.on_token_check(&status(500, ""));
    assert_eq!(
        bot.logs,
        vec![
            line(LogLevel::Error, "Request error: timed out, retrying..."),
            line(LogLevel::Warn, "Failed to fetch server data"),
            line(LogLevel::Error, "Request error: timed out, retrying..."),
            line(LogLevel::Warn, "Failed to get OAuth links"),
            line(LogLevel::Error, "Request error: timed out, retrying..."),
            line(LogLevel::Error, "Failed to refresh token, retrying..."),
        ]
    );
}

#[test]
fn failed_logins_go_to_the_log() {
    let mut google = bot(ELoginMethod::GOOGLE, "");
    assert!(matches!(google.on_token(Err("too many people".to_string())), Command::Abort));
    assert_eq!(google.logs, vec![line(LogLevel::Error, "Failed to get Google token: too many people")]);
    let mut legacy = bot(ELoginMethod::LEGACY, "");
    legacy.on_token(Err("x".to_string()));
    assert_eq!(legacy.logs, vec![line(LogLevel::Error, "Failed to get legacy token: x")]);
    let mut steam = bot(ELoginMethod::STEAM, "");
    steam.on_token(Err(String::new()));
    assert_eq!(steam.logs, vec![line(LogLevel::Error, "Failed to get Ubisoft token: ")]);
    let mut apple = bot(ELoginMethod::APPLE, "");
    assert!(matches!(apple.get_token(), Err(TokenError::InvalidMethod)));
    assert_eq!(apple.logs, vec![line(LogLevel::Warn, "Invalid login method")]);
    let mut short = Bot::new(vec!["user".to_string()], String::new(), ELoginMethod::GOOGLE, String::new());
    assert!(matches!(short.get_token(), Err(TokenError::MissingCredentials)));
    assert_eq!(short.logs, vec![line(LogLevel::Error, "Login credentials are missing")]);
}

#[test]
fn invalid_token_and_no_way_to_a_new_one_write_two_lines() {
    let mut apple = bot(ELoginMethod::APPLE, "old");
    assert!(matches!(apple.on_token_check(&ok("{\"status\":\"failed\"}")), Command::Abort));
    assert_eq!(
        apple.logs,
        vec![line(LogLevel::Error, "Token is invalid"), line(LogLevel::Warn, "Invalid login method")]
    );
    let mut legacy = bot(ELoginMethod::LEGACY, "old");
    assert!(matches!(legacy.on_token_check(&ok("{\"status\":\"failed\"}")), Command::AcquireToken(_)));
    assert_eq!(legacy.logs, vec![line(LogLevel::Error, "Token is invalid")]);
}

#[test]
fn paths_that_succeed_write_no_line() {
    let mut bot = bot(ELoginMethod::STEAM, "old");
    bot.reconnect(false);
    bot.on_server_data(&ok("server|1.2.3.4\nport|17091"));
    bot.on_token_check(&ok("{\"status\":\"success\",\"token\":\"abc\"}"));
    bot.on_token(Ok("t".to_string()));
    assert!(bot.logs.is_empty());
    bot.state.is_running = false;
    assert!(matches!(bot.connect_to_server(), Command::Abort));
    assert!(bot.logs.is_empty());
}

#[test]
fn events_go_to_the_log() {
    let mut bot = bot(ELoginMethod::LEGACY, "tok");
    bot.process_events(&Some(Event::Connect { peer: 0 }));
    bot.process_events(&Some(Event::Receive { data: vec![3, 0, 0, 0, b'h', b'i'] }));
    bot.process_events(&Some(Event::Receive { data: vec![4, 0, 0, 0, 7, 8] }));
    bot.process_events(&Some(Event::Receive { data: vec![4, 0, 0, 0] }));
    bot.process_events(&Some(Event::Receive { data: vec![1, 0, 0, 0] }));
    bot.process_events(&Some(Event::Receive { data: vec![2, 0, 0, 0, b'x'] }));
    bot.process_events(&None);
    bot.process_events(&Some(Event::Disconnect));
    assert_eq!(
        bot.logs,
        vec![
            line(LogLevel::Info, "Connected to the server"),
            line(LogLevel::Info, "Message: hi"),
            line(LogLevel::Error, "Failed to deserialize TankPacket: 7"),
            line(LogLevel::Error, "Failed to deserialize TankPacket"),
            line(LogLevel::Warn, "Disconnected from the server"),
        ]
    );
}
