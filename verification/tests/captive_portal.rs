use esp_clock::server::captive_portal::{
    check_content_length, check_content_length_within, config_page_paths, set_config,
    submit_config, MAILBOX_POLL_MS, MAX_LEN, SET_CONFIG_PATH,
};
use esp_clock::wifi::{Mailbox, WifiCredentials};

fn network(ssid: &str, password: &str) -> WifiCredentials {
    WifiCredentials { ssid: ssid.to_string(), password: password.to_string() }
}

#[test]
fn mailbox_starts_empty() {
    let mailbox = Mailbox::new();
    assert!(!mailbox.is_filled());
    assert!(mailbox.pending().is_none());
}

#[test]
fn mailbox_keeps_the_last_post() {
    let mut mailbox = Mailbox::new();
    mailbox.post(network("A", "first"));
    mailbox.post(network("B", "second"));
    let pending = mailbox.pending().expect("the mailbox was filled");
    assert_eq!(pending.ssid, "B");
    assert_eq!(pending.password, "second");
}

#[test]
fn reading_the_mailbox_does_not_empty_it() {
    let mut mailbox = Mailbox::new();
    mailbox.post(network("Home", "secret123"));
    assert!(mailbox.pending().is_some());
    assert!(mailbox.is_filled());
    let again = mailbox.pending().expect("the credentials stay in the slot");
    assert_eq!(again.ssid, "Home");
    assert_eq!(again.password, "secret123");
}

#[test]
fn cloned_credentials_are_equal() {
    let original = network("Home", "secret123");
    let copy = original.clone();
    assert_eq!(copy.ssid, original.ssid);
    assert_eq!(copy.password, original.password);
}

#[test]
fn oversized_submission_gets_413() {
    match check_content_length(Some(129)) {
        Err(response) => {
            assert_eq!(response.status, 413);
            assert_eq!(response.body, "Request too big");
        },
        Ok(_) => panic!("129 bytes are more than the bound"),
    }
    assert!(check_content_length(Some(u64::MAX)).is_err());
    assert!(check_content_length(Some(1 << 32)).is_err());
}

#[test]
fn submission_within_the_bound_is_read_in_full() {
    assert_eq!(check_content_length(Some(128)).ok(), Some(128));
    assert_eq!(check_content_length(Some(41)).ok(), Some(41));
    assert_eq!(check_content_length(Some(0)).ok(), Some(0));
    assert_eq!(MAX_LEN, 128);
}

#[test]
fn submission_without_declared_length_has_empty_body() {
    assert_eq!(check_content_length(None).ok(), Some(0));
}

#[test]
fn accepted_credentials_fill_the_mailbox_and_are_confirmed() {
    let mut mailbox = Mailbox::new();
    let response = set_config(&mut mailbox, Some(network("Home", "secret123")));
    assert_eq!(response.status, 200);
    assert_eq!(response.body, "SSID = Home and PASSWORD = secret123");
    let pending = mailbox.pending().expect("the mailbox was filled");
    assert_eq!(pending.ssid, "Home");
    assert_eq!(pending.password, "secret123");
}

#[test]
fn malformed_body_leaves_the_mailbox_empty() {
    let mut mailbox = Mailbox::new();
    let response = set_config(&mut mailbox, None);
    assert_eq!(response.status, 200);
    assert_eq!(response.body, "JSON error");
    assert!(!mailbox.is_filled());
}

#[test]
fn malformed_body_leaves_pending_credentials_alone() {
    let mut mailbox = Mailbox::new();
    set_config(&mut mailbox, Some(network("Home", "secret123")));
    let response = set_config(&mut mailbox, None);
    assert_eq!(response.body, "JSON error");
    let pending = mailbox.pending().expect("the earlier credentials still wait");
    assert_eq!(pending.ssid, "Home");
}

#[test]
fn second_submission_overwrites_the_first() {
    let mut mailbox = Mailbox::new();
    set_config(&mut mailbox, Some(network("Home", "wrongpass")));
    let response = set_config(&mut mailbox, Some(network("Home", "secret123")));
    assert_eq!(response.body, "SSID = Home and PASSWORD = secret123");
    assert_eq!(mailbox.pending().map(|c| c.password), Some("secret123".to_string()));
}

#[test]
fn config_page_is_served_at_the_root_and_all_probe_paths() {
    let paths = config_page_paths();
    assert_eq!(
        paths,
        vec![
            "/",
            "/gen_204",
            "/generate_204",
            "/fwlink",
            "/hotspot-detect.html",
            "/check_network_status.txt",
            "/connectivity-check.html",
            "/library/test/success.html",
            "/ncsi.txt",
            "/chat",
        ]
    );
    assert!(!paths.contains(&SET_CONFIG_PATH));
    assert_eq!(SET_CONFIG_PATH, "/set_config");
}

#[test]
fn mailbox_poll_interval_is_below_a_second() {
    assert_eq!(MAILBOX_POLL_MS, 500);
}

#[test]
fn chosen_bound_is_respected() {
    assert_eq!(check_content_length_within(Some(64), 64).ok(), Some(64));
    match check_content_length_within(Some(65), 64) {
        Err(response) => {
            assert_eq!(response.status, 413);
            assert_eq!(response.body, "Request too big");
        },
        Ok(_) => panic!("65 bytes are more than the bound"),
    }
    assert_eq!(check_content_length_within(None, 0).ok(), Some(0));
    assert!(check_content_length_within(Some(1), 0).is_err());
    assert_eq!(check_content_length_within(Some(4096), usize::MAX).ok(), Some(4096));
}

/// Reads the two strings out of a JSON object, as a form parser would.
fn parse(body: &[u8]) -> Option<WifiCredentials> {
    let value: serde_json::Value = serde_json::from_slice(body).ok()?;
    let object = value.as_object()?;
    Some(WifiCredentials {
        ssid: object.get("ssid")?.as_str()?.to_string(),
        password: object.get("password")?.as_str()?.to_string(),
    })
}

/// Serves a submission whose declared length is that of its body.
fn submit(mailbox: &mut Mailbox, body: &[u8]) -> (u16, String) {
    let response = submit_config(mailbox, Some(body.len() as u64), |len| {
        assert_eq!(len, body.len());
        parse(&body[..len])
    });
    (response.status, response.body)
}

#[test]
fn submission_is_served_from_length_to_response() {
    let mut mailbox = Mailbox::new();
    let body = br#"{"ssid":"Home","password":"secret123"}"#;
    assert_eq!(
        submit(&mut mailbox, body),
        (200, "SSID = Home and PASSWORD = secret123".to_string())
    );
    let pending = mailbox.pending().expect("the mailbox was filled");
    assert_eq!(pending.ssid, "Home");
    assert_eq!(pending.password, "secret123");
}

#[test]
fn oversized_submission_is_neither_read_nor_posted() {
    let mut mailbox = Mailbox::new();
    for declared in [129u64, 130, 1 << 20, u64::MAX] {
        let response = submit_config(&mut mailbox, Some(declared), |_| {
            panic!("the body of an oversized submission must not be read")
        });
        assert_eq!(response.status, 413);
        assert_eq!(response.body, "Request too big");
        assert!(!mailbox.is_filled());
    }

    mailbox.post(network("Home", "secret123"));
    let response = submit_config(&mut mailbox, Some(129), |_| Some(network("Evil", "x")));
    assert_eq!(response.status, 413);
    assert_eq!(mailbox.pending().map(|c| c.ssid), Some("Home".to_string()));
}

#[test]
fn malformed_json_never_fills_the_mailbox() {
    let bodies: [&[u8]; 12] = [
        b"",
        b"{",
        b"}",
        b"not json",
        br#"{"ssid":"Home""#,
        br#"{"ssid":"Home",}"#,
        br#"{"ssid":"Home","password":"secret123""#,
        br#"{"ssid":"Home" "password":"secret123"}"#,
        br#"{'ssid':'Home','password':'secret123'}"#,
        br#"{"ssid":"Home","password":"secret123"}}"#,
        b"\xff\xfe\x00",
        b"{\"ssid\":\"Ho\xffme\",\"password\":\"x\"}",
    ];
    for body in bodies {
        let mut mailbox = Mailbox::new();
        assert_eq!(submit(&mut mailbox, body), (200, "JSON error".to_string()));
        assert!(!mailbox.is_filled());
    }
}

#[test]
fn json_without_the_two_strings_never_fills_the_mailbox() {
    let bodies: [&[u8]; 6] = [
        b"{}",
        b"null",
        b"42",
        br#"{"ssid":"Home"}"#,
        br#"{"password":"secret123"}"#,
        br#"{"ssid":1,"password":"secret123"}"#,
    ];
    for body in bodies {
        let mut mailbox = Mailbox::new();
        assert_eq!(submit(&mut mailbox, body), (200, "JSON error".to_string()));
        assert!(!mailbox.is_filled());
    }
}

#[test]
fn body_of_exactly_the_bound_is_read() {
    let mut mailbox = Mailbox::new();
    let mut body = br#"{"ssid":"Home","password":""#.to_vec();
    while body.len() < MAX_LEN - 2 {
        body.push(b'p');
    }
    body.extend_from_slice(b"\"}");
    assert_eq!(body.len(), MAX_LEN);
    let (status, _) = submit(&mut mailbox, &body);
    assert_eq!(status, 200);
    assert_eq!(mailbox.pending().map(|c| c.password.len()), Some(99));
}

#[test]
fn submission_without_declared_length_reads_nothing() {
    let mut mailbox = Mailbox::new();
    let response = submit_config(&mut mailbox, None, |len| {
        assert_eq!(len, 0);
        parse(b"")
    });
    assert_eq!(response.status, 200);
    assert_eq!(response.body, "JSON error");
    assert!(!mailbox.is_filled());
}
