use aes::cipher::{block_padding::Pkcs7, BlockEncryptMut, KeyIvInit};

use mcp_web_porter::cookies::{
    chrome_ciphertext, chrome_cookie_from_row, chrome_cookie_key, cookie_domain_matches, cookie_host, decrypt_cookie_value,
    decrypt_cookie_value_linux, decrypt_cookie_value_macos, default_cookies_path, ChromeCookie,
    ChromeCookieExtractor, CookieKeySource, CookieRow, Platform,
};
use mcp_web_porter::error::HtmlError;
use mcp_web_porter::handlers::SessionHandler;
use mcp_web_porter::session::{SessionCommand, SessionEvent, SessionSetup, SessionStep};

fn encrypt_like_chrome(password: &[u8], rounds: u32, plaintext: &str) -> Vec<u8> {
    let mut key = [0u8; 16];
    pbkdf2::pbkdf2_hmac::<sha1::Sha1>(password, b"saltysalt", rounds, &mut key);
    let iv = [b' '; 16];
    let enc = cbc::Encryptor::<aes::Aes128>::new_from_slices(&key, &iv).unwrap();
    let n = plaintext.len();
    let mut buf = vec![0u8; n + 16];
    buf[..n].copy_from_slice(plaintext.as_bytes());
    let ct = enc.encrypt_padded_mut::<Pkcs7>(&mut buf, n).unwrap();
    let mut out = b"v10".to_vec();
    out.extend_from_slice(ct);
    out
}

fn row(encrypted: Vec<u8>, value: &str) -> CookieRow {
    CookieRow {
        host_key: ".example.com".into(),
        name: "sid".into(),
        encrypted_value: encrypted,
        value: value.into(),
        path: "/".into(),
        expires_utc: 13_300_000_000_000_000,
        is_secure: 1,
    }
}

#[test]
fn test_pbkdf2_key_derivation() {
    let key = chrome_cookie_key(b"peanuts", 1);
    assert_eq!(key.len(), 16);
    let mut expected = [0u8; 16];
    pbkdf2::pbkdf2_hmac::<sha1::Sha1>(b"peanuts", b"saltysalt", 1, &mut expected);
    assert_eq!(key, expected.to_vec());
}

#[test]
fn test_default_cookies_path_exists() {
    let p = default_cookies_path(Platform::Linux, Some("/home/u".to_string())).unwrap();
    assert!(p.contains("Chrome") || p.contains("google-chrome"));
    assert_eq!(p, "/home/u/.config/google-chrome/Default/Cookies");
}

#[test]
fn cookie_store_locations() {
    assert_eq!(
        default_cookies_path(Platform::MacOs, Some("/Users/u".into())).unwrap(),
        "/Users/u/Library/Application Support/Google/Chrome/Default/Cookies"
    );
    assert_eq!(
        default_cookies_path(Platform::Windows, Some("C:\\Users\\u\\AppData\\Local".into())).unwrap(),
        "C:\\Users\\u\\AppData\\Local\\Google/Chrome/User Data/Default/Network/Cookies"
    );
    assert!(default_cookies_path(Platform::Linux, None).is_none());
    assert!(default_cookies_path(Platform::Other, Some("/x".into())).is_none());
}

#[test]
fn linux_cookie_value_decrypts() {
    let enc = encrypt_like_chrome(b"peanuts", 1, "hello cookie");
    assert_eq!(decrypt_cookie_value_linux(&enc).as_deref(), Some("hello cookie"));
    assert_eq!(decrypt_cookie_value(&enc, &CookieKeySource::Linux).as_deref(), Some("hello cookie"));
    assert_eq!(decrypt_cookie_value(&enc, &CookieKeySource::Unsupported), None);
}

#[test]
fn macos_cookie_value_decrypts_with_keychain_password() {
    let enc = encrypt_like_chrome(b"keychain-secret", 1003, "mac value");
    assert_eq!(decrypt_cookie_value_macos(&enc, Some(b"keychain-secret")).as_deref(), Some("mac value"));
    assert_eq!(decrypt_cookie_value_macos(&enc, None), None);
    assert_eq!(decrypt_cookie_value_macos(&enc, Some(&[0xff, 0xfe])), None);
    assert_eq!(
        decrypt_cookie_value(&enc, &CookieKeySource::Keychain(Some(b"keychain-secret".to_vec()))).as_deref(),
        Some("mac value")
    );
}

#[test]
fn malformed_cookie_values_do_not_decrypt() {
    assert_eq!(decrypt_cookie_value_linux(b"v1"), None);
    assert_eq!(decrypt_cookie_value_linux(b"v12abcdefghijklmnop"), None);
    assert_eq!(decrypt_cookie_value_linux(b"v10abc"), None);
    assert_eq!(chrome_ciphertext(b"v11xyz"), Some(b"xyz".to_vec()));
    assert_eq!(chrome_ciphertext(b"w10xyz"), None);
}

#[test]
fn row_uses_decrypted_value_or_plaintext() {
    let enc = encrypt_like_chrome(b"peanuts", 1, "secret");
    let c: ChromeCookie = chrome_cookie_from_row(row(enc, "fallback"), &CookieKeySource::Linux);
    assert_eq!(c.value, "secret");
    assert!(c.is_secure);
    assert_eq!(c.host_key, ".example.com");
    let c = chrome_cookie_from_row(row(vec![], "plain"), &CookieKeySource::Linux);
    assert_eq!(c.value, "plain");
    let c = chrome_cookie_from_row(row(b"v10garbage-garbage".to_vec(), "plain"), &CookieKeySource::Linux);
    assert_eq!(c.value, "plain");
}

#[test]
fn unreadable_rows_are_skipped() {
    let ex = ChromeCookieExtractor;
    let rows = vec![Some(row(vec![], "a")), None, Some(row(vec![], "b"))];
    let cookies = ex.collect("example.com", rows, &CookieKeySource::Unsupported);
    assert_eq!(cookies.len(), 2);
    assert_eq!(cookies[0].value, "a");
    assert_eq!(cookies[1].value, "b");
}

fn row_for(host_key: &str, value: &str) -> CookieRow {
    let mut r = row(vec![], value);
    r.host_key = host_key.into();
    r
}

#[test]
fn cookies_of_other_domains_are_dropped() {
    let ex = ChromeCookieExtractor;
    let rows = vec![
        Some(row_for(".example.com", "parent")),
        Some(row_for("example.com.evil.net", "evil")),
        Some(row_for("app.example.com", "exact")),
        Some(row_for("other.org", "other")),
        Some(row_for("notexample.com", "lookalike")),
        Some(row_for("..app.example.com", "dots")),
    ];
    let cookies = ex.collect("app.example.com", rows, &CookieKeySource::Unsupported);
    let values: Vec<&str> = cookies.iter().map(|c| c.value.as_str()).collect();
    assert_eq!(values, vec!["parent", "exact", "dots"]);
}

#[test]
fn cookie_domain_matching() {
    assert!(cookie_domain_matches("example.com", ".example.com"));
    assert!(cookie_domain_matches("a.b.example.com", "example.com"));
    assert!(cookie_domain_matches("example.com", "example.com"));
    assert!(!cookie_domain_matches("example.com", "a.example.com"));
    assert!(!cookie_domain_matches("example.com.evil.net", "example.com"));
    assert!(!cookie_domain_matches("badexample.com", "example.com"));
    assert!(!cookie_domain_matches("example.com", ""));
}

#[test]
fn cookie_lookup_finds_host_and_store() {
    let ex = ChromeCookieExtractor;
    let l = ex.lookup("https://app.example.com:8443/x", Platform::Linux, Some("/home/u".into())).unwrap();
    assert_eq!(l.host, "app.example.com");
    assert_eq!(l.db_path, "/home/u/.config/google-chrome/Default/Cookies");
    match ex.lookup("https://example.com", Platform::Other, None) {
        Err(HtmlError::CookieExtractionError(m)) => assert!(m.starts_with("Chrome profile not found. Expected at:\nmacOS:")),
        other => panic!("unexpected {:?}", other.err()),
    }
    match ex.lookup("::nonsense", Platform::Linux, Some("/h".into())) {
        Err(HtmlError::InvalidUrl(m)) => assert_eq!(m, "Invalid URL: ::nonsense"),
        other => panic!("unexpected {:?}", other.err()),
    }
    match ex.missing_store("/h/Cookies") {
        HtmlError::CookieExtractionError(m) => assert_eq!(m, "Chrome cookies file not found at: /h/Cookies"),
        _ => panic!("expected CookieExtractionError"),
    }
    assert_eq!(cookie_host("http://localhost:3000/").unwrap(), "localhost");
    assert!(matches!(cookie_host("data:text/plain,x"), Err(HtmlError::InvalidUrl(_))));
}

fn cookie(name: &str) -> ChromeCookie {
    ChromeCookie {
        host_key: "example.com".into(),
        name: name.into(),
        value: "v".into(),
        path: "/".into(),
        expires_utc: 0,
        is_secure: false,
    }
}

fn command_name(c: &SessionCommand) -> String {
    match c {
        SessionCommand::AcquireSession => "acquire".into(),
        SessionCommand::ConnectBrowser { port } => format!("connect {}", port),
        SessionCommand::OpenTab => "tab".into(),
        SessionCommand::ExtractCookies => "cookies".into(),
        SessionCommand::SetCookie(c) => format!("cookie {}", c.name),
        SessionCommand::SetHeaders => "headers".into(),
        SessionCommand::Navigate => "navigate".into(),
        SessionCommand::Wait { ms } => format!("wait {}", ms),
        SessionCommand::ReadContent => "read".into(),
        SessionCommand::ListImages => "images".into(),
    }
}

#[test]
fn session_tab_sets_each_cookie_then_navigates() {
    let mut tab = SessionSetup::new(true, None);
    let mut step = SessionStep::Run(tab.begin());
    let mut log = Vec::new();
    let result = loop {
        match step {
            SessionStep::Finished(r) => break r,
            SessionStep::Run(c) => {
                log.push(command_name(&c));
                let ev = match c {
                    SessionCommand::ExtractCookies => SessionEvent::Cookies(vec![cookie("a"), cookie("b")]),
                    SessionCommand::SetHeaders => SessionEvent::Failed(HtmlError::BrowserError("ignored".into())),
                    _ => SessionEvent::Done,
                };
                step = tab.advance(ev);
            }
        }
    };
    assert!(result.is_ok());
    assert_eq!(log, vec!["acquire", "tab", "cookies", "cookie a", "cookie b", "headers", "navigate", "wait 1500"]);
}

#[test]
fn session_without_slot_is_unavailable() {
    let mut tab = SessionSetup::new(false, None);
    tab.begin();
    match tab.advance(SessionEvent::NoSession) {
        SessionStep::Finished(Err(HtmlError::SessionUnavailable(m))) => assert_eq!(m, "Failed to acquire session"),
        _ => panic!("expected SessionUnavailable"),
    }
}

#[test]
fn session_read_returns_text_and_tolerates_missing_images() {
    let handler = SessionHandler::default();
    let (mut flow, c) = handler.start_read_with_session("https://example.com", true, false, None).unwrap();
    let mut step: SessionStep<(String, Vec<String>)> = SessionStep::Run(c);
    let mut log = Vec::new();
    let result = loop {
        match step {
            SessionStep::Finished(r) => break r,
            SessionStep::Run(c) => {
                log.push(command_name(&c));
                let ev = match c {
                    SessionCommand::ExtractCookies => SessionEvent::Cookies(vec![]),
                    SessionCommand::ReadContent => SessionEvent::Html("<h2>Inbox</h2>".into()),
                    SessionCommand::ListImages => SessionEvent::ImageUrls(None),
                    _ => SessionEvent::Done,
                };
                step = flow.advance(ev);
            }
        }
    };
    let (text, images) = result.unwrap();
    assert_eq!(text, "## Inbox");
    assert!(images.is_empty());
    assert_eq!(log, vec!["acquire", "tab", "cookies", "navigate", "wait 1500", "read", "images"]);
}

#[test]
fn session_cookie_failure_ends_the_read() {
    let handler = SessionHandler::default();
    let (mut flow, _) = handler.start_read_with_session("https://example.com", false, false, None).unwrap();
    assert!(matches!(flow.advance(SessionEvent::Done), SessionStep::Run(SessionCommand::OpenTab)));
    assert!(matches!(flow.advance(SessionEvent::Done), SessionStep::Run(SessionCommand::ExtractCookies)));
    match flow.advance(SessionEvent::Failed(HtmlError::CookieExtractionError("no db".into()))) {
        SessionStep::Finished(Err(HtmlError::CookieExtractionError(m))) => assert_eq!(m, "no db"),
        _ => panic!("expected the extraction error"),
    }
}

#[test]
fn debug_port_session_skips_the_cookie_store() {
    let mut tab = SessionSetup::new(true, Some(9222));
    let mut step = SessionStep::Run(tab.begin());
    let mut log = Vec::new();
    let result = loop {
        match step {
            SessionStep::Finished(r) => break r,
            SessionStep::Run(c) => {
                log.push(command_name(&c));
                step = tab.advance(SessionEvent::Done);
            }
        }
    };
    assert!(result.is_ok());
    assert_eq!(log, vec!["connect 9222", "tab", "headers", "navigate", "wait 1500"]);
}

#[test]
fn debug_port_read_uses_the_running_chrome() {
    let handler = SessionHandler::default();
    let (mut flow, c) = handler.start_read_with_session("https://example.com", false, false, Some(9222)).unwrap();
    assert_eq!(command_name(&c), "connect 9222");
    assert!(matches!(flow.advance(SessionEvent::Done), SessionStep::Run(SessionCommand::OpenTab)));
    assert!(matches!(flow.advance(SessionEvent::Done), SessionStep::Run(SessionCommand::Navigate)));
}

#[test]
fn debug_port_without_chrome_is_reported() {
    let mut tab = SessionSetup::new(false, Some(9222));
    tab.begin();
    match tab.advance(SessionEvent::NoSession) {
        SessionStep::Finished(Err(HtmlError::SessionUnavailable(m))) => assert_eq!(
            m,
            "No Chrome instance found on port 9222. Make sure Chrome is running with --remote-debugging-port=9222."
        ),
        _ => panic!("expected SessionUnavailable"),
    }
}

#[test]
fn debug_port_zero_is_rejected() {
    match SessionHandler::default().start_read_with_session("https://example.com", true, false, Some(0)) {
        Err(e @ HtmlError::InvalidDebugPort) => {
            assert_eq!(e.message(), "Invalid debug_port: must be between 1 and 65535");
        }
        _ => panic!("expected InvalidDebugPort"),
    }
}
