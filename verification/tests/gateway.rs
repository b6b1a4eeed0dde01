use articwake::api::assets::{asset_path, found_reply, not_found_reply, serve_static};
use articwake::api::auth::{admit_login, authenticate, finish_login, login_reply, AuthRequest};
use articwake::api::status::{get_status, status_reply};
use articwake::api::unlock::{unlock, unlock_reply, UnlockRequest};
use articwake::api::wol::{send_wol, wol_reply};
use articwake::api::{require_auth, Reply, ReplyBody};
use articwake::auth::limiter::ClientAddr;
use articwake::auth::sessions::TOKEN_EXPIRY_MS;
use articwake::auth::credential::check_pin;
use articwake::auth::limiter::RateLimiter;
use articwake::auth::sessions::SessionStore;
use articwake::auth::{AppState, AuthError};
use articwake::config::Config;
use articwake::enroll::hash_pin;
use articwake::services::network::{probe_plan, HostStatus};
use articwake::services::ssh::{Action, SshError, Stage};
use articwake::services::wol::WolError;

fn create_test_config() -> Config {
    Config {
        bind_host: "127.0.0.1".to_string(),
        port: 8080,
        homelab_mac: "aa:bb:cc:dd:ee:ff".to_string(),
        homelab_ip: "127.0.0.1".to_string(),
        homelab_broadcast: "255.255.255.255".to_string(),
        ssh_port: 2222,
        ssh_key_path: "/tmp/nonexistent-key".to_string(),
        pin_hash_path: "/tmp/pin.hash".to_string(),
    }
}

fn create_pin_hash(pin: &str) -> String {
    let hash = hash_pin(Some(pin)).expect("Failed to hash PIN");
    format!("{}\n", hash)
}

fn login(state: &mut AppState, hash_file: &str, pin: &str, now: u64) -> Reply {
    let body = AuthRequest { pin: pin.to_string() };
    authenticate(state, None, &body, Ok(hash_file.to_string()), now)
}

fn token_of(reply: &Reply) -> String {
    match &reply.body {
        ReplyBody::Token { token } => token.clone(),
        other => panic!("no token: {:?}", other),
    }
}

fn error_of(reply: &Reply) -> String {
    match &reply.body {
        ReplyBody::Error { error } => error.clone(),
        other => panic!("no error: {:?}", other),
    }
}

#[test]
fn test_auth_success() {
    let hash_file = create_pin_hash("1234");
    let mut state = AppState::new(create_test_config());

    let reply = login(&mut state, &hash_file, "1234", 0);
    assert_eq!(reply.status, 200);
    assert_eq!(token_of(&reply).len(), 64);
}

#[test]
fn test_auth_invalid_pin() {
    let hash_file = create_pin_hash("1234");
    let mut state = AppState::new(create_test_config());

    let reply = login(&mut state, &hash_file, "wrong", 0);
    assert_eq!(reply.status, 401);
    assert_eq!(error_of(&reply), "Invalid PIN");
}

#[test]
fn test_status_unauthorized() {
    let state = AppState::new(create_test_config());
    let reply = get_status(None, &state.sessions, &state.config, 0).unwrap_err();
    assert_eq!(reply.status, 401);
    assert_eq!(error_of(&reply), "Missing or invalid Authorization header");
}

#[test]
fn test_status_with_valid_token() {
    let hash_file = create_pin_hash("1234");
    let mut state = AppState::new(create_test_config());
    let token = token_of(&login(&mut state, &hash_file, "1234", 0));

    let header = format!("Bearer {}", token);
    let plan = get_status(Some(&header), &state.sessions, &state.config, 1).unwrap();
    assert_eq!(plan.host, "127.0.0.1");
    assert_eq!(plan.initrd_ssh_port, 2222);
    assert_eq!(plan.system_ssh_port, 22);

    let found = HostStatus { reachable: true, initrd_ssh_open: false, system_ssh_open: true };
    let reply = status_reply(&state.config, found);
    assert_eq!(reply.status, 200);
    match reply.body {
        ReplyBody::Status {
            homelab_ip,
            reachable,
            initrd_ssh_open,
            system_ssh_open,
            initrd_ssh_port,
        } => {
            assert_eq!(homelab_ip, "127.0.0.1");
            assert!(reachable);
            assert!(!initrd_ssh_open);
            assert!(system_ssh_open);
            assert_eq!(initrd_ssh_port, 2222);
        }
        other => panic!("unexpected: {:?}", other),
    }
}

#[test]
fn test_status_with_invalid_token() {
    let state = AppState::new(create_test_config());
    let reply = get_status(Some("Bearer invalid-token"), &state.sessions, &state.config, 0).unwrap_err();
    assert_eq!(reply.status, 401);
    assert_eq!(error_of(&reply), "Invalid or expired token");
}

#[test]
fn test_wol_unauthorized() {
    let state = AppState::new(create_test_config());
    let reply = send_wol(None, &state.sessions, &state.config, 0).unwrap_err();
    assert_eq!(reply.status, 401);
}

#[test]
fn test_wol_with_valid_token() {
    let hash_file = create_pin_hash("1234");
    let mut state = AppState::new(create_test_config());
    let token = token_of(&login(&mut state, &hash_file, "1234", 0));

    let header = format!("Bearer {}", token);
    let datagram = send_wol(Some(&header), &state.sessions, &state.config, 1).unwrap();
    assert_eq!(datagram.destination, "255.255.255.255:9");
    assert_eq!(datagram.payload.len(), 102);
    assert_eq!(&datagram.payload[..6], &[0xff; 6]);
    assert_eq!(&datagram.payload[96..], &[0xaa, 0xbb, 0xcc, 0xdd, 0xee, 0xff]);

    let reply = wol_reply(Ok(()));
    assert_eq!(reply.status, 200);
    match reply.body {
        ReplyBody::Success { message } => assert_eq!(message, "Wake-on-LAN packet sent"),
        other => panic!("unexpected: {:?}", other),
    }
}

#[test]
fn test_rate_limiting() {
    let hash_file = create_pin_hash("1234");
    let mut state = AppState::new(create_test_config());

    // Make 10 failed attempts (the limit)
    for _ in 0..10 {
        let reply = login(&mut state, &hash_file, "wrong", 1_000);
        assert_eq!(reply.status, 401);
    }

    // 11th attempt should be rate limited
    let reply = login(&mut state, &hash_file, "wrong", 1_000);
    assert_eq!(reply.status, 429); // Too Many Requests
    assert_eq!(error_of(&reply), "Too many authentication attempts. Please wait.");
}

#[test]
fn rate_limited_login_is_not_checked_even_with_the_right_pin() {
    let mut state = AppState::new(create_test_config());
    let peer = Some(ClientAddr::v4(203, 0, 113, 7));
    for _ in 0..10 {
        assert!(admit_login(&mut state.rate_limits, peer, 0).is_ok());
    }
    let body = AuthRequest { pin: "1234".to_string() };
    // Were the file looked at, the answer would be a server fault.
    let reply = authenticate(&mut state, peer, &body, Err("unreadable".to_string()), 0);
    assert_eq!(reply.status, 429);
    // Another address, and a request without one, are not held back.
    let other = Some(ClientAddr::v4(203, 0, 113, 8));
    let reply = authenticate(&mut state, other, &body, Err("unreadable".to_string()), 0);
    assert_eq!(reply.status, 500);
    let reply = authenticate(&mut state, None, &body, Err("unreadable".to_string()), 0);
    assert_eq!(reply.status, 500);
}

#[test]
fn requests_without_a_peer_count_as_localhost() {
    let mut state = AppState::new(create_test_config());
    for _ in 0..10 {
        assert!(admit_login(&mut state.rate_limits, None, 0).is_ok());
    }
    let reply = admit_login(&mut state.rate_limits, Some(ClientAddr::v4(127, 0, 0, 1)), 0).unwrap_err();
    assert_eq!(reply.status, 429);
}

#[test]
fn login_step_by_step_on_tables_kept_apart() {
    let hash_file = create_pin_hash("1234");
    let mut limiter = RateLimiter::new();
    let mut sessions = SessionStore::new();
    let peer = Some(ClientAddr::v4(198, 51, 100, 4));

    assert!(admit_login(&mut limiter, peer, 5).is_ok());
    let reply = finish_login(&mut sessions, check_pin("4321", Ok(hash_file.clone())), 5);
    assert_eq!((reply.status, error_of(&reply).as_str()), (401, "Invalid PIN"));

    assert!(admit_login(&mut limiter, peer, 6).is_ok());
    let reply = finish_login(&mut sessions, check_pin("1234", Ok(hash_file)), 6);
    assert_eq!(reply.status, 200);
    let token = token_of(&reply);
    assert_eq!(token.len(), 64);
    assert!(sessions.validate(&token, 6 + TOKEN_EXPIRY_MS - 1).is_ok());
    assert!(sessions.validate(&token, 6 + TOKEN_EXPIRY_MS).is_err());

    let reply = finish_login(&mut sessions, Err(AuthError::PinHashReadFailed("gone".to_string())), 7);
    assert_eq!((reply.status, error_of(&reply).as_str()), (500, "Authentication failed"));
}

#[test]
fn login_reply_for_each_outcome() {
    let reply = login_reply(Ok("t0ken".to_string()));
    assert_eq!(reply.status, 200);
    assert_eq!(token_of(&reply), "t0ken");
    let reply = login_reply(Err(AuthError::InvalidPin));
    assert_eq!((reply.status, error_of(&reply).as_str()), (401, "Invalid PIN"));
    for fault in [
        AuthError::PinHashReadFailed("/secret/path: denied".to_string()),
        AuthError::InvalidPinHash("bad".to_string()),
        AuthError::RateLimited,
        AuthError::InvalidToken,
    ] {
        let reply = login_reply(Err(fault));
        // The detail of the fault is not passed on.
        assert_eq!((reply.status, error_of(&reply).as_str()), (500, "Authentication failed"));
    }
}

#[test]
fn require_auth_follows_the_session() {
    let mut state = AppState::new(create_test_config());
    let token = state.conclude_login(Ok(()), 0).unwrap();
    let header = format!("Bearer {}", token);
    assert!(require_auth(Some(&header), &state.sessions, TOKEN_EXPIRY_MS - 1).is_ok());
    let late = require_auth(Some(&header), &state.sessions, 16 * 60 * 1000).unwrap_err();
    assert_eq!((late.status, error_of(&late).as_str()), (401, "Invalid or expired token"));
    let basic = format!("Basic {}", token);
    let reply = require_auth(Some(&basic), &state.sessions, 0).unwrap_err();
    assert_eq!(error_of(&reply), "Missing or invalid Authorization header");
    let bare = require_auth(Some(&token), &state.sessions, 0).unwrap_err();
    assert_eq!(bare.status, 401);
}

#[test]
fn unlock_needs_token_then_passphrase() {
    let mut state = AppState::new(create_test_config());
    let token = state.conclude_login(Ok(()), 0).unwrap();
    let header = format!("Bearer {}", token);

    // No token: turned away before the passphrase is looked at.
    let body = UnlockRequest { passphrase: String::new() };
    let reply = unlock(None, &state.sessions, &state.config, &body, 0).err().unwrap();
    assert_eq!(reply.status, 401);

    let reply = unlock(Some(&header), &state.sessions, &state.config, &body, 0).err().unwrap();
    assert_eq!((reply.status, error_of(&reply).as_str()), (400, "Passphrase cannot be empty"));

    let body = UnlockRequest { passphrase: "x".repeat(1025) };
    let reply = unlock(Some(&header), &state.sessions, &state.config, &body, 0).err().unwrap();
    assert_eq!((reply.status, error_of(&reply).as_str()), (400, "Passphrase too long"));

    let body = UnlockRequest { passphrase: "two\nlines".to_string() };
    let reply = unlock(Some(&header), &state.sessions, &state.config, &body, 0).err().unwrap();
    assert_eq!(
        (reply.status, error_of(&reply).as_str()),
        (400, "Passphrase contains invalid characters")
    );

    let body = UnlockRequest { passphrase: "correct horse".to_string() };
    let mut session = unlock(Some(&header), &state.sessions, &state.config, &body, 0).ok().unwrap();
    assert_eq!(session.stage(), Stage::LoadKey);
    match session.action() {
        Action::LoadKey { path } => assert_eq!(path, "/tmp/nonexistent-key"),
        _ => panic!("another action was named"),
    }
    session.advance(articwake::services::ssh::StepResult::Completed);
    match session.action() {
        Action::Connect { host, port, .. } => {
            assert_eq!((host.as_str(), port), ("127.0.0.1", 2222))
        }
        _ => panic!("another action was named"),
    }
}

#[test]
fn unlock_reply_for_each_outcome() {
    let reply = unlock_reply(Ok(()));
    assert_eq!(reply.status, 200);
    match reply.body {
        ReplyBody::Success { message } => assert_eq!(message, "Passphrase sent successfully"),
        other => panic!("unexpected: {:?}", other),
    }
    let reply = unlock_reply(Err(SshError::KeyLoadFailed("/etc/secrets/key: no such file".to_string())));
    assert_eq!((reply.status, error_of(&reply).as_str()), (500, "Failed to unlock"));
    let reply = unlock_reply(Err(SshError::AuthFailed));
    assert_eq!((reply.status, error_of(&reply).as_str()), (500, "Failed to unlock"));
    for failure in [
        SshError::ConnectionFailed("10.0.0.1:2222 refused".to_string()),
        SshError::ChannelFailed("closed".to_string()),
        SshError::SendFailed("broken pipe".to_string()),
    ] {
        let reply = unlock_reply(Err(failure));
        assert_eq!((reply.status, error_of(&reply).as_str()), (500, "Failed to unlock"));
    }
}

#[test]
fn wol_with_a_bad_configured_address_is_a_server_fault() {
    let mut config = create_test_config();
    config.homelab_mac = "nonsense".to_string();
    let mut state = AppState::new(config);
    let token = state.conclude_login(Ok(()), 0).unwrap();
    let header = format!("Bearer {}", token);
    let reply = send_wol(Some(&header), &state.sessions, &state.config, 0).unwrap_err();
    assert_eq!((reply.status, error_of(&reply).as_str()), (500, "Failed to send WOL packet"));
    let reply = wol_reply(Err(WolError::SendFailed("unreachable".to_string())));
    assert_eq!((reply.status, error_of(&reply).as_str()), (500, "Failed to send WOL packet"));
}

#[test]
fn host_status_from_the_three_probes() {
    let status = HostStatus::from_probes(true, false, true);
    assert_eq!(
        status,
        HostStatus { reachable: true, initrd_ssh_open: false, system_ssh_open: true }
    );
    let status = HostStatus::from_probes(false, true, false);
    assert_eq!((status.reachable, status.initrd_ssh_open, status.system_ssh_open), (false, true, false));
}

#[test]
fn probe_plan_names_both_shells() {
    let plan = probe_plan("192.0.2.1", 2222);
    assert_eq!(plan.host, "192.0.2.1");
    assert_eq!((plan.ping_count, plan.ping_wait_secs), (1, 2));
    assert_eq!((plan.initrd_ssh_port, plan.system_ssh_port), (2222, 22));
    assert_eq!(plan.connect_timeout_secs, 3);
}

#[test]
fn static_files() {
    assert_eq!(asset_path(""), "index.html");
    assert_eq!(asset_path("app.js"), "app.js");

    let missing = serve_static("nope.txt", None);
    assert_eq!(missing.status, 404);
    assert_eq!(missing.body, b"Not found".to_vec());
    assert!(missing.content_type.is_none());
    let missing = not_found_reply();
    assert_eq!(missing.status, 404);

    let page = serve_static("index.html", Some(b"<html></html>".to_vec()));
    assert_eq!(page.status, 200);
    assert_eq!(page.body, b"<html></html>".to_vec());
    assert_eq!(page.content_type.as_deref(), Some("text/html"));

    let blob = serve_static("data.unknown-extension", Some(vec![1, 2, 3]));
    assert_eq!(blob.content_type.as_deref(), Some("application/octet-stream"));

    let made = found_reply(vec![9], "image/png".to_string());
    assert_eq!((made.status, made.body, made.content_type), (200, vec![9], Some("image/png".to_string())));
}
