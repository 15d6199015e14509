use acwc::config::Config;
use acwc::handlers::{
    admin_action, admin_page, admin_review_page, home_view, is_admin, register,
    registrations_by_status, status_label, AdminOutcome, AdminPage, AdminReviewPage, HomeView,
};
use acwc::phase::{current_phase, phase_at, RegistrationPhase};
use acwc::registry::{
    Registration, RegistrationStore, STATUS_APPROVED, STATUS_PENDING, STATUS_REJECTED,
};
use acwc::oauth::{begin_login, check_callback, finish_login, token_request_body, User};
use acwc::session::{ClientCookies, Session};
use chrono::TimeZone;

fn config() -> Config {
    Config {
        oauth_client_id: "cid".to_string(),
        oauth_client_secret: "unused".to_string(),
        tournament_director: "td".to_string(),
        server_url: "https://example.org".to_string(),
        postgres_options: "host=localhost".to_string(),
        register_open_at: utc(2021, 8, 1),
        register_close_at: utc(2021, 9, 1),
    }
}

fn utc(y: i32, m: u32, d: u32) -> i64 {
    chrono::Utc.with_ymd_and_hms(y, m, d, 0, 0, 0).unwrap().timestamp()
}

fn session(id: &str, name: &str) -> Session {
    Session { lichess_id: id.to_string(), lichess_username: name.to_string() }
}

fn record(id: &str, status: i32) -> Registration {
    Registration {
        lichess_id: id.to_string(),
        lichess_username: id.to_string(),
        status,
        registrant_comment: String::new(),
        td_comment: String::new(),
        special: false,
    }
}

#[test]
fn phase_follows_the_configured_window() {
    let open_at = utc(2021, 8, 1);
    let close_at = utc(2021, 9, 1);
    assert_eq!(phase_at(utc(2021, 7, 31), open_at, close_at), RegistrationPhase::NotOpen);
    assert_eq!(phase_at(utc(2021, 8, 15), open_at, close_at), RegistrationPhase::Open);
    assert_eq!(phase_at(utc(2021, 9, 2), open_at, close_at), RegistrationPhase::Closed);
    assert_eq!(phase_at(open_at, open_at, close_at), RegistrationPhase::Open);
    assert_eq!(phase_at(close_at, open_at, close_at), RegistrationPhase::Closed);
}

#[test]
fn current_phase_respects_degenerate_windows() {
    assert_eq!(current_phase(i64::MIN, i64::MAX), RegistrationPhase::Open);
    assert_eq!(current_phase(i64::MIN, i64::MIN), RegistrationPhase::Closed);
    assert_eq!(current_phase(i64::MAX, i64::MAX), RegistrationPhase::NotOpen);
}

#[test]
fn duplicate_registration_stores_one_pending_record() {
    let mut store = RegistrationStore::new();
    let visitor = session("u1", "Alice");
    register(&mut store, RegistrationPhase::Open, &visitor, Some("first".to_string()));
    register(&mut store, RegistrationPhase::Open, &visitor, Some("second".to_string()));
    let all = store.all_registrations();
    assert_eq!(all.len(), 1);
    assert_eq!(all[0].lichess_id, "u1");
    assert_eq!(all[0].status, STATUS_PENDING);
    assert_eq!(all[0].registrant_comment, "first");
}

#[test]
fn registration_outside_the_window_is_refused() {
    let mut store = RegistrationStore::new();
    let visitor = session("u1", "Alice");
    register(&mut store, RegistrationPhase::NotOpen, &visitor, None);
    register(&mut store, RegistrationPhase::Closed, &visitor, None);
    assert_eq!(store.all_registrations().len(), 0);
}

#[test]
fn registration_without_comment_stores_empty_comment() {
    let mut store = RegistrationStore::new();
    register(&mut store, RegistrationPhase::Open, &session("u1", "Alice"), None);
    let found = store.find_registration("u1").unwrap();
    assert_eq!(found.registrant_comment, "");
    assert_eq!(found.td_comment, "");
    assert!(!found.special);
}

#[test]
fn non_admin_actions_never_mutate_the_store() {
    let cfg = config();
    let mut store = RegistrationStore::new();
    register(&mut store, RegistrationPhase::Open, &session("u1", "Alice"), None);
    let intruder = session("u1", "Alice");
    for what in ["approve", "reject", "withdraw"] {
        let outcome = admin_action(
            &mut store,
            &intruder,
            &cfg,
            what,
            "u1",
            Some("grant me".to_string()),
        );
        assert_eq!(outcome, AdminOutcome::Forbidden);
    }
    let found = store.find_registration("u1").unwrap();
    assert_eq!(found.status, STATUS_PENDING);
    assert_eq!(found.td_comment, "");
    assert_eq!(store.all_registrations().len(), 1);
}

#[test]
fn admin_approve_sets_status_and_comment() {
    let cfg = config();
    let mut store = RegistrationStore::new();
    register(&mut store, RegistrationPhase::Open, &session("u1", "Alice"), None);
    let td = session("td", "Director");
    let outcome = admin_action(&mut store, &td, &cfg, "approve", "u1", Some("ok".to_string()));
    assert_eq!(outcome, AdminOutcome::Done);
    let found = store.find_registration("u1").unwrap();
    assert_eq!(found.status, STATUS_APPROVED);
    assert_eq!(found.td_comment, "ok");
}

#[test]
fn admin_reject_sets_status_and_comment() {
    let cfg = config();
    let mut store = RegistrationStore::new();
    register(&mut store, RegistrationPhase::Open, &session("u1", "Alice"), None);
    let td = session("td", "Director");
    let outcome = admin_action(&mut store, &td, &cfg, "reject", "u1", Some("no".to_string()));
    assert_eq!(outcome, AdminOutcome::Done);
    let found = store.find_registration("u1").unwrap();
    assert_eq!(found.status, STATUS_REJECTED);
    assert_eq!(found.td_comment, "no");
}

#[test]
fn admin_withdraw_removes_the_record() {
    let cfg = config();
    let mut store = RegistrationStore::new();
    register(&mut store, RegistrationPhase::Open, &session("u1", "Alice"), None);
    register(&mut store, RegistrationPhase::Open, &session("u2", "Bob"), None);
    let td = session("td", "Director");
    let outcome = admin_action(&mut store, &td, &cfg, "withdraw", "u1", None);
    assert_eq!(outcome, AdminOutcome::Done);
    assert!(store.find_registration("u1").is_none());
    assert!(store.find_registration("u2").is_some());
}

#[test]
fn unknown_admin_action_is_rejected_without_effect() {
    let cfg = config();
    let mut store = RegistrationStore::new();
    register(&mut store, RegistrationPhase::Open, &session("u1", "Alice"), None);
    let td = session("td", "Director");
    let outcome = admin_action(&mut store, &td, &cfg, "promote", "u1", None);
    assert_eq!(outcome, AdminOutcome::UnknownAction);
    assert_eq!(store.find_registration("u1").unwrap().status, STATUS_PENDING);
}

#[test]
fn admin_check_is_exact_equality_on_the_configured_id() {
    let cfg = config();
    assert!(is_admin(&session("td", "Director"), &cfg));
    assert!(!is_admin(&session("td2", "Director"), &cfg));
    assert!(!is_admin(&session("TD", "Director"), &cfg));
}

#[test]
fn home_view_follows_phase_session_and_record() {
    let visitor = Some(session("u1", "Alice"));
    assert!(matches!(home_view(RegistrationPhase::NotOpen, &None, &None), HomeView::Landing));
    assert!(matches!(
        home_view(RegistrationPhase::Closed, &visitor, &None),
        HomeView::RegistrationClosedPage
    ));
    assert!(matches!(
        home_view(RegistrationPhase::Open, &None, &None),
        HomeView::RegistrationOpenPage
    ));
    assert!(matches!(
        home_view(RegistrationPhase::Open, &visitor, &None),
        HomeView::RegistrationFormPage
    ));
    let mut reg = record("u1", STATUS_APPROVED);
    reg.td_comment = "ok".to_string();
    match home_view(RegistrationPhase::Open, &visitor, &Some(reg)) {
        HomeView::RegisteredPage { status, td_comment } => {
            assert_eq!(status, STATUS_APPROVED);
            assert_eq!(td_comment, "ok");
        },
        _ => panic!("a registered visitor must see their record"),
    }
}

#[test]
fn status_labels() {
    assert_eq!(status_label(STATUS_PENDING), "pending");
    assert_eq!(status_label(STATUS_APPROVED), "approved");
    assert_eq!(status_label(STATUS_REJECTED), "rejected");
}

#[test]
fn admin_list_is_stably_ordered_by_status() {
    let mut store = RegistrationStore::new();
    for (id, status) in [
        ("a", STATUS_REJECTED),
        ("b", STATUS_PENDING),
        ("c", STATUS_APPROVED),
        ("d", STATUS_PENDING),
    ] {
        store.insert_registration(record(id, status));
    }
    let ordered = registrations_by_status(&store);
    let ids: Vec<&str> = ordered.iter().map(|r| r.lichess_id.as_str()).collect();
    assert_eq!(ids, vec!["b", "d", "c", "a"]);
}

#[test]
fn admin_pages_are_gated_on_the_administrator() {
    let cfg = config();
    let mut store = RegistrationStore::new();
    register(&mut store, RegistrationPhase::Open, &session("u1", "Alice"), None);
    assert!(matches!(
        admin_page(&store, &session("u1", "Alice"), &cfg),
        AdminPage::AccessDenied
    ));
    match admin_page(&store, &session("td", "Director"), &cfg) {
        AdminPage::RegistrationList { registrations } => assert_eq!(registrations.len(), 1),
        AdminPage::AccessDenied => panic!("the administrator must see the list"),
    }
    assert!(matches!(
        admin_review_page(&session("u1", "Alice"), &cfg, None),
        AdminReviewPage::AccessDenied
    ));
    let found = store.find_registration("u1");
    match admin_review_page(&session("td", "Director"), &cfg, found) {
        AdminReviewPage::Review { registration } => {
            assert_eq!(registration.unwrap().lichess_id, "u1")
        },
        AdminReviewPage::AccessDenied => panic!("the administrator must see the record"),
    }
}

#[test]
fn end_to_end_login_register_approve_view() {
    let cfg = config();
    let key = b"server-signing-key".to_vec();
    let mut store = RegistrationStore::new();
    let mut jar = ClientCookies::new();

    // Login: mint the handshake, then the provider calls back with the state.
    let (_url, hs) = begin_login(&cfg.oauth_client_id, &cfg.server_url).unwrap();
    let state = hs.csrf_token.clone();
    jar.store_handshake(hs);
    let hs = check_callback(&mut jar, &state).expect("matching state must pass");
    let _body = token_request_body("CODE", &cfg.oauth_client_id, &hs.pkce_verifier, &cfg.server_url);
    let visitor = finish_login(
        &mut jar,
        &key,
        Some(User { id: "u1".to_string(), username: "Alice".to_string() }),
    )
    .unwrap();
    let visitor_back = jar.read_session(&key).unwrap();
    assert_eq!(visitor_back.lichess_id, visitor.lichess_id);

    // Registration during the open phase.
    let phase = phase_at(utc(2021, 8, 15), cfg.register_open_at, cfg.register_close_at);
    assert_eq!(phase, RegistrationPhase::Open);
    register(&mut store, phase, &visitor_back, Some("please".to_string()));
    let found = store.find_registration("u1").unwrap();
    assert_eq!(found.status, STATUS_PENDING);
    assert_eq!(found.registrant_comment, "please");

    // The administrator approves with a comment.
    let td = session("td", "Director");
    let outcome = admin_action(&mut store, &td, &cfg, "approve", "u1", Some("ok".to_string()));
    assert_eq!(outcome, AdminOutcome::Done);

    // The visitor's own status page shows the approval.
    let found = store.find_registration("u1");
    match home_view(phase, &Some(visitor_back), &found) {
        HomeView::RegisteredPage { status, td_comment } => {
            assert_eq!(status_label(status), "approved");
            assert_eq!(td_comment, "ok");
        },
        _ => panic!("the registered visitor must see their status"),
    }
}
