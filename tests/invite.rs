use invite_gate::admin::{draw_tokens, generate_codes, insert_fresh, stats, TOKEN_LEN};
use invite_gate::document::{placeholder, CacheMode, DocKind, DocumentCache};
use invite_gate::redeem::{auth_reply, logout, redeem, RedeemError};
use invite_gate::session::{page_for, requested_document, Session};
use invite_gate::store::{InviteRecord, InviteStore};

fn s(x: &str) -> String {
    x.to_string()
}

fn store_with(codes: &[&str]) -> InviteStore {
    let mut st = InviteStore::new();
    for c in codes {
        assert!(st.insert_unique(&s(c), 100));
    }
    st
}

#[test]
fn insert_unique_rejects_duplicate() {
    let mut st = InviteStore::new();
    assert!(st.insert_unique(&s("A"), 1));
    assert!(!st.insert_unique(&s("A"), 2));
    assert_eq!(st.len(), 1);
    assert_eq!(st.record(&s("A")).unwrap().created_at, 1);
}

#[test]
fn lookup_reports_presence_and_use() {
    let mut st = store_with(&["A"]);
    assert_eq!(st.lookup(&s("A")), Some(false));
    assert_eq!(st.lookup(&s("B")), None);
    assert!(st.consume(&s("A"), 5, &s("9.9.9.9")));
    assert_eq!(st.lookup(&s("A")), Some(true));
}

#[test]
fn consume_stamps_once() {
    let mut st = store_with(&["A"]);
    assert!(st.consume(&s("A"), 5, &s("1.1.1.1")));
    assert!(!st.consume(&s("A"), 6, &s("2.2.2.2")));
    assert!(!st.consume(&s("missing"), 6, &s("2.2.2.2")));
    let rec = st.record(&s("A")).unwrap();
    assert!(rec.used);
    assert_eq!(rec.used_at, Some(5));
    assert_eq!(rec.visitor_ip, Some(s("1.1.1.1")));
}

#[test]
fn only_first_redemption_succeeds() {
    let mut st = store_with(&["CODE"]);
    let first = redeem(&mut st, &s("CODE"), 10, &s("1.1.1.1"), true);
    let session = first.unwrap();
    assert!(session.authenticated);
    assert_eq!(session.redeemed_code, Some(s("CODE")));
    for t in 0..5 {
        let again = redeem(&mut st, &s("CODE"), 11 + t, &s("2.2.2.2"), t % 2 == 0);
        assert_eq!(again.err(), Some(RedeemError::AlreadyUsed));
    }
    let rec = st.record(&s("CODE")).unwrap();
    assert_eq!(rec.used_at, Some(10));
    assert_eq!(rec.visitor_ip, Some(s("1.1.1.1")));
}

#[test]
fn unknown_code_is_invalid_and_changes_nothing() {
    let mut st = store_with(&["A", "B"]);
    let r = redeem(&mut st, &s("ZZZ"), 10, &s("unknown"), true);
    assert_eq!(r.err(), Some(RedeemError::InvalidCode));
    assert_eq!(st.len(), 2);
    assert_eq!(st.lookup(&s("A")), Some(false));
    assert_eq!(st.lookup(&s("B")), Some(false));
    assert_eq!(stats(&st).used, 0);
}

#[test]
fn failed_write_keeps_code_unused() {
    let mut st = store_with(&["A"]);
    let r = redeem(&mut st, &s("A"), 10, &s("1.1.1.1"), false);
    assert_eq!(r.err(), Some(RedeemError::StorageFailure));
    assert_eq!(st.lookup(&s("A")), Some(false));
    assert!(redeem(&mut st, &s("A"), 11, &s("1.1.1.1"), true).is_ok());
}

#[test]
fn generate_five_codes_are_fresh_and_unused() {
    let mut st = store_with(&["A"]);
    let codes = generate_codes(&mut st, 5);
    assert!(codes.len() <= 5);
    assert_eq!(st.len(), 1 + codes.len());
    for (i, c) in codes.iter().enumerate() {
        assert_eq!(st.lookup(c), Some(false));
        assert_eq!(c.chars().count(), TOKEN_LEN);
        assert!(c
            .chars()
            .all(|ch| ch.is_ascii_alphanumeric() || ch == '_' || ch == '-'));
        for d in codes.iter().skip(i + 1) {
            assert_ne!(c, d);
        }
    }
}

#[test]
fn generate_zero_codes() {
    let mut st = InviteStore::new();
    assert!(generate_codes(&mut st, 0).is_empty());
    assert_eq!(st.len(), 0);
}

#[test]
fn stats_add_up() {
    let mut st = store_with(&["A", "B", "C"]);
    let e = stats(&st);
    assert_eq!((e.total, e.used, e.available), (3, 0, 3));
    assert!(st.consume(&s("B"), 1, &s("x")));
    let e = stats(&st);
    assert_eq!((e.total, e.used, e.available), (3, 1, 2));
    let empty = stats(&InviteStore::new());
    assert_eq!((empty.total, empty.used, empty.available), (0, 0, 0));
}

#[test]
fn restore_checks_rows() {
    let mut st = InviteStore::new();
    let used = InviteRecord {
        code: s("A"),
        used: true,
        created_at: 1,
        used_at: Some(2),
        visitor_ip: Some(s("ip")),
    };
    assert!(st.restore(used));
    let broken = InviteRecord {
        code: s("B"),
        used: true,
        created_at: 1,
        used_at: None,
        visitor_ip: None,
    };
    assert!(!st.restore(broken));
    let dup = InviteRecord { code: s("A"), used: false, created_at: 3, used_at: None, visitor_ip: None };
    assert!(!st.restore(dup));
    assert_eq!(st.len(), 1);
    assert_eq!(st.lookup(&s("A")), Some(true));
}

#[test]
fn reply_codes_are_distinct() {
    let ok = auth_reply(&Ok(Session { authenticated: true, redeemed_code: Some(s("A")) }));
    assert_eq!((ok.status, ok.success), (200, true));
    assert_eq!(ok.message, "验证成功");
    let invalid = auth_reply(&Err(RedeemError::InvalidCode));
    assert_eq!((invalid.status, invalid.success), (404, false));
    assert_eq!(invalid.message, "无效的邀请码");
    let used = auth_reply(&Err(RedeemError::AlreadyUsed));
    assert_eq!((used.status, used.success), (400, false));
    assert_eq!(used.message, "邀请码已被使用");
    let failed = auth_reply(&Err(RedeemError::StorageFailure));
    assert_eq!((failed.status, failed.success), (500, false));
    assert_eq!(failed.message, "服务器错误");
}

#[test]
fn logout_is_idempotent() {
    let mut sess = Session::anonymous();
    let reply = logout(&mut sess);
    assert_eq!((reply.status, reply.success), (200, true));
    assert_eq!(reply.message, "已退出");
    assert!(!sess.authenticated);
    assert_eq!(requested_document(&sess), DocKind::Public);
    let mut authed = Session { authenticated: true, redeemed_code: Some(s("A")) };
    let again = logout(&mut authed);
    assert!(again.success);
    assert!(!authed.authenticated);
    assert_eq!(authed.redeemed_code, None);
}

#[test]
fn insert_fresh_skips_present_repeated_and_unwritten() {
    let mut st = store_with(&["OLD"]);
    let tokens = vec![s("N1"), s("OLD"), s("N2"), s("N1"), s("N3"), s("N4")];
    let written = vec![true, true, true, true, false, true];
    let added = insert_fresh(&mut st, &tokens, &written, 42);
    assert_eq!(added, vec![s("N1"), s("N2"), s("N4")]);
    assert_eq!(st.len(), 4);
    assert_eq!(st.lookup(&s("N3")), None);
    for c in &added {
        let rec = st.record(c).unwrap();
        assert!(!rec.used);
        assert_eq!(rec.created_at, 42);
    }
}

#[test]
fn insert_fresh_retries_token_whose_first_write_failed() {
    let mut st = InviteStore::new();
    let tokens = vec![s("X"), s("X")];
    let added = insert_fresh(&mut st, &tokens, &vec![false, true], 7);
    assert_eq!(added, vec![s("X")]);
    assert_eq!(st.lookup(&s("X")), Some(false));
}

#[test]
fn draw_tokens_gives_n_random_codes() {
    let tokens = draw_tokens(3);
    assert_eq!(tokens.len(), 3);
    for t in &tokens {
        assert_eq!(t.chars().count(), TOKEN_LEN);
    }
    assert_ne!(tokens[0], tokens[1]);
}

#[test]
fn generate_into_empty_store_adds_some() {
    let mut st = InviteStore::new();
    let codes = generate_codes(&mut st, 5);
    assert!(!codes.is_empty());
    assert_eq!(stats(&st).available, codes.len());
}

#[test]
fn logout_after_redemption_shows_public_page() {
    let mut st = store_with(&["A"]);
    let cache = DocumentCache::new(CacheMode::Frozen, Some(s("secret")), Some(s("login")));
    let mut sess = redeem(&mut st, &s("A"), 1, &s("ip"), true).unwrap();
    assert_eq!(page_for(&cache, &sess, None).body, "secret");
    logout(&mut sess);
    let page = page_for(&cache, &sess, None);
    assert_eq!(page.body, "login");
    assert_eq!(st.lookup(&s("A")), Some(true));
}

#[test]
fn frozen_cache_ignores_later_edits() {
    let cache = DocumentCache::new(CacheMode::Frozen, Some(s("v1")), Some(s("pub1")));
    let authed = Session { authenticated: true, redeemed_code: Some(s("A")) };
    let before = page_for(&cache, &authed, Some(s("v1")));
    let after = page_for(&cache, &authed, Some(s("v2")));
    assert_eq!(before.body, "v1");
    assert_eq!(after.body, "v1");
    assert_eq!(after.status, 200);
    assert!(after.html && after.no_store);
}

#[test]
fn read_through_cache_follows_edits() {
    let cache = DocumentCache::new(CacheMode::ReadThrough, None, None);
    let anon = Session::anonymous();
    assert_eq!(page_for(&cache, &anon, Some(s("pub1"))).body, "pub1");
    assert_eq!(page_for(&cache, &anon, Some(s("pub2"))).body, "pub2");
}

#[test]
fn read_through_unreadable_source_is_server_error() {
    let cache = DocumentCache::new(CacheMode::ReadThrough, None, None);
    let anon = Session::anonymous();
    let page = page_for(&cache, &anon, None);
    assert_eq!(page.status, 500);
    assert!(!page.html);
    assert!(page.no_store);
    assert_eq!(page.body, "服务器暂时无法加载登录页面，请稍后重试");
    let authed = Session { authenticated: true, redeemed_code: None };
    assert_eq!(page_for(&cache, &authed, None).body, "服务器暂时无法加载简历内容，请稍后重试");
}

#[test]
fn frozen_load_failure_uses_placeholder() {
    let cache = DocumentCache::new(CacheMode::Frozen, None, Some(s("login")));
    let authed = Session { authenticated: true, redeemed_code: None };
    let page = page_for(&cache, &authed, Some(s("ignored")));
    assert_eq!(page.body, placeholder(DocKind::Protected));
    assert_eq!(page.status, 200);
    assert!(page.body.contains("服务器错误"));
}

#[test]
fn end_to_end_abc123() {
    let mut st = store_with(&["ABC123"]);
    let cache = DocumentCache::new(CacheMode::Frozen, Some(s("resume")), Some(s("auth")));
    let first = redeem(&mut st, &s("ABC123"), 1, &s("unknown"), true);
    let reply = auth_reply(&first);
    assert!(reply.success);
    assert_eq!(reply.status, 200);
    assert_eq!(st.lookup(&s("ABC123")), Some(true));
    let second = redeem(&mut st, &s("ABC123"), 2, &s("unknown"), true);
    let reply2 = auth_reply(&second);
    assert!(!reply2.success);
    assert_eq!(reply2.status, 400);
    assert!(!reply2.message.is_empty());
    let mut sess = first.unwrap();
    assert_eq!(page_for(&cache, &sess, None).body, "resume");
    sess.logout();
    assert_eq!(page_for(&cache, &sess, None).body, "auth");
}
