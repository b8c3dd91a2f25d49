//! The per-domain session cache and its keys.

use antibot_rs::session_cache::{
    domain_or_host, extract_domain, key_of_host, SessionCache, SessionCacheConfig, UrlHost,
};
use antibot_rs::time::{Duration, Instant, SystemTime};
use antibot_rs::Cookie;

const SEC: u128 = 1_000_000_000;

fn at(secs: u128) -> Instant {
    Instant { nanos: secs * SEC }
}

fn wall(secs: i128) -> SystemTime {
    SystemTime { unix_nanos: secs * SEC as i128 }
}

fn put(cache: &mut SessionCache, domain: &str, cookies: Vec<Cookie>, status: u16, secs: u128) {
    cache.insert(
        domain.to_string(),
        cookies,
        "UA".to_string(),
        status,
        at(secs),
        wall(1_000 + secs as i128),
    );
}

#[test]
fn registrable_domain_collapses_subdomains() {
    assert_eq!(
        extract_domain("https://www.walmart.com/cart"),
        Some("walmart.com".to_string())
    );
    assert_eq!(
        extract_domain("https://walmart.com/"),
        Some("walmart.com".to_string())
    );
    assert_eq!(
        extract_domain("https://a.b.example.co.uk/x"),
        Some("example.co.uk".to_string())
    );
}

#[test]
fn non_registrable_hosts_fall_back_to_full_host() {
    assert_eq!(
        extract_domain("http://localhost:8191/"),
        Some("localhost".to_string())
    );
    assert_eq!(
        extract_domain("http://127.0.0.1/"),
        Some("127.0.0.1".to_string())
    );
}

#[test]
fn unparseable_urls_return_none() {
    assert_eq!(extract_domain("not a url"), None);
}

#[test]
fn siblings_have_one_key() {
    let a = key_of_host(UrlHost::Domain("WWW.Walmart.com".to_string()));
    let b = key_of_host(UrlHost::Domain("m.walmart.COM".to_string()));
    assert_eq!(a, "walmart.com");
    assert_eq!(a, b);
    assert_eq!(key_of_host(UrlHost::Address("[::1]".to_string())), "[::1]");
    assert_eq!(extract_domain("http://[2001:DB8::1]/"), Some("[2001:db8::1]".to_string()));
    assert_eq!(domain_or_host("h".to_string(), None), "h");
    assert_eq!(domain_or_host("a.h".to_string(), Some("h".to_string())), "h");
    assert_eq!(extract_domain("data:text/plain,x"), None);
}

#[test]
fn sessions_are_served_until_the_ttl() {
    let mut cache = SessionCache::new(SessionCacheConfig::default());
    put(&mut cache, "a.com", vec![Cookie::new("k", "v")], 201, 10);
    assert_eq!(cache.len(), 1);
    let hit = cache.get("a.com", at(10 + 1799)).unwrap();
    assert_eq!(hit.status, 201);
    assert_eq!(hit.cookies.len(), 1);
    assert_eq!(hit.cookies[0].name, "k");
    assert_eq!(hit.user_agent, "UA");
    assert_eq!(hit.age(at(15)), Duration::from_secs(5));
    assert!(!hit.is_expired(at(1809)));
    assert!(hit.is_expired(at(1810)));
    // An expired session is dropped by the lookup that finds it.
    assert!(cache.get("a.com", at(10 + 1800)).is_none());
    assert_eq!(cache.len(), 0);
    assert!(cache.get("b.com", at(0)).is_none());
}

#[test]
fn the_soonest_cookie_expiry_shortens_a_session() {
    let cookies = || {
        vec![
            Cookie::new("late", "1").with_expires(wall(2_000)),
            Cookie::new("soon", "2").with_expires(wall(1_060)),
            Cookie::new("gone", "3").with_expires(wall(999)),
            Cookie::new("session", "4").with_expires(wall(-1)),
        ]
    };
    let mut cache = SessionCache::new(SessionCacheConfig::default());
    put(&mut cache, "a.com", cookies(), 200, 0);
    assert!(cache.get("a.com", at(59)).is_some());
    assert!(cache.get("a.com", at(60)).is_none());

    let mut ignoring = SessionCache::new(SessionCacheConfig {
        default_ttl: Duration::from_secs(100),
        max_entries: 10,
        respect_cookie_expiry: false,
    });
    put(&mut ignoring, "a.com", cookies(), 200, 0);
    assert!(ignoring.get("a.com", at(99)).is_some());
    assert!(ignoring.get("a.com", at(100)).is_none());
}

#[test]
fn the_cap_holds_after_every_insert() {
    let mut cache = SessionCache::new(SessionCacheConfig {
        default_ttl: Duration::from_secs(100),
        max_entries: 2,
        respect_cookie_expiry: true,
    });
    for d in ["a.com", "b.com", "c.com", "d.com"] {
        put(&mut cache, d, Vec::new(), 200, 0);
        assert!(cache.len() <= 2);
    }
    assert_eq!(cache.len(), 2);
    let mut none = SessionCache::new(SessionCacheConfig {
        default_ttl: Duration::from_secs(100),
        max_entries: 0,
        respect_cookie_expiry: true,
    });
    put(&mut none, "a.com", Vec::new(), 200, 0);
    assert_eq!(none.len(), 0);
}

#[test]
fn invalidating_one_domain_keeps_the_others() {
    let mut cache = SessionCache::new(SessionCacheConfig::default());
    put(&mut cache, "a.com", Vec::new(), 200, 0);
    put(&mut cache, "b.com", Vec::new(), 200, 0);
    put(&mut cache, "a.com", Vec::new(), 404, 1);
    assert_eq!(cache.len(), 2);
    assert_eq!(cache.get("a.com", at(2)).unwrap().status, 404);
    cache.invalidate("a.com");
    cache.invalidate("nowhere.com");
    assert!(cache.get("a.com", at(2)).is_none());
    assert!(cache.get("b.com", at(2)).is_some());
    cache.clear();
    assert_eq!(cache.len(), 0);
    put(&mut cache, "c.com", Vec::new(), 200, 3);
    assert!(cache.get("c.com", at(4)).is_some());
}
