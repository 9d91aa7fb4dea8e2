use querier_gate::catalog::{CatalogError, Namespace, NamespaceSchema};
use querier_gate::database::{Admission, ListStep, Permit, QuerierDatabase, QuerierNamespace};
use querier_gate::retry::{Backoff, BackoffConfig};

/// A tiny stand-in for the schema resolver: the namespaces that exist.
fn resolve(known: &[&str], name: &str) -> Option<NamespaceSchema> {
    known.iter().position(|n| *n == name).map(|i| NamespaceSchema {
        id: i as i64 + 1,
        table_names: vec![format!("{name}_table")],
    })
}

fn admitted(a: Admission) -> Permit {
    match a {
        Admission::Admitted(p) => p,
        Admission::Queued(t) => panic!("request {t} was queued"),
    }
}

fn queued(a: Admission) -> u64 {
    match a {
        Admission::Admitted(p) => panic!("request {} was admitted", p.ticket()),
        Admission::Queued(t) => t,
    }
}

/// Runs a whole lookup that is admitted at once.
fn lookup(db: &mut QuerierDatabase, known: &[&str], name: &str) -> Option<QuerierNamespace> {
    let permit = admitted(db.acquire());
    let (handle, woken) = db.namespace(name.to_string(), permit, resolve(known, name));
    assert!(woken.is_none());
    handle
}

#[test]
fn test_namespace() {
    let mut db = QuerierDatabase::new(QuerierDatabase::MAX_CONCURRENT_QUERIES_MAX);
    let known = ["ns1"];
    assert!(lookup(&mut db, &known, "ns1").is_some());
    assert!(lookup(&mut db, &known, "ns2").is_none());
}

#[test]
fn test_namespaces() {
    let db = QuerierDatabase::new(QuerierDatabase::MAX_CONCURRENT_QUERIES_MAX);
    let mut retry = db.backoff();
    let listed = vec![
        Namespace { id: 2, name: "ns2".to_string() },
        Namespace { id: 1, name: "ns1".to_string() },
    ];
    let mut namespaces = match db.namespaces(&mut retry, Ok(listed)) {
        ListStep::Done(v) => v,
        ListStep::Retry(_) => panic!("a successful attempt is not retried"),
    };
    namespaces.sort_by_key(|ns| ns.name.clone());
    assert_eq!(namespaces.len(), 2);
    assert_eq!(namespaces[0].name, "ns1");
    assert_eq!(namespaces[1].name, "ns2");
}

#[test]
fn test_namespace_semaphore() {
    let mut db = QuerierDatabase::new(2);
    let known = ["ns1", "ns2", "ns3"];

    // consume all permits
    let ns1 = lookup(&mut db, &known, "ns1").unwrap();
    let ns2 = lookup(&mut db, &known, "ns2").unwrap();
    assert_eq!(db.available_permits(), 0);

    // nothing new is admitted, not even a namespace that is already held
    let t3 = queued(db.acquire());
    let t1 = queued(db.acquire());
    let t9 = queued(db.acquire());
    let t2 = queued(db.acquire());
    assert_eq!(db.waiting(), 4);

    // dropping the newest handle frees a permit for the oldest waiter
    let p = db.discard(ns2).unwrap();
    assert_eq!(p.ticket(), t3);
    let (ns3, woken) = db.namespace("ns3".to_string(), p, resolve(&known, "ns3"));
    let ns3 = ns3.unwrap();
    assert!(woken.is_none());
    assert_eq!(db.waiting(), 3);

    let p = db.discard(ns3).unwrap();
    assert_eq!(p.ticket(), t1);
    let (ns1b, woken) = db.namespace("ns1".to_string(), p, resolve(&known, "ns1"));
    let _ns1b = ns1b.unwrap();
    assert!(woken.is_none());
    assert_eq!(db.waiting(), 2);

    // dropping the oldest handle frees a permit
    let p = db.discard(ns1).unwrap();
    assert_eq!(p.ticket(), t9);
    let (ns9, woken) = db.namespace("ns9".to_string(), p, resolve(&known, "ns9"));
    assert!(ns9.is_none());
    // "ns9" does not exist, so its permit goes on at once
    let p = woken.unwrap();
    assert_eq!(p.ticket(), t2);
    let (ns2b, woken) = db.namespace("ns2".to_string(), p, resolve(&known, "ns2"));
    assert!(ns2b.is_some());
    assert!(woken.is_none());
    assert_eq!(db.waiting(), 0);
    assert_eq!(db.in_use(), 2);
}

#[test]
fn construction_at_the_ceiling_and_at_zero() {
    let db = QuerierDatabase::new(QuerierDatabase::MAX_CONCURRENT_QUERIES_MAX);
    assert_eq!(QuerierDatabase::MAX_CONCURRENT_QUERIES_MAX, 65535);
    assert_eq!(db.max_concurrent_queries(), 65535);
    assert_eq!(db.available_permits(), 65535);
    assert_eq!(db.in_use(), 0);

    let mut db = QuerierDatabase::new(0);
    assert_eq!(db.available_permits(), 0);
    let _ = queued(db.acquire());
    assert_eq!(db.waiting(), 1);
}

#[test]
fn handle_carries_name_schema_and_permit() {
    let mut db = QuerierDatabase::new(3);
    let permit = admitted(db.acquire());
    let ticket = permit.ticket();
    let schema = NamespaceSchema { id: 7, table_names: vec!["cpu".to_string(), "mem".to_string()] };
    let (h, woken) = db.namespace("ns7".to_string(), permit, Some(schema));
    assert!(woken.is_none());
    let h = h.unwrap();
    assert_eq!(h.name(), "ns7");
    assert_eq!(h.schema().id, 7);
    assert_eq!(h.schema().table_names, vec!["cpu".to_string(), "mem".to_string()]);
    assert_eq!(h.ticket(), ticket);
    assert_eq!(db.in_use(), 1);
}

#[test]
fn unknown_namespace_keeps_capacity() {
    let mut db = QuerierDatabase::new(2);
    let before = db.available_permits();
    assert!(lookup(&mut db, &["ns1"], "nope").is_none());
    assert_eq!(db.available_permits(), before);
    assert_eq!(db.in_use(), 0);
}

#[test]
fn discard_frees_exactly_one() {
    let mut db = QuerierDatabase::new(2);
    let a = lookup(&mut db, &["ns1"], "ns1").unwrap();
    let b = lookup(&mut db, &["ns1"], "ns1").unwrap();
    assert_eq!(db.available_permits(), 0);
    assert!(db.discard(a).is_none());
    assert_eq!(db.available_permits(), 1);
    assert!(db.discard(b).is_none());
    assert_eq!(db.available_permits(), 2);
}

#[test]
fn same_namespace_twice_takes_two_permits() {
    let mut db = QuerierDatabase::new(5);
    let a = lookup(&mut db, &["ns1"], "ns1").unwrap();
    let b = lookup(&mut db, &["ns1"], "ns1").unwrap();
    assert_ne!(a.ticket(), b.ticket());
    assert_eq!(db.in_use(), 2);
    assert_eq!(db.available_permits(), 3);
}

#[test]
fn budget_is_never_exceeded() {
    let mut db = QuerierDatabase::new(3);
    let mut admitted_count = 0;
    let mut queued_count = 0;
    for _ in 0..10 {
        match db.acquire() {
            Admission::Admitted(_) => admitted_count += 1,
            Admission::Queued(_) => queued_count += 1,
        }
        assert!(db.in_use() <= db.max_concurrent_queries());
    }
    assert_eq!(admitted_count, 3);
    assert_eq!(queued_count, 7);
    assert_eq!(db.waiting(), 7);
}

#[test]
fn return_permit_without_waiters_frees_it() {
    let mut db = QuerierDatabase::new(1);
    let p = admitted(db.acquire());
    assert_eq!(db.available_permits(), 0);
    assert!(db.return_permit(p).is_none());
    assert_eq!(db.available_permits(), 1);
}

#[test]
fn cancel_withdraws_a_waiter() {
    let mut db = QuerierDatabase::new(1);
    let held = admitted(db.acquire());
    let t1 = queued(db.acquire());
    let t2 = queued(db.acquire());
    let t3 = queued(db.acquire());
    assert!(db.cancel(t2));
    assert!(!db.cancel(t2));
    assert!(!db.cancel(999));
    assert_eq!(db.waiting(), 2);
    assert_eq!(db.in_use(), 1);
    let p = db.return_permit(held).unwrap();
    assert_eq!(p.ticket(), t1);
    let p = db.return_permit(p).unwrap();
    assert_eq!(p.ticket(), t3);
    assert!(db.return_permit(p).is_none());
    assert_eq!(db.available_permits(), 1);
}

#[test]
fn failed_listing_is_retried_with_growing_delay() {
    let db = QuerierDatabase::new(1);
    let mut retry = db.backoff();
    let mut delays = Vec::new();
    for _ in 0..10 {
        let err = Err(CatalogError { message: "unavailable".to_string() });
        match db.namespaces(&mut retry, err) {
            ListStep::Retry(ms) => delays.push(ms),
            ListStep::Done(_) => panic!("a failed attempt is retried"),
        }
    }
    assert_eq!(
        delays,
        vec![100, 300, 900, 2_700, 8_100, 24_300, 72_900, 218_700, 500_000, 500_000]
    );
    let ok = Ok(vec![Namespace { id: 1, name: "ns1".to_string() }]);
    match db.namespaces(&mut retry, ok) {
        ListStep::Done(v) => {
            assert_eq!(v.len(), 1);
            assert_eq!(v[0].name, "ns1");
        }
        ListStep::Retry(_) => panic!("a successful attempt is not retried"),
    }
}

#[test]
fn listing_ignores_occupancy() {
    let mut db = QuerierDatabase::new(1);
    let _h = lookup(&mut db, &["ns1"], "ns1").unwrap();
    let _ = queued(db.acquire());
    let mut retry = db.backoff();
    let listed = vec![
        Namespace { id: 1, name: "ns1".to_string() },
        Namespace { id: 2, name: "ns2".to_string() },
    ];
    match db.namespaces(&mut retry, Ok(listed)) {
        ListStep::Done(v) => assert_eq!(v.len(), 2),
        ListStep::Retry(_) => panic!("a successful attempt is not retried"),
    }
}

#[test]
fn backoff_caps_at_the_ceiling_and_overflow_saturates() {
    let mut b = Backoff::new(BackoffConfig { init_backoff_ms: 10, max_backoff_ms: 5, base: 2 });
    assert_eq!(b.next_delay_ms(), 5);
    assert_eq!(b.next_delay_ms(), 5);
    let big = u64::MAX / 2 + 1;
    let mut b = Backoff::new(BackoffConfig { init_backoff_ms: big, max_backoff_ms: u64::MAX, base: 4 });
    assert_eq!(b.next_delay_ms(), big);
    assert_eq!(b.next_delay_ms(), u64::MAX);
    let d = BackoffConfig::default();
    assert_eq!((d.init_backoff_ms, d.max_backoff_ms, d.base), (100, 500_000, 3));
}
