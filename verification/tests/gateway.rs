use ocypode_gateway::dispatcher::handle;
use ocypode_gateway::dispatcher::route;
use ocypode_gateway::identity::ClientIdentity;
use ocypode_gateway::ledger::Ledger;
use ocypode_gateway::ledger::ADMIT_LIMIT;

#[test]
fn ceiling_six_sequential_admits() {
    let mut ledger = Ledger::new();
    let id = ClientIdentity::new(0x0A000001, 40000);
    let mut results = Vec::new();
    for _ in 0..6 {
        results.push(ledger.try_admit(id));
    }
    assert_eq!(results, vec![true, true, true, true, true, false]);
}

#[test]
fn per_identity_isolation() {
    let mut ledger = Ledger::new();
    let a = ClientIdentity::new(0x0A000001, 40000);
    let b = ClientIdentity::new(0x0A000001, 40001);
    for _ in 0..ADMIT_LIMIT {
        assert!(ledger.try_admit(a));
    }
    assert!(!ledger.try_admit(a));
    for _ in 0..ADMIT_LIMIT {
        assert!(ledger.try_admit(b));
    }
    assert!(!ledger.try_admit(b));
}

#[test]
fn admitted_count_caps_at_limit() {
    let mut ledger = Ledger::new();
    let id = ClientIdentity::new(0xC0A80101, 55555);
    let mut admitted: u32 = 0;
    for _ in 0..10 {
        if ledger.try_admit(id) {
            admitted += 1;
        }
    }
    assert_eq!(admitted, ADMIT_LIMIT);
}

#[test]
fn count_reports_admissions() {
    let mut ledger = Ledger::new();
    let id = ClientIdentity::new(0x7F000001, 8080);
    assert_eq!(ledger.count(id), 0);
    for n in 1..=ADMIT_LIMIT {
        ledger.try_admit(id);
        assert_eq!(ledger.count(id), n);
    }
    ledger.try_admit(id);
    assert_eq!(ledger.count(id), ADMIT_LIMIT);
}

#[test]
fn route_table_values() {
    let healthz = route("/healthz");
    assert_eq!(healthz.status, 200);
    assert_eq!(healthz.body, "OK");
    let service = route("/service");
    assert_eq!(service.status, 200);
    assert_eq!(service.body, "service response");
    let other = route("/other");
    assert_eq!(other.status, 404);
    assert_eq!(other.body, "Not Found");
}

#[test]
fn routing_is_idempotent_for_admitted_requests() {
    let mut ledger = Ledger::new();
    let id = ClientIdentity::new(0x0B0B0B0B, 1234);
    let first = handle(&mut ledger, id, "/healthz");
    let second = handle(&mut ledger, id, "/healthz");
    assert_eq!((first.status, first.body), (second.status, second.body));
    let third = handle(&mut ledger, id, "/service");
    let fourth = handle(&mut ledger, id, "/service");
    assert_eq!((third.status, third.body.as_str()), (200, "service response"));
    assert_eq!((fourth.status, fourth.body.as_str()), (200, "service response"));
}

#[test]
fn unknown_paths_answer_not_found() {
    for path in ["", "/", "/healthz/", "/HEALTHZ", "/healthz?probe=1", "/missing", "no-slash"] {
        let mut ledger = Ledger::new();
        let id = ClientIdentity::new(0x01020304, 777);
        let r = handle(&mut ledger, id, path);
        assert_eq!(r.status, 404);
        assert_eq!(r.body, "Not Found");
    }
}

#[test]
fn rejection_short_circuits_routing() {
    let mut ledger = Ledger::new();
    let id = ClientIdentity::new(0x0A000002, 50000);
    for _ in 0..ADMIT_LIMIT {
        assert!(ledger.try_admit(id));
    }
    for path in ["/healthz", "/service", "/other", ""] {
        let r = handle(&mut ledger, id, path);
        assert_eq!(r.status, 429);
        assert_eq!(r.body, "Too many requests");
    }
}

#[test]
fn healthz_scenario_five_then_rejected() {
    let mut ledger = Ledger::new();
    let id = ClientIdentity::from_octets(203, 0, 113, 5, 9001);
    for _ in 0..5 {
        let r = handle(&mut ledger, id, "/healthz");
        assert_eq!(r.status, 200);
        assert_eq!(r.body, "OK");
    }
    let sixth = handle(&mut ledger, id, "/anything");
    assert_eq!(sixth.status, 429);
    assert_eq!(sixth.body, "Too many requests");
}

#[test]
fn two_identities_share_nothing_on_service() {
    let mut ledger = Ledger::new();
    let first = ClientIdentity::from_octets(203, 0, 113, 5, 9001);
    let second = ClientIdentity::from_octets(198, 51, 100, 7, 9002);
    for _ in 0..5 {
        for id in [first, second] {
            let r = handle(&mut ledger, id, "/service");
            assert_eq!(r.status, 200);
            assert_eq!(r.body, "service response");
        }
    }
    for id in [first, second] {
        let r = handle(&mut ledger, id, "/service");
        assert_eq!(r.status, 429);
        assert_eq!(r.body, "Too many requests");
    }
}

#[test]
fn octets_pack_into_numeric_address() {
    let id = ClientIdentity::from_octets(203, 0, 113, 5, 9001);
    assert_eq!(id, ClientIdentity::new(0xCB007105, 9001));
    assert_eq!(id.key(), 0xCB007105u64 * 0x10000 + 9001);
    let other = ClientIdentity::from_octets(203, 0, 113, 5, 9002);
    assert_ne!(id.key(), other.key());
}
