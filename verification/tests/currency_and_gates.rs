//! The currency parser and the validity gates.

use chk::{Ctx, StateStore, ValidityFn, ValidityGate};

fn parses(s: &str) -> Option<u64> {
    chk::parse_currency(s)
}

#[test]
fn currency_whole_amounts() {
    assert_eq!(parses("$25"), Some(2500));
    assert_eq!(parses("25"), Some(2500));
    assert_eq!(parses("$0"), Some(0));
    assert_eq!(parses("0"), Some(0));
    assert_eq!(parses("$1000000"), Some(100000000));
}

#[test]
fn currency_fractional_amounts() {
    assert_eq!(parses("$0.50"), Some(50));
    assert_eq!(parses("0.5"), Some(50));
    assert_eq!(parses("$12.34"), Some(1234));
    assert_eq!(parses("$12.3"), Some(1230));
    assert_eq!(parses("$0.05"), Some(5));
    assert_eq!(parses("$0.00"), Some(0));
}

#[test]
fn currency_rejects_malformed_input() {
    assert_eq!(parses(""), None);
    assert_eq!(parses("$"), None);
    assert_eq!(parses("abc"), None);
    assert_eq!(parses("$abc"), None);
    assert_eq!(parses("12.345"), None);
    assert_eq!(parses("25."), None);
    assert_eq!(parses(".5"), None);
    assert_eq!(parses("$25.5.5"), None);
    assert_eq!(parses("-5"), None);
    assert_eq!(parses("1,000"), None);
    assert_eq!(parses("25 "), None);
    assert_eq!(parses("$$25"), None);
}

#[test]
fn currency_whole_digit_limit() {
    // sixteen whole digits parse; seventeen do not
    assert_eq!(parses("9999999999999999"), Some(999999999999999900));
    assert_eq!(parses("99999999999999999"), None);
    assert_eq!(parses("$9999999999999999.99"), Some(999999999999999999));
}

#[test]
fn non_empty_gate_follows_the_slot() {
    let gate = ValidityGate::non_empty("name");
    let mut store = StateStore::new();
    assert!(!gate.check(&store), "an absent slot does not satisfy a non-empty gate");
    store.set_named("name", "");
    assert!(!gate.check(&store), "an empty value does not satisfy a non-empty gate");
    store.set_named("name", "abc123");
    assert!(gate.check(&store));
    store.set_named("name", "");
    assert!(!gate.check(&store), "a check re-evaluates the latest value");
}

#[test]
fn amount_positive_gate_follows_the_slot() {
    let gate = ValidityGate::amount_positive("amount");
    let mut store = StateStore::new();
    assert!(!gate.check(&store));
    store.set_named("amount", "$0");
    assert!(!gate.check(&store), "zero is not a positive amount");
    store.set_named("amount", "$0.00");
    assert!(!gate.check(&store));
    store.set_named("amount", "not a number");
    assert!(!gate.check(&store));
    store.set_named("amount", "$25");
    assert!(gate.check(&store));
    store.set_named("amount", "$0.01");
    assert!(gate.check(&store));
}

#[test]
fn always_gate_holds() {
    let gate = ValidityGate::always();
    let store = StateStore::new();
    assert!(gate.check(&store));
}

#[test]
fn state_store_returns_latest_value() {
    let mut store = StateStore::new();
    assert_eq!(store.get_named("k"), None);
    store.set_named("k", "one");
    assert_eq!(store.get_named("k").as_deref(), Some("one"));
    store.set_named("k", "two");
    assert_eq!(store.get_named("k").as_deref(), Some("two"));
    assert_eq!(store.get_named("other"), None);
    assert_eq!(store.get_named_or_default("other"), "");
    assert_eq!(store.get_named_or_default("k"), "two");
}

#[test]
fn fresh_session_is_empty() {
    let ctx = Ctx::new();
    assert_eq!(ctx.log.len(), 0);
    assert!(ctx.last_pushed().is_none());
}

#[test]
fn default_project_values() {
    let project = chk::Project::default();
    assert_eq!(project.name, "Orange");
    assert_eq!(project.date, "11/23/2025");
    assert_eq!(project.id, "projectid200");
    let current = chk::CurrentProject::default();
    assert_eq!(current.inner.name, "Orange");
    let all = chk::AllProjects::default();
    assert_eq!(all.inner.len(), 1);
    assert_eq!(all.inner[0].id, "projectid200");
}
