use randomail::config::RMConfig;
use randomail::error::ApiError;
use randomail::ops::{
    add_email_route, command_add, delete_email_route, rename_email_route, update_email_route, AliasOperation,
    Change, Event, Phase, RouteRequest, Step, Target,
};
use randomail::resolve::{find_route, get_email_id, list_email_forward_route};
use randomail::route::{CFEmailRoute, CFEmailRouteAction, CFEmailRouteMatch, ShapeError};

const RULES: &str = "https://api.cloudflare.com/client/v4/zones/z1/email/routing/rules";

fn rule(id: &str, name: &str, alias: &str, dest: &str, enabled: bool) -> CFEmailRoute {
    CFEmailRoute {
        id: Some(id.to_string()),
        name: Some(name.to_string()),
        actions: vec![CFEmailRouteAction {
            action_type: "forward".to_string(),
            value: Some(vec![dest.to_string()]),
        }],
        matchers: vec![CFEmailRouteMatch {
            action_type: "literal".to_string(),
            field: Some("to".to_string()),
            value: Some(alias.to_string()),
        }],
        enabled,
    }
}

fn zone() -> Vec<CFEmailRoute> {
    vec![rule("r1", "shop", "shop@ex.com", "me@real.com", true)]
}

fn expect_fetch(step: Step) {
    match step {
        Step::Fetch { url } => assert_eq!(url, RULES),
        other => panic!("expected a fetch, got {:?}", other),
    }
}

#[test]
fn get_email_id_finds_unique_alias() {
    let rules = vec![
        rule("r1", "shop", "shop@ex.com", "me@real.com", true),
        rule("r2", "news", "news@ex.com", "me@real.com", true),
    ];
    assert_eq!(get_email_id(&rules, "news@ex.com").unwrap(), "r2");
}

#[test]
fn get_email_id_takes_first_of_duplicates() {
    let rules = vec![
        rule("r1", "one", "dup@ex.com", "me@real.com", true),
        rule("r2", "two", "dup@ex.com", "me@real.com", true),
    ];
    assert_eq!(get_email_id(&rules, "dup@ex.com").unwrap(), "r1");
}

#[test]
fn get_email_id_is_case_sensitive_and_reports_key() {
    let rules = zone();
    match get_email_id(&rules, "SHOP@ex.com") {
        Err(ApiError::NotFound(k)) => assert_eq!(k, "SHOP@ex.com"),
        other => panic!("unexpected {:?}", other),
    }
}

#[test]
fn get_email_id_skips_unreadable_rules() {
    let mut broken = rule("r0", "x", "shop@ex.com", "me@real.com", true);
    broken.actions.clear();
    let rules = vec![broken, rule("r1", "shop", "shop@ex.com", "me@real.com", true)];
    assert_eq!(get_email_id(&rules, "shop@ex.com").unwrap(), "r1");
}

#[test]
fn find_route_by_id() {
    let rules = vec![
        rule("r1", "shop", "shop@ex.com", "me@real.com", true),
        rule("r2", "news", "news@ex.com", "me@real.com", false),
    ];
    let r = find_route(rules, "r2").unwrap();
    assert_eq!(r.name.as_deref(), Some("news"));
    assert!(matches!(find_route(zone(), "nope"), Err(ApiError::NotFound(k)) if k == "nope"));
}

#[test]
fn forward_route_found_by_destination() {
    let rules = vec![
        rule("r1", "shop", "shop@ex.com", "other@real.com", true),
        rule("r2", "news", "news@ex.com", "me@real.com", true),
    ];
    assert_eq!(list_email_forward_route(rules, "me@real.com").unwrap().id.as_deref(), Some("r2"));
    assert!(matches!(list_email_forward_route(zone(), "x@y.z"), Err(ApiError::NotFound(_))));
}

#[test]
fn add_request_posts_new_rule() {
    match add_email_route("z1", "shop".to_string(), "shop@ex.com".to_string(), "me@real.com".to_string()) {
        RouteRequest::Post { url, route } => {
            assert_eq!(url, RULES);
            assert!(route.id.is_none());
            assert_eq!(route.email_alias().unwrap(), "shop@ex.com");
        }
        other => panic!("unexpected {:?}", other),
    }
}

#[test]
fn command_add_composes_address_in_zone() {
    let config = RMConfig {
        account_id: "acc".to_string(),
        token: "tok".to_string(),
        destination_email: "me@real.com".to_string(),
        destination_email_id: "d1".to_string(),
        zone: "ex.com".to_string(),
        zone_id: "z1".to_string(),
    };
    match command_add(&config, "shopping", "Shopping".to_string()) {
        RouteRequest::Post { url, route } => {
            assert_eq!(url, RULES);
            assert_eq!(route.email_alias().unwrap(), "shopping@ex.com");
            assert_eq!(route.email_dest().unwrap(), "me@real.com");
            assert_eq!(route.name.as_deref(), Some("Shopping"));
            assert!(route.enabled);
        }
        other => panic!("unexpected {:?}", other),
    }
}

#[test]
fn delete_request_targets_rule() {
    match delete_email_route("z1", "r1") {
        RouteRequest::Delete { url } => assert_eq!(url, format!("{RULES}/r1")),
        other => panic!("unexpected {:?}", other),
    }
}

#[test]
fn set_enabled_keeps_every_other_field() {
    let fetched = rule("r1", "A", "a@ex.com", "me@real.com", true);
    match update_email_route("z1", "r1", vec![fetched], false).unwrap() {
        RouteRequest::Put { url, route } => {
            assert_eq!(url, format!("{RULES}/r1"));
            assert!(!route.enabled);
            assert_eq!(route.id.as_deref(), Some("r1"));
            assert_eq!(route.name.as_deref(), Some("A"));
            assert_eq!(route.matchers[0].value.as_deref(), Some("a@ex.com"));
            assert_eq!(route.matchers[0].action_type, "literal");
            assert_eq!(route.actions[0].value, Some(vec!["me@real.com".to_string()]));
            assert_eq!(route.actions[0].action_type, "forward");
        }
        other => panic!("unexpected {:?}", other),
    }
}

#[test]
fn rename_keeps_every_other_field() {
    let fetched = rule("r1", "A", "a@ex.com", "me@real.com", true);
    match rename_email_route("z1", "r1", vec![fetched], "B".to_string()).unwrap() {
        RouteRequest::Put { url, route } => {
            assert_eq!(url, format!("{RULES}/r1"));
            assert_eq!(route.name.as_deref(), Some("B"));
            assert!(route.enabled);
            assert_eq!(route.matchers[0].value.as_deref(), Some("a@ex.com"));
        }
        other => panic!("unexpected {:?}", other),
    }
}

#[test]
fn update_of_missing_rule_fails() {
    assert!(matches!(update_email_route("z1", "gone", zone(), true), Err(ApiError::NotFound(k)) if k == "gone"));
    assert!(matches!(rename_email_route("z1", "gone", vec![], "n".to_string()), Err(ApiError::NotFound(_))));
}

#[test]
fn scenario_disable_by_address() {
    let (mut op, step) = AliasOperation::start(
        "z1".to_string(),
        Target::Address("shop@ex.com".to_string()),
        Change::SetEnabled(false),
    );
    expect_fetch(step);
    let step = op.advance(Event::Rules(zone()));
    expect_fetch(step);
    assert!(matches!(&op.phase, Phase::Fetching(id) if id == "r1"));
    match op.advance(Event::Rules(zone())) {
        Step::Send(RouteRequest::Put { url, route }) => {
            assert_eq!(url, format!("{RULES}/r1"));
            assert!(!route.enabled);
            assert_eq!(route.name.as_deref(), Some("shop"));
            assert_eq!(route.matchers[0].value.as_deref(), Some("shop@ex.com"));
            assert_eq!(route.actions[0].value, Some(vec!["me@real.com".to_string()]));
        }
        other => panic!("unexpected {:?}", other),
    }
    assert!(matches!(op.advance(Event::Sent), Step::Finished(Ok(()))));
    assert!(matches!(op.phase, Phase::Done));
}

#[test]
fn scenario_delete_missing_address() {
    let (mut op, step) = AliasOperation::start(
        "z1".to_string(),
        Target::Address("missing@ex.com".to_string()),
        Change::Remove,
    );
    expect_fetch(step);
    match op.advance(Event::Rules(zone())) {
        Step::Finished(Err(ApiError::NotFound(k))) => assert_eq!(k, "missing@ex.com"),
        other => panic!("expected not found and no request, got {:?}", other),
    }
    assert!(matches!(op.phase, Phase::Done));
}

#[test]
fn delete_by_address_sends_delete() {
    let (mut op, _) = AliasOperation::start(
        "z1".to_string(),
        Target::Address("shop@ex.com".to_string()),
        Change::Remove,
    );
    match op.advance(Event::Rules(zone())) {
        Step::Send(RouteRequest::Delete { url }) => assert_eq!(url, format!("{RULES}/r1")),
        other => panic!("unexpected {:?}", other),
    }
}

#[test]
fn delete_by_id_sends_at_once() {
    let (op, step) = AliasOperation::start("z1".to_string(), Target::Id("r7".to_string()), Change::Remove);
    match step {
        Step::Send(RouteRequest::Delete { url }) => assert_eq!(url, format!("{RULES}/r7")),
        other => panic!("unexpected {:?}", other),
    }
    assert!(matches!(op.phase, Phase::Sending));
}

#[test]
fn toggle_by_id_fetches_then_puts() {
    let (mut op, step) =
        AliasOperation::start("z1".to_string(), Target::Id("r1".to_string()), Change::SetEnabled(true));
    expect_fetch(step);
    let mut rules = zone();
    rules[0].enabled = false;
    match op.advance(Event::Rules(rules)) {
        Step::Send(RouteRequest::Put { route, .. }) => assert!(route.enabled),
        other => panic!("unexpected {:?}", other),
    }
}

#[test]
fn rename_by_address_of_vanished_rule_fails() {
    let (mut op, _) = AliasOperation::start(
        "z1".to_string(),
        Target::Address("shop@ex.com".to_string()),
        Change::Rename("new".to_string()),
    );
    expect_fetch(op.advance(Event::Rules(zone())));
    match op.advance(Event::Rules(vec![])) {
        Step::Finished(Err(ApiError::NotFound(k))) => assert_eq!(k, "r1"),
        other => panic!("unexpected {:?}", other),
    }
}

#[test]
fn unexpected_event_ends_operation() {
    let (mut op, _) = AliasOperation::start(
        "z1".to_string(),
        Target::Address("shop@ex.com".to_string()),
        Change::Remove,
    );
    assert!(matches!(op.advance(Event::Sent), Step::Finished(Err(ApiError::OutOfOrder))));
    assert!(matches!(op.advance(Event::Rules(zone())), Step::Finished(Err(ApiError::OutOfOrder))));
}

fn broken(id: &str) -> CFEmailRoute {
    let mut r = rule(id, "catch", "all@ex.com", "me@real.com", true);
    r.actions.clear();
    r.matchers.clear();
    r
}

#[test]
fn find_route_rejects_unreadable_rule() {
    match find_route(vec![broken("r1")], "r1") {
        Err(ApiError::Shape { id, error }) => {
            assert_eq!(id, "r1");
            assert_eq!(error, ShapeError::MissingAction);
        }
        other => panic!("unexpected {:?}", other),
    }
    let mut no_matcher = rule("r2", "n", "n@ex.com", "me@real.com", true);
    no_matcher.matchers.clear();
    assert!(matches!(
        find_route(vec![no_matcher], "r2"),
        Err(ApiError::Shape { error: ShapeError::MissingMatcher, .. })
    ));
}

#[test]
fn update_and_rename_of_unreadable_rule_fail() {
    assert!(matches!(
        update_email_route("z1", "r1", vec![broken("r1")], false),
        Err(ApiError::Shape { error: ShapeError::MissingAction, .. })
    ));
    assert!(matches!(
        rename_email_route("z1", "r1", vec![broken("r1")], "x".to_string()),
        Err(ApiError::Shape { error: ShapeError::MissingAction, .. })
    ));
}

#[test]
fn toggle_by_id_of_unreadable_rule_sends_nothing() {
    let (mut op, step) =
        AliasOperation::start("z1".to_string(), Target::Id("r1".to_string()), Change::SetEnabled(false));
    expect_fetch(step);
    match op.advance(Event::Rules(vec![broken("r1")])) {
        Step::Finished(Err(ApiError::Shape { id, error })) => {
            assert_eq!(id, "r1");
            assert_eq!(error, ShapeError::MissingAction);
        }
        other => panic!("expected a shape error and no request, got {:?}", other),
    }
    assert!(matches!(op.phase, Phase::Done));
}
