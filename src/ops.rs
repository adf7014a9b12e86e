//! The alias operations: the requests they send, and the order in which they
//! resolve, fetch and mutate.
use vstd::prelude::*;
use crate::alias::{alias_of, aliases_of, route_views};
use crate::config::RMConfig;
use crate::error::{malformed, not_found, ApiError};
use crate::request::{rule_url, rule_url_of, rules_url, rules_url_of};
use crate::resolve::{
    find_route, get_email_id, has_alias, has_id, is_first_alias, is_first_with_id, lookup_failure,
};
use crate::route::{new_route_view, CFEmailRoute, RouteView, ShapeError};

verus! {

/// A request that changes the rules of a zone.
#[derive(Debug)]
pub enum RouteRequest {
    /// Create the rule `route` at `url`.
    Post { url: String, route: CFEmailRoute },
    /// Replace the rule at `url` by `route`.
    Put { url: String, route: CFEmailRoute },
    /// Delete the rule at `url`.
    Delete { url: String },
}

/// `r` with its enabled flag set to `enabled`.
pub open spec fn with_enabled(r: RouteView, enabled: bool) -> RouteView {
    RouteView { id: r.id, name: r.name, actions: r.actions, matchers: r.matchers, enabled }
}

/// `r` with its description set to `name`.
pub open spec fn with_name(r: RouteView, name: Seq<char>) -> RouteView {
    RouteView { id: r.id, name: Some(name), actions: r.actions, matchers: r.matchers, enabled: r.enabled }
}

/// `q` creates the rule `route` at `url`.
pub open spec fn posts(q: RouteRequest, url: Seq<char>, route: RouteView) -> bool {
    match q {
        RouteRequest::Post { url: u, route: r } => u@ == url && r@ == route,
        _ => false,
    }
}

/// `q` replaces the rule at `url` by `route`.
pub open spec fn puts(q: RouteRequest, url: Seq<char>, route: RouteView) -> bool {
    match q {
        RouteRequest::Put { url: u, route: r } => u@ == url && r@ == route,
        _ => false,
    }
}

/// `q` deletes the rule at `url`.
pub open spec fn deletes(q: RouteRequest, url: Seq<char>) -> bool {
    match q {
        RouteRequest::Delete { url: u } => u@ == url,
        _ => false,
    }
}

/// The request that creates, in the zone `zone_id`, a rule named `name` that
/// forwards `email_alias` to `email_dest`.
pub fn add_email_route(zone_id: &str, name: String, email_alias: String, email_dest: String) -> (r:
    RouteRequest)
    ensures
        posts(r, rules_url_of(zone_id@), new_route_view(name@, email_alias@, email_dest@)),
{
    RouteRequest::Post {
        url: rules_url(zone_id),
        route: CFEmailRoute::new(name, email_alias, email_dest),
    }
}

/// The request that creates, in the configured zone, the alias `alias@zone`
/// described by `description` and forwarding to the configured destination. Like
/// every alias operation, it needs a ready configuration.
pub fn command_add(config: &RMConfig, alias: &str, description: String) -> (r: RouteRequest)
    requires
        config.is_ready(),
    ensures
        posts(
            r,
            rules_url_of(config.zone_id@),
            new_route_view(description@, alias@ + "@"@ + config.zone@, config.destination_email@),
        ),
{
    let mut email_alias = String::from_str(alias);
    email_alias.append("@");
    email_alias.append(config.zone.as_str());
    add_email_route(
        config.zone_id.as_str(),
        description,
        email_alias,
        config.destination_email.clone(),
    )
}

/// Enabling, disabling and renaming replace a fetched rule by a copy in which only
/// the enabled flag, or only the description, differs: its id, its matchers and its
/// actions stay as fetched.
pub proof fn lemma_read_modify_write_keeps_rule(r: RouteView, enabled: bool, name: Seq<char>)
    ensures
        with_enabled(r, enabled).id == r.id,
        with_enabled(r, enabled).name == r.name,
        with_enabled(r, enabled).matchers == r.matchers,
        with_enabled(r, enabled).actions == r.actions,
        with_enabled(r, enabled).enabled == enabled,
        with_name(r, name).id == r.id,
        with_name(r, name).name == Some(name),
        with_name(r, name).matchers == r.matchers,
        with_name(r, name).actions == r.actions,
        with_name(r, name).enabled == r.enabled,
{
}

/// The request that deletes the rule `email_id` of the zone `zone_id`.
pub fn delete_email_route(zone_id: &str, email_id: &str) -> (r: RouteRequest)
    ensures
        deletes(r, rule_url_of(zone_id@, email_id@)),
{
    RouteRequest::Delete { url: rule_url(zone_id, email_id) }
}

/// The request that replaces the rule `email_id`, as fetched in `routes`, by the same
/// rule with its enabled flag set to `enabled`. The rule must read as an alias.
pub fn update_email_route(zone_id: &str, email_id: &str, routes: Vec<CFEmailRoute>, enabled: bool) -> (r:
    Result<RouteRequest, ApiError>)
    ensures
        match r {
            Ok(q) => exists|i: int|
                #[trigger] is_first_with_id(route_views(routes@), email_id@, i) && alias_of(
                    routes@[i]@,
                ) is Ok && puts(q, rule_url_of(zone_id@, email_id@), with_enabled(routes@[i]@, enabled)),
            Err(e) => lookup_failure(route_views(routes@), email_id@, e),
        },
{
    match find_route(routes, email_id) {
        Ok(route) => {
            let mut route = route;
            route.enabled = enabled;
            Ok(RouteRequest::Put { url: rule_url(zone_id, email_id), route })
        },
        Err(e) => Err(e),
    }
}

/// The request that replaces the rule `email_id`, as fetched in `routes`, by the same
/// rule with its description set to `name`. The rule must read as an alias.
pub fn rename_email_route(zone_id: &str, email_id: &str, routes: Vec<CFEmailRoute>, name: String) -> (r:
    Result<RouteRequest, ApiError>)
    ensures
        match r {
            Ok(q) => exists|i: int|
                #[trigger] is_first_with_id(route_views(routes@), email_id@, i) && alias_of(
                    routes@[i]@,
                ) is Ok && puts(q, rule_url_of(zone_id@, email_id@), with_name(routes@[i]@, name@)),
            Err(e) => lookup_failure(route_views(routes@), email_id@, e),
        },
{
    match find_route(routes, email_id) {
        Ok(route) => {
            let mut route = route;
            route.name = Some(name);
            Ok(RouteRequest::Put { url: rule_url(zone_id, email_id), route })
        },
        Err(e) => Err(e),
    }
}

/// The key by which an operation names its rule.
#[derive(Debug)]
pub enum Target {
    /// The address that the rule's alias forwards from.
    Address(String),
    /// The provider's id of the rule.
    Id(String),
}

/// What an operation does to its rule.
#[derive(Debug)]
pub enum Change {
    Remove,
    SetEnabled(bool),
    Rename(String),
}

/// What the caller does next on behalf of an operation.
#[derive(Debug)]
pub enum Step {
    /// List the rules at `url` and hand them over with `Event::Rules`.
    Fetch { url: String },
    /// Send the request and report `Event::Sent` once the provider accepted it.
    Send(RouteRequest),
    /// The operation is over, with this outcome.
    Finished(Result<(), ApiError>),
}

/// What the caller reports back after a step. A failed remote call ends the
/// operation with that failure: it is not reported.
#[derive(Debug)]
pub enum Event {
    /// The rules that a `Step::Fetch` listed, in the provider's order.
    Rules(Vec<CFEmailRoute>),
    /// The request of a `Step::Send` was accepted.
    Sent,
}

/// Where an operation stands.
#[derive(Debug)]
pub enum Phase {
    /// Waiting for the rules among which the alias for this address is looked up.
    Resolving(String),
    /// Waiting for the rules among which the rule with this id is fetched.
    Fetching(String),
    /// Waiting for the provider to accept the request.
    Sending,
    /// Over.
    Done,
}

/// One alias operation on the zone `zone_id`: remove, enable or disable, or rename
/// the rule named by an address or an id. An address is first resolved to the rule's
/// id; a change other than removal then fetches the current rule and replaces it
/// whole, since the provider takes no partial update. Nothing orders this
/// read-modify-write against other writers: the last write wins.
#[derive(Debug)]
pub struct AliasOperation {
    pub zone_id: String,
    pub change: Change,
    pub phase: Phase,
}

/// `s` ends the operation with "not found" for `key`.
pub open spec fn fails_not_found(s: Step, key: Seq<char>) -> bool {
    match s {
        Step::Finished(Err(e)) => not_found(e, key),
        _ => false,
    }
}

/// `s` ends the operation because the rule `id` cannot be read as an alias, for the
/// reason `error`.
pub open spec fn fails_malformed(s: Step, id: Seq<char>, error: ShapeError) -> bool {
    match s {
        Step::Finished(Err(e)) => malformed(e, id, error),
        _ => false,
    }
}

/// `s` lists the rules at `url`.
pub open spec fn fetches(s: Step, url: Seq<char>) -> bool {
    match s {
        Step::Fetch { url: u } => u@ == url,
        _ => false,
    }
}

/// `s` sends a request that meets `p`.
pub open spec fn sends(s: Step, p: spec_fn(RouteRequest) -> bool) -> bool {
    match s {
        Step::Send(q) => p(q),
        _ => false,
    }
}

/// The rule `r` after `c`.
pub open spec fn changed(r: RouteView, c: Change) -> RouteView {
    match c {
        Change::SetEnabled(e) => with_enabled(r, e),
        Change::Rename(n) => with_name(r, n@),
        Change::Remove => r,
    }
}

/// `phase` waits for the rules in which the rule `id` is fetched.
pub open spec fn fetching(phase: Phase, id: Seq<char>) -> bool {
    match phase {
        Phase::Fetching(k) => k@ == id,
        _ => false,
    }
}

/// Once the rule id is known: a removal deletes it, another change fetches it.
pub open spec fn acts_on_id(zone: Seq<char>, c: Change, id: Seq<char>, phase: Phase, s: Step) -> bool {
    match c {
        Change::Remove => phase is Sending && sends(s, |q: RouteRequest| deletes(q, rule_url_of(zone, id))),
        _ => fetching(phase, id) && fetches(s, rules_url_of(zone)),
    }
}

/// Given the listed rules `rs`: the rule `id` is deleted or replaced by its changed
/// copy; without such a rule the operation fails with "not found", and when the rule
/// cannot be read as an alias it fails with the reason.
pub open spec fn acts_on_rule(
    zone: Seq<char>,
    c: Change,
    id: Seq<char>,
    rs: Seq<RouteView>,
    phase: Phase,
    s: Step,
) -> bool {
    if !has_id(rs, id) {
        phase is Done && fails_not_found(s, id)
    } else {
        exists|i: int|
            #[trigger] is_first_with_id(rs, id, i) && match alias_of(rs[i]) {
                Err(error) => phase is Done && fails_malformed(s, id, error),
                Ok(_) => phase is Sending && sends(
                    s,
                    |q: RouteRequest|
                        match c {
                            Change::Remove => deletes(q, rule_url_of(zone, id)),
                            _ => puts(q, rule_url_of(zone, id), changed(rs[i], c)),
                        },
                ),
            }
    }
}

impl AliasOperation {
    /// Starts the operation `change` on the rule that `target` names in the zone
    /// `zone_id`, and gives its first step. An address is resolved first; a removal
    /// by id deletes at once. The zone id comes from a ready configuration.
    pub fn start(zone_id: String, target: Target, change: Change) -> (r: (AliasOperation, Step))
        requires
            zone_id@.len() > 0,
        ensures
            r.0.zone_id == zone_id,
            r.0.change == change,
            match target {
                Target::Address(a) => r.0.phase == Phase::Resolving(a) && fetches(
                    r.1,
                    rules_url_of(zone_id@),
                ),
                Target::Id(id) => acts_on_id(zone_id@, change, id@, r.0.phase, r.1),
            },
    {
        match target {
            Target::Address(a) => {
                let url = rules_url(zone_id.as_str());
                (AliasOperation { zone_id, change, phase: Phase::Resolving(a) }, Step::Fetch { url })
            },
            Target::Id(id) => {
                let (phase, step) = Self::on_id(zone_id.as_str(), &change, id);
                (AliasOperation { zone_id, change, phase }, step)
            },
        }
    }

    /// The phase and step once the rule id is known.
    fn on_id(zone_id: &str, change: &Change, id: String) -> (r: (Phase, Step))
        ensures
            acts_on_id(zone_id@, *change, id@, r.0, r.1),
    {
        match change {
            Change::Remove => {
                let q = delete_email_route(zone_id, id.as_str());
                (Phase::Sending, Step::Send(q))
            },
            _ => (Phase::Fetching(id), Step::Fetch { url: rules_url(zone_id) }),
        }
    }

    /// Advances the operation by what the caller reports after its last step, and
    /// gives the next step. An event that the operation was not waiting for ends it
    /// with `ApiError::OutOfOrder`.
    pub fn advance(&mut self, event: Event) -> (r: Step)
        ensures
            final(self).zone_id == old(self).zone_id,
            final(self).change == old(self).change,
            match (old(self).phase, event) {
                (Phase::Resolving(a), Event::Rules(routes)) => {
                    let als = aliases_of(route_views(routes@));
                    if !has_alias(als, a@) {
                        final(self).phase is Done && fails_not_found(r, a@)
                    } else {
                        exists|i: int|
                            #[trigger] is_first_alias(als, a@, i) && acts_on_id(
                                old(self).zone_id@,
                                old(self).change,
                                als[i].id,
                                final(self).phase,
                                r,
                            )
                    }
                },
                (Phase::Fetching(id), Event::Rules(routes)) => acts_on_rule(
                    old(self).zone_id@,
                    old(self).change,
                    id@,
                    route_views(routes@),
                    final(self).phase,
                    r,
                ),
                (Phase::Sending, Event::Sent) => final(self).phase is Done && r matches Step::Finished(Ok(_)),
                _ => final(self).phase is Done && r matches Step::Finished(Err(ApiError::OutOfOrder)),
            },
    {
        let mut phase = Phase::Done;
        std::mem::swap(&mut self.phase, &mut phase);
        match (phase, event) {
            (Phase::Resolving(a), Event::Rules(routes)) => {
                match get_email_id(&routes, a.as_str()) {
                    Ok(id) => {
                        let (next, step) = Self::on_id(self.zone_id.as_str(), &self.change, id);
                        self.phase = next;
                        step
                    },
                    Err(e) => Step::Finished(Err(e)),
                }
            },
            (Phase::Fetching(id), Event::Rules(routes)) => {
                let sent = match &self.change {
                    Change::Remove => match find_route(routes, id.as_str()) {
                        Ok(_) => Ok(delete_email_route(self.zone_id.as_str(), id.as_str())),
                        Err(e) => Err(e),
                    },
                    Change::SetEnabled(e) => update_email_route(
                        self.zone_id.as_str(),
                        id.as_str(),
                        routes,
                        *e,
                    ),
                    Change::Rename(n) => rename_email_route(
                        self.zone_id.as_str(),
                        id.as_str(),
                        routes,
                        n.clone(),
                    ),
                };
                match sent {
                    Ok(q) => {
                        self.phase = Phase::Sending;
                        Step::Send(q)
                    },
                    Err(e) => Step::Finished(Err(e)),
                }
            },
            (Phase::Sending, Event::Sent) => Step::Finished(Ok(())),
            _ => Step::Finished(Err(ApiError::OutOfOrder)),
        }
    }
}

} // verus!
