//! Finding a rule, an alias, a zone or a destination address in what the provider listed.
use vstd::prelude::*;
use crate::account::{CFDestinationAddr, CFEmailDestination, CFEmailDestinations, CFZoneInfo};
use crate::alias::{alias_of, aliases_of, list_email_routes, route_views, AliasView, RMAlias};
use crate::error::{malformed, not_found, ApiError};
use crate::route::{texts, CFEmailRoute, RouteView};

verus! {

/// `i` is the first position in `rs` of a rule with id `id`.
pub open spec fn is_first_with_id(rs: Seq<RouteView>, id: Seq<char>, i: int) -> bool {
    0 <= i < rs.len() && rs[i].id == Some(id) && forall|j: int|
        0 <= j < i ==> (#[trigger] rs[j]).id != Some(id)
}

/// Some rule of `rs` has id `id`.
pub open spec fn has_id(rs: Seq<RouteView>, id: Seq<char>) -> bool {
    exists|i: int| 0 <= i < rs.len() && (#[trigger] rs[i]).id == Some(id)
}

/// `i` is the first position in `als` of an alias for the address `email`.
pub open spec fn is_first_alias(als: Seq<AliasView>, email: Seq<char>, i: int) -> bool {
    0 <= i < als.len() && als[i].email_alias == email && forall|j: int|
        0 <= j < i ==> (#[trigger] als[j]).email_alias != email
}

/// Some alias of `als` is for the address `email`.
pub open spec fn has_alias(als: Seq<AliasView>, email: Seq<char>) -> bool {
    exists|i: int| 0 <= i < als.len() && (#[trigger] als[i]).email_alias == email
}

/// Why looking up the rule `id` in `rs` failed: no rule has that id, or the first
/// one that has it cannot be read as an alias.
pub open spec fn lookup_failure(rs: Seq<RouteView>, id: Seq<char>, e: ApiError) -> bool {
    if !has_id(rs, id) {
        not_found(e, id)
    } else {
        exists|i: int|
            #[trigger] is_first_with_id(rs, id, i) && match alias_of(rs[i]) {
                Err(s) => malformed(e, id, s),
                Ok(_) => false,
            }
    }
}

/// The rule with id `id` that comes first in `routes`, taken out of the list. A rule
/// that cannot be read as an alias is no rule of this tool: finding it is an error.
pub fn find_route(routes: Vec<CFEmailRoute>, id: &str) -> (r: Result<CFEmailRoute, ApiError>)
    ensures
        match r {
            Ok(route) => exists|i: int|
                #[trigger] is_first_with_id(route_views(routes@), id@, i) && routes@[i] == route
                    && alias_of(route@) is Ok,
            Err(e) => lookup_failure(route_views(routes@), id@, e),
        },
{
    let key = String::from_str(id);
    let ghost all = routes@;
    let ghost views = route_views(routes@);
    let mut i: usize = 0;
    while i < routes.len()
        invariant
            routes@ == all,
            views == route_views(all),
            i <= all.len(),
            key@ == id@,
            forall|j: int| 0 <= j < i ==> (#[trigger] views[j]).id != Some(id@),
        decreases routes.len() - i,
    {
        let found = match &routes[i].id {
            Some(rid) => rid.eq(&key),
            None => false,
        };
        if found {
            assert(is_first_with_id(views, id@, i as int));
            match RMAlias::try_from(&routes[i]) {
                Ok(_) => {
                    let mut rest = routes;
                    let route = rest.remove(i);
                    return Ok(route);
                },
                Err(s) => {
                    return Err(ApiError::Shape { id: key, error: s });
                },
            }
        }
        i = i + 1;
    }
    Err(ApiError::NotFound(key))
}

/// The id of the first alias, among those that `routes` read as, whose address is `email`.
pub fn get_email_id(routes: &Vec<CFEmailRoute>, email: &str) -> (r: Result<String, ApiError>)
    ensures
        match r {
            Ok(id) => exists|i: int|
                #[trigger] is_first_alias(aliases_of(route_views(routes@)), email@, i) && id@
                    == aliases_of(route_views(routes@))[i].id,
            Err(e) => !has_alias(aliases_of(route_views(routes@)), email@) && not_found(e, email@),
        },
{
    let key = String::from_str(email);
    let aliases = list_email_routes(routes);
    let ghost all = aliases_of(route_views(routes@));
    assert(aliases@.len() == all.len());
    let mut i: usize = 0;
    while i < aliases.len()
        invariant
            all == aliases_of(route_views(routes@)),
            aliases@.len() == all.len(),
            forall|j: int| 0 <= j < all.len() ==> #[trigger] all[j] == aliases@[j]@,
            i <= aliases.len(),
            key@ == email@,
            forall|j: int| 0 <= j < i ==> (#[trigger] all[j]).email_alias != email@,
        decreases aliases.len() - i,
    {
        if aliases[i].email_alias.eq(&key) {
            assert(is_first_alias(all, email@, i as int));
            return Ok(aliases[i].id.clone());
        }
        i = i + 1;
    }
    Err(ApiError::NotFound(key))
}

/// Some action of the rule forwards to `email`.
pub open spec fn forwards_to(r: RouteView, email: Seq<char>) -> bool {
    exists|k: int|
        0 <= k < r.actions.len() && (#[trigger] r.actions[k]).value is Some
            && r.actions[k].value->0.contains(email)
}

/// Whether some string of `values` is `key`.
fn contains_text(values: &Vec<String>, key: &String) -> (r: bool)
    ensures
        r == texts(values@).contains(key@),
{
    let mut i: usize = 0;
    while i < values.len()
        invariant
            i <= values.len(),
            forall|j: int| 0 <= j < i ==> values@[j]@ != key@,
        decreases values.len() - i,
    {
        if values[i].eq(key) {
            assert(texts(values@)[i as int] == key@);
            return true;
        }
        i = i + 1;
    }
    proof {
        if texts(values@).contains(key@) {
            let k = choose|k: int|
                0 <= k < texts(values@).len() && texts(values@)[k]
                    == key@;
            assert(values@[k]@ == key@);
        }
    }
    false
}

/// Whether some action of `route` forwards to `key`.
fn route_forwards_to(route: &CFEmailRoute, key: &String) -> (r: bool)
    ensures
        r == forwards_to(route@, key@),
{
    let mut i: usize = 0;
    while i < route.actions.len()
        invariant
            i <= route.actions.len(),
            forall|k: int|
                0 <= k < i ==> !((#[trigger] route@.actions[k]).value is Some
                    && route@.actions[k].value->0.contains(key@)),
        decreases route.actions.len() - i,
    {
        let hit = match &route.actions[i].value {
            Some(values) => contains_text(values, key),
            None => false,
        };
        if hit {
            assert(route@.actions[i as int].value is Some && route@.actions[i as int].value->0.contains(key@));
            return true;
        }
        i = i + 1;
    }
    false
}

/// The first rule in `routes` that forwards to the destination `email`, taken out of the list.
pub fn list_email_forward_route(routes: Vec<CFEmailRoute>, email: &str) -> (r: Result<
    CFEmailRoute,
    ApiError,
>)
    ensures
        match r {
            Ok(route) => exists|i: int|
                0 <= i < routes@.len() && routes@[i] == route && forwards_to(route@, email@)
                    && forall|j: int|
                    0 <= j < i ==> !forwards_to((#[trigger] routes@[j])@, email@),
            Err(e) => not_found(e, email@) && forall|j: int|
                0 <= j < routes@.len() ==> !forwards_to((#[trigger] routes@[j])@, email@),
        },
{
    let key = String::from_str(email);
    let ghost all = routes@;
    let mut i: usize = 0;
    while i < routes.len()
        invariant
            routes@ == all,
            i <= all.len(),
            key@ == email@,
            forall|j: int| 0 <= j < i ==> !forwards_to((#[trigger] all[j])@, email@),
        decreases routes.len() - i,
    {
        if route_forwards_to(&routes[i], &key) {
            let mut rest = routes;
            let route = rest.remove(i);
            assert(all[i as int] == route);
            return Ok(route);
        }
        i = i + 1;
    }
    Err(ApiError::NotFound(key))
}

/// The first of `addrs` whose address is `email`, taken out of the list.
pub fn destination_address(addrs: Vec<CFDestinationAddr>, email: &str) -> (r: Result<
    CFDestinationAddr,
    ApiError,
>)
    ensures
        match r {
            Ok(a) => exists|i: int|
                0 <= i < addrs@.len() && addrs@[i] == a && a.email@ == email@ && forall|j: int|
                    0 <= j < i ==> (#[trigger] addrs@[j]).email@ != email@,
            Err(e) => not_found(e, email@) && forall|j: int|
                0 <= j < addrs@.len() ==> (#[trigger] addrs@[j]).email@ != email@,
        },
{
    let key = String::from_str(email);
    let ghost all = addrs@;
    let mut i: usize = 0;
    while i < addrs.len()
        invariant
            addrs@ == all,
            i <= all.len(),
            key@ == email@,
            forall|j: int| 0 <= j < i ==> (#[trigger] all[j]).email@ != email@,
        decreases addrs.len() - i,
    {
        if addrs[i].email.eq(&key) {
            let mut rest = addrs;
            let a = rest.remove(i);
            assert(all[i as int] == a);
            return Ok(a);
        }
        i = i + 1;
    }
    Err(ApiError::NotFound(key))
}

/// The first of `zones` whose domain is `domain`, taken out of the list.
pub fn zone_info(zones: Vec<CFZoneInfo>, domain: &str) -> (r: Result<CFZoneInfo, ApiError>)
    ensures
        match r {
            Ok(z) => exists|i: int|
                0 <= i < zones@.len() && zones@[i] == z && z.name@ == domain@ && forall|j: int|
                    0 <= j < i ==> (#[trigger] zones@[j]).name@ != domain@,
            Err(e) => not_found(e, domain@) && forall|j: int|
                0 <= j < zones@.len() ==> (#[trigger] zones@[j]).name@ != domain@,
        },
{
    let key = String::from_str(domain);
    let ghost all = zones@;
    let mut i: usize = 0;
    while i < zones.len()
        invariant
            zones@ == all,
            i <= all.len(),
            key@ == domain@,
            forall|j: int| 0 <= j < i ==> (#[trigger] all[j]).name@ != domain@,
        decreases zones.len() - i,
    {
        if zones[i].name.eq(&key) {
            let mut rest = zones;
            let z = rest.remove(i);
            assert(all[i as int] == z);
            return Ok(z);
        }
        i = i + 1;
    }
    Err(ApiError::NotFound(key))
}

/// Accepts a listing of destination addresses fetched from `url` when the provider
/// reports success; otherwise fails with the provider's first message.
pub fn get_dests(url: String, dests: CFEmailDestinations) -> (r: Result<
    CFEmailDestinations,
    ApiError,
>)
    ensures
        match r {
            Ok(d) => dests.success && d == dests,
            Err(ApiError::Rejected { url: u, message: m }) => !dests.success && u@ == url@ && m == (
            if dests.messages@.len() > 0 {
                Some(dests.messages@[0])
            } else {
                None
            }),
            Err(_) => false,
        },
{
    if dests.success {
        Ok(dests)
    } else {
        let mut messages = dests.messages;
        let message = if messages.len() > 0 {
            Some(messages.remove(0))
        } else {
            None
        };
        Err(ApiError::Rejected { url, message })
    }
}

/// The account's default destination: the first address that it lists.
pub fn default_destinaton(dests: CFEmailDestinations) -> (r: Result<
    CFEmailDestination,
    ApiError,
>)
    ensures
        match r {
            Ok(d) => dests.result@.len() > 0 && d == dests.result@[0],
            Err(e) => dests.result@.len() == 0 && e is NoDestination,
        },
{
    let mut result = dests.result;
    if result.len() > 0 {
        Ok(result.remove(0))
    } else {
        Err(ApiError::NoDestination)
    }
}

} // verus!
