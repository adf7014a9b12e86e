//! The alias record of the tool, read from routing rules.
use vstd::prelude::*;
use crate::route::{filled, new_route_view, CFEmailRoute, RouteView, ShapeError};

verus! {

/// An alias: mail to `email_alias` is forwarded to `email_destination`
/// while `enabled` holds.
#[derive(Debug, Default)]
pub struct RMAlias {
    pub id: String,
    pub email_destination: String,
    pub email_alias: String,
    pub name: String,
    pub enabled: bool,
}

pub struct AliasView {
    pub id: Seq<char>,
    pub email_destination: Seq<char>,
    pub email_alias: Seq<char>,
    pub name: Seq<char>,
    pub enabled: bool,
}

impl View for RMAlias {
    type V = AliasView;

    open spec fn view(&self) -> AliasView {
        AliasView {
            id: self.id@,
            email_destination: self.email_destination@,
            email_alias: self.email_alias@,
            name: self.name@,
            enabled: self.enabled,
        }
    }
}

/// The alias that a rule reads as: it needs an id, a destination and a matched address,
/// checked in that order.
pub open spec fn alias_of(r: RouteView) -> Result<AliasView, ShapeError> {
    if !filled(r.id) {
        Err(ShapeError::MissingId)
    } else if r.destination() is None {
        Err(ShapeError::MissingAction)
    } else if r.alias() is None {
        Err(ShapeError::MissingMatcher)
    } else {
        Ok(
            AliasView {
                id: r.id->0,
                email_destination: r.destination()->0,
                email_alias: r.alias()->0,
                name: match r.name {
                    Some(n) => n,
                    None => Seq::empty(),
                },
                enabled: r.enabled,
            },
        )
    }
}

/// The aliases that the rules read as, in order; rules that do not read as one are left out.
pub open spec fn aliases_of(rs: Seq<RouteView>) -> Seq<AliasView>
    decreases rs.len(),
{
    if rs.len() == 0 {
        Seq::empty()
    } else {
        let before = aliases_of(rs.drop_last());
        match alias_of(rs.last()) {
            Ok(a) => before.push(a),
            Err(_) => before,
        }
    }
}

pub open spec fn route_views(rs: Seq<CFEmailRoute>) -> Seq<RouteView> {
    rs.map_values(|r: CFEmailRoute| r@)
}

pub open spec fn alias_views(v: Seq<RMAlias>) -> Seq<AliasView> {
    v.map_values(|a: RMAlias| a@)
}

impl RMAlias {
    /// Reads a routing rule as an alias.
    pub fn try_from(route: &CFEmailRoute) -> (r: Result<RMAlias, ShapeError>)
        ensures
            match r {
                Ok(a) => alias_of(route@) == Ok::<AliasView, ShapeError>(a@),
                Err(e) => alias_of(route@) == Err::<AliasView, ShapeError>(e),
            },
    {
        let id = match &route.id {
            Some(id) => {
                if id.as_str().is_empty() {
                    return Err(ShapeError::MissingId);
                }
                id.clone()
            },
            None => {
                return Err(ShapeError::MissingId);
            },
        };
        let email_destination = match route.email_dest() {
            Ok(d) => d,
            Err(e) => {
                return Err(e);
            },
        };
        let email_alias = match route.email_alias() {
            Ok(a) => a,
            Err(e) => {
                return Err(e);
            },
        };
        let name = match &route.name {
            Some(n) => n.clone(),
            None => String::new(),
        };
        Ok(RMAlias { id, email_destination, email_alias, name, enabled: route.enabled })
    }
}

/// The aliases that the fetched rules read as, in the order of the rules; a rule
/// that does not read as an alias is skipped.
pub fn list_email_routes(routes: &Vec<CFEmailRoute>) -> (r: Vec<RMAlias>)
    ensures
        alias_views(r@) == aliases_of(route_views(routes@)),
{
    let mut aliases: Vec<RMAlias> = Vec::new();
    let mut i: usize = 0;
    while i < routes.len()
        invariant
            i <= routes.len(),
            alias_views(aliases@) == aliases_of(route_views(routes@).take(i as int)),
        decreases routes.len() - i,
    {
        let ghost before = aliases@;
        assert(route_views(routes@).take(i as int + 1).drop_last() =~= route_views(
            routes@,
        ).take(i as int));
        match RMAlias::try_from(&routes[i]) {
            Ok(a) => {
                aliases.push(a);
                assert(alias_views(aliases@) =~= alias_views(before).push(a@));
            },
            Err(_) => {},
        }
        i = i + 1;
    }
    assert(route_views(routes@).take(i as int) =~= route_views(routes@));
    aliases
}

/// Listing distributes over joined lists of rules.
proof fn lemma_aliases_of_concat(a: Seq<RouteView>, b: Seq<RouteView>)
    ensures
        aliases_of(a + b) == aliases_of(a) + aliases_of(b),
    decreases b.len(),
{
    if b.len() == 0 {
        assert(a + b =~= a);
        assert(aliases_of(a) + aliases_of(b) =~= aliases_of(a));
    } else {
        lemma_aliases_of_concat(a, b.drop_last());
        assert((a + b).drop_last() =~= a + b.drop_last());
        assert((a + b).last() == b.last());
        match alias_of(b.last()) {
            Ok(x) => {
                assert(aliases_of(a) + aliases_of(b) =~= (aliases_of(a) + aliases_of(
                    b.drop_last(),
                )).push(x));
            },
            Err(_) => {},
        }
    }
}

/// A rule without an id, without a destination, or without a matched address does
/// not read as an alias, and the error names the first of these that is missing;
/// a listing leaves such a rule out and keeps the aliases of all other rules, in
/// their order.
pub proof fn lemma_unreadable_rule_skipped(rs: Seq<RouteView>, i: int)
    requires
        0 <= i < rs.len(),
        !filled(rs[i].id) || rs[i].destination() is None || rs[i].alias() is None,
    ensures
        alias_of(rs[i]) == Err::<AliasView, ShapeError>(
            if !filled(rs[i].id) {
                ShapeError::MissingId
            } else if rs[i].destination() is None {
                ShapeError::MissingAction
            } else {
                ShapeError::MissingMatcher
            },
        ),
        aliases_of(rs) == aliases_of(rs.remove(i)),
{
    let pre = rs.take(i);
    let post = rs.skip(i + 1);
    assert(rs =~= pre + seq![rs[i]] + post);
    assert(rs.remove(i) =~= pre + post);
    lemma_aliases_of_concat(pre + seq![rs[i]], post);
    lemma_aliases_of_concat(pre, seq![rs[i]]);
    lemma_aliases_of_concat(pre, post);
    assert(seq![rs[i]].drop_last() =~= Seq::<RouteView>::empty());
    assert(seq![rs[i]].last() == rs[i]);
    assert(aliases_of(Seq::<RouteView>::empty()) =~= Seq::<AliasView>::empty());
    assert(aliases_of(seq![rs[i]]) =~= Seq::<AliasView>::empty());
    assert(aliases_of(pre) + aliases_of(seq![rs[i]]) =~= aliases_of(pre));
}

/// A rule built for creation has no id yet, so it does not read as an alias; with the
/// id that the provider assigns, it reads as an enabled alias whose description,
/// address and destination are exactly the ones it was built from.
pub proof fn lemma_created_rule_reads_back(
    name: Seq<char>,
    alias: Seq<char>,
    dest: Seq<char>,
    id: Seq<char>,
)
    requires
        alias.len() > 0,
        id.len() > 0,
    ensures
        alias_of(new_route_view(name, alias, dest)) == Err::<AliasView, ShapeError>(
            ShapeError::MissingId,
        ),
        alias_of(
            RouteView {
                id: Some(id),
                name: new_route_view(name, alias, dest).name,
                actions: new_route_view(name, alias, dest).actions,
                matchers: new_route_view(name, alias, dest).matchers,
                enabled: new_route_view(name, alias, dest).enabled,
            },
        ) == Ok::<AliasView, ShapeError>(
            AliasView { id, email_destination: dest, email_alias: alias, name, enabled: true },
        ),
{
}

} // verus!
