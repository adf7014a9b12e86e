//! The provider's wire model of e-mail routing rules.
use vstd::prelude::*;

verus! {

/// Why a routing rule cannot be read as an alias.
#[derive(Debug, Clone, Copy, PartialEq, Eq, Structural)]
pub enum ShapeError {
    MissingId,
    MissingAction,
    MissingMatcher,
}

/// The text of an optional string, if any.
pub open spec fn opt_text(s: Option<String>) -> Option<Seq<char>> {
    match s {
        Some(t) => Some(t@),
        None => None,
    }
}

/// A present, non-empty text.
pub open spec fn filled(s: Option<Seq<char>>) -> bool {
    s is Some && s->0.len() > 0
}

/// One match condition of a rule: "the `field` of the message equals `value`".
#[derive(Debug)]
pub struct CFEmailRouteMatch {
    pub action_type: String,
    pub field: Option<String>,
    pub value: Option<String>,
}

pub struct MatchView {
    pub action_type: Seq<char>,
    pub field: Option<Seq<char>>,
    pub value: Option<Seq<char>>,
}

impl View for CFEmailRouteMatch {
    type V = MatchView;

    open spec fn view(&self) -> MatchView {
        MatchView {
            action_type: self.action_type@,
            field: opt_text(self.field),
            value: opt_text(self.value),
        }
    }
}

impl CFEmailRouteMatch {
    /// The view of a literal match on the `to` field for `email`.
    pub open spec fn new_view(email: Seq<char>) -> MatchView {
        MatchView { action_type: "literal"@, field: Some("to"@), value: Some(email) }
    }

    /// A literal match on the `to` field.
    pub fn new(email: String) -> (r: Self)
        ensures
            r@ == Self::new_view(email@),
    {
        CFEmailRouteMatch {
            action_type: String::from_str("literal"),
            field: Some(String::from_str("to")),
            value: Some(email),
        }
    }

    /// The matched address.
    pub fn email_alias(&self) -> (r: Result<String, ShapeError>)
        ensures
            match r {
                Ok(a) => filled(self@.value) && a@ == self@.value->0,
                Err(e) => !filled(self@.value) && e == ShapeError::MissingMatcher,
            },
    {
        match &self.value {
            Some(v) => {
                if v.as_str().is_empty() {
                    Err(ShapeError::MissingMatcher)
                } else {
                    Ok(v.clone())
                }
            },
            None => Err(ShapeError::MissingMatcher),
        }
    }
}

/// The texts of a list of strings.
pub open spec fn texts(v: Seq<String>) -> Seq<Seq<char>> {
    v.map_values(|t: String| t@)
}

/// One action of a rule: forward to the addresses in `value`.
#[derive(Debug)]
pub struct CFEmailRouteAction {
    pub action_type: String,
    pub value: Option<Vec<String>>,
}

pub struct ActionView {
    pub action_type: Seq<char>,
    pub value: Option<Seq<Seq<char>>>,
}

impl ActionView {
    /// The first destination, when the list of destinations is present and not empty.
    pub open spec fn destination(self) -> Option<Seq<char>> {
        match self.value {
            Some(v) => if v.len() > 0 {
                Some(v[0])
            } else {
                None
            },
            None => None,
        }
    }
}

impl View for CFEmailRouteAction {
    type V = ActionView;

    open spec fn view(&self) -> ActionView {
        ActionView {
            action_type: self.action_type@,
            value: match self.value {
                Some(v) => Some(texts(v@)),
                None => None,
            },
        }
    }
}

impl CFEmailRouteAction {
    /// The view of forwarding to the one address `email`.
    pub open spec fn new_view(email: Seq<char>) -> ActionView {
        ActionView { action_type: "forward"@, value: Some(seq![email]) }
    }

    /// Forwarding to the one address `email`.
    pub fn new(email: String) -> (r: Self)
        ensures
            r@ == Self::new_view(email@),
    {
        let mut value: Vec<String> = Vec::new();
        value.push(email);
        let r = CFEmailRouteAction { action_type: String::from_str("forward"), value: Some(value) };
        assert(texts(value@) =~= seq![r.value->0@[0]@]);
        r
    }

    /// The first destination address.
    pub fn email_dest(&self) -> (r: Result<String, ShapeError>)
        ensures
            match r {
                Ok(d) => self@.destination() == Some(d@),
                Err(e) => self@.destination() is None && e == ShapeError::MissingAction,
            },
    {
        match &self.value {
            Some(values) => {
                if values.len() == 0 {
                    Err(ShapeError::MissingAction)
                } else {
                    Ok(values[0].clone())
                }
            },
            None => Err(ShapeError::MissingAction),
        }
    }
}

/// A routing rule: the messages that its matchers select are handled by its actions.
#[derive(Debug)]
pub struct CFEmailRoute {
    pub id: Option<String>,
    pub name: Option<String>,
    pub actions: Vec<CFEmailRouteAction>,
    pub matchers: Vec<CFEmailRouteMatch>,
    pub enabled: bool,
}

pub struct RouteView {
    pub id: Option<Seq<char>>,
    pub name: Option<Seq<char>>,
    pub actions: Seq<ActionView>,
    pub matchers: Seq<MatchView>,
    pub enabled: bool,
}

impl RouteView {
    /// The address that the first matcher selects, when it has one.
    pub open spec fn alias(self) -> Option<Seq<char>> {
        if self.matchers.len() > 0 && filled(self.matchers[0].value) {
            self.matchers[0].value
        } else {
            None
        }
    }

    /// The first destination of the first action, when it has one.
    pub open spec fn destination(self) -> Option<Seq<char>> {
        if self.actions.len() > 0 {
            self.actions[0].destination()
        } else {
            None
        }
    }
}

impl View for CFEmailRoute {
    type V = RouteView;

    open spec fn view(&self) -> RouteView {
        RouteView {
            id: opt_text(self.id),
            name: opt_text(self.name),
            actions: self.actions@.map_values(|a: CFEmailRouteAction| a@),
            matchers: self.matchers@.map_values(|m: CFEmailRouteMatch| m@),
            enabled: self.enabled,
        }
    }
}

/// The view of the payload that creates a rule named `name` forwarding `alias` to `dest`.
pub open spec fn new_route_view(name: Seq<char>, alias: Seq<char>, dest: Seq<char>) -> RouteView {
    RouteView {
        id: None,
        name: Some(name),
        actions: seq![CFEmailRouteAction::new_view(dest)],
        matchers: seq![CFEmailRouteMatch::new_view(alias)],
        enabled: true,
    }
}

impl CFEmailRoute {
    /// The payload that creates a rule forwarding `email_alias` to `email_dst`.
    pub fn new(route_name: String, email_alias: String, email_dst: String) -> (r: Self)
        ensures
            r@ == new_route_view(route_name@, email_alias@, email_dst@),
    {
        let ghost dest = email_dst@;
        let ghost alias = email_alias@;
        let mut actions: Vec<CFEmailRouteAction> = Vec::new();
        actions.push(CFEmailRouteAction::new(email_dst));
        let mut matchers: Vec<CFEmailRouteMatch> = Vec::new();
        matchers.push(CFEmailRouteMatch::new(email_alias));
        let r = CFEmailRoute { id: None, name: Some(route_name), actions, matchers, enabled: true };
        assert(r@.actions =~= seq![CFEmailRouteAction::new_view(dest)]);
        assert(r@.matchers =~= seq![CFEmailRouteMatch::new_view(alias)]);
        r
    }

    /// The address that the rule's first matcher selects.
    pub fn email_alias(&self) -> (r: Result<String, ShapeError>)
        ensures
            match r {
                Ok(a) => self@.alias() == Some(a@),
                Err(e) => self@.alias() is None && e == ShapeError::MissingMatcher,
            },
    {
        if self.matchers.len() == 0 {
            Err(ShapeError::MissingMatcher)
        } else {
            self.matchers[0].email_alias()
        }
    }

    /// The first destination of the rule's first action.
    pub fn email_dest(&self) -> (r: Result<String, ShapeError>)
        ensures
            match r {
                Ok(d) => self@.destination() == Some(d@),
                Err(e) => self@.destination() is None && e == ShapeError::MissingAction,
            },
    {
        if self.actions.len() == 0 {
            Err(ShapeError::MissingAction)
        } else {
            self.actions[0].email_dest()
        }
    }
}

} // verus!
