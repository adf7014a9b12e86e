//! The tool's configuration: credentials, the destination address and the zone,
//! each with the id that the provider gave it.
use vstd::prelude::*;
use crate::account::{CFDestinationAddr, CFZoneInfo};
use crate::error::{not_found, ApiError};
use crate::resolve::{destination_address, zone_info};

verus! {

/// The configuration as stored between runs. Alias operations need it `ready`.
#[derive(Debug, Default)]
pub struct RMConfig {
    pub account_id: String,
    pub token: String,
    pub destination_email: String,
    pub destination_email_id: String,
    pub zone: String,
    pub zone_id: String,
}

/// Why the configuration cannot serve yet.
#[derive(Debug, Clone, Copy, PartialEq, Eq, Structural)]
pub enum ConfigError {
    /// A lookup needs the API token, and none is set.
    TokenMissing,
    /// A lookup needs the account id, and none is set.
    AccountIdMissing,
    /// Alias operations need what the flags mark as missing: the account id, the id
    /// of the destination address, the id of the zone.
    NotReady { account_id: bool, destination_email: bool, zone: bool },
}

impl RMConfig {
    /// The account id, the destination address's id and the zone's id are all set.
    pub open spec fn is_ready(&self) -> bool {
        self.account_id@.len() > 0 && self.destination_email_id@.len() > 0 && self.zone_id@.len()
            > 0
    }

    /// Whether alias operations can run on this configuration.
    pub fn ready(&self) -> (r: bool)
        ensures
            r == self.is_ready(),
    {
        !self.account_id.as_str().is_empty() && !self.destination_email_id.as_str().is_empty()
            && !self.zone_id.as_str().is_empty()
    }

    /// Accepts a configuration read from storage for alias operations: it must be
    /// ready, else the error marks each part that is missing.
    pub fn load(conf: RMConfig) -> (r: Result<RMConfig, ConfigError>)
        ensures
            match r {
                Ok(c) => conf.is_ready() && c == conf,
                Err(e) => !conf.is_ready() && e == (ConfigError::NotReady {
                    account_id: conf.account_id@.len() == 0,
                    destination_email: conf.destination_email_id@.len() == 0,
                    zone: conf.zone_id@.len() == 0,
                }),
            },
    {
        if conf.ready() {
            Ok(conf)
        } else {
            Err(
                ConfigError::NotReady {
                    account_id: conf.account_id.as_str().is_empty(),
                    destination_email: conf.destination_email_id.as_str().is_empty(),
                    zone: conf.zone_id.as_str().is_empty(),
                },
            )
        }
    }

    /// Starts an update: the account id and the token take the given values at once;
    /// a destination address and a domain are kept until the provider has given
    /// their ids.
    pub fn update(
        self,
        account_id: Option<String>,
        token: Option<String>,
        email: Option<String>,
        domain: Option<String>,
    ) -> (r: ConfigUpdate)
        ensures
            r.config.account_id == (match account_id {
                Some(a) => a,
                None => self.account_id,
            }),
            r.config.token == (match token {
                Some(t) => t,
                None => self.token,
            }),
            r.config.destination_email == self.destination_email,
            r.config.destination_email_id == self.destination_email_id,
            r.config.zone == self.zone,
            r.config.zone_id == self.zone_id,
            r.email == email,
            r.domain == domain,
    {
        let mut config = self;
        match account_id {
            Some(a) => {
                config.account_id = a;
            },
            None => {},
        }
        match token {
            Some(t) => {
                config.token = t;
            },
            None => {},
        }
        ConfigUpdate { config, email, domain }
    }
}

/// A configuration update in progress: `config` with the destination address and
/// the domain whose ids are still to be looked up.
#[derive(Debug)]
pub struct ConfigUpdate {
    pub config: RMConfig,
    pub email: Option<String>,
    pub domain: Option<String>,
}

/// What the caller does next for a configuration update.
#[derive(Debug)]
pub enum UpdateStep {
    /// List the destination addresses of `account_id` and hand them to
    /// `ConfigUpdate::destination_found`.
    LookupDestination { account_id: String, token: String },
    /// List the zones that `token` reaches and hand them to `ConfigUpdate::zone_found`.
    LookupZone { token: String },
    /// Store `config`: the update is complete.
    Save,
    /// The update cannot go on.
    Failed(ConfigError),
}

impl ConfigUpdate {
    /// The next step: the destination address is looked up first, then the domain;
    /// each lookup needs the token, and the first also the account id.
    pub fn next_step(&self) -> (r: UpdateStep)
        ensures
            self.email is Some ==> match r {
                UpdateStep::LookupDestination { account_id: a, token: t } => self.config.token@.len()
                    > 0 && self.config.account_id@.len() > 0 && a == self.config.account_id && t
                    == self.config.token,
                UpdateStep::Failed(ConfigError::TokenMissing) => self.config.token@.len() == 0,
                UpdateStep::Failed(ConfigError::AccountIdMissing) => self.config.token@.len() > 0
                    && self.config.account_id@.len() == 0,
                _ => false,
            },
            self.email is None && self.domain is Some ==> match r {
                UpdateStep::LookupZone { token: t } => self.config.token@.len() > 0 && t
                    == self.config.token,
                UpdateStep::Failed(ConfigError::TokenMissing) => self.config.token@.len() == 0,
                _ => false,
            },
            self.email is None && self.domain is None ==> r is Save,
    {
        if self.email.is_some() {
            if self.config.token.as_str().is_empty() {
                UpdateStep::Failed(ConfigError::TokenMissing)
            } else if self.config.account_id.as_str().is_empty() {
                UpdateStep::Failed(ConfigError::AccountIdMissing)
            } else {
                UpdateStep::LookupDestination {
                    account_id: self.config.account_id.clone(),
                    token: self.config.token.clone(),
                }
            }
        } else if self.domain.is_some() {
            if self.config.token.as_str().is_empty() {
                UpdateStep::Failed(ConfigError::TokenMissing)
            } else {
                UpdateStep::LookupZone { token: self.config.token.clone() }
            }
        } else {
            UpdateStep::Save
        }
    }

    /// Takes the account's destination addresses: the pending address, when there is
    /// one, is set with the id of the first entry that lists it. Without such an
    /// entry the update is left as it was.
    pub fn destination_found(&mut self, addrs: Vec<CFDestinationAddr>) -> (r: Result<(), ApiError>)
        ensures
            match old(self).email {
                None => r is Ok && *final(self) == *old(self),
                Some(email) => match r {
                    Ok(_) => exists|i: int|
                        0 <= i < addrs@.len() && (#[trigger] addrs@[i]).email@ == email@
                            && (forall|j: int| 0 <= j < i ==> (#[trigger] addrs@[j]).email@ != email@)
                            && final(self).config == (RMConfig {
                            destination_email: email,
                            destination_email_id: addrs@[i].id,
                            ..old(self).config
                        }) && final(self).email is None && final(self).domain == old(self).domain,
                    Err(e) => not_found(e, email@) && (forall|j: int|
                        0 <= j < addrs@.len() ==> (#[trigger] addrs@[j]).email@ != email@)
                        && *final(self) == *old(self),
                },
            },
    {
        match self.email.take() {
            None => Ok(()),
            Some(email) => match destination_address(addrs, email.as_str()) {
                Ok(dst) => {
                    self.config.destination_email = email;
                    self.config.destination_email_id = dst.id;
                    Ok(())
                },
                Err(e) => {
                    self.email = Some(email);
                    Err(e)
                },
            },
        }
    }

    /// Takes the zones that the token reaches: the pending domain, when there is one,
    /// is set with the id of the first zone of that name. Without such a zone the
    /// update is left as it was.
    pub fn zone_found(&mut self, zones: Vec<CFZoneInfo>) -> (r: Result<(), ApiError>)
        ensures
            match old(self).domain {
                None => r is Ok && *final(self) == *old(self),
                Some(domain) => match r {
                    Ok(_) => exists|i: int|
                        0 <= i < zones@.len() && (#[trigger] zones@[i]).name@ == domain@
                            && (forall|j: int| 0 <= j < i ==> (#[trigger] zones@[j]).name@ != domain@)
                            && final(self).config == (RMConfig {
                            zone: domain,
                            zone_id: zones@[i].id,
                            ..old(self).config
                        }) && final(self).domain is None && final(self).email == old(self).email,
                    Err(e) => not_found(e, domain@) && (forall|j: int|
                        0 <= j < zones@.len() ==> (#[trigger] zones@[j]).name@ != domain@)
                        && *final(self) == *old(self),
                },
            },
    {
        match self.domain.take() {
            None => Ok(()),
            Some(domain) => match zone_info(zones, domain.as_str()) {
                Ok(z) => {
                    self.config.zone = domain;
                    self.config.zone_id = z.id;
                    Ok(())
                },
                Err(e) => {
                    self.domain = Some(domain);
                    Err(e)
                },
            },
        }
    }
}

} // verus!
