//! The decisions of the mDNS discovery component: its status, the names it
//! ignores, the services it knows, and what it reports. The component that
//! owns the mDNS daemon, the event channel and the background loops asks this
//! state what to do at each step and carries the answer out.

use std::collections::HashMap;
use vstd::prelude::*;

use crate::details::{details_from_resolved, resolved_details};
use crate::error::HiveDiscoError;
use crate::filter::NameFilter;
use crate::names::{instance_label, label_of, trim_dots, trim_trailing_dots};
use crate::registry::{expired_names, seen_by, stale, RecordView, ServiceRegistry};
use crate::service_info::{
    enable_addr_auto, new_service_info, txt_properties_valid, AnnouncedRecord, Announcement, AnnouncementView,
};
use crate::types::{
    DetailsView, DiscoveryEvent, DiscoveryEventView, DiscoveryServiceDetails, DiscoveryServiceStatus,
    LocalServiceConfig, MdnsEvent, MdnsEventView,
};

verus! {

/// Mathematical model of the discovery state.
pub struct DiscoveryStateView {
    /// Configured service type.
    pub service_type: Seq<char>,
    /// Configured instance name.
    pub instance_name: Seq<char>,
    /// Configured time to live of discovered services, in seconds.
    pub service_ttl: u64,
    /// Configured port of the local service.
    pub port: u16,
    /// Configured properties of the local service (none: empty).
    pub properties: Map<String, String>,
    /// Configured mDNS response delay range in milliseconds.
    pub mdns_response_delay_ms: (u64, u64),
    /// Configured refresh interval in seconds.
    pub refresh_interval: u64,
    /// Operational status.
    pub status: DiscoveryServiceStatus,
    /// Names whose events are ignored.
    pub filter: Set<Seq<char>>,
    /// Discovered services by full instance name.
    pub services: Map<Seq<char>, RecordView>,
    /// Name of the local service once registered.
    pub own_name: Option<Seq<char>>,
    /// Whether `DiscoveryStarted` was reported since discovery last started.
    pub started_sent: bool,
}

/// What `start_discovery` asks of the caller.
#[derive(Debug, Clone, Copy, PartialEq, Eq, Structural)]
pub enum StartAction {
    /// Discovery already runs: only announce the start if `should_announce`
    /// says so.
    AlreadyRunning,
    /// Discovery was stopped and is now running: start the expiry loop, browse
    /// the service type, announce the start if `should_announce` says so, and
    /// start the event loop.
    Launch,
}

/// The full instance name under which the local service `name` of type `ty`
/// is seen on the network.
pub open spec fn own_full_name(name: Seq<char>, ty: Seq<char>) -> Seq<char> {
    name + "."@ + ty
}

/// The properties announced with the local service.
pub open spec fn announced_properties(c: LocalServiceConfig) -> Map<String, String> {
    match c.properties {
        Some(p) => p@,
        None => Map::empty(),
    }
}

/// The model of an optional event.
pub open spec fn opt_event_view(e: Option<DiscoveryEvent>) -> Option<DiscoveryEventView> {
    match e {
        Some(ev) => Some(ev@),
        None => None,
    }
}

/// Whether the filter `filter` hides the service with full name `full` of
/// type `ty`: the filter holds its full name, its full name without trailing
/// dots, or its instance label.
pub open spec fn hides(filter: Set<Seq<char>>, full: Seq<char>, ty: Seq<char>) -> bool {
    ||| filter.contains(full)
    ||| filter.contains(trim_trailing_dots(full))
    ||| (instance_label(full, ty) matches Some(l) && filter.contains(l))
}

impl DiscoveryStateView {
    /// The state of a component just built from `c`.
    pub open spec fn initial(c: LocalServiceConfig) -> DiscoveryStateView {
        DiscoveryStateView {
            service_type: c.service_type@,
            instance_name: c.instance_name@,
            service_ttl: c.service_ttl,
            port: c.port,
            properties: announced_properties(c),
            mdns_response_delay_ms: c.mdns_response_delay_ms,
            refresh_interval: c.refresh_interval,
            status: DiscoveryServiceStatus::Stopped,
            filter: Set::empty(),
            services: Map::empty(),
            own_name: None,
            started_sent: false,
        }
    }

    /// The record that announces the local service: the configured type, the
    /// configured instance name without trailing dots, host
    /// `localhost.local.`, the configured port and properties, and addresses
    /// filled in by the daemon.
    pub open spec fn announcement(self) -> AnnouncementView {
        AnnouncementView {
            ty_domain: self.service_type,
            instance_name: trim_trailing_dots(self.instance_name),
            host_name: "localhost.local."@,
            port: self.port,
            properties: self.properties,
            addr_auto: true,
        }
    }

    /// After registering the local service: its name without trailing dots is
    /// remembered, and both that name and its full instance name are ignored.
    pub open spec fn registered(self) -> DiscoveryStateView {
        let name = trim_trailing_dots(self.instance_name);
        DiscoveryStateView {
            own_name: Some(name),
            filter: self.filter.insert(name).insert(own_full_name(name, self.service_type)),
            ..self
        }
    }

    /// After `add_filter(name)`.
    pub open spec fn filter_added(self, name: Seq<char>) -> DiscoveryStateView {
        DiscoveryStateView { filter: self.filter.insert(trim_trailing_dots(name)), ..self }
    }

    /// After `remove_filter(name)`: the local service's own name stays.
    pub open spec fn filter_removed(self, name: Seq<char>) -> DiscoveryStateView {
        let t = trim_trailing_dots(name);
        if self.own_name == Some(t) {
            self
        } else {
            DiscoveryStateView { filter: self.filter.remove(t), ..self }
        }
    }

    /// After `start_discovery`, with the outcome: `None` where starting is
    /// refused because discovery is stopping.
    pub open spec fn started(self) -> (DiscoveryStateView, Option<StartAction>) {
        match self.status {
            DiscoveryServiceStatus::Running => (self, Some(StartAction::AlreadyRunning)),
            DiscoveryServiceStatus::Stopping => (self, None),
            DiscoveryServiceStatus::Stopped => (
                DiscoveryStateView {
                    status: DiscoveryServiceStatus::Running,
                    started_sent: false,
                    ..self
                },
                Some(StartAction::Launch),
            ),
        }
    }

    /// Whether `DiscoveryStarted` is to be sent after `start_discovery`, while
    /// `receivers` subscribers listen: discovery runs, there is a subscriber,
    /// and the start was not announced yet.
    pub open spec fn announce_start(self, receivers: usize) -> bool {
        self.status == DiscoveryServiceStatus::Running && receivers > 0 && !self.started_sent
    }

    /// Whether `DiscoveryStarted` is to be sent to a new subscriber, with
    /// `receivers` subscribers now listening.
    pub open spec fn announce_to_subscriber(self, receivers: usize) -> bool {
        self.status == DiscoveryServiceStatus::Running && (!self.started_sent || receivers == 1)
    }

    /// After `stop_discovery`, with whether the browse has to be stopped.
    pub open spec fn stopped(self) -> (DiscoveryStateView, bool) {
        match self.status {
            DiscoveryServiceStatus::Running => (
                DiscoveryStateView {
                    status: DiscoveryServiceStatus::Stopping,
                    started_sent: false,
                    ..self
                },
                true,
            ),
            _ => (self, false),
        }
    }

    /// After the event loop ended.
    pub open spec fn loop_ended(self) -> DiscoveryStateView {
        if self.status == DiscoveryServiceStatus::Stopping {
            DiscoveryStateView { status: DiscoveryServiceStatus::Stopped, ..self }
        } else {
            self
        }
    }

    /// After shutdown: stopped, and no local service registered.
    pub open spec fn shut_down(self) -> DiscoveryStateView {
        DiscoveryStateView { status: DiscoveryServiceStatus::Stopped, own_name: None, ..self }
    }

    /// After an event of the mDNS daemon seen at time `now`, with what is
    /// reported. Only events for the configured service type count. A
    /// resolved service that the filter does not hide is recorded with its new
    /// details, and reported unless it is known, its details were the last
    /// reported, and they did not change. A removed service is forgotten and
    /// reported lost.
    pub open spec fn handled(self, ev: MdnsEventView, now: u64) -> (
        DiscoveryStateView,
        Option<DiscoveryEventView>,
    ) {
        match ev {
            MdnsEventView::ServiceResolved(r) => {
                if r.ty_domain != self.service_type || hides(self.filter, r.fullname, r.ty_domain) {
                    (self, None)
                } else {
                    let d = resolved_details(r, now);
                    let known = self.services.contains_key(r.fullname) && self.services[r.fullname].fresh
                        && self.services[r.fullname].details.same_content(d);
                    (
                        DiscoveryStateView {
                            services: self.services.insert(
                                r.fullname,
                                RecordView { details: d, fresh: true },
                            ),
                            ..self
                        },
                        if known {
                            None
                        } else {
                            Some(DiscoveryEventView::ServiceFound(d))
                        },
                    )
                }
            },
            MdnsEventView::ServiceRemoved(ty, name) => {
                if ty != self.service_type {
                    (self, None)
                } else {
                    (
                        DiscoveryStateView { services: self.services.remove(name), ..self },
                        Some(DiscoveryEventView::ServiceLost(name)),
                    )
                }
            },
            _ => (self, None),
        }
    }

    /// After dropping the services expired at `now`.
    pub open spec fn expired_dropped(self, now: u64) -> DiscoveryStateView {
        DiscoveryStateView {
            services: self.services.remove_keys(expired_names(self.services, now, self.service_ttl)),
            ..self
        }
    }

    /// After a refresh: every known service needs a new report.
    pub open spec fn refreshed(self) -> DiscoveryStateView {
        DiscoveryStateView {
            services: self.services.map_values(|r: RecordView| stale(r)),
            ..self
        }
    }
}

/// The state of an mDNS discovery component.
pub struct DiscoveryState {
    config: LocalServiceConfig,
    status: DiscoveryServiceStatus,
    filter: NameFilter,
    services: ServiceRegistry,
    own_instance_name: Option<String>,
    discovery_started_sent: bool,
}

impl View for DiscoveryState {
    type V = DiscoveryStateView;

    closed spec fn view(&self) -> DiscoveryStateView {
        DiscoveryStateView {
            service_type: self.config.service_type@,
            instance_name: self.config.instance_name@,
            service_ttl: self.config.service_ttl,
            port: self.config.port,
            properties: announced_properties(self.config),
            mdns_response_delay_ms: self.config.mdns_response_delay_ms,
            refresh_interval: self.config.refresh_interval,
            status: self.status,
            filter: self.filter@,
            services: self.services@,
            own_name: match self.own_instance_name {
                Some(n) => Some(n@),
                None => None,
            },
            started_sent: self.discovery_started_sent,
        }
    }
}

impl DiscoveryState {
    /// The internal structures are consistent.
    pub closed spec fn wf(&self) -> bool {
        self.filter.wf() && self.services.wf()
    }

    /// The configuration the state was built from.
    pub closed spec fn configuration(&self) -> LocalServiceConfig {
        self.config
    }

    /// Each known service is recorded under its own full instance name.
    pub proof fn lemma_service_keys(&self)
        requires
            self.wf(),
        ensures
            forall|k: Seq<char>| #[trigger] self@.services.contains_key(k)
                ==> self@.services[k].details.instance_name == k,
    {
        self.services.lemma_keys();
    }

    /// Validates `config` and builds the state of a stopped component for it.
    /// Fails with a configuration error when the service type or the instance
    /// name is empty, checked in this order.
    pub fn new(config: LocalServiceConfig) -> (res: Result<DiscoveryState, HiveDiscoError>)
        ensures
            config.service_type@.len() == 0 ==> (res matches Err(HiveDiscoError::ConfigError(m)) && m@
                == "Service type cannot be empty"@),
            config.service_type@.len() > 0 && config.instance_name@.len() == 0 ==> (res matches Err(
                HiveDiscoError::ConfigError(m),
            ) && m@ == "Instance name cannot be empty"@),
            config.service_type@.len() > 0 && config.instance_name@.len() > 0 ==> (res matches Ok(s) && s.wf()
                && s@ == DiscoveryStateView::initial(config) && s.configuration() == config),
    {
        if config.service_type.as_str().is_empty() {
            return Err(HiveDiscoError::ConfigError("Service type cannot be empty".to_owned()));
        }
        if config.instance_name.as_str().is_empty() {
            return Err(HiveDiscoError::ConfigError("Instance name cannot be empty".to_owned()));
        }
        let s = DiscoveryState {
            config,
            status: DiscoveryServiceStatus::Stopped,
            filter: NameFilter::new(),
            services: ServiceRegistry::new(),
            own_instance_name: None,
            discovery_started_sent: false,
        };
        proof {
            assert(s@ =~= DiscoveryStateView::initial(config));
        }
        Ok(s)
    }

    /// The configuration.
    pub fn config(&self) -> (c: &LocalServiceConfig)
        ensures
            *c == self.configuration(),
    {
        &self.config
    }

    /// The operational status.
    pub fn status(&self) -> (s: DiscoveryServiceStatus)
        ensures
            s == self@.status,
    {
        self.status
    }

    /// Whether `name` is ignored.
    pub fn is_filtered(&self, name: &String) -> (res: bool)
        ensures
            res == self@.filter.contains(name@),
    {
        self.filter.contains(name)
    }

    /// Whether the filter hides the service with full name `full` of type
    /// `ty`.
    pub fn hides(&self, full: &String, ty: &String) -> (res: bool)
        ensures
            res == hides(self@.filter, full@, ty@),
    {
        if self.filter.contains(full) {
            return true;
        }
        let trimmed = trim_dots(full.as_str());
        if self.filter.contains(&trimmed) {
            return true;
        }
        match label_of(full.as_str(), ty.as_str()) {
            Some(l) => self.filter.contains(&l),
            None => false,
        }
    }

    /// A copy of the details known for the service `name`, if any.
    pub fn service(&self, name: &String) -> (res: Option<DiscoveryServiceDetails>)
        requires
            self.wf(),
        ensures
            match res {
                Some(d) => self@.services.contains_key(name@) && d@ == self@.services[name@].details && d.wf(),
                None => !self@.services.contains_key(name@),
            },
    {
        self.services.get(name)
    }

    /// Number of known services.
    pub fn service_count(&self) -> (n: usize)
        requires
            self.wf(),
        ensures
            n == self@.services.len(),
    {
        self.services.len()
    }

    /// Name of the registered local service, if any.
    pub fn own_instance_name(&self) -> (res: Option<String>)
        ensures
            match res {
                Some(n) => self@.own_name == Some(n@),
                None => self@.own_name is None,
            },
    {
        match &self.own_instance_name {
            Some(n) => Some(n.clone()),
            None => None,
        }
    }

    /// The record that announces the local service.
    pub fn announcement(&self) -> (a: Announcement)
        ensures
            a@ == self@.announcement(),
    {
        let properties: HashMap<String, String> = match &self.config.properties {
            Some(p) => p.clone(),
            None => HashMap::new(),
        };
        Announcement {
            ty_domain: self.config.service_type.clone(),
            instance_name: trim_dots(self.config.instance_name.as_str()),
            host_name: "localhost.local.".to_owned(),
            port: self.config.port,
            properties,
            addr_auto: true,
        }
    }

    /// Registers the local service: remembers its name without trailing
    /// dots, ignores that name and its full instance name from now on, and
    /// builds the mDNS record `self@.announcement()` that announces it. The
    /// record cannot be built, and the mDNS error is returned, exactly when
    /// some property is not one a TXT record can carry; the name and filter
    /// are updated either way.
    pub fn register_service(&mut self) -> (res: Result<AnnouncedRecord, HiveDiscoError>)
        requires
            old(self).wf(),
        ensures
            final(self).wf(),
            final(self).configuration() == old(self).configuration(),
            final(self)@ == old(self)@.registered(),
            res.is_ok() <==> txt_properties_valid(old(self)@.announcement().properties),
            res matches Ok(r) ==> r.model() == old(self)@.announcement(),
            res is Err ==> res matches Err(HiveDiscoError::MdnsError(_)),
    {
        let announcement = self.announcement();
        let name = trim_dots(self.config.instance_name.as_str());
        let full = name.clone().concat(".").concat(self.config.service_type.as_str());
        self.own_instance_name = Some(name.clone());
        self.filter.insert(name);
        self.filter.insert(full);
        proof {
            assert(self@ =~= old(self)@.registered());
        }
        build_service_info(announcement)
    }

    /// Ignores events of the instance `name` (without trailing dots) from now
    /// on.
    pub fn add_filter(&mut self, name: &str)
        requires
            old(self).wf(),
        ensures
            final(self).wf(),
            final(self).configuration() == old(self).configuration(),
            final(self)@ == old(self)@.filter_added(name@),
    {
        let t = trim_dots(name);
        self.filter.insert(t);
        proof {
            assert(self@ =~= old(self)@.filter_added(name@));
        }
    }

    /// Stops ignoring the instance `name` (without trailing dots), unless it
    /// is the registered local service's own name.
    pub fn remove_filter(&mut self, name: &str)
        requires
            old(self).wf(),
        ensures
            final(self).wf(),
            final(self).configuration() == old(self).configuration(),
            final(self)@ == old(self)@.filter_removed(name@),
    {
        let t = trim_dots(name);
        let protected = match &self.own_instance_name {
            Some(own) => *own == t,
            None => false,
        };
        if !protected {
            self.filter.remove(&t);
            proof {
                assert(self@ =~= old(self)@.filter_removed(name@));
            }
        }
    }

    /// Starts discovery: refused with a state error while discovery is
    /// stopping; does nothing while it runs; otherwise marks it running with
    /// no start announced yet.
    pub fn start_discovery(&mut self) -> (res: Result<StartAction, HiveDiscoError>)
        requires
            old(self).wf(),
        ensures
            final(self).wf(),
            final(self).configuration() == old(self).configuration(),
            final(self)@ == old(self)@.started().0,
            match old(self)@.started().1 {
                Some(a) => res == Ok::<StartAction, HiveDiscoError>(a),
                None => res matches Err(HiveDiscoError::StateError(m)) && m@
                    == "Service is currently stopping, cannot start discovery."@,
            },
    {
        match self.status {
            DiscoveryServiceStatus::Running => Ok(StartAction::AlreadyRunning),
            DiscoveryServiceStatus::Stopping => Err(
                HiveDiscoError::StateError(
                    "Service is currently stopping, cannot start discovery.".to_owned(),
                ),
            ),
            DiscoveryServiceStatus::Stopped => {
                self.status = DiscoveryServiceStatus::Running;
                self.discovery_started_sent = false;
                proof {
                    assert(self@ =~= old(self)@.started().0);
                }
                Ok(StartAction::Launch)
            },
        }
    }

    /// Whether to send `DiscoveryStarted` after `start_discovery`, with
    /// `receivers` subscribers listening: discovery runs, there is a
    /// subscriber, and the start was not announced yet.
    pub fn should_announce(&self, receivers: usize) -> (res: bool)
        ensures
            res == self@.announce_start(receivers),
    {
        self.status == DiscoveryServiceStatus::Running && receivers > 0 && !self.discovery_started_sent
    }

    /// Whether to send `DiscoveryStarted` after a new subscription, with
    /// `receivers` subscribers now listening: discovery runs and either the
    /// start was not announced or the new subscriber is the only one.
    pub fn should_announce_to_subscriber(&self, receivers: usize) -> (res: bool)
        ensures
            res == self@.announce_to_subscriber(receivers),
    {
        self.status == DiscoveryServiceStatus::Running && (!self.discovery_started_sent || receivers == 1)
    }

    /// Notes that `DiscoveryStarted` was delivered.
    pub fn mark_start_announced(&mut self)
        requires
            old(self).wf(),
        ensures
            final(self).wf(),
            final(self).configuration() == old(self).configuration(),
            final(self)@ == (DiscoveryStateView { started_sent: true, ..old(self)@ }),
    {
        self.discovery_started_sent = true;
        proof {
            assert(self@ =~= (DiscoveryStateView { started_sent: true, ..old(self)@ }));
        }
    }

    /// Stops discovery: a running discovery becomes stopping, with the start
    /// no longer announced, and the result says that the browse has to be
    /// stopped; otherwise nothing changes.
    pub fn stop_discovery(&mut self) -> (stop_browse: bool)
        requires
            old(self).wf(),
        ensures
            final(self).wf(),
            final(self).configuration() == old(self).configuration(),
            (final(self)@, stop_browse) == old(self)@.stopped(),
    {
        match self.status {
            DiscoveryServiceStatus::Running => {
                self.status = DiscoveryServiceStatus::Stopping;
                self.discovery_started_sent = false;
                proof {
                    assert(self@ =~= old(self)@.stopped().0);
                }
                true
            },
            _ => false,
        }
    }

    /// Notes that the event loop ended: a stopping discovery is now stopped.
    pub fn discovery_loop_ended(&mut self)
        requires
            old(self).wf(),
        ensures
            final(self).wf(),
            final(self).configuration() == old(self).configuration(),
            final(self)@ == old(self)@.loop_ended(),
    {
        if self.status == DiscoveryServiceStatus::Stopping {
            self.status = DiscoveryServiceStatus::Stopped;
            proof {
                assert(self@ =~= old(self)@.loop_ended());
            }
        }
    }

    /// Shuts the state down: stopped, and the local service no longer
    /// registered.
    pub fn shutdown(&mut self)
        requires
            old(self).wf(),
        ensures
            final(self).wf(),
            final(self).configuration() == old(self).configuration(),
            final(self)@ == old(self)@.shut_down(),
    {
        self.own_instance_name = None;
        self.status = DiscoveryServiceStatus::Stopped;
        proof {
            assert(self@ =~= old(self)@.shut_down());
        }
    }

    /// Handles an event of the mDNS daemon seen at time `now` and returns the
    /// event to report, if any.
    pub fn handle_service_event(&mut self, event: MdnsEvent, now: u64) -> (res: Option<DiscoveryEvent>)
        requires
            old(self).wf(),
        ensures
            final(self).wf(),
            final(self).configuration() == old(self).configuration(),
            (final(self)@, opt_event_view(res)) == old(self)@.handled(event@, now),
            res matches Some(DiscoveryEvent::ServiceFound(d)) ==> d.wf(),
    {
        match event {
            MdnsEvent::ServiceResolved(r) => {
                if r.ty_domain != self.config.service_type || self.hides(&r.fullname, &r.ty_domain) {
                    return None;
                }
                let d = details_from_resolved(&r, now);
                let news = self.services.record_seen(d.duplicate());
                proof {
                    assert(self@ =~= old(self)@.handled(event@, now).0);
                }
                if news {
                    Some(DiscoveryEvent::ServiceFound(d))
                } else {
                    None
                }
            },
            MdnsEvent::ServiceRemoved(ty, name) => {
                if ty != self.config.service_type {
                    return None;
                }
                self.services.remove(&name);
                proof {
                    assert(self@ =~= old(self)@.handled(event@, now).0);
                }
                Some(DiscoveryEvent::ServiceLost(name))
            },
            _ => None,
        }
    }

    /// Whether no known service was seen after `now`, as
    /// `remove_expired_services` requires.
    pub fn all_seen_by(&self, now: u64) -> (res: bool)
        requires
            self.wf(),
        ensures
            res == seen_by(self@.services, now),
    {
        self.services.all_seen_by(now)
    }

    /// Drops every service last seen more than the configured time to live
    /// before `now` and returns their names, each once, to be reported lost.
    pub fn remove_expired_services(&mut self, now: u64) -> (lost: Vec<String>)
        requires
            old(self).wf(),
            seen_by(old(self)@.services, now),
        ensures
            final(self).wf(),
            final(self).configuration() == old(self).configuration(),
            final(self)@ == old(self)@.expired_dropped(now),
            forall|i: int, j: int| 0 <= i < j < lost@.len() ==> lost@[i]@ != lost@[j]@,
            forall|k: Seq<char>|
                (exists|i: int| 0 <= i < lost@.len() && #[trigger] lost@[i]@ == k) <==> expired_names(
                    old(self)@.services,
                    now,
                    old(self)@.service_ttl,
                ).contains(k),
    {
        let ttl = self.config.service_ttl;
        let lost = self.services.remove_expired(now, ttl);
        proof {
            assert(self@ =~= old(self)@.expired_dropped(now));
        }
        lost
    }

    /// Copies of the details of all known services, each once, to be reported
    /// again; afterwards every service is reported on its next sighting.
    pub fn refresh_services(&mut self) -> (res: Vec<DiscoveryServiceDetails>)
        requires
            old(self).wf(),
        ensures
            final(self).wf(),
            final(self).configuration() == old(self).configuration(),
            final(self)@ == old(self)@.refreshed(),
            forall|i: int| 0 <= i < res@.len() ==> (#[trigger] res@[i]).wf()
                && old(self)@.services.contains_key(res@[i]@.instance_name)
                && res@[i]@ == old(self)@.services[res@[i]@.instance_name].details,
            forall|i: int, j: int| 0 <= i < j < res@.len() ==> res@[i]@.instance_name != res@[j]@.instance_name,
            forall|k: Seq<char>| #[trigger] old(self)@.services.contains_key(k) ==> exists|i: int| 0 <= i < res@.len()
                && res@[i]@.instance_name == k,
    {
        let res = self.services.snapshot_for_refresh();
        proof {
            assert(self@ =~= old(self)@.refreshed());
        }
        res
    }
}

/// Builds the mDNS record for the announcement `a`, with the daemon filling
/// in the host's addresses where `a.addr_auto` asks for it. Fails with the
/// mDNS error exactly when some property is not one a TXT record can carry.
pub fn build_service_info(a: Announcement) -> (res: Result<AnnouncedRecord, HiveDiscoError>)
    ensures
        res.is_ok() <==> txt_properties_valid(a@.properties),
        res matches Ok(r) ==> r.model() == a@,
        res is Err ==> res matches Err(HiveDiscoError::MdnsError(_)),
{
    let addr_auto = a.addr_auto;
    match new_service_info(a) {
        Ok(record) => {
            if addr_auto {
                Ok(enable_addr_auto(record))
            } else {
                Ok(record)
            }
        },
        Err(e) => Err(HiveDiscoError::MdnsError(e)),
    }
}

} // verus!
