//! Properties of the discovery component that span several operations.

use vstd::prelude::*;

use crate::details::resolved_details;
use crate::names::{instance_label, lemma_trim_trailing_dots, trim_trailing_dots};
use crate::registry::{expired_names, is_expired};
use crate::state::{hides, own_full_name, DiscoveryStateView, StartAction};
use crate::types::{DetailsView, DiscoveryEventView, DiscoveryServiceStatus, MdnsEventView, ResolvedView};

verus! {

/// The local service is registered and both its name and its full instance
/// name are ignored.
pub open spec fn self_filtered(s: DiscoveryStateView) -> bool {
    &&& s.own_name is Some
    &&& s.filter.contains(s.own_name->0)
    &&& s.filter.contains(own_full_name(s.own_name->0, s.service_type))
}

/// Registering makes the component ignore its own service: a resolved
/// service whose full name is the local service's is neither recorded nor
/// reported.
pub proof fn law_registered_service_is_not_discovered(
    s: DiscoveryStateView,
    r: ResolvedView,
    now: u64,
)
    requires
        r.ty_domain == s.service_type,
        r.fullname == own_full_name(trim_trailing_dots(s.instance_name), s.service_type),
    ensures
        self_filtered(s.registered()),
        s.registered().handled(MdnsEventView::ServiceResolved(r), now) == (s.registered(), None::<
            DiscoveryEventView,
        >),
{
}

/// While the service type ends with a dot, as mDNS service types do, no
/// `remove_filter` call lifts the self filter: the own name is protected,
/// and a name ending with a dot is never the target of a removal.
pub proof fn law_self_filter_survives_remove_filter(s: DiscoveryStateView, name: Seq<char>)
    requires
        self_filtered(s),
        s.service_type.len() > 0,
        s.service_type.last() == '.',
    ensures
        self_filtered(s.filter_removed(name)),
{
    lemma_trim_trailing_dots(name);
    let full = own_full_name(s.own_name->0, s.service_type);
    assert(full.last() == '.');
    if trim_trailing_dots(name) == full {
        assert(trim_trailing_dots(name).len() > 0);
    }
}

/// Adding filters, starting, stopping and handling events keep the self
/// filter in place.
pub proof fn law_self_filter_is_kept(s: DiscoveryStateView, name: Seq<char>, ev: MdnsEventView, now: u64)
    requires
        self_filtered(s),
    ensures
        self_filtered(s.filter_added(name)),
        self_filtered(s.started().0),
        self_filtered(s.stopped().0),
        self_filtered(s.loop_ended()),
        self_filtered(s.handled(ev, now).0),
        self_filtered(s.expired_dropped(now)),
        self_filtered(s.refreshed()),
{
}

/// A filtered instance is never recorded nor reported.
pub proof fn law_filtered_service_is_ignored(s: DiscoveryStateView, r: ResolvedView, now: u64)
    requires
        hides(s.filter, r.fullname, r.ty_domain),
    ensures
        s.handled(MdnsEventView::ServiceResolved(r), now) == (s, None::<DiscoveryEventView>),
{
}

/// `add_filter(name)` hides the instance it names: a resolved service whose
/// instance label, or whose full name without trailing dots, is `name`
/// without trailing dots is neither recorded nor reported.
pub proof fn law_add_filter_hides_instance(s: DiscoveryStateView, name: Seq<char>, r: ResolvedView, now: u64)
    requires
        trim_trailing_dots(r.fullname) == trim_trailing_dots(name) || instance_label(r.fullname, r.ty_domain)
            == Some(trim_trailing_dots(name)),
    ensures
        s.filter_added(name).handled(MdnsEventView::ServiceResolved(r), now) == (s.filter_added(name), None::<
            DiscoveryEventView,
        >),
{
}

/// Adding a filter twice is adding it once.
pub proof fn law_add_filter_idempotent(s: DiscoveryStateView, name: Seq<char>)
    ensures
        s.filter_added(name).filter_added(name) == s.filter_added(name),
{
    assert(s.filter_added(name).filter_added(name).filter =~= s.filter_added(name).filter);
}

/// Removing a filter that was just added, other than the local service's own
/// name, leaves no filter for that name; a name that was not filtered before
/// leaves the filter as it was.
pub proof fn law_remove_undoes_add_filter(s: DiscoveryStateView, name: Seq<char>)
    requires
        s.own_name != Some(trim_trailing_dots(name)),
    ensures
        s.filter_added(name).filter_removed(name) == (DiscoveryStateView {
            filter: s.filter.remove(trim_trailing_dots(name)),
            ..s
        }),
        !s.filter.contains(trim_trailing_dots(name)) ==> s.filter_added(name).filter_removed(name) == s,
{
    assert(s.filter_added(name).filter_removed(name).filter =~= s.filter.remove(trim_trailing_dots(name)));
    if !s.filter.contains(trim_trailing_dots(name)) {
        assert(s.filter.remove(trim_trailing_dots(name)) =~= s.filter);
    }
}

/// The own name of the registered local service cannot be removed from the
/// filter.
pub proof fn law_own_name_filter_protected(s: DiscoveryStateView, name: Seq<char>)
    requires
        s.own_name is Some,
        trim_trailing_dots(name) == s.own_name->0,
    ensures
        s.filter_removed(name) == s,
{
}

/// A resolved service of the configured type that is not filtered is
/// afterwards known with exactly the details built from the sighting.
pub proof fn law_resolved_service_is_recorded(s: DiscoveryStateView, r: ResolvedView, now: u64)
    requires
        r.ty_domain == s.service_type,
        !hides(s.filter, r.fullname, r.ty_domain),
    ensures
        s.handled(MdnsEventView::ServiceResolved(r), now).0.services.contains_key(r.fullname),
        s.handled(MdnsEventView::ServiceResolved(r), now).0.services[r.fullname].details == resolved_details(
            r,
            now,
        ),
{
}

/// A new service is reported with the details it is recorded with.
pub proof fn law_new_service_is_reported(s: DiscoveryStateView, r: ResolvedView, now: u64)
    requires
        r.ty_domain == s.service_type,
        !hides(s.filter, r.fullname, r.ty_domain),
        !s.services.contains_key(r.fullname),
    ensures
        s.handled(MdnsEventView::ServiceResolved(r), now).1 == Some(
            DiscoveryEventView::ServiceFound(resolved_details(r, now)),
        ),
{
}

/// A known service whose details changed in anything but the time it was
/// seen is reported again.
pub proof fn law_changed_service_is_reported(s: DiscoveryStateView, r: ResolvedView, now: u64)
    requires
        r.ty_domain == s.service_type,
        !hides(s.filter, r.fullname, r.ty_domain),
        s.services.contains_key(r.fullname),
        !s.services[r.fullname].details.same_content(resolved_details(r, now)),
    ensures
        s.handled(MdnsEventView::ServiceResolved(r), now).1 == Some(
            DiscoveryEventView::ServiceFound(resolved_details(r, now)),
        ),
{
}

/// Seeing the same service again, whenever, reports nothing new: only its
/// last-seen time moves on.
pub proof fn law_unchanged_service_reported_once(s: DiscoveryStateView, r: ResolvedView, t1: u64, t2: u64)
    requires
        r.ty_domain == s.service_type,
        !hides(s.filter, r.fullname, r.ty_domain),
    ensures
        s.handled(MdnsEventView::ServiceResolved(r), t1).0.handled(MdnsEventView::ServiceResolved(r), t2).1
            is None,
        s.handled(MdnsEventView::ServiceResolved(r), t1).0.handled(MdnsEventView::ServiceResolved(r), t2).0
            == s.handled(MdnsEventView::ServiceResolved(r), t2).0,
{
    let a = s.handled(MdnsEventView::ServiceResolved(r), t1).0;
    assert(a.services.insert(r.fullname, a.services[r.fullname]).remove(r.fullname) =~= a.services.remove(
        r.fullname,
    ));
    assert(a.handled(MdnsEventView::ServiceResolved(r), t2).0.services =~= s.handled(
        MdnsEventView::ServiceResolved(r),
        t2,
    ).0.services);
}

/// After a refresh, the next sighting of any service is reported.
pub proof fn law_refresh_reports_next_sighting(s: DiscoveryStateView, r: ResolvedView, now: u64)
    requires
        r.ty_domain == s.service_type,
        !hides(s.filter, r.fullname, r.ty_domain),
    ensures
        s.refreshed().handled(MdnsEventView::ServiceResolved(r), now).1 == Some(
            DiscoveryEventView::ServiceFound(resolved_details(r, now)),
        ),
{
}

/// A removed service of the configured type is forgotten and reported lost.
pub proof fn law_removed_service_is_lost(s: DiscoveryStateView, name: Seq<char>, now: u64)
    ensures
        !s.handled(MdnsEventView::ServiceRemoved(s.service_type, name), now).0.services.contains_key(name),
        s.handled(MdnsEventView::ServiceRemoved(s.service_type, name), now).1 == Some(
            DiscoveryEventView::ServiceLost(name),
        ),
{
}

/// Events for other service types change nothing and report nothing.
pub proof fn law_other_types_ignored(s: DiscoveryStateView, ev: MdnsEventView, now: u64)
    requires
        match ev {
            MdnsEventView::ServiceResolved(r) => r.ty_domain != s.service_type,
            MdnsEventView::ServiceRemoved(ty, _) => ty != s.service_type,
            _ => true,
        },
    ensures
        s.handled(ev, now) == (s, None::<DiscoveryEventView>),
{
}

/// Handling events changes only the known services.
pub proof fn law_events_change_only_services(s: DiscoveryStateView, ev: MdnsEventView, now: u64)
    ensures
        s.handled(ev, now).0 == (DiscoveryStateView { services: s.handled(ev, now).0.services, ..s }),
{
}

/// After dropping expired services, none of the remaining ones has expired,
/// and every service that had not expired is kept unchanged.
pub proof fn law_expiry_keeps_live_services(s: DiscoveryStateView, now: u64)
    ensures
        forall|k: Seq<char>| #[trigger] s.expired_dropped(now).services.contains_key(k) ==> !is_expired(
            s.expired_dropped(now).services[k],
            now,
            s.service_ttl,
        ),
        forall|k: Seq<char>|
            s.services.contains_key(k) && !is_expired(s.services[k], now, s.service_ttl) ==> #[trigger] s.expired_dropped(
                now,
            ).services.contains_key(k) && s.expired_dropped(now).services[k] == s.services[k],
        forall|k: Seq<char>| #[trigger] expired_names(s.services, now, s.service_ttl).contains(k) ==> !s.expired_dropped(
            now,
        ).services.contains_key(k),
{
}

/// Starting a stopped component makes it run, with the start not announced
/// yet, and asks for the browse to be launched.
pub proof fn law_start_from_stopped(s: DiscoveryStateView)
    requires
        s.status == DiscoveryServiceStatus::Stopped,
    ensures
        s.started().0.status == DiscoveryServiceStatus::Running,
        !s.started().0.started_sent,
        s.started().1 == Some(StartAction::Launch),
{
}

/// Starting twice is starting once; starting while stopping is refused and
/// changes nothing.
pub proof fn law_start_idempotent(s: DiscoveryStateView)
    ensures
        s.started().0.started().0 == s.started().0,
        s.status != DiscoveryServiceStatus::Stopping ==> s.started().0.started().1 == Some(
            StartAction::AlreadyRunning,
        ),
        s.status == DiscoveryServiceStatus::Stopping ==> s.started() == (s, None::<StartAction>),
{
}

/// Stopping never leaves discovery running, stopping twice is stopping once,
/// and once the event loop ends a stopped-then-ended component is stopped.
pub proof fn law_stop(s: DiscoveryStateView)
    ensures
        s.stopped().0.status != DiscoveryServiceStatus::Running,
        s.stopped().0.stopped() == (s.stopped().0, false),
        s.stopped().0.loop_ended().status == DiscoveryServiceStatus::Stopped,
{
}

/// Start, then stop, then the end of the event loop: back to stopped.
pub proof fn law_start_stop_round_trip(s: DiscoveryStateView)
    requires
        s.status == DiscoveryServiceStatus::Stopped,
    ensures
        s.started().0.stopped().1,
        s.started().0.stopped().0.status == DiscoveryServiceStatus::Stopping,
        s.started().0.stopped().0.loop_ended().status == DiscoveryServiceStatus::Stopped,
{
}

/// The start is announced at most once until discovery is started again.
pub proof fn law_start_announced_once(s: DiscoveryStateView, receivers: usize)
    ensures
        !(DiscoveryStateView { started_sent: true, ..s }).announce_start(receivers),
        s.status == DiscoveryServiceStatus::Stopped && receivers > 0 ==> s.started().0.announce_start(receivers),
{
}

/// Shutting down stops the component and unregisters the local service,
/// whatever its status was.
pub proof fn law_shutdown(s: DiscoveryStateView)
    ensures
        s.shut_down().status == DiscoveryServiceStatus::Stopped,
        s.shut_down().own_name is None,
        s.shut_down().filter == s.filter,
        s.shut_down().services == s.services,
{
}

/// An operation on the discovery component, as the model sees it.
pub enum Step {
    /// `register_service`.
    Register,
    /// `add_filter(name)`.
    AddFilter(Seq<char>),
    /// `remove_filter(name)`.
    RemoveFilter(Seq<char>),
    /// `start_discovery`.
    Start,
    /// The start announcement that follows `start_discovery`, with the number
    /// of subscribers and whether the send got through.
    AnnounceStart(usize, bool),
    /// The start announcement that follows a subscription, with the number of
    /// subscribers and whether the send got through.
    AnnounceToSubscriber(usize, bool),
    /// `stop_discovery`.
    Stop,
    /// The end of the event loop.
    LoopEnded,
    /// `shutdown`, which stops discovery first.
    Shutdown,
    /// An event of the mDNS daemon at a time.
    Event(MdnsEventView, u64),
    /// Dropping the services expired at a time.
    Expire(u64),
    /// `refresh_services`.
    Refresh,
}

/// The state with the start announced.
pub open spec fn announced(s: DiscoveryStateView) -> DiscoveryStateView {
    DiscoveryStateView { started_sent: true, ..s }
}

/// The state after `step`.
pub open spec fn apply(s: DiscoveryStateView, step: Step) -> DiscoveryStateView {
    match step {
        Step::Register => s.registered(),
        Step::AddFilter(n) => s.filter_added(n),
        Step::RemoveFilter(n) => s.filter_removed(n),
        Step::Start => s.started().0,
        Step::AnnounceStart(r, delivered) => if s.announce_start(r) && delivered {
            announced(s)
        } else {
            s
        },
        Step::AnnounceToSubscriber(r, delivered) => if s.announce_to_subscriber(r) && delivered {
            announced(s)
        } else {
            s
        },
        Step::Stop => s.stopped().0,
        Step::LoopEnded => s.loop_ended(),
        Step::Shutdown => s.stopped().0.shut_down(),
        Step::Event(ev, now) => s.handled(ev, now).0,
        Step::Expire(now) => s.expired_dropped(now),
        Step::Refresh => s.refreshed(),
    }
}

/// Whether `step` delivers a `DiscoveryStarted` event.
pub open spec fn sends_started(s: DiscoveryStateView, step: Step) -> bool {
    match step {
        Step::AnnounceStart(r, delivered) => s.announce_start(r) && delivered,
        Step::AnnounceToSubscriber(r, delivered) => s.announce_to_subscriber(r) && delivered,
        _ => false,
    }
}

/// Whether `step` moves a stopped component into running.
pub open spec fn launches(s: DiscoveryStateView, step: Step) -> bool {
    step is Start && s.status == DiscoveryServiceStatus::Stopped
}

/// The state after the first `k` steps of `steps`, starting from `s0`.
pub open spec fn state_after(s0: DiscoveryStateView, steps: Seq<Step>, k: int) -> DiscoveryStateView
    decreases k,
{
    if k <= 0 {
        s0
    } else {
        apply(state_after(s0, steps, k - 1), steps[k - 1])
    }
}

/// Every `DiscoveryStarted` is delivered while discovery runs.
pub proof fn law_started_sent_only_while_running(s0: DiscoveryStateView, steps: Seq<Step>, i: int)
    requires
        0 <= i < steps.len(),
        sends_started(state_after(s0, steps, i), steps[i]),
    ensures
        state_after(s0, steps, i).status == DiscoveryServiceStatus::Running,
{
}

proof fn lemma_announced_until_launch(s0: DiscoveryStateView, steps: Seq<Step>, i: int, k: int)
    requires
        0 <= i < k <= steps.len(),
        steps[i] is AnnounceStart,
        sends_started(state_after(s0, steps, i), steps[i]),
        forall|m: int| i < m < k ==> !launches(#[trigger] state_after(s0, steps, m), steps[m]),
    ensures
        state_after(s0, steps, k).status != DiscoveryServiceStatus::Running || state_after(
            s0,
            steps,
            k,
        ).started_sent,
    decreases k - i,
{
    if k > i + 1 {
        lemma_announced_until_launch(s0, steps, i, k - 1);
        assert(!launches(state_after(s0, steps, k - 1), steps[k - 1]));
    }
}

/// Between two announcements after `start_discovery` lies a move from stopped
/// into running: `start_discovery` announces the start at most once per run.
pub proof fn law_start_announced_once_per_run(s0: DiscoveryStateView, steps: Seq<Step>, i: int, j: int)
    requires
        0 <= i < j < steps.len(),
        steps[i] is AnnounceStart,
        steps[j] is AnnounceStart,
        sends_started(state_after(s0, steps, i), steps[i]),
        sends_started(state_after(s0, steps, j), steps[j]),
    ensures
        exists|k: int| i < k < j && launches(#[trigger] state_after(s0, steps, k), steps[k]),
{
    if !exists|k: int| i < k < j && launches(#[trigger] state_after(s0, steps, k), steps[k]) {
        lemma_announced_until_launch(s0, steps, i, j);
    }
}

/// Status moves only from stopped to running by `start_discovery`, from
/// running to stopping by `stop_discovery`, from stopping to stopped when the
/// event loop ends, and to stopped by `shutdown`; every other step keeps it.
pub proof fn law_status_transitions(s0: DiscoveryStateView, steps: Seq<Step>, k: int)
    requires
        0 <= k < steps.len(),
    ensures
        ({
            let a = state_after(s0, steps, k).status;
            let b = state_after(s0, steps, k + 1).status;
            ||| a == b
            ||| steps[k] is Start && a == DiscoveryServiceStatus::Stopped && b == DiscoveryServiceStatus::Running
            ||| steps[k] is Stop && a == DiscoveryServiceStatus::Running && b == DiscoveryServiceStatus::Stopping
            ||| steps[k] is LoopEnded && a == DiscoveryServiceStatus::Stopping && b
                == DiscoveryServiceStatus::Stopped
            ||| steps[k] is Shutdown && b == DiscoveryServiceStatus::Stopped
        }),
{
}

/// A run starts stopped, and running discovery becomes stopped only through
/// `shutdown`.
pub proof fn law_running_stops_only_by_shutdown(s0: DiscoveryStateView, steps: Seq<Step>, k: int)
    requires
        0 <= k < steps.len(),
        state_after(s0, steps, k).status == DiscoveryServiceStatus::Running,
        state_after(s0, steps, k + 1).status == DiscoveryServiceStatus::Stopped,
    ensures
        steps[k] is Shutdown,
{
    law_status_transitions(s0, steps, k);
}

/// A component built from a configuration starts stopped, with nothing
/// registered, filtered, known or announced.
pub proof fn law_initial_state(c: crate::types::LocalServiceConfig)
    ensures
        DiscoveryStateView::initial(c).status == DiscoveryServiceStatus::Stopped,
        DiscoveryStateView::initial(c).own_name is None,
        DiscoveryStateView::initial(c).filter.is_empty(),
        DiscoveryStateView::initial(c).services.is_empty(),
        !DiscoveryStateView::initial(c).started_sent,
{
}

/// Two details count as unchanged exactly when they are equal once the time
/// they were seen is set aside.
pub proof fn law_unchanged_means_equal_but_time(a: DetailsView, b: DetailsView)
    ensures
        a.same_content(b) <==> (DetailsView { last_seen: None, ..a }) == (DetailsView { last_seen: None, ..b }),
{
    if (DetailsView { last_seen: None, ..a }) == (DetailsView { last_seen: None, ..b }) {
        assert((DetailsView { last_seen: None, ..a }).properties == (DetailsView { last_seen: None, ..b }).properties);
    }
}

/// A known service seen again with a different host, addresses, port or
/// properties is reported with the new details.
pub proof fn law_changed_content_is_reported(s: DiscoveryStateView, r: ResolvedView, now: u64)
    requires
        r.ty_domain == s.service_type,
        !hides(s.filter, r.fullname, r.ty_domain),
        s.services.contains_key(r.fullname),
        ({
            let old = s.services[r.fullname].details;
            ||| old.host_name != Some(r.host)
            ||| old.addresses != r.addresses
            ||| old.port != r.port
            ||| old.properties != r.properties
        }),
    ensures
        s.handled(MdnsEventView::ServiceResolved(r), now).1 == Some(
            DiscoveryEventView::ServiceFound(resolved_details(r, now)),
        ),
        resolved_details(r, now).properties == r.properties,
        resolved_details(r, now).port == r.port,
{
}

/// The filter hides a service exactly when it holds the service's full name,
/// that name without trailing dots, or its instance label.
pub proof fn law_hides_exactly(filter: Set<Seq<char>>, full: Seq<char>, ty: Seq<char>)
    ensures
        hides(filter, full, ty) <==> (filter.contains(full) || filter.contains(trim_trailing_dots(full))
            || exists|l: Seq<char>| instance_label(full, ty) == Some(l) && filter.contains(l)),
{
    if exists|l: Seq<char>| instance_label(full, ty) == Some(l) && filter.contains(l) {
        let l = choose|l: Seq<char>| instance_label(full, ty) == Some(l) && filter.contains(l);
        assert(instance_label(full, ty) matches Some(m) && filter.contains(m));
    }
}

/// The instance label of a full name is what precedes `"." + ty`: a full
/// name is its label, a dot and the type.
pub proof fn law_instance_label(l: Seq<char>, full: Seq<char>, ty: Seq<char>)
    ensures
        instance_label(full, ty) == Some(l) ==> full == l + "."@ + ty,
        instance_label(l + "."@ + ty, ty) == Some(l),
{
    reveal_strlit(".");
    if instance_label(full, ty) == Some(l) {
        let cut = full.len() - ty.len() - 1;
        assert(full =~= full.subrange(0, cut) + full.subrange(cut, full.len() as int));
    }
    let f = l + "."@ + ty;
    assert(f.subrange(0, l.len() as int) =~= l);
    assert(f.subrange(l.len() as int, f.len() as int) =~= "."@ + ty);
}

/// A resolved service of the configured type is recorded, with the details
/// built from it, unless the filter holds its full name, that name without
/// trailing dots, or its instance label; other names in the filter (such as
/// a prefix of its name) do not hide it.
pub proof fn law_unfiltered_service_is_recorded(s: DiscoveryStateView, r: ResolvedView, now: u64)
    requires
        r.ty_domain == s.service_type,
        !s.filter.contains(r.fullname),
        !s.filter.contains(trim_trailing_dots(r.fullname)),
        forall|l: Seq<char>| instance_label(r.fullname, r.ty_domain) == Some(l) ==> !s.filter.contains(l),
    ensures
        s.handled(MdnsEventView::ServiceResolved(r), now).0.services == s.services.insert(
            r.fullname,
            crate::registry::RecordView { details: resolved_details(r, now), fresh: true },
        ),
        !s.services.contains_key(r.fullname) ==> s.handled(MdnsEventView::ServiceResolved(r), now).1 == Some(
            DiscoveryEventView::ServiceFound(resolved_details(r, now)),
        ),
{
    law_hides_exactly(s.filter, r.fullname, r.ty_domain);
}

/// A removal forgets exactly the removed service: every other known service
/// stays as it was.
pub proof fn law_removal_forgets_only_that_service(s: DiscoveryStateView, name: Seq<char>, now: u64)
    ensures
        s.handled(MdnsEventView::ServiceRemoved(s.service_type, name), now).0 == (DiscoveryStateView {
            services: s.services.remove(name),
            ..s
        }),
        forall|k: Seq<char>| k != name && #[trigger] s.services.contains_key(k) ==> s.handled(
            MdnsEventView::ServiceRemoved(s.service_type, name),
            now,
        ).0.services.contains_key(k) && s.handled(MdnsEventView::ServiceRemoved(s.service_type, name), now).0.services[k]
            == s.services[k],
{
}

/// A refresh keeps the same services with the same details, last-seen times
/// included, and only marks each of them for a new report; so it changes
/// nothing about which services expire.
pub proof fn law_refresh_keeps_details(s: DiscoveryStateView, now: u64)
    ensures
        s.refreshed().services.dom() == s.services.dom(),
        forall|k: Seq<char>| #[trigger] s.services.contains_key(k) ==> s.refreshed().services[k].details
            == s.services[k].details && !s.refreshed().services[k].fresh,
        s.refreshed() == (DiscoveryStateView { services: s.refreshed().services, ..s }),
        s.refreshed().expired_dropped(now).services.dom() == s.expired_dropped(now).services.dom(),
{
    assert(s.refreshed().services.dom() =~= s.services.dom());
    assert(s.refreshed().expired_dropped(now).services.dom() =~= s.expired_dropped(now).services.dom());
}

/// Expiry keeps a known service exactly when it was not last seen more than
/// the time to live before `now`, whether or not it awaits a new report, and
/// keeps it unchanged.
pub proof fn law_expiry_by_last_seen(s: DiscoveryStateView, now: u64)
    ensures
        forall|k: Seq<char>| #[trigger] s.expired_dropped(now).services.contains_key(k) <==> (s.services.contains_key(k)
            && !(s.services[k].details.last_seen matches Some(t) && now - t > s.service_ttl)),
        forall|k: Seq<char>| #[trigger] s.expired_dropped(now).services.contains_key(k) ==> s.expired_dropped(
            now,
        ).services[k] == s.services[k],
{
}

} // verus!
