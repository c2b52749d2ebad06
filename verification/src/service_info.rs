//! The mDNS record that announces the local service, built by `mdns_sd`.

use std::collections::HashMap;
use vstd::prelude::*;
use vstd::utf8::{encode_utf8, is_ascii_chars};

use mdns_sd::ServiceInfo;

verus! {

/// `mdns_sd::ServiceInfo`, the description of a service to announce; opaque.
#[verifier::external_type_specification]
#[verifier::external_body]
pub struct ExServiceInfo(mdns_sd::ServiceInfo);

/// A TXT property that `ServiceInfo::new` accepts: the key is ASCII and has
/// no `'='`, and key, `'='` and value fit in 255 bytes.
pub open spec fn txt_property_valid(key: Seq<char>, value: Seq<char>) -> bool {
    &&& is_ascii_chars(key)
    &&& !key.contains('=')
    &&& encode_utf8(key).len() + encode_utf8(value).len() + 1 <= 255
}

/// Every property of `m` is one that `ServiceInfo::new` accepts.
pub open spec fn txt_properties_valid(m: Map<String, String>) -> bool {
    forall|k: String| #[trigger] m.dom().contains(k) ==> txt_property_valid(k@, m[k]@)
}

/// What the local service is announced as.
pub struct Announcement {
    /// Service type and domain.
    pub ty_domain: String,
    /// Instance name.
    pub instance_name: String,
    /// Host name.
    pub host_name: String,
    /// Port of the service.
    pub port: u16,
    /// TXT record properties.
    pub properties: HashMap<String, String>,
    /// Whether the daemon fills in and updates the host's addresses itself.
    pub addr_auto: bool,
}

/// Mathematical model of `Announcement`.
pub struct AnnouncementView {
    pub ty_domain: Seq<char>,
    pub instance_name: Seq<char>,
    pub host_name: Seq<char>,
    pub port: u16,
    pub properties: Map<String, String>,
    pub addr_auto: bool,
}

impl View for Announcement {
    type V = AnnouncementView;

    open spec fn view(&self) -> AnnouncementView {
        AnnouncementView {
            ty_domain: self.ty_domain@,
            instance_name: self.instance_name@,
            host_name: self.host_name@,
            port: self.port,
            properties: self.properties@,
            addr_auto: self.addr_auto,
        }
    }
}

/// An mDNS record for the local service, with the announcement it was built
/// from.
pub struct AnnouncedRecord {
    info: ServiceInfo,
    built_from: Ghost<AnnouncementView>,
}

impl AnnouncedRecord {
    /// The announcement the record was built from: the type, instance name,
    /// host, port and properties handed to `ServiceInfo::new`, and whether the
    /// daemon fills in the host's addresses.
    pub closed spec fn model(&self) -> AnnouncementView {
        self.built_from@
    }

    /// The record, to register with the mDNS daemon.
    pub fn into_info(self) -> ServiceInfo {
        self.info
    }
}

/// Calls `mdns_sd::ServiceInfo::new(a.ty_domain, a.instance_name,
/// a.host_name, (), a.port, a.properties)`: no explicit addresses, so the
/// address part never fails. Per the crate's source, the call fails exactly
/// when some property has a non-ASCII key, a key containing `'='`, or a key
/// and value longer than 255 bytes together with the `'='`. On success the
/// record is the one built from these arguments, with address filling off;
/// the crate's source stores the given port and properties, the type, the
/// name (escaped into the full name) and the host (normalised) in it. Which
/// error comes back when several properties fail depends on the map's
/// iteration order and is not stated.
#[verifier::external_body]
pub(crate) fn new_service_info(a: Announcement) -> (res: Result<AnnouncedRecord, mdns_sd::Error>)
    ensures
        res.is_ok() <==> txt_properties_valid(a@.properties),
        res matches Ok(r) ==> r.model() == (AnnouncementView { addr_auto: false, ..a@ }),
{
    let built_from = Ghost(AnnouncementView { addr_auto: false, ..a@ });
    let info = ServiceInfo::new(&a.ty_domain, &a.instance_name, &a.host_name, (), a.port, a.properties)?;
    Ok(AnnouncedRecord { info, built_from })
}

/// Calls `mdns_sd::ServiceInfo::enable_addr_auto`, which per the crate's
/// source only sets the flag that makes the daemon fill in and update the
/// host's addresses itself.
#[verifier::external_body]
pub(crate) fn enable_addr_auto(r: AnnouncedRecord) -> (res: AnnouncedRecord)
    ensures
        res.model() == (AnnouncementView { addr_auto: true, ..r.model() }),
{
    let built_from = Ghost(AnnouncementView { addr_auto: true, ..r.built_from@ });
    AnnouncedRecord { info: r.info.enable_addr_auto(), built_from }
}

} // verus!
