# hive_discovery

Service discovery over mDNS/DNS-SD, with its decision logic verified by Verus.

- `src/` is the verified library: the discovery state (`state.rs`) with its
  status machine, name filter (`filter.rs`), registry of discovered services
  (`registry.rs`), the building and comparison of service details
  (`details.rs`), configuration checks (`discovery.rs`), and the laws that
  span several operations (`laws.rs`). `service_info.rs` holds the trusted
  calls into `mdns_sd` that build the record announcing the local service.
- `app/` owns the mDNS daemon, the event channel and the background loops,
  and carries out what the verified state decides.
- `tests/` exercises the library on concrete values.
