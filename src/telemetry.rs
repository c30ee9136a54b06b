//! Telemetry sampler: a snapshot of the host's memory, disks, network
//! interfaces and identity, read afresh on every sample. The CPU load, a
//! fractional percentage, is read by the caller from [`SystemService::system`]
//! right after a sample.
use vstd::prelude::*;
use sysinfo::{DiskExt, NetworkExt, NetworksExt, SystemExt};

verus! {

#[verifier::external_type_specification]
#[verifier::external_body]
pub struct ExSystem(sysinfo::System);

/// Relies on `System::new_all`: a sampling handle with every kind of
/// information loaded once.
#[verifier::external_body]
fn open_system() -> (r: sysinfo::System)
{
    sysinfo::System::new_all()
}

/// Relies on `SystemExt::refresh_all`: reloads every kind of information.
#[verifier::external_body]
fn refresh_system(sys: &mut sysinfo::System)
{
    sys.refresh_all()
}

/// The RAM size, in bytes, that a handle holds since its last refresh.
pub uninterp spec fn total_memory_of(s: sysinfo::System) -> u64;

/// The used RAM, in bytes, that a handle holds since its last refresh.
pub uninterp spec fn used_memory_of(s: sysinfo::System) -> u64;

/// The disks that a handle holds, in its order, each as name, mount point,
/// total space and available space.
pub uninterp spec fn disks_of(s: sysinfo::System) -> Seq<(Seq<char>, Seq<char>, u64, u64)>;

/// The network interfaces that a handle holds, by name, each with its
/// cumulative received and transmitted byte counts.
pub uninterp spec fn networks_of(s: sysinfo::System) -> Map<Seq<char>, (u64, u64)>;

/// A disk reading as plain values.
pub open spec fn disk_fields(d: DiskInfo) -> (Seq<char>, Seq<char>, u64, u64) {
    (d.name@, d.mount_point@, d.total_space, d.available_space)
}

/// Whether `readings` list the interfaces of `table`, each once, with
/// their counts; in no particular order.
pub open spec fn lists_networks(readings: Seq<NetworkInfo>, table: Map<Seq<char>, (u64, u64)>) -> bool {
    &&& forall|i: int| 0 <= i < readings.len() ==> {
        &&& table.contains_key(#[trigger] readings[i].interface@)
        &&& table[readings[i].interface@] == (readings[i].received, readings[i].transmitted)
    }
    &&& forall|k: Seq<char>| #[trigger] table.contains_key(k) ==> exists|i: int|
        0 <= i < readings.len() && #[trigger] readings[i].interface@ == k
    &&& forall|i: int, j: int| 0 <= i < j < readings.len() ==>
        #[trigger] readings[i].interface@ != #[trigger] readings[j].interface@
}

/// Relies on `SystemExt::total_memory`: the RAM size in bytes, read from
/// the handle's cached state.
#[verifier::external_body]
fn total_memory(sys: &sysinfo::System) -> (r: u64)
    ensures
        r == total_memory_of(*sys),
{
    sys.total_memory()
}

/// Relies on `SystemExt::used_memory`: the used RAM in bytes, read from
/// the handle's cached state.
#[verifier::external_body]
fn used_memory(sys: &sysinfo::System) -> (r: u64)
    ensures
        r == used_memory_of(*sys),
{
    sys.used_memory()
}

/// Relies on `SystemExt::uptime`: seconds since boot.
#[verifier::external_body]
fn uptime(sys: &sysinfo::System) -> (r: u64)
{
    sys.uptime()
}

/// Relies on `SystemExt::name`: the operating system's name, if known.
#[verifier::external_body]
fn os_name(sys: &sysinfo::System) -> (r: Option<String>)
{
    sys.name()
}

/// Relies on `SystemExt::os_version`: the operating system's version, if known.
#[verifier::external_body]
fn os_version(sys: &sysinfo::System) -> (r: Option<String>)
{
    sys.os_version()
}

/// Relies on `SystemExt::kernel_version`: the kernel's version, if known.
#[verifier::external_body]
fn kernel_version(sys: &sysinfo::System) -> (r: Option<String>)
{
    sys.kernel_version()
}

/// Relies on `SystemExt::disks` and `DiskExt`'s getters: one reading per
/// disk, in the handle's order, read from its cached state.
#[verifier::external_body]
fn disk_readings(sys: &sysinfo::System) -> (r: Vec<DiskInfo>)
    ensures
        r@.map_values(|d: DiskInfo| disk_fields(d)) == disks_of(*sys),
{
    sys.disks().iter().map(|d| DiskInfo {
        name: format!("{:?}", d.name()),
        mount_point: d.mount_point().to_string_lossy().to_string(),
        total_space: d.total_space(),
        available_space: d.available_space(),
    }).collect()
}

/// Relies on `SystemExt::networks` and `NetworkExt::total_received` /
/// `total_transmitted`: one reading of cumulative byte counts per interface
/// that the handle holds, each interface once.
#[verifier::external_body]
fn network_readings(sys: &sysinfo::System) -> (r: Vec<NetworkInfo>)
    ensures
        lists_networks(r@, networks_of(*sys)),
{
    sys.networks().iter().map(|(name, data)| NetworkInfo {
        interface: name.clone(),
        received: data.total_received(),
        transmitted: data.total_transmitted(),
    }).collect()
}

/// One disk of the host.
#[derive(Debug)]
pub struct DiskInfo {
    pub name: String,
    pub mount_point: String,
    pub total_space: u64,
    pub available_space: u64,
}

/// One network interface of the host, with its cumulative byte counts.
#[derive(Debug)]
pub struct NetworkInfo {
    pub interface: String,
    pub received: u64,
    pub transmitted: u64,
}

/// A point-in-time snapshot of the host.
#[derive(Debug)]
pub struct SystemStats {
    pub memory_total: u64,
    pub memory_used: u64,
    pub disks: Vec<DiskInfo>,
    pub networks: Vec<NetworkInfo>,
    pub os_name: String,
    pub os_version: String,
    pub kernel_version: String,
    pub uptime: u64,
}

/// An identity field as reported: unknown reads as empty text.
pub open spec fn known_or_empty(t: Option<String>) -> Seq<char> {
    match t {
        Some(s) => s@,
        None => Seq::empty(),
    }
}

/// Unknown text becomes empty text.
fn or_empty(t: Option<String>) -> (r: String)
    ensures
        r@ == known_or_empty(t),
{
    match t {
        Some(s) => s,
        None => String::new(),
    }
}

impl SystemStats {
    /// Assembles a snapshot from the readings of one sample; an identity
    /// field that the host does not report is empty.
    pub fn from_readings(
        memory_total: u64,
        memory_used: u64,
        disks: Vec<DiskInfo>,
        networks: Vec<NetworkInfo>,
        os_name: Option<String>,
        os_version: Option<String>,
        kernel_version: Option<String>,
        uptime: u64,
    ) -> (r: SystemStats)
        ensures
            r.memory_total == memory_total,
            r.memory_used == memory_used,
            r.disks@ == disks@,
            r.networks@ == networks@,
            r.os_name@ == known_or_empty(os_name),
            r.os_version@ == known_or_empty(os_version),
            r.kernel_version@ == known_or_empty(kernel_version),
            r.uptime == uptime,
    {
        SystemStats {
            memory_total,
            memory_used,
            disks,
            networks,
            os_name: or_empty(os_name),
            os_version: or_empty(os_version),
            kernel_version: or_empty(kernel_version),
            uptime,
        }
    }
}

/// The telemetry sampler. Its sampling handle caches state between
/// refreshes, so a sample takes it exclusively (`&mut self`); callers that
/// share a sampler put it behind a lock.
pub struct SystemService {
    sys: sysinfo::System,
}

impl SystemService {
    /// A sampler whose handle has been loaded and refreshed once.
    pub fn new() -> (r: SystemService)
    {
        let mut sys = open_system();
        refresh_system(&mut sys);
        SystemService { sys }
    }

    /// The sampling handle.
    pub closed spec fn handle(&self) -> sysinfo::System {
        self.sys
    }

    /// Refreshes the handle and reads a full snapshot from it: memory, disks
    /// and network counters as the refreshed handle holds them, and the
    /// host's identity and uptime, unknown identity fields being empty.
    pub fn get_stats(&mut self) -> (r: SystemStats)
        ensures
            r.memory_total == total_memory_of(final(self).handle()),
            r.memory_used == used_memory_of(final(self).handle()),
            r.disks@.map_values(|d: DiskInfo| disk_fields(d)) == disks_of(final(self).handle()),
            lists_networks(r.networks@, networks_of(final(self).handle())),
    {
        refresh_system(&mut self.sys);
        let sys = &self.sys;
        SystemStats::from_readings(
            total_memory(sys),
            used_memory(sys),
            disk_readings(sys),
            network_readings(sys),
            os_name(sys),
            os_version(sys),
            kernel_version(sys),
            uptime(sys),
        )
    }

    /// The sampling handle, as left by the last sample.
    pub fn system(&self) -> (r: &sysinfo::System)
        ensures
            *r == self.handle(),
    {
        &self.sys
    }
}

} // verus!
