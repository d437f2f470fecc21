//! The two report messages of the monitoring protocol, their builders, and
//! the fixed settings of the transport connection. The wire exchange itself
//! is left to the surrounding program; it receives from here fully built
//! report values and the settings the channel must be opened with.

use vstd::prelude::*;

use crate::get_info::{
    boot_time_value, clamp_u64, cpu_description_list, get_cpu_info, get_cpu_usage, get_disk_info,
    get_ip_info, get_mem_info, get_network_info, get_platform_info, get_uptime_info, ip_label,
    kernel_label, mean_usage, sat_sub_u64, sum_fst, sum_snd, virt_is_virtualized, virt_name,
    AgentError, MemoryReading, UptimeReading, VirtReading,
};
use crate::rate_tracker::{counter_delta, NetworkRateTracker};

verus! {

/// Seconds the transport waits for the channel to be established.
pub const CONNECT_TIMEOUT_SECS: u64 = 5;

/// Seconds the transport waits for each remote call to round-trip.
pub const REQUEST_TIMEOUT_SECS: u64 = 5;

/// Seconds between TCP-level keepalive probes.
pub const TCP_KEEPALIVE_SECS: u64 = 5;

/// Seconds between HTTP/2-level keepalive pings.
pub const HTTP2_KEEPALIVE_INTERVAL_SECS: u64 = 5;

/// Seconds the transport waits for a keepalive ping to be answered.
pub const HTTP2_KEEPALIVE_TIMEOUT_SECS: u64 = 5;

/// Seconds between two state samples.
pub const SAMPLE_INTERVAL_SECS: u64 = 1;

/// The rarely-changing host identity and capacity snapshot, sent once per
/// connection lifecycle. The country code and the GPU list are kept only
/// for protocol compatibility and are never populated with live data.
pub struct HostDescriptor {
    pub platform: String,
    pub platform_version: String,
    pub cpu: Vec<String>,
    pub mem_total: u64,
    pub disk_total: u64,
    pub swap_total: u64,
    pub arch: String,
    pub virtualization: String,
    pub boot_time: u64,
    pub ip: String,
    pub country_code: String,
    pub version: String,
    pub gpu: Vec<String>,
}

/// The frequently-refreshed resource-usage snapshot. The `cpu`, `load*` and
/// `gpu` figures are in hundredths (of a percent, or of a load unit). The
/// connection counts, the process count, the temperature list and the GPU
/// usage are reserved for future extension and always zero or empty here.
pub struct StateSample {
    pub cpu: u32,
    pub mem_used: u64,
    pub swap_used: u64,
    pub disk_used: u64,
    pub net_in_transfer: u64,
    pub net_out_transfer: u64,
    pub net_in_speed: u64,
    pub net_out_speed: u64,
    pub uptime: u64,
    pub load1: u32,
    pub load5: u32,
    pub load15: u32,
    pub tcp_conn_count: u64,
    pub udp_conn_count: u64,
    pub process_count: u64,
    pub temperatures: Vec<u64>,
    pub gpu: u32,
}

/// A host-descriptor request: the payload together with the out-of-band
/// authentication credential that the transport attaches to the call.
pub struct HostReport {
    pub host: HostDescriptor,
    pub client_secret: String,
}

/// A state-sample request: the payload together with the out-of-band
/// authentication credential that the transport attaches to the call.
pub struct StateReport {
    pub state: StateSample,
    pub client_secret: String,
}

/// Every platform reading that goes into a host descriptor, gathered by the
/// surrounding program. A reading that can fail arrives as an `Option`.
pub struct HostReadings {
    pub memory: MemoryReading,
    pub distro: String,
    pub kernel_version: Option<String>,
    pub cpu_brands: Vec<String>,
    pub arch: String,
    pub virt: Option<VirtReading>,
    pub freq_max: Option<u64>,
    pub disks: Vec<(u64, u64)>,
    pub boot_time: Option<u64>,
    pub ip_lookup: Option<String>,
}

/// Every platform reading that goes into a state sample. The network
/// counters and the uptime/load figures are collaborator-fallible and
/// arrive as `Option`; everything else is best-effort and already plain.
pub struct StateReadings {
    pub cpu_usages: Vec<u32>,
    pub memory: MemoryReading,
    pub disks: Vec<(u64, u64)>,
    pub network: Option<Vec<(u64, u64)>>,
    pub uptime: Option<UptimeReading>,
}

/// Build the host-descriptor request from the gathered readings, attaching
/// the authentication token. The build never fails: a failed IP lookup
/// degrades to an empty address, a missing kernel version, boot time or
/// virtualization classification to its fixed placeholder.
pub fn build_request_host(token: &str, agent_version: &str, readings: HostReadings) -> (r:
    HostReport)
    ensures
        r.client_secret@ == token@,
        r.host.platform@ == readings.distro@,
        r.host.platform_version@ == kernel_label(readings.kernel_version),
        r.host.cpu.deep_view() == cpu_description_list(
            readings.cpu_brands.deep_view(),
            readings.freq_max,
            virt_is_virtualized(readings.virt),
        ),
        r.host.mem_total == readings.memory.total_mem,
        r.host.swap_total == readings.memory.total_swap,
        r.host.disk_total == clamp_u64(sum_fst(readings.disks@)),
        r.host.arch@ == readings.arch@,
        r.host.virtualization@ == virt_name(readings.virt),
        r.host.boot_time == boot_time_value(readings.boot_time),
        r.host.ip@ == ip_label(readings.ip_lookup),
        readings.ip_lookup is None ==> r.host.ip@ == Seq::<char>::empty(),
        r.host.country_code@ == "Dropped"@,
        r.host.version@ == agent_version@,
        r.host.gpu@.len() == 0,
{
    let (total_mem, _free_mem, _used_mem, total_swap, _free_swap, _used_swap) = get_mem_info(
        &readings.memory,
    );
    let (dist, kernel_version) = get_platform_info(readings.distro, readings.kernel_version);
    let (cpu_name, arch, virt) = get_cpu_info(
        &readings.cpu_brands,
        readings.arch,
        readings.virt,
        readings.freq_max,
    );
    let (all_disk_space, _all_disk_available, _all_disk_used) = get_disk_info(&readings.disks);
    let ip = get_ip_info(readings.ip_lookup);
    let host = HostDescriptor {
        platform: dist,
        platform_version: kernel_version,
        cpu: cpu_name,
        mem_total: total_mem,
        disk_total: all_disk_space,
        swap_total: total_swap,
        arch,
        virtualization: virt,
        boot_time: crate::get_info::get_boot_time(readings.boot_time),
        ip,
        country_code: String::from_str("Dropped"),
        version: agent_version.to_owned(),
        gpu: Vec::new(),
    };
    HostReport { host, client_secret: token.to_owned() }
}

/// Build the state-sample request from the gathered readings, attaching the
/// authentication token and feeding the cumulative network counters through
/// the rate tracker. The build fails exactly when the network counters or
/// the uptime/load figures are missing; a missing network reading is
/// reported first and leaves the tracker untouched, while a missing uptime
/// reading is noticed only after the tracker has consumed the counters,
/// exactly as the sampling step behaves in the running agent.
pub fn build_request_state(
    token: &str,
    readings: StateReadings,
    tracker: &mut NetworkRateTracker,
) -> (r: Result<StateReport, AgentError>)
    ensures
        r is Ok <==> readings.network is Some && readings.uptime is Some,
        readings.network is None ==> r == Result::<StateReport, AgentError>::Err(
            AgentError::NetworkStats,
        ) && *final(tracker) == *old(tracker),
        readings.network matches Option::Some(net) ==> readings.uptime is None ==> {
            &&& r == Result::<StateReport, AgentError>::Err(AgentError::UptimeLoad)
            &&& final(tracker).last_rx == clamp_u64(sum_fst(net@))
            &&& final(tracker).last_tx == clamp_u64(sum_snd(net@))
        },
        readings.network matches Option::Some(net) ==> readings.uptime matches Option::Some(up)
            ==> {
            let rx = clamp_u64(sum_fst(net@));
            let tx = clamp_u64(sum_snd(net@));
            &&& r matches Result::Ok(rep)
            &&& rep.client_secret@ == token@
            &&& rep.state.cpu == mean_usage(readings.cpu_usages@)
            &&& rep.state.mem_used == sat_sub_u64(readings.memory.total_mem, readings.memory.free_mem)
            &&& rep.state.swap_used == sat_sub_u64(
                readings.memory.total_swap,
                readings.memory.free_swap,
            )
            &&& rep.state.disk_used == sat_sub_u64(
                clamp_u64(sum_fst(readings.disks@)),
                clamp_u64(sum_snd(readings.disks@)),
            )
            &&& rep.state.net_in_transfer == rx
            &&& rep.state.net_out_transfer == tx
            &&& rep.state.net_in_speed == counter_delta(rx, old(tracker).last_rx)
            &&& rep.state.net_out_speed == counter_delta(tx, old(tracker).last_tx)
            &&& final(tracker).last_rx == rx
            &&& final(tracker).last_tx == tx
            &&& rep.state.uptime == up.uptime_secs
            &&& rep.state.load1 == up.load_one_centi
            &&& rep.state.load5 == up.load_five_centi
            &&& rep.state.load15 == up.load_fifteen_centi
            &&& rep.state.tcp_conn_count == 0
            &&& rep.state.udp_conn_count == 0
            &&& rep.state.process_count == 0
            &&& rep.state.temperatures@.len() == 0
            &&& rep.state.gpu == 0
        },
{
    let (_total_mem, _free_mem, mem_used, _total_swap, _free_swap, swap_used) = get_mem_info(
        &readings.memory,
    );
    let (_all_disk_space, _all_disk_available, disk_used) = get_disk_info(&readings.disks);
    let network = match &readings.network {
        Option::Some(v) => Option::Some(v),
        Option::None => Option::None,
    };
    let (all_rx, all_tx, speed_rx, speed_tx) = match get_network_info(network, tracker) {
        Result::Ok(t) => t,
        Result::Err(e) => {
            return Result::Err(e);
        },
    };
    let (uptime, load_one, load_five, load_fifteen) = match get_uptime_info(readings.uptime) {
        Result::Ok(t) => t,
        Result::Err(e) => {
            return Result::Err(e);
        },
    };
    let cpu = get_cpu_usage(&readings.cpu_usages);
    let state = StateSample {
        cpu,
        mem_used,
        swap_used,
        disk_used,
        net_in_transfer: all_rx,
        net_out_transfer: all_tx,
        net_in_speed: speed_rx,
        net_out_speed: speed_tx,
        uptime,
        load1: load_one,
        load5: load_five,
        load15: load_fifteen,
        tcp_conn_count: 0,
        udp_conn_count: 0,
        process_count: 0,
        temperatures: Vec::new(),
        gpu: 0,
    };
    Result::Ok(StateReport { state, client_secret: token.to_owned() })
}

/// The address the channel is opened against: the server address behind a
/// fixed scheme chosen by the TLS switch.
pub open spec fn endpoint_url(server: Seq<char>, tls: bool) -> Seq<char> {
    (if tls {
        "https://"@
    } else {
        "http://"@
    }) + server
}

/// The full settings of the long-lived connection: the endpoint address and
/// the fixed timeouts and keepalive cadence the channel is opened with.
pub struct ConnectSettings {
    pub url: String,
    pub connect_timeout_secs: u64,
    pub request_timeout_secs: u64,
    pub tcp_keepalive_secs: u64,
    pub http2_keepalive_interval_secs: u64,
    pub http2_keepalive_timeout_secs: u64,
    pub keepalive_while_idle: bool,
}

/// Compute the settings the transport opens its channel with: the endpoint
/// address under the scheme the TLS switch selects, and the fixed timeouts.
pub fn connect_settings(server: &str, tls: bool) -> (r: ConnectSettings)
    ensures
        r.url@ == endpoint_url(server@, tls),
        r.connect_timeout_secs == CONNECT_TIMEOUT_SECS,
        r.request_timeout_secs == REQUEST_TIMEOUT_SECS,
        r.tcp_keepalive_secs == TCP_KEEPALIVE_SECS,
        r.http2_keepalive_interval_secs == HTTP2_KEEPALIVE_INTERVAL_SECS,
        r.http2_keepalive_timeout_secs == HTTP2_KEEPALIVE_TIMEOUT_SECS,
        r.keepalive_while_idle,
{
    let mut url = if tls {
        String::from_str("https://")
    } else {
        String::from_str("http://")
    };
    url.append(server);
    ConnectSettings {
        url,
        connect_timeout_secs: CONNECT_TIMEOUT_SECS,
        request_timeout_secs: REQUEST_TIMEOUT_SECS,
        tcp_keepalive_secs: TCP_KEEPALIVE_SECS,
        http2_keepalive_interval_secs: HTTP2_KEEPALIVE_INTERVAL_SECS,
        http2_keepalive_timeout_secs: HTTP2_KEEPALIVE_TIMEOUT_SECS,
        keepalive_while_idle: true,
    }
}

/// The message content by which the server distinguishes an authentication
/// rejection from every other error: exactly this message counts as an
/// authentication failure, any other as a recoverable report failure.
pub fn is_auth_failure_message(message: &str) -> (r: bool)
    ensures
        r <==> message@ == "客户端认证失败"@,
{
    let m = message.to_owned();
    let expected = String::from_str("客户端认证失败");
    m == expected
}

} // verus!
