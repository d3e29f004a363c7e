//! The decisions of the loop that keeps the agent in step with its
//! controller: what to report, which snapshots of the platform and of the
//! policy to take, how to correct the clock, when to give up, and how to take
//! over a new binary.
//!
//! The loop itself, with its calls to the controller, its timers and its
//! files, is not here. It hands what it receives to the functions of this
//! module as plain values and does what they decide.

use vstd::prelude::*;
use vstd::string::StringExecFns;
use crate::bytes::{be32, read_u32_be};
use crate::consts::NANOS_PER_SECOND;
use crate::enums::TridentType;
use crate::net::{IpAddr, MacAddr};
use crate::outside::{lowercased, md5_digest, md5_of, to_lowercase, trim, trimmed};
use crate::text::{append_ip, digit_char, ip_text};

verus! {

/// How long the loop waits between two reports where the controller has not
/// said otherwise, in seconds.
pub const DEFAULT_SYNC_INTERVAL: u64 = 60;
/// How long the loop waits after a failed call before it tries again, in seconds.
pub const RPC_RETRY_INTERVAL: u64 = 60;
/// How long the agent runs without word from its controller where the
/// controller has not said otherwise, in seconds.
pub const DEFAULT_MAX_ESCAPE: u64 = 3600;
/// The exit code that asks the supervisor to start the agent again.
pub const NORMAL_EXIT_WITH_RESTART: i32 = 3;
pub const DEFAULT_CONTROLLER_PORT: u16 = 20035;
/// The device type of an interface of a pod.
pub const DEVICE_TYPE_POD: u8 = 10;

/// How the agent captures traffic.
#[derive(Clone, Copy, Debug, PartialEq, Eq, Structural)]
pub enum TapMode {
    Local,
    Mirror,
    Analyzer,
    Decap,
}

/// What the controller says of a call.
#[derive(Clone, Copy, Debug, PartialEq, Eq, Structural)]
pub enum ResponseStatus {
    Success,
    Failed,
    Heartbeat,
}

/// What stands in the way of normal operation, as the agent reports it.
#[derive(Clone, Copy, Debug, PartialEq, Eq, Structural)]
pub struct ExceptionHandler {
    pub invalid_configuration: bool,
    pub controller_socket_error: bool,
    pub too_many_policies: bool,
}

/// One thing that stands in the way.
#[derive(Clone, Copy, Debug, PartialEq, Eq, Structural)]
pub enum Exception {
    InvalidConfiguration,
    ControllerSocketError,
    TooManyPolicies,
}

impl ExceptionHandler {
    pub fn new() -> (r: ExceptionHandler)
        ensures
            r == (ExceptionHandler {
                invalid_configuration: false,
                controller_socket_error: false,
                too_many_policies: false,
            }),
    {
        ExceptionHandler {
            invalid_configuration: false,
            controller_socket_error: false,
            too_many_policies: false,
        }
    }

    /// The flags with `e` set or cleared.
    pub open spec fn with(self, e: Exception, on: bool) -> ExceptionHandler {
        match e {
            Exception::InvalidConfiguration => ExceptionHandler {
                invalid_configuration: on,
                ..self
            },
            Exception::ControllerSocketError => ExceptionHandler {
                controller_socket_error: on,
                ..self
            },
            Exception::TooManyPolicies => ExceptionHandler { too_many_policies: on, ..self },
        }
    }

    pub fn set(&mut self, e: Exception)
        ensures
            *final(self) == old(self).with(e, true),
    {
        match e {
            Exception::InvalidConfiguration => {
                self.invalid_configuration = true;
            },
            Exception::ControllerSocketError => {
                self.controller_socket_error = true;
            },
            Exception::TooManyPolicies => {
                self.too_many_policies = true;
            },
        }
    }

    pub fn clear(&mut self, e: Exception)
        ensures
            *final(self) == old(self).with(e, false),
    {
        match e {
            Exception::InvalidConfiguration => {
                self.invalid_configuration = false;
            },
            Exception::ControllerSocketError => {
                self.controller_socket_error = false;
            },
            Exception::TooManyPolicies => {
                self.too_many_policies = false;
            },
        }
    }

    /// Hands the flags over for the next report and starts anew.
    pub fn take(&mut self) -> (r: ExceptionHandler)
        ensures
            r == *old(self),
            *final(self) == (ExceptionHandler {
                invalid_configuration: false,
                controller_socket_error: false,
                too_many_policies: false,
            }),
    {
        let r = *self;
        *self = ExceptionHandler::new();
        r
    }
}

/// What the agent runs on.
#[derive(Clone, Debug)]
pub struct RuntimeEnvironment {
    pub cpu_num: u32,
    /// The memory of the host in bytes.
    pub memory_size: u64,
    pub arch: String,
    pub os: String,
    pub kernel_version: String,
}

/// What of a kernel release stands before its first hyphen.
pub open spec fn before_hyphen(s: Seq<char>) -> Seq<char>
    decreases s.len(),
{
    if s.len() == 0 || s[0] == '-' {
        seq![]
    } else {
        seq![s[0]] + before_hyphen(s.subrange(1, s.len() as int))
    }
}

impl RuntimeEnvironment {
    /// The environment from what the system tells: the number of cores, the
    /// memory in units of a thousand bytes, the architecture, the name and the
    /// version of the operating system, and the release of the kernel, of which
    /// what follows the first hyphen is dropped.
    pub fn from_system(
        cores: Option<usize>,
        total_memory: u64,
        arch: String,
        os_name: Option<String>,
        os_version: Option<String>,
        kernel_release: &Vec<char>,
    ) -> (r: RuntimeEnvironment)
        ensures
            r.cpu_num == match cores {
                Some(n) => (n as u64 % 0x1_0000_0000) as u32,
                None => 0,
            },
            r.memory_size == if total_memory * 1000 > u64::MAX {
                u64::MAX
            } else {
                (total_memory * 1000) as u64
            },
            r.arch == arch,
            r.os@ == (match os_name {
                Some(n) => n@,
                None => seq![],
            }) + seq![' '] + (match os_version {
                Some(v) => v@,
                None => seq![],
            }),
            r.kernel_version@ == before_hyphen(kernel_release@),
    {
        let mut os = match os_name {
            Some(n) => n,
            None => String::new(),
        };
        crate::outside::push_char(&mut os, ' ');
        match os_version {
            Some(v) => {
                os.append(v.as_str());
            },
            None => {
                assert(os@ + Seq::<char>::empty() =~= os@);
            },
        }
        let mut kernel_version = String::new();
        let mut i: usize = 0;
        assert(kernel_release@.subrange(0, kernel_release@.len() as int) =~= kernel_release@);
        while i < kernel_release.len() && kernel_release[i] != '-'
            invariant
                i <= kernel_release@.len(),
                before_hyphen(kernel_release@) == kernel_version@ + before_hyphen(
                    kernel_release@.subrange(i as int, kernel_release@.len() as int),
                ),
            decreases kernel_release@.len() - i,
        {
            let ghost rest = kernel_release@.subrange(i as int, kernel_release@.len() as int);
            let ghost before = kernel_version@;
            assert(rest[0] == kernel_release@[i as int]);
            assert(rest.subrange(1, rest.len() as int) =~= kernel_release@.subrange(
                i + 1,
                kernel_release@.len() as int,
            ));
            crate::outside::push_char(&mut kernel_version, kernel_release[i]);
            assert(before + (seq![kernel_release@[i as int]] + before_hyphen(
                kernel_release@.subrange(i + 1, kernel_release@.len() as int),
            )) =~= kernel_version@ + before_hyphen(
                kernel_release@.subrange(i + 1, kernel_release@.len() as int),
            ));
            i += 1;
        }
        proof {
            let rest = kernel_release@.subrange(i as int, kernel_release@.len() as int);
            assert(before_hyphen(rest) =~= seq![]) by {
                if i < kernel_release@.len() {
                    assert(rest[0] == '-');
                }
            }
            assert(kernel_version@ + Seq::<char>::empty() =~= kernel_version@);
        }
        RuntimeEnvironment {
            cpu_num: match cores {
                Some(n) => (n as u64 % 0x1_0000_0000) as u32,
                None => 0,
            },
            memory_size: if total_memory > u64::MAX / 1000 {
                u64::MAX
            } else {
                total_memory * 1000
            },
            arch,
            os,
            kernel_version,
        }
    }
}

/// What the agent is told once, when it starts. `boot_time` is in
/// nanoseconds since the epoch.
#[derive(Clone, Debug)]
pub struct StaticConfig {
    pub agent_ident: String,
    pub revision: String,
    pub boot_time: u64,
    pub tap_mode: TapMode,
    pub vtap_group_id_request: String,
    pub kubernetes_cluster_id: String,
    pub controller_ip: String,
    pub env: RuntimeEnvironment,
}

/// Where the agent reaches its controller from.
#[derive(Clone, Debug)]
pub struct RunningConfig {
    pub ctrl_mac: String,
    pub ctrl_ip: String,
}

impl RunningConfig {
    pub fn new() -> (r: RunningConfig)
        ensures
            r.ctrl_mac@.len() == 0 && r.ctrl_ip@.len() == 0,
    {
        RunningConfig { ctrl_mac: String::new(), ctrl_ip: String::new() }
    }
}

/// An interface of the platform, as far as the agent looks at it.
#[derive(Clone, Copy, Debug, PartialEq, Eq, Structural)]
pub struct VInterface {
    pub mac: u64,
    pub region_id: u32,
    pub pod_cluster_id: u32,
    pub device_type: u8,
    /// Set where the agent has no business with the link address.
    pub skip_mac: bool,
    /// Set where the link address is one that the agent has seen itself.
    pub is_local: bool,
}

/// What the configuration that the controller pushes says, as far as the
/// loop looks at it. Times are in seconds.
#[derive(Clone, Copy, Debug, PartialEq, Eq, Structural)]
pub struct RuntimeConfig {
    pub enabled: bool,
    pub max_escape: u64,
    pub max_memory: u64,
    /// The address of a proxy of the controller, if the configuration names
    /// one that is an address.
    pub proxy_controller_ip: Option<IpAddr>,
    /// Whether the configuration names a proxy at all.
    pub has_proxy_controller_ip: bool,
    pub proxy_controller_port: u16,
    pub sync_interval: u64,
    pub ntp_enabled: bool,
    pub tap_mode: TapMode,
    pub trident_type: TridentType,
    pub region_id: u32,
    pub pod_cluster_id: u32,
}

/// What the loop knows of itself and of the snapshots that it holds. Times
/// are in seconds but for `time_diff`, which is in nanoseconds.
#[derive(Clone, Debug)]
pub struct Status {
    pub hostname: String,
    pub time_diff: i64,
    pub config_accepted: bool,
    pub synced: bool,
    /// The revision to upgrade to, once the controller has asked for one.
    pub new_revision: Option<String>,
    pub proxy_ip: Option<IpAddr>,
    pub proxy_port: u16,
    pub sync_interval: u64,
    pub ntp_enabled: bool,
    pub version_platform_data: u64,
    pub version_acls: u64,
    pub version_groups: u64,
    pub interfaces: Vec<VInterface>,
}

/// Whether a snapshot of version `version` is taken by a holder of the
/// version `current`: the controller has one ready, which it says by a version
/// other than zero, and it is another than the one held.
pub open spec fn takes_version(current: u64, version: Option<u64>) -> bool {
    match version {
        Some(v) => v != 0 && v != current,
        None => false,
    }
}

/// Tells whether a snapshot of version `version` is to be decoded and taken.
pub fn wants_version(current: u64, version: Option<u64>) -> (r: bool)
    ensures
        r == takes_version(current, version),
{
    match version {
        Some(v) => v != 0 && v != current,
        None => false,
    }
}

/// The interface `i` as an agent with the configuration `config` marks it,
/// where `local` says whether the agent has seen its link address itself.
/// An agent in a pod has business with the interfaces of its own cluster and
/// with those of its region that are no pods; any other agent with the
/// interfaces of its region.
pub open spec fn marked(i: VInterface, local: bool, config: RuntimeConfig) -> VInterface {
    VInterface {
        skip_mac: if !config.trident_type.spec_is_pod() {
            i.region_id != config.region_id
        } else {
            !(i.pod_cluster_id == config.pod_cluster_id || (i.region_id == config.region_id
                && i.device_type != DEVICE_TYPE_POD))
        },
        is_local: if local {
            true
        } else {
            i.is_local
        },
        ..i
    }
}

/// The interfaces `interfaces` as an agent with the configuration `config`
/// marks them that has seen the link addresses `macs` itself. An agent that
/// analyses the traffic of others marks nothing.
pub open spec fn platform_marked(
    interfaces: Seq<VInterface>,
    macs: Seq<MacAddr>,
    config: RuntimeConfig,
) -> Seq<VInterface> {
    if config.tap_mode == TapMode::Analyzer {
        interfaces
    } else {
        Seq::new(
            interfaces.len(),
            |k: int|
                marked(
                    interfaces[k],
                    exists|j: int| 0 <= j < macs.len() && macs[j].value == interfaces[k].mac,
                    config,
                ),
        )
    }
}

fn contains_mac(macs: &Vec<MacAddr>, mac: u64) -> (r: bool)
    ensures
        r == exists|k: int| 0 <= k < macs@.len() && macs@[k].value == mac,
{
    let mut k: usize = 0;
    while k < macs.len()
        invariant
            k <= macs@.len(),
            forall|j: int| 0 <= j < k ==> macs@[j].value != mac,
        decreases macs@.len() - k,
    {
        if macs[k].value == mac {
            return true;
        }
        k += 1;
    }
    false
}

impl Status {
    pub fn new() -> (r: Status)
        ensures
            r.hostname@.len() == 0 && r.time_diff == 0 && !r.config_accepted && !r.synced,
            r.new_revision is None && r.proxy_ip is None,
            r.proxy_port == DEFAULT_CONTROLLER_PORT,
            r.sync_interval == DEFAULT_SYNC_INTERVAL,
            !r.ntp_enabled,
            r.version_platform_data == 0 && r.version_acls == 0 && r.version_groups == 0,
            r.interfaces@.len() == 0,
    {
        Status {
            hostname: String::new(),
            time_diff: 0,
            config_accepted: false,
            synced: false,
            new_revision: None,
            proxy_ip: None,
            proxy_port: DEFAULT_CONTROLLER_PORT,
            sync_interval: DEFAULT_SYNC_INTERVAL,
            ntp_enabled: false,
            version_platform_data: 0,
            version_acls: 0,
            version_groups: 0,
            interfaces: Vec::new(),
        }
    }

    /// Takes the name `current` that the host has now, and tells whether it
    /// is another than before.
    pub fn refresh_hostname(&mut self, current: String) -> (changed: bool)
        ensures
            changed == (current@ != old(self).hostname@),
            final(self).hostname@ == current@,
            final(self).version_platform_data == old(self).version_platform_data,
            final(self).version_acls == old(self).version_acls,
            final(self).version_groups == old(self).version_groups,
            final(self).interfaces == old(self).interfaces,
            final(self).new_revision == old(self).new_revision,
            final(self).sync_interval == old(self).sync_interval,
    {
        if current != self.hostname {
            self.hostname = current;
            true
        } else {
            false
        }
    }

    /// Takes the platform data of version `version`, if the controller has one
    /// ready that is another than the one held and `decoded` holds what it
    /// decodes to. The result says whether it was taken.
    pub fn get_platform_data(&mut self, version: Option<u64>, decoded: Option<Vec<VInterface>>) -> (r:
        bool)
        ensures
            r == (takes_version(old(self).version_platform_data, version) && decoded is Some),
            r ==> final(self).version_platform_data == version.unwrap() && final(self).interfaces
                == decoded.unwrap(),
            !r ==> final(self).version_platform_data == old(self).version_platform_data && final(self).interfaces == old(self).interfaces,
            final(self).version_acls == old(self).version_acls,
            final(self).version_groups == old(self).version_groups,
            final(self).new_revision == old(self).new_revision,
            final(self).proxy_ip == old(self).proxy_ip,
            final(self).proxy_port == old(self).proxy_port,
            final(self).sync_interval == old(self).sync_interval,
            final(self).ntp_enabled == old(self).ntp_enabled,
            final(self).hostname == old(self).hostname,
    {
        if !wants_version(self.version_platform_data, version) {
            return false;
        }
        match decoded {
            Some(interfaces) => {
                match version {
                    Some(v) => {
                        self.version_platform_data = v;
                    },
                    None => {},
                }
                self.interfaces = interfaces;
                true
            },
            None => false,
        }
    }

    /// Takes the policy of version `version`, if the controller has one ready
    /// that is another than the one held and it could be decoded.
    pub fn get_flow_acls(&mut self, version: Option<u64>, decoded: bool) -> (r: bool)
        ensures
            r == (takes_version(old(self).version_acls, version) && decoded),
            final(self).version_acls == if r {
                version.unwrap()
            } else {
                old(self).version_acls
            },
            final(self).version_platform_data == old(self).version_platform_data,
            final(self).version_groups == old(self).version_groups,
            final(self).interfaces == old(self).interfaces,
            final(self).new_revision == old(self).new_revision,
            final(self).proxy_ip == old(self).proxy_ip,
            final(self).proxy_port == old(self).proxy_port,
            final(self).sync_interval == old(self).sync_interval,
            final(self).ntp_enabled == old(self).ntp_enabled,
            final(self).hostname == old(self).hostname,
    {
        if !wants_version(self.version_acls, version) || !decoded {
            return false;
        }
        match version {
            Some(v) => {
                self.version_acls = v;
            },
            None => {},
        }
        true
    }

    /// Takes the address groups of version `version`, if the controller has
    /// them ready in another version than the one held and they could be decoded.
    pub fn get_ip_groups(&mut self, version: Option<u64>, decoded: bool) -> (r: bool)
        ensures
            r == (takes_version(old(self).version_groups, version) && decoded),
            final(self).version_groups == if r {
                version.unwrap()
            } else {
                old(self).version_groups
            },
            final(self).version_platform_data == old(self).version_platform_data,
            final(self).version_acls == old(self).version_acls,
            final(self).interfaces == old(self).interfaces,
            final(self).new_revision == old(self).new_revision,
            final(self).proxy_ip == old(self).proxy_ip,
            final(self).proxy_port == old(self).proxy_port,
            final(self).sync_interval == old(self).sync_interval,
            final(self).ntp_enabled == old(self).ntp_enabled,
            final(self).hostname == old(self).hostname,
    {
        if !wants_version(self.version_groups, version) || !decoded {
            return false;
        }
        match version {
            Some(v) => {
                self.version_groups = v;
            },
            None => {},
        }
        true
    }

    /// Marks the interfaces for an agent with the configuration `config` that
    /// has seen the link addresses `macs` itself. An agent that analyses the
    /// traffic of others marks nothing.
    pub fn modify_platform(&mut self, macs: &Vec<MacAddr>, config: &RuntimeConfig)
        ensures
            final(self).interfaces@ == platform_marked(old(self).interfaces@, macs@, *config),
            final(self).version_platform_data == old(self).version_platform_data,
            final(self).version_acls == old(self).version_acls,
            final(self).version_groups == old(self).version_groups,
            final(self).new_revision == old(self).new_revision,
            final(self).proxy_ip == old(self).proxy_ip,
            final(self).proxy_port == old(self).proxy_port,
            final(self).sync_interval == old(self).sync_interval,
            final(self).ntp_enabled == old(self).ntp_enabled,
            final(self).hostname == old(self).hostname,
    {
        if config.tap_mode == TapMode::Analyzer {
            return ;
        }
        let mut vinterfaces: Vec<VInterface> = Vec::new();
        let mut k: usize = 0;
        while k < self.interfaces.len()
            invariant
                k <= self.interfaces@.len(),
                self.interfaces == old(self).interfaces,
                vinterfaces@.len() == k,
                forall|i: int|
                    0 <= i < k ==> #[trigger] vinterfaces@[i] == marked(
                        old(self).interfaces@[i],
                        exists|j: int|
                            0 <= j < macs@.len() && macs@[j].value == old(self).interfaces@[i].mac,
                        *config,
                    ),
            decreases self.interfaces@.len() - k,
        {
            let viface = self.interfaces[k];
            let skip_mac = if !config.trident_type.is_pod() {
                viface.region_id != config.region_id
            } else {
                !(viface.pod_cluster_id == config.pod_cluster_id || (viface.region_id
                    == config.region_id && viface.device_type != DEVICE_TYPE_POD))
            };
            let is_local = if contains_mac(macs, viface.mac) {
                true
            } else {
                viface.is_local
            };
            vinterfaces.push(VInterface { skip_mac, is_local, ..viface });
            k += 1;
        }
        assert(vinterfaces@ =~= platform_marked(old(self).interfaces@, macs@, *config));
        self.interfaces = vinterfaces;
    }
}

/// Whether the controller asks for an upgrade to `revision` by the way `url`:
/// the revision is one, it is another than the one that runs, and the way is
/// `grpc`, in whatever case and with whatever white space around it.
pub open spec fn asks_upgrade(revision: Option<Seq<char>>, url: Option<Seq<char>>, running: Seq<char>) -> bool {
    &&& revision matches Some(r)
    &&& r.len() > 0
    &&& r != running
    &&& url matches Some(u)
    &&& lowercased(trimmed(u)) == "grpc"@
}

/// Whether an upgrade to `revision` is taken note of where the way that the
/// controller names is `way`, in lower case and without white space around
/// it: the revision is one, it is another than the one that runs, and the way
/// is `grpc`.
pub open spec fn upgrade_noted(revision: Option<Seq<char>>, way: Seq<char>, running: Seq<char>) -> bool {
    &&& revision matches Some(r)
    &&& r.len() > 0
    &&& r != running
    &&& way == "grpc"@
}

/// Takes note of an upgrade to `revision` by the way `way`, which is in
/// lower case and has no white space around it.
pub fn note_upgrade(
    revision: &Option<String>,
    way: &String,
    static_config: &StaticConfig,
    status: &mut Status,
)
    ensures
        final(status).new_revision == if upgrade_noted(
            match *revision {
                Some(r) => Some(r@),
                None => None,
            },
            way@,
            static_config.revision@,
        ) {
            *revision
        } else {
            old(status).new_revision
        },
        final(status).hostname == old(status).hostname,
        final(status).proxy_ip == old(status).proxy_ip,
        final(status).proxy_port == old(status).proxy_port,
        final(status).sync_interval == old(status).sync_interval,
        final(status).ntp_enabled == old(status).ntp_enabled,
        final(status).version_platform_data == old(status).version_platform_data,
        final(status).version_acls == old(status).version_acls,
        final(status).version_groups == old(status).version_groups,
        final(status).interfaces == old(status).interfaces,
{
    match revision {
        Some(r) => {
            if !r.as_str().is_empty() && *r != static_config.revision {
                let grpc = String::from_str("grpc");
                if *way == grpc {
                    status.new_revision = Some(r.clone());
                }
            }
        },
        None => {},
    }
}

/// Takes note of an upgrade that the controller asks for.
pub fn parse_upgrade(
    revision: &Option<String>,
    self_update_url: &Option<String>,
    static_config: &StaticConfig,
    status: &mut Status,
)
    ensures
        final(status).new_revision == if asks_upgrade(
            match *revision {
                Some(r) => Some(r@),
                None => None,
            },
            match *self_update_url {
                Some(u) => Some(u@),
                None => None,
            },
            static_config.revision@,
        ) {
            *revision
        } else {
            old(status).new_revision
        },
        final(status).hostname == old(status).hostname,
        final(status).proxy_ip == old(status).proxy_ip,
        final(status).proxy_port == old(status).proxy_port,
        final(status).sync_interval == old(status).sync_interval,
        final(status).ntp_enabled == old(status).ntp_enabled,
        final(status).version_platform_data == old(status).version_platform_data,
        final(status).version_acls == old(status).version_acls,
        final(status).version_groups == old(status).version_groups,
        final(status).interfaces == old(status).interfaces,
{
    match self_update_url {
        Some(url) => {
            let way = to_lowercase(trim(url.as_str()).as_str());
            note_upgrade(revision, &way, static_config, status);
        },
        None => {},
    }
}

/// The value of a hexadecimal digit.
pub open spec fn hex_value(c: u8) -> Option<int> {
    if 0x30 <= c <= 0x39 {
        Some(c - 0x30)
    } else if 0x61 <= c <= 0x66 {
        Some(c - 0x61 + 10)
    } else if 0x41 <= c <= 0x46 {
        Some(c - 0x41 + 10)
    } else {
        None
    }
}

fn hex_digit(c: u8) -> (r: Option<u8>)
    ensures
        match r {
            Some(v) => hex_value(c) == Some(v as int) && v < 16,
            None => hex_value(c) is None,
        },
{
    if 0x30 <= c && c <= 0x39 {
        Some(c - 0x30)
    } else if 0x61 <= c && c <= 0x66 {
        Some(c - 0x61 + 10)
    } else if 0x41 <= c && c <= 0x46 {
        Some(c - 0x41 + 10)
    } else {
        None
    }
}

/// The number that the first `n` octets of the text `s` of a link-layer
/// address stand for: two hexadecimal digits each, with a colon before every
/// octet but the first.
pub open spec fn mac_value(s: Seq<u8>, n: int) -> Option<int>
    decreases n,
{
    if n <= 0 {
        Some(0)
    } else {
        match (mac_value(s, n - 1), hex_value(s[3 * (n - 1)]), hex_value(s[3 * (n - 1) + 1])) {
            (Some(v), Some(hi), Some(lo)) => if n > 1 && s[3 * (n - 1) - 1] != 0x3a {
                None
            } else {
                Some(v * 256 + hi * 16 + lo)
            },
            _ => None,
        }
    }
}

/// The link-layer address that `s` is the text of: six octets of two
/// hexadecimal digits each, with colons between them, and nothing else.
pub open spec fn mac_of(s: Seq<u8>) -> Option<MacAddr> {
    if s.len() != 17 {
        None
    } else {
        match mac_value(s, 6) {
            Some(v) => Some(MacAddr { value: v as u64 }),
            None => None,
        }
    }
}

/// Parses the text of a link-layer address.
pub fn parse_mac(text: &[u8]) -> (r: Option<MacAddr>)
    ensures
        r == mac_of(text@),
{
    if text.len() != 17 {
        return None;
    }
    let mut value: u64 = 0;
    let mut n: usize = 0;
    while n < 6
        invariant
            n <= 6,
            text@.len() == 17,
            mac_value(text@, n as int) == Some(value as int),
            value < pow256(n as nat),
        decreases 6 - n,
    {
        proof {
            reveal_with_fuel(pow256, 8);
        }
        if n > 0 && text[3 * n - 1] != 0x3a {
            proof {
                lemma_mac_value_fails(text@, n as int + 1);
            }
            return None;
        }
        let hi = match hex_digit(text[3 * n]) {
            Some(v) => v,
            None => {
                proof {
                    lemma_mac_value_fails(text@, n as int + 1);
                }
                return None;
            },
        };
        let lo = match hex_digit(text[3 * n + 1]) {
            Some(v) => v,
            None => {
                proof {
                    lemma_mac_value_fails(text@, n as int + 1);
                }
                return None;
            },
        };
        value = value * 256 + (hi as u64) * 16 + lo as u64;
        n += 1;
    }
    Some(MacAddr { value })
}

/// 256 to the power `n`.
pub open spec fn pow256(n: nat) -> int
    decreases n,
{
    if n == 0 {
        1
    } else {
        256 * pow256((n - 1) as nat)
    }
}

/// A text whose first `k` octets stand for no number stands for none as a whole.
pub proof fn lemma_mac_value_fails(s: Seq<u8>, k: int)
    requires
        1 <= k <= 6,
        mac_value(s, k) is None,
    ensures
        mac_value(s, 6) is None,
    decreases 6 - k,
{
    if k < 6 {
        assert(mac_value(s, k + 1) is None);
        lemma_mac_value_fails(s, k + 1);
    }
}

/// The segments that the controller names: the link addresses of the
/// machines on them, as text.
#[derive(Clone, Debug)]
pub struct Segment {
    pub mac: Vec<String>,
}

/// The link-layer addresses that the texts `texts` stand for, without those
/// that are no address.
pub open spec fn macs_of(texts: Seq<Seq<u8>>) -> Seq<MacAddr>
    decreases texts.len(),
{
    if texts.len() == 0 {
        seq![]
    } else {
        macs_of(texts.drop_last()) + (match mac_of(texts.last()) {
            Some(m) => seq![m],
            None => seq![],
        })
    }
}

/// The link addresses of a segment as the bytes of their texts.
pub open spec fn segment_texts(segment: Segment) -> Seq<Seq<u8>> {
    Seq::new(segment.mac@.len(), |i: int| vstd::utf8::encode_utf8(segment.mac@[i]@))
}

/// The segments of a response that an agent in the mode `tap_mode` looks at:
/// the remote ones for an agent that analyses the traffic of others, the local
/// ones for any other.
pub fn segments_for<'a>(
    tap_mode: TapMode,
    local_segments: &'a Vec<Segment>,
    remote_segments: &'a Vec<Segment>,
) -> (r: &'a Vec<Segment>)
    ensures
        r == if tap_mode == TapMode::Analyzer {
            remote_segments
        } else {
            local_segments
        },
{
    if tap_mode == TapMode::Analyzer {
        remote_segments
    } else {
        local_segments
    }
}

/// The link-layer addresses of one segment; a text that is no address is
/// passed over.
pub fn segment_macs(segment: &Segment) -> (r: Vec<MacAddr>)
    ensures
        r@ == macs_of(segment_texts(*segment)),
{
    let mut macs: Vec<MacAddr> = Vec::new();
    let mut i: usize = 0;
    let ghost texts = segment_texts(*segment);
    assert(macs_of(texts.subrange(0, 0)) =~= seq![]);
    while i < segment.mac.len()
        invariant
            i <= segment.mac@.len(),
            texts == segment_texts(*segment),
            texts.len() == segment.mac@.len(),
            macs@ == macs_of(texts.subrange(0, i as int)),
        decreases segment.mac@.len() - i,
    {
        let ghost upto = texts.subrange(0, i + 1);
        assert(upto.drop_last() =~= texts.subrange(0, i as int));
        assert(upto.last() == texts[i as int]);
        match parse_mac(segment.mac[i].as_str().as_bytes()) {
            Some(m) => {
                macs.push(m);
            },
            None => {
                assert(macs@ + Seq::<MacAddr>::empty() =~= macs@);
            },
        }
        i += 1;
    }
    assert(texts.subrange(0, texts.len() as int) =~= texts);
    macs
}

/// What the controller answers to a report, as far as the loop looks at it.
#[derive(Clone, Debug)]
pub struct SyncResponse {
    pub status: ResponseStatus,
    pub revision: Option<String>,
    pub self_update_url: Option<String>,
    pub version_platform_data: Option<u64>,
    pub version_groups: Option<u64>,
    pub version_acls: Option<u64>,
    pub local_segments: Vec<Segment>,
    pub remote_segments: Vec<Segment>,
    /// The link addresses of the interfaces to leave alone.
    pub skip_interface: Vec<u64>,
}

/// What the configuration of a response came to.
#[derive(Clone, Copy, Debug, PartialEq, Eq, Structural)]
pub enum ConfigOutcome {
    /// The response has no configuration.
    Missing,
    /// The configuration could not be decoded or says what cannot be.
    Invalid,
    Valid(RuntimeConfig),
}

/// What the snapshots of a response came to when they were decoded.
#[derive(Clone, Debug)]
pub struct Snapshots {
    pub interfaces: Option<Vec<VInterface>>,
    pub groups: bool,
    pub acls: bool,
}

/// What becomes of the agent after a response.
#[derive(Clone, Copy, Debug, PartialEq, Eq, Structural)]
pub enum AgentState {
    /// The response changes nothing.
    Unchanged,
    /// The controller has switched the agent off.
    Disabled,
    /// The agent takes the configuration of the response.
    ConfigChanged(RuntimeConfig),
}

/// What the loop is to do after a response.
#[derive(Clone, Copy, Debug, PartialEq, Eq, Structural)]
pub struct ResponseOutcome {
    /// The time, in seconds, to tell the escape timer.
    pub escape: Option<u64>,
    /// The bound on the memory of the agent to take.
    pub max_memory: Option<u64>,
    /// Whether the listeners are to look at the snapshots anew.
    pub updated: bool,
    pub state: AgentState,
}

/// Takes the response `resp` of the controller, with `config` what its
/// configuration came to and `snapshots` what its snapshots decode to, and
/// tells the loop what to do.
///
/// An upgrade that the controller asks for is noted in any case. A heartbeat
/// changes nothing else; nor does a response without a configuration. A
/// configuration that is invalid raises the exception of that name and leaves
/// the agent as it runs. A valid one feeds the escape timer, sets the bound on
/// memory, the proxy, the interval and the clock correction, and lets the
/// snapshots in that have a new version; where one came in, the exception of
/// too many policies is cleared and the listeners are told. At the end the
/// agent is switched off or takes the configuration.
pub fn on_response(
    resp: &SyncResponse,
    config: ConfigOutcome,
    snapshots: Snapshots,
    macs: &Vec<MacAddr>,
    controller_ip: Option<IpAddr>,
    static_config: &StaticConfig,
    status: &mut Status,
    exceptions: &mut ExceptionHandler,
) -> (r: ResponseOutcome)
    ensures
        ({
            let noted = if asks_upgrade(
                match resp.revision {
                    Some(r) => Some(r@),
                    None => None,
                },
                match resp.self_update_url {
                    Some(u) => Some(u@),
                    None => None,
                },
                static_config.revision@,
            ) {
                resp.revision
            } else {
                old(status).new_revision
            };
            let idle = ResponseOutcome {
                escape: None,
                max_memory: None,
                updated: false,
                state: AgentState::Unchanged,
            };
            &&& final(status).new_revision == noted
            &&& final(status).hostname == old(status).hostname
            &&& match config {
                ConfigOutcome::Valid(c) => if resp.status == ResponseStatus::Heartbeat {
                    r == idle && *final(exceptions) == *old(exceptions) && final(status).version_platform_data == old(status).version_platform_data
                } else {
                    let platform = takes_version(
                        old(status).version_platform_data,
                        resp.version_platform_data,
                    ) && snapshots.interfaces is Some;
                    let groups = takes_version(old(status).version_groups, resp.version_groups)
                        && snapshots.groups;
                    let acls = takes_version(old(status).version_acls, resp.version_acls)
                        && snapshots.acls;
                    &&& r.escape == Some(c.max_escape)
                    &&& r.max_memory == Some(c.max_memory)
                    &&& r.updated == (platform || groups || acls)
                    &&& r.state == if c.enabled {
                        AgentState::ConfigChanged(c)
                    } else {
                        AgentState::Disabled
                    }
                    &&& *final(exceptions) == if r.updated {
                        old(exceptions).with(Exception::TooManyPolicies, false)
                    } else {
                        *old(exceptions)
                    }
                    &&& final(status).proxy_ip == if c.has_proxy_controller_ip {
                        c.proxy_controller_ip
                    } else {
                        controller_ip
                    }
                    &&& final(status).proxy_port == c.proxy_controller_port
                    &&& final(status).sync_interval == c.sync_interval
                    &&& final(status).ntp_enabled == c.ntp_enabled
                    &&& final(status).version_platform_data == if platform {
                        resp.version_platform_data.unwrap()
                    } else {
                        old(status).version_platform_data
                    }
                    &&& final(status).version_groups == if groups {
                        resp.version_groups.unwrap()
                    } else {
                        old(status).version_groups
                    }
                    &&& final(status).version_acls == if acls {
                        resp.version_acls.unwrap()
                    } else {
                        old(status).version_acls
                    }
                    &&& final(status).interfaces@ == if platform {
                        platform_marked(snapshots.interfaces.unwrap()@, macs@, c)
                    } else {
                        old(status).interfaces@
                    }
                },
                ConfigOutcome::Invalid => r == idle && *final(exceptions) == (if resp.status
                    == ResponseStatus::Heartbeat {
                    *old(exceptions)
                } else {
                    old(exceptions).with(Exception::InvalidConfiguration, true)
                }) && final(status).version_platform_data == old(status).version_platform_data
                    && final(status).interfaces == old(status).interfaces,
                ConfigOutcome::Missing => r == idle && *final(exceptions) == *old(exceptions)
                    && final(status).version_platform_data == old(status).version_platform_data
                    && final(status).interfaces == old(status).interfaces,
            }
        }),
{
    parse_upgrade(&resp.revision, &resp.self_update_url, static_config, status);
    let idle = ResponseOutcome {
        escape: None,
        max_memory: None,
        updated: false,
        state: AgentState::Unchanged,
    };
    if resp.status == ResponseStatus::Heartbeat {
        return idle;
    }
    let runtime_config = match config {
        ConfigOutcome::Missing => {
            return idle;
        },
        ConfigOutcome::Invalid => {
            exceptions.set(Exception::InvalidConfiguration);
            return idle;
        },
        ConfigOutcome::Valid(c) => c,
    };
    status.proxy_ip = if runtime_config.has_proxy_controller_ip {
        runtime_config.proxy_controller_ip
    } else {
        controller_ip
    };
    status.proxy_port = runtime_config.proxy_controller_port;
    status.sync_interval = runtime_config.sync_interval;
    status.ntp_enabled = runtime_config.ntp_enabled;
    let updated_platform = status.get_platform_data(resp.version_platform_data, snapshots.interfaces);
    if updated_platform {
        status.modify_platform(macs, &runtime_config);
    }
    let updated_groups = status.get_ip_groups(resp.version_groups, snapshots.groups);
    let updated_acls = status.get_flow_acls(resp.version_acls, snapshots.acls);
    let updated = updated_platform || updated_groups || updated_acls;
    if updated {
        exceptions.clear(Exception::TooManyPolicies);
    }
    ResponseOutcome {
        escape: Some(runtime_config.max_escape),
        max_memory: Some(runtime_config.max_memory),
        updated,
        state: if runtime_config.enabled {
            AgentState::ConfigChanged(runtime_config)
        } else {
            AgentState::Disabled
        },
    }
}

/// The link addresses of the interfaces that the controller tells the agent
/// to leave alone.
pub fn get_blacklist(resp: &SyncResponse) -> (r: Vec<u64>)
    ensures
        r@ == resp.skip_interface@,
{
    let mut out: Vec<u64> = Vec::new();
    let mut i: usize = 0;
    while i < resp.skip_interface.len()
        invariant
            i <= resp.skip_interface@.len(),
            out@ == resp.skip_interface@.subrange(0, i as int),
        decreases resp.skip_interface@.len() - i,
    {
        out.push(resp.skip_interface[i]);
        assert(out@ =~= resp.skip_interface@.subrange(0, i + 1));
        i += 1;
    }
    assert(resp.skip_interface@.subrange(0, resp.skip_interface@.len() as int)
        =~= resp.skip_interface@);
    out
}

/// What the agent reports to its controller.
#[derive(Clone, Debug)]
pub struct SyncRequest {
    /// When the agent started, in seconds since the epoch by the clock of
    /// the controller.
    pub boot_time: u32,
    pub config_accepted: bool,
    pub version_platform_data: u64,
    pub version_acls: u64,
    pub version_groups: u64,
    pub revision: String,
    pub exception: ExceptionHandler,
    pub process_name: String,
    pub ctrl_mac: String,
    pub ctrl_ip: String,
    pub tap_mode: TapMode,
    pub host: String,
    pub host_ips: Vec<String>,
    pub cpu_num: u32,
    pub memory_size: u64,
    pub arch: String,
    pub os: String,
    pub kernel_version: String,
    pub vtap_group_id_request: String,
    pub kubernetes_cluster_id: String,
}

/// The start of the agent in seconds since the epoch by the clock of the
/// controller, from the start `boot_time` by the clock of the host and the
/// difference `time_diff` between the clocks, both in nanoseconds. The low 32
/// bits of the seconds are reported; a start before the epoch is reported as
/// the epoch.
pub open spec fn reported_boot_time(boot_time: u64, time_diff: i64) -> u32 {
    if boot_time + time_diff < 0 {
        0
    } else {
        (((boot_time + time_diff) / (NANOS_PER_SECOND as int)) % 0x1_0000_0000) as u32
    }
}

/// The addresses of `addrs` that are reported: those that are neither
/// loopback, unspecified, multicast nor link-local, as text.
pub open spec fn reported_ips(addrs: Seq<IpAddr>) -> Seq<Seq<char>>
    decreases addrs.len(),
{
    if addrs.len() == 0 {
        seq![]
    } else {
        reported_ips(addrs.drop_last()) + (if addrs.last().spec_is_excluded() {
            seq![]
        } else {
            seq![ip_text(addrs.last())]
        })
    }
}

/// The texts of `v`.
pub open spec fn texts_of(v: Seq<String>) -> Seq<Seq<char>> {
    Seq::new(v.len(), |i: int| v[i]@)
}

/// Makes the report of the agent: what it is, what it runs on, which
/// snapshots it holds, what has gone wrong since the last report, and the
/// addresses `addrs` of the host that a controller can make use of.
pub fn generate_sync_request(
    running_config: &RunningConfig,
    static_config: &StaticConfig,
    status: &Status,
    time_diff: i64,
    exceptions: &mut ExceptionHandler,
    addrs: &Vec<IpAddr>,
) -> (r: SyncRequest)
    ensures
        r.boot_time == reported_boot_time(static_config.boot_time, time_diff),
        r.config_accepted == status.config_accepted,
        r.version_platform_data == status.version_platform_data,
        r.version_acls == status.version_acls,
        r.version_groups == status.version_groups,
        r.revision == static_config.revision,
        r.exception == *old(exceptions),
        *final(exceptions) == (ExceptionHandler {
            invalid_configuration: false,
            controller_socket_error: false,
            too_many_policies: false,
        }),
        r.process_name == static_config.agent_ident,
        r.ctrl_mac == running_config.ctrl_mac,
        r.ctrl_ip == running_config.ctrl_ip,
        r.tap_mode == static_config.tap_mode,
        r.host == status.hostname,
        texts_of(r.host_ips@) == reported_ips(addrs@),
        r.cpu_num == static_config.env.cpu_num,
        r.memory_size == static_config.env.memory_size,
        r.arch == static_config.env.arch,
        r.os == static_config.env.os,
        r.kernel_version == static_config.env.kernel_version,
        r.vtap_group_id_request == static_config.vtap_group_id_request,
        r.kubernetes_cluster_id == static_config.kubernetes_cluster_id,
{
    let started: i128 = static_config.boot_time as i128 + time_diff as i128;
    let boot_time: u32 = if started < 0 {
        0
    } else {
        ((started / (NANOS_PER_SECOND as i128)) % 0x1_0000_0000) as u32
    };
    let mut host_ips: Vec<String> = Vec::new();
    let mut i: usize = 0;
    assert(reported_ips(addrs@.subrange(0, 0)) =~= seq![]);
    assert(texts_of(host_ips@) =~= seq![]);
    while i < addrs.len()
        invariant
            i <= addrs@.len(),
            texts_of(host_ips@) == reported_ips(addrs@.subrange(0, i as int)),
        decreases addrs@.len() - i,
    {
        let ghost upto = addrs@.subrange(0, i + 1);
        let ghost before = texts_of(host_ips@);
        assert(upto.drop_last() =~= addrs@.subrange(0, i as int));
        assert(upto.last() == addrs@[i as int]);
        if !addrs[i].is_excluded() {
            let mut text = String::new();
            append_ip(&mut text, addrs[i]);
            assert(text@ =~= ip_text(addrs@[i as int]));
            host_ips.push(text);
            assert(texts_of(host_ips@) =~= before + seq![ip_text(addrs@[i as int])]);
        } else {
            assert(before + Seq::<Seq<char>>::empty() =~= before);
        }
        i += 1;
    }
    assert(addrs@.subrange(0, addrs@.len() as int) =~= addrs@);
    SyncRequest {
        boot_time,
        config_accepted: status.config_accepted,
        version_platform_data: status.version_platform_data,
        version_acls: status.version_acls,
        version_groups: status.version_groups,
        revision: static_config.revision.clone(),
        exception: exceptions.take(),
        process_name: static_config.agent_ident.clone(),
        ctrl_mac: running_config.ctrl_mac.clone(),
        ctrl_ip: running_config.ctrl_ip.clone(),
        tap_mode: static_config.tap_mode,
        host: status.hostname.clone(),
        host_ips,
        cpu_num: static_config.env.cpu_num,
        memory_size: static_config.env.memory_size,
        arch: static_config.env.arch.clone(),
        os: static_config.env.os.clone(),
        kernel_version: static_config.env.kernel_version.clone(),
        vtap_group_id_request: static_config.vtap_group_id_request.clone(),
        kubernetes_cluster_id: static_config.kubernetes_cluster_id.clone(),
    }
}


/// The mode of an NTP packet.
#[derive(Clone, Copy, Debug, PartialEq, Eq, Structural)]
pub enum NtpMode {
    Reserved,
    SymmetricActive,
    SymmetricPassive,
    Client,
    Server,
    Broadcast,
    ControlMessage,
    ReservedPrivate,
}

/// What the loop reads of an NTP packet. The times are NTP timestamps:
/// seconds since 1900 in the high 32 bits, and in the low 32 bits the fraction
/// of a second in units of two to the power of -32.
#[derive(Clone, Copy, Debug, PartialEq, Eq, Structural)]
pub struct NtpPacket {
    pub mode: NtpMode,
    /// When the client sent the request, as the client put it in.
    pub ts_orig: u64,
    /// When the server received the request.
    pub ts_recv: u64,
    /// When the server sent the response.
    pub ts_xmit: u64,
}

/// The length of a packet of the time protocol without extensions.
pub const NTP_PACKET_LEN: usize = 48;

/// The first byte of a request: no leap warning, version 4, mode client.
pub const NTP_REQUEST_HEAD: u8 = 0x23;

/// The mode in the low three bits of the first byte `head` of a packet.
pub open spec fn ntp_mode_of(head: u8) -> NtpMode {
    let bits = head % 8;
    if bits == 0 {
        NtpMode::Reserved
    } else if bits == 1 {
        NtpMode::SymmetricActive
    } else if bits == 2 {
        NtpMode::SymmetricPassive
    } else if bits == 3 {
        NtpMode::Client
    } else if bits == 4 {
        NtpMode::Server
    } else if bits == 5 {
        NtpMode::Broadcast
    } else if bits == 6 {
        NtpMode::ControlMessage
    } else {
        NtpMode::ReservedPrivate
    }
}

/// The 64-bit time at `off` in `s`, most significant byte first.
pub open spec fn ntp_time_at(s: Seq<u8>, off: int) -> u64 {
    (be32(s, off) * 0x1_0000_0000 + be32(s, off + 4)) as u64
}

/// The packet that the bytes `s` hold: the mode in the first byte, and the
/// three times behind the 24 bytes that the agent has no use for. Fewer than
/// 48 bytes hold no packet; what follows the 48 is left alone.
pub open spec fn ntp_packet_of(s: Seq<u8>) -> Option<NtpPacket> {
    if s.len() < NTP_PACKET_LEN {
        None
    } else {
        Some(
            NtpPacket {
                mode: ntp_mode_of(s[0]),
                ts_orig: ntp_time_at(s, 24),
                ts_recv: ntp_time_at(s, 32),
                ts_xmit: ntp_time_at(s, 40),
            },
        )
    }
}

fn read_ntp_time(bytes: &[u8], off: usize) -> (r: u64)
    requires
        off + 8 <= bytes.len(),
    ensures
        r == ntp_time_at(bytes@, off as int),
{
    let high = read_u32_be(bytes, off) as u64;
    let low = read_u32_be(bytes, off + 4) as u64;
    high * 0x1_0000_0000 + low
}

/// Reads a packet of the time protocol.
pub fn parse_ntp_packet(bytes: &[u8]) -> (r: Option<NtpPacket>)
    ensures
        r == ntp_packet_of(bytes@),
{
    if bytes.len() < NTP_PACKET_LEN {
        return None;
    }
    let bits = bytes[0] % 8;
    let mode = if bits == 0 {
        NtpMode::Reserved
    } else if bits == 1 {
        NtpMode::SymmetricActive
    } else if bits == 2 {
        NtpMode::SymmetricPassive
    } else if bits == 3 {
        NtpMode::Client
    } else if bits == 4 {
        NtpMode::Server
    } else if bits == 5 {
        NtpMode::Broadcast
    } else if bits == 6 {
        NtpMode::ControlMessage
    } else {
        NtpMode::ReservedPrivate
    };
    Some(
        NtpPacket {
            mode,
            ts_orig: read_ntp_time(bytes, 24),
            ts_recv: read_ntp_time(bytes, 32),
            ts_xmit: read_ntp_time(bytes, 40),
        },
    )
}

fn push_u32_be(out: &mut Vec<u8>, v: u32)
    ensures
        final(out)@.len() == old(out)@.len() + 4,
        final(out)@.subrange(0, old(out)@.len() as int) == old(out)@,
        be32(final(out)@, old(out)@.len() as int) == v,
{
    let b0 = (v >> 24) as u8;
    let b1 = ((v >> 16) & 0xff) as u8;
    let b2 = ((v >> 8) & 0xff) as u8;
    let b3 = (v & 0xff) as u8;
    assert(((v >> 24) as u8) * 0x100_0000 + (((v >> 16) & 0xff) as u8) * 0x1_0000 + (((v >> 8)
        & 0xff) as u8) * 0x100 + ((v & 0xff) as u8) == v) by (bit_vector);
    out.push(b0);
    out.push(b1);
    out.push(b2);
    out.push(b3);
    reveal(be32);
    assert(final(out)@.subrange(0, old(out)@.len() as int) =~= old(out)@);
}

/// The request that carries `ts_xmit` as its transmit time: a client packet
/// of version 4 with nothing else in it.
pub fn ntp_request(ts_xmit: u64) -> (r: Vec<u8>)
    ensures
        r@.len() == NTP_PACKET_LEN,
        r@[0] == NTP_REQUEST_HEAD,
        forall|i: int| 1 <= i < 40 ==> r@[i] == 0,
        ntp_packet_of(r@) == Some(
            NtpPacket { mode: NtpMode::Client, ts_orig: 0, ts_recv: 0, ts_xmit },
        ),
{
    let mut out: Vec<u8> = Vec::new();
    out.push(NTP_REQUEST_HEAD);
    let mut i: usize = 1;
    while i < 40
        invariant
            1 <= i <= 40,
            out@.len() == i,
            out@[0] == NTP_REQUEST_HEAD,
            forall|k: int| 1 <= k < i ==> out@[k] == 0,
        decreases 40 - i,
    {
        out.push(0);
        i += 1;
    }
    let ghost head = out@;
    let high = (ts_xmit >> 32) as u32;
    let low = (ts_xmit & 0xffff_ffff) as u32;
    assert(((ts_xmit >> 32) as u32) * 0x1_0000_0000 + ((ts_xmit & 0xffff_ffff) as u32)
        == ts_xmit) by (bit_vector);
    push_u32_be(&mut out, high);
    let ghost middle = out@;
    push_u32_be(&mut out, low);
    proof {
        reveal(be32);
        assert(middle.subrange(0, 40) == head);
        assert(out@.subrange(0, 44) == middle);
        assert forall|k: int| 0 <= k < 40 implies #[trigger] out@[k] == head[k] by {
            assert(out@.subrange(0, 44)[k] == out@[k]);
            assert(middle.subrange(0, 40)[k] == middle[k]);
        }
        assert forall|k: int| 1 <= k < 40 implies #[trigger] out@[k] == 0 by {
            assert(out@[k] == head[k]);
        }
        assert(be32(out@, 40) == middle.subrange(0, 40).len() - 40 + high) by {
            assert forall|k: int| 40 <= k < 44 implies #[trigger] out@[k] == middle[k] by {
                assert(out@.subrange(0, 44)[k] == out@[k]);
            }
        }
        assert(be32(out@, 40) == high);
        assert(be32(out@, 44) == low);
        assert(be32(out@, 24) == 0 && be32(out@, 28) == 0);
        assert(be32(out@, 32) == 0 && be32(out@, 36) == 0);
        assert(NTP_REQUEST_HEAD % 8 == 3);
    }
    out
}

/// Why a response of the time server is not taken.
#[derive(Clone, Copy, Debug, PartialEq, Eq, Structural)]
pub enum NtpFault {
    /// The packet is not the response of a server.
    InvalidMode,
    /// The server has not said when it sent the response.
    InvalidTransmitTime,
    /// The response is not the answer to the request.
    Mismatch,
    /// The server sent the response before it received the request.
    ClockBackwards,
}

/// What is wrong with the response `resp` to a request that carried `sent` as
/// its transmit time, if anything is.
pub open spec fn ntp_fault(resp: NtpPacket, sent: u64) -> Option<NtpFault> {
    if resp.mode != NtpMode::Server {
        Some(NtpFault::InvalidMode)
    } else if resp.ts_xmit == 0 {
        Some(NtpFault::InvalidTransmitTime)
    } else if resp.ts_orig != sent {
        Some(NtpFault::Mismatch)
    } else if resp.ts_recv > resp.ts_xmit {
        Some(NtpFault::ClockBackwards)
    } else {
        None
    }
}

/// Checks the response `resp` to a request that carried `sent` as its
/// transmit time.
pub fn check_ntp_response(resp: &NtpPacket, sent: u64) -> (r: Result<(), NtpFault>)
    ensures
        r == match ntp_fault(*resp, sent) {
            Some(f) => Err::<(), NtpFault>(f),
            None => Ok(()),
        },
{
    if resp.mode != NtpMode::Server {
        Err(NtpFault::InvalidMode)
    } else if resp.ts_xmit == 0 {
        Err(NtpFault::InvalidTransmitTime)
    } else if resp.ts_orig != sent {
        Err(NtpFault::Mismatch)
    } else if resp.ts_recv > resp.ts_xmit {
        Err(NtpFault::ClockBackwards)
    } else {
        Ok(())
    }
}

/// The seconds between the start of 1900 and the start of 1970.
pub const NTP_EPOCH_OFFSET: u64 = 2_208_988_800;

/// An NTP timestamp in nanoseconds since the start of 1970.
pub open spec fn ntp_nanos(t: u64) -> int {
    (t / 0x1_0000_0000 - NTP_EPOCH_OFFSET) * NANOS_PER_SECOND + (t % 0x1_0000_0000)
        * NANOS_PER_SECOND / 0x1_0000_0000
}

/// By how much the clock of the server is ahead of the clock of the host, in
/// nanoseconds: half of what the server's times of receipt and of sending are
/// ahead of the host's times `sent` of sending and `received` of receipt, which
/// are in nanoseconds since the start of 1970.
pub open spec fn clock_offset(resp: NtpPacket, sent: u64, received: u64) -> int {
    let sum = (ntp_nanos(resp.ts_recv) - sent) + (ntp_nanos(resp.ts_xmit) - received);
    if sum >= 0 {
        sum / 2
    } else {
        -((-sum) / 2)
    }
}

/// A number of nanoseconds cut down to whole seconds, towards zero.
pub open spec fn whole_seconds(nanos: int) -> int {
    if nanos >= 0 {
        nanos / (NANOS_PER_SECOND as int) * NANOS_PER_SECOND
    } else {
        -((-nanos) / (NANOS_PER_SECOND as int) * NANOS_PER_SECOND)
    }
}

fn nanos_of(t: u64) -> (r: i128)
    ensures
        r == ntp_nanos(t),
        -0x2000_0000_0000_0000_0000 < r < 0x2000_0000_0000_0000_0000,
{
    let secs: i128 = (t / 0x1_0000_0000) as i128 - NTP_EPOCH_OFFSET as i128;
    let frac: i128 = (t % 0x1_0000_0000) as i128;
    assert(-0x1_0000_0000 * 1_000_000_000 <= secs * 1_000_000_000 <= 0x1_0000_0000
        * 1_000_000_000) by (nonlinear_arith)
        requires
            -0x1_0000_0000 <= secs <= 0x1_0000_0000,
    ;
    assert(0 <= frac * 1_000_000_000 <= 0x1_0000_0000 * 1_000_000_000) by (nonlinear_arith)
        requires
            0 <= frac <= 0x1_0000_0000,
    ;
    secs * (NANOS_PER_SECOND as i128) + frac * (NANOS_PER_SECOND as i128) / 0x1_0000_0000
}

/// A number held within what 64 bits with a sign can hold.
pub open spec fn within_i64(n: int) -> i64 {
    if n > i64::MAX {
        i64::MAX
    } else if n < i64::MIN {
        i64::MIN
    } else {
        n as i64
    }
}

/// The correction of the clock, in nanoseconds, that the response `resp`
/// gives: the offset of the clocks in whole seconds.
pub fn ntp_offset(resp: &NtpPacket, sent: u64, received: u64) -> (r: i64)
    ensures
        r == within_i64(whole_seconds(clock_offset(*resp, sent, received))),
{
    let sum: i128 = (nanos_of(resp.ts_recv) - sent as i128) + (nanos_of(resp.ts_xmit)
        - received as i128);
    let offset: i128 = if sum >= 0 {
        sum / 2
    } else {
        -((-sum) / 2)
    };
    let rounded: i128 = if offset >= 0 {
        offset / (NANOS_PER_SECOND as i128) * (NANOS_PER_SECOND as i128)
    } else {
        -((-offset) / (NANOS_PER_SECOND as i128) * (NANOS_PER_SECOND as i128))
    };
    if rounded > i64::MAX as i128 {
        i64::MAX
    } else if rounded < i64::MIN as i128 {
        i64::MIN
    } else {
        rounded as i64
    }
}

/// What one round of the clock correction came to.
#[derive(Clone, Copy, Debug, PartialEq, Eq, Structural)]
pub enum NtpRound {
    /// The configuration has the correction switched off.
    Disabled,
    /// No response came, or none that could be read.
    Failed,
    /// A response came to a request that carried `sent` as its transmit time
    /// and was sent at `sent_at` and answered at `received_at`, in nanoseconds
    /// since the start of 1970 by the clock of the host.
    Answered { resp: NtpPacket, sent: u64, sent_at: u64, received_at: u64 },
}

/// The correction of the clock after one round, with `held` the correction
/// before it: none where the correction is switched off; the one before
/// where no response came, where the response is not taken, or where the clock
/// of the host went backwards meanwhile; else what the response gives.
pub open spec fn corrected(held: i64, round: NtpRound) -> i64 {
    match round {
        NtpRound::Disabled => 0,
        NtpRound::Failed => held,
        NtpRound::Answered { resp, sent, sent_at, received_at } => if ntp_fault(resp, sent)
            is Some || received_at < sent_at {
            held
        } else {
            within_i64(whole_seconds(clock_offset(resp, sent_at, received_at)))
        },
    }
}

/// Takes one round of the clock correction.
pub fn run_ntp_sync(ntp_diff: &mut i64, round: NtpRound)
    ensures
        *final(ntp_diff) == corrected(*old(ntp_diff), round),
{
    match round {
        NtpRound::Disabled => {
            *ntp_diff = 0;
        },
        NtpRound::Failed => {},
        NtpRound::Answered { resp, sent, sent_at, received_at } => {
            if check_ntp_response(&resp, sent).is_ok() && received_at >= sent_at {
                *ntp_diff = ntp_offset(&resp, sent_at, received_at);
            }
        },
    }
}

/// What the escape timer waits for.
#[derive(Clone, Copy, Debug, PartialEq, Eq, Structural)]
pub struct EscapeTimer {
    /// How long the agent may run without word from its controller, in seconds.
    pub escape_time: u64,
}

/// What happens to the escape timer.
#[derive(Clone, Copy, Debug, PartialEq, Eq, Structural)]
pub enum EscapeEvent {
    /// A configuration came in that allows `0` seconds without control.
    Updated(u64),
    /// The loop that feeds the timer has ended.
    Closed,
    /// No configuration came in within the time allowed.
    TimedOut,
}

/// What the escape timer does next.
#[derive(Clone, Copy, Debug, PartialEq, Eq, Structural)]
pub enum EscapeAction {
    /// Wait for the next configuration, this many seconds at most.
    Wait(u64),
    /// End.
    Stop,
    /// Switch the agent off and leave with this exit code.
    Exit(i32),
}

impl EscapeTimer {
    pub fn new() -> (r: EscapeTimer)
        ensures
            r.escape_time == DEFAULT_MAX_ESCAPE,
    {
        EscapeTimer { escape_time: DEFAULT_MAX_ESCAPE }
    }

    /// What the timer does when it starts, and after every event: while the
    /// agent runs it waits as long as it may.
    pub fn next(&self, running: bool) -> (r: EscapeAction)
        ensures
            r == if running {
                EscapeAction::Wait(self.escape_time)
            } else {
                EscapeAction::Stop
            },
    {
        if running {
            EscapeAction::Wait(self.escape_time)
        } else {
            EscapeAction::Stop
        }
    }

    /// Takes an event. A configuration sets the time allowed anew; the end of
    /// the loop ends the timer; and when the time allowed has passed without a
    /// configuration, the agent leaves so as to be started again.
    pub fn on_event(&mut self, event: EscapeEvent, running: bool) -> (r: EscapeAction)
        ensures
            match event {
                EscapeEvent::Updated(t) => final(self).escape_time == t && r == (if running {
                    EscapeAction::Wait(t)
                } else {
                    EscapeAction::Stop
                }),
                EscapeEvent::Closed => *final(self) == *old(self) && r == EscapeAction::Stop,
                EscapeEvent::TimedOut => *final(self) == *old(self) && r == EscapeAction::Exit(
                    NORMAL_EXIT_WITH_RESTART,
                ),
            },
    {
        match event {
            EscapeEvent::Updated(t) => {
                self.escape_time = t;
                self.next(running)
            },
            EscapeEvent::Closed => EscapeAction::Stop,
            EscapeEvent::TimedOut => EscapeAction::Exit(NORMAL_EXIT_WITH_RESTART),
        }
    }
}

/// Why an upgrade fails.
#[derive(Clone, Copy, Debug, PartialEq, Eq, Structural)]
pub enum UpgradeFault {
    /// The agent was stopped while the binary came in.
    Terminated,
    /// The controller says that the upgrade failed.
    ServerFailed,
    /// Fewer or more bytes came than the controller announced.
    Truncated,
    /// The binary does not have the checksum that the controller announced.
    ChecksumMismatch,
    /// The binary does not say that it is of the revision asked for.
    VersionMismatch,
    /// The controller could not be reached, or the binary could not be
    /// written, run or put in place.
    Failed,
}

/// A binary as it comes in from the controller, piece by piece.
#[derive(Clone, Debug)]
pub struct UpgradeProgress {
    /// The MD5 checksum that the first piece announced, in hexadecimal.
    pub md5_sum: String,
    pub total_bytes: u64,
    pub total_count: u64,
    /// How many pieces have come.
    pub count: u64,
    /// What has come of the binary.
    pub content: Vec<u8>,
}

/// The bytes `d` in hexadecimal, two digits each, lower case.
pub open spec fn hex_text(d: Seq<u8>) -> Seq<char>
    decreases d.len(),
{
    if d.len() == 0 {
        seq![]
    } else {
        hex_text(d.drop_last()) + seq![
            digit_char(d.last() as int / 16),
            digit_char(d.last() as int % 16),
        ]
    }
}

/// The bytes `d` in hexadecimal.
pub fn to_hex(d: &[u8]) -> (r: String)
    ensures
        r@ == hex_text(d@),
{
    let mut out = String::new();
    let mut i: usize = 0;
    assert(out@ =~= hex_text(d@.subrange(0, 0)));
    while i < d.len()
        invariant
            i <= d@.len(),
            out@ == hex_text(d@.subrange(0, i as int)),
        decreases d@.len() - i,
    {
        let ghost upto = d@.subrange(0, i + 1);
        let ghost before = out@;
        assert(upto.drop_last() =~= d@.subrange(0, i as int));
        assert(upto.last() == d@[i as int]);
        let b = d[i];
        let hi = b / 16;
        let lo = b % 16;
        crate::outside::push_char(
            &mut out,
            if hi < 10 {
                (hi + 0x30) as char
            } else {
                (hi - 10 + 0x61) as char
            },
        );
        crate::outside::push_char(
            &mut out,
            if lo < 10 {
                (lo + 0x30) as char
            } else {
                (lo - 10 + 0x61) as char
            },
        );
        assert(out@ =~= before + seq![digit_char(b as int / 16), digit_char(b as int % 16)]);
        i += 1;
    }
    assert(d@.subrange(0, d@.len() as int) =~= d@);
    out
}

impl UpgradeProgress {
    pub fn new() -> (r: UpgradeProgress)
        ensures
            r.md5_sum@.len() == 0 && r.total_bytes == 0 && r.total_count == 0 && r.count == 0,
            r.content@.len() == 0,
    {
        UpgradeProgress {
            md5_sum: String::new(),
            total_bytes: 0,
            total_count: 0,
            count: 0,
            content: Vec::new(),
        }
    }

    /// Takes one piece of the binary: `content`, with the status of the
    /// message that carries it, and with what the message says of the whole,
    /// of which the first message is believed. `running` says whether the
    /// agent still runs.
    pub fn on_message(
        &mut self,
        running: bool,
        status: ResponseStatus,
        md5: &String,
        total_len: u64,
        pkt_count: u64,
        content: &[u8],
    ) -> (r: Result<(), UpgradeFault>)
        ensures
            r == if !running {
                Err::<(), UpgradeFault>(UpgradeFault::Terminated)
            } else if status != ResponseStatus::Success {
                Err(UpgradeFault::ServerFailed)
            } else {
                Ok(())
            },
            r is Err ==> *final(self) == *old(self),
            r is Ok ==> {
                &&& final(self).content@ == old(self).content@ + content@
                &&& final(self).count == if old(self).count == u64::MAX {
                    u64::MAX
                } else {
                    (old(self).count + 1) as u64
                }
                &&& final(self).md5_sum == if old(self).count == 0 {
                    *md5
                } else {
                    old(self).md5_sum
                }
                &&& final(self).total_bytes == if old(self).count == 0 {
                    total_len
                } else {
                    old(self).total_bytes
                }
                &&& final(self).total_count == if old(self).count == 0 {
                    pkt_count
                } else {
                    old(self).total_count
                }
            },
    {
        if !running {
            return Err(UpgradeFault::Terminated);
        }
        if status != ResponseStatus::Success {
            return Err(UpgradeFault::ServerFailed);
        }
        if self.count == 0 {
            self.md5_sum = md5.clone();
            self.total_bytes = total_len;
            self.total_count = pkt_count;
        }
        self.content.extend_from_slice(content);
        self.count = self.count.saturating_add(1);
        Ok(())
    }

    /// Settles whether the binary has come in whole: as many bytes as the
    /// controller announced, with the checksum that it announced.
    pub fn finish(&self) -> (r: Result<(), UpgradeFault>)
        ensures
            r == if self.content@.len() != self.total_bytes {
                Err::<(), UpgradeFault>(UpgradeFault::Truncated)
            } else if hex_text(md5_of(self.content@)) != self.md5_sum@ {
                Err(UpgradeFault::ChecksumMismatch)
            } else {
                Ok(())
            },
    {
        let digest = md5_digest(self.content.as_slice());
        self.finish_with(digest.as_slice())
    }

    /// Checks the binary that has come in against what the first piece
    /// announced, where `digest` is the digest of the binary.
    pub fn finish_with(&self, digest: &[u8]) -> (r: Result<(), UpgradeFault>)
        ensures
            r == if self.content@.len() != self.total_bytes {
                Err::<(), UpgradeFault>(UpgradeFault::Truncated)
            } else if hex_text(digest@) != self.md5_sum@ {
                Err(UpgradeFault::ChecksumMismatch)
            } else {
                Ok(())
            },
    {
        if self.content.len() as u64 != self.total_bytes {
            return Err(UpgradeFault::Truncated);
        }
        let checksum = to_hex(digest);
        if checksum != self.md5_sum {
            return Err(UpgradeFault::ChecksumMismatch);
        }
        Ok(())
    }
}

/// Whether what the new binary prints of its version begins with the revision
/// asked for.
pub fn version_matches(version_info: &[u8], new_revision: &[u8]) -> (r: bool)
    ensures
        r == (new_revision@.len() <= version_info@.len() && version_info@.subrange(
            0,
            new_revision@.len() as int,
        ) == new_revision@),
{
    if new_revision.len() > version_info.len() {
        return false;
    }
    let mut i: usize = 0;
    while i < new_revision.len()
        invariant
            i <= new_revision@.len() <= version_info@.len(),
            forall|j: int| 0 <= j < i ==> version_info@[j] == new_revision@[j],
        decreases new_revision@.len() - i,
    {
        if version_info[i] != new_revision[i] {
            assert(version_info@.subrange(0, new_revision@.len() as int)[i as int]
                != new_revision@[i as int]);
            return false;
        }
        i += 1;
    }
    assert(version_info@.subrange(0, new_revision@.len() as int) =~= new_revision@);
    true
}

/// What the loop does after an upgrade was tried.
#[derive(Clone, Copy, Debug, PartialEq, Eq, Structural)]
pub enum UpgradeAction {
    /// The new binary is in place: leave with this exit code, to be started
    /// again.
    Exit(i32),
    /// Go on with the old binary.
    Continue,
}

/// Settles an upgrade that was tried: a failure is reported to the
/// controller with the next report. Either way the revision asked for is
/// forgotten.
pub fn after_upgrade(
    status: &mut Status,
    exceptions: &mut ExceptionHandler,
    result: Result<(), UpgradeFault>,
) -> (r: UpgradeAction)
    ensures
        r == if result is Ok {
            UpgradeAction::Exit(NORMAL_EXIT_WITH_RESTART)
        } else {
            UpgradeAction::Continue
        },
        *final(exceptions) == if result is Ok {
            *old(exceptions)
        } else {
            old(exceptions).with(Exception::ControllerSocketError, true)
        },
        final(status).new_revision is None,
        final(status).hostname == old(status).hostname,
        final(status).proxy_ip == old(status).proxy_ip,
        final(status).proxy_port == old(status).proxy_port,
        final(status).sync_interval == old(status).sync_interval,
        final(status).version_platform_data == old(status).version_platform_data,
        final(status).version_acls == old(status).version_acls,
        final(status).version_groups == old(status).version_groups,
        final(status).interfaces == old(status).interfaces,
{
    status.new_revision = None;
    match result {
        Ok(_) => UpgradeAction::Exit(NORMAL_EXIT_WITH_RESTART),
        Err(_) => {
            exceptions.set(Exception::ControllerSocketError);
            UpgradeAction::Continue
        },
    }
}

/// What a round of the loop came to before the response is looked at.
#[derive(Clone, Copy, Debug, PartialEq, Eq, Structural)]
pub enum CallOutcome {
    /// No connection to a controller is there.
    NotConnected,
    /// The call failed.
    Failed,
    /// The controller answered.
    Answered,
}

/// What the loop does after a call.
#[derive(Clone, Copy, Debug, PartialEq, Eq, Structural)]
pub struct CallPlan {
    /// Whether the failure of the request is remembered for the next round.
    pub request_failed: bool,
    /// How long to wait before the next round, in seconds, where the round
    /// ends here.
    pub retry_after: Option<u64>,
}

/// Whether the loop makes a new connection before it calls: it has none, or
/// the session has changed since the connection was made.
pub fn needs_client(has_client: bool, version: u64, session_version: u64) -> (r: bool)
    ensures
        r == (!has_client || version != session_version),
{
    !has_client || version != session_version
}

/// Settles a call. A call that failed raises the exception of the socket to
/// the controller; a call that failed or could not be made ends the round, and
/// the next begins after the retry interval.
pub fn after_call(outcome: CallOutcome, exceptions: &mut ExceptionHandler) -> (r: CallPlan)
    ensures
        r == match outcome {
            CallOutcome::Answered => CallPlan { request_failed: false, retry_after: None },
            _ => CallPlan { request_failed: true, retry_after: Some(RPC_RETRY_INTERVAL) },
        },
        *final(exceptions) == if outcome == CallOutcome::Failed {
            old(exceptions).with(Exception::ControllerSocketError, true)
        } else {
            *old(exceptions)
        },
{
    match outcome {
        CallOutcome::Answered => CallPlan { request_failed: false, retry_after: None },
        CallOutcome::NotConnected => CallPlan {
            request_failed: true,
            retry_after: Some(RPC_RETRY_INTERVAL),
        },
        CallOutcome::Failed => {
            exceptions.set(Exception::ControllerSocketError);
            CallPlan { request_failed: true, retry_after: Some(RPC_RETRY_INTERVAL) }
        },
    }
}

/// What the loop does at the end of a round in which the controller answered.
#[derive(Clone, Debug)]
pub struct RoundPlan {
    /// The revision to upgrade to now.
    pub upgrade_to: Option<String>,
    /// The proxy to go through from now on, where it has changed.
    pub proxy: Option<(Option<IpAddr>, u16)>,
    /// How long to wait before the next round, in seconds.
    pub sync_interval: u64,
    /// Whether that is another interval than before.
    pub interval_changed: bool,
}

/// Plans the end of a round from what the response left in `status`, with
/// the proxy that the session goes through and the interval of the round before.
pub fn plan_round(
    status: &Status,
    session_proxy_ip: Option<IpAddr>,
    session_proxy_port: u16,
    sync_interval: u64,
) -> (r: RoundPlan)
    ensures
        r.upgrade_to == status.new_revision,
        r.proxy == if status.proxy_ip != session_proxy_ip || status.proxy_port
            != session_proxy_port {
            Some((status.proxy_ip, status.proxy_port))
        } else {
            None
        },
        r.sync_interval == status.sync_interval,
        r.interval_changed == (status.sync_interval != sync_interval),
{
    let same_ip = match (status.proxy_ip, session_proxy_ip) {
        (Some(a), Some(b)) => a == b,
        (None, None) => true,
        _ => false,
    };
    RoundPlan {
        upgrade_to: status.new_revision.clone(),
        proxy: if !same_ip || status.proxy_port != session_proxy_port {
            Some((status.proxy_ip, status.proxy_port))
        } else {
            None
        },
        sync_interval: status.sync_interval,
        interval_changed: status.sync_interval != sync_interval,
    }
}

/// What came on the stream over which the controller pushes.
#[derive(Clone, Copy, Debug, PartialEq, Eq, Structural)]
pub enum PushEvent {
    /// The stream failed.
    Failed,
    /// The stream has ended.
    Ended,
    /// A response came.
    Message,
}

/// What the loop of the pushed responses does with an event.
#[derive(Clone, Copy, Debug, PartialEq, Eq, Structural)]
pub enum PushAction {
    /// Leave the stream and open a new one.
    Reconnect,
    /// Pass the response over: the agent has not reported yet, so what is
    /// pushed holds versions only.
    Skip,
    /// Take the response.
    Handle,
}

/// Settles an event on the stream of pushed responses. `server_changed` says
/// whether the session has turned to another controller meanwhile, `synced`
/// whether the agent has reported since it started.
pub fn on_push(event: PushEvent, server_changed: bool, synced: bool, exceptions: &mut ExceptionHandler) -> (r:
    PushAction)
    ensures
        r == if server_changed || event != PushEvent::Message {
            PushAction::Reconnect
        } else if !synced {
            PushAction::Skip
        } else {
            PushAction::Handle
        },
        *final(exceptions) == if !server_changed && event == PushEvent::Failed {
            old(exceptions).with(Exception::ControllerSocketError, true)
        } else {
            *old(exceptions)
        },
{
    if server_changed {
        return PushAction::Reconnect;
    }
    match event {
        PushEvent::Failed => {
            exceptions.set(Exception::ControllerSocketError);
            PushAction::Reconnect
        },
        PushEvent::Ended => PushAction::Reconnect,
        PushEvent::Message => {
            if !synced {
                PushAction::Skip
            } else {
                PushAction::Handle
            }
        },
    }
}

/// What the synchroniser holds.
pub struct Synchronizer {
    pub static_config: StaticConfig,
    pub running_config: RunningConfig,
    pub status: Status,
    pub exception_handler: ExceptionHandler,
    pub running: bool,
    /// The bound on the memory of the agent, in bytes.
    pub max_memory: u64,
    /// The correction of the clock, in nanoseconds.
    pub ntp_diff: i64,
    /// The identifiers of the listeners that are told of new snapshots.
    pub flow_acl_listener: Vec<usize>,
}

impl Synchronizer {
    /// A synchroniser at rest, with `policy_setter` as its first listener.
    pub fn new(
        agent_ident: String,
        revision: String,
        boot_time: u64,
        ctrl_ip: String,
        ctrl_mac: String,
        controller_ip: String,
        vtap_group_id_request: String,
        kubernetes_cluster_id: String,
        env: RuntimeEnvironment,
        policy_setter: usize,
    ) -> (r: Synchronizer)
        ensures
            !r.running && r.max_memory == 0 && r.ntp_diff == 0,
            r.static_config.tap_mode == TapMode::Local,
            r.static_config.boot_time == boot_time,
            r.static_config.revision == revision,
            r.static_config.agent_ident == agent_ident,
            r.static_config.controller_ip == controller_ip,
            r.running_config.ctrl_ip == ctrl_ip,
            r.running_config.ctrl_mac == ctrl_mac,
            r.status.proxy_port == DEFAULT_CONTROLLER_PORT,
            r.status.sync_interval == DEFAULT_SYNC_INTERVAL,
            r.status.version_platform_data == 0 && r.status.version_acls == 0,
            r.status.version_groups == 0,
            r.flow_acl_listener@ == seq![policy_setter],
            r.exception_handler == (ExceptionHandler {
                invalid_configuration: false,
                controller_socket_error: false,
                too_many_policies: false,
            }),
    {
        let mut listeners = Vec::new();
        listeners.push(policy_setter);
        assert(listeners@ =~= seq![policy_setter]);
        Synchronizer {
            static_config: StaticConfig {
                agent_ident,
                revision,
                boot_time,
                tap_mode: TapMode::Local,
                vtap_group_id_request,
                kubernetes_cluster_id,
                controller_ip,
                env,
            },
            running_config: RunningConfig { ctrl_mac, ctrl_ip },
            status: Status::new(),
            exception_handler: ExceptionHandler::new(),
            running: false,
            max_memory: 0,
            ntp_diff: 0,
            flow_acl_listener: listeners,
        }
    }

    /// Turns to another controller: the agent reaches it from `ctrl_ip` and
    /// `ctrl_mac`, and goes through no proxy until it is told of one.
    pub fn reset_session(&mut self, ctrl_ip: String, ctrl_mac: String)
        ensures
            final(self).running_config.ctrl_ip == ctrl_ip,
            final(self).running_config.ctrl_mac == ctrl_mac,
            final(self).status.proxy_ip is None,
            final(self).status.proxy_port == DEFAULT_CONTROLLER_PORT,
            final(self).status.version_platform_data == old(self).status.version_platform_data,
            final(self).status.version_acls == old(self).status.version_acls,
            final(self).status.version_groups == old(self).status.version_groups,
            final(self).status.new_revision == old(self).status.new_revision,
            final(self).running == old(self).running,
            final(self).flow_acl_listener == old(self).flow_acl_listener,
    {
        self.running_config.ctrl_ip = ctrl_ip;
        self.running_config.ctrl_mac = ctrl_mac;
        self.status.proxy_ip = None;
        self.status.proxy_port = DEFAULT_CONTROLLER_PORT;
    }

    /// Adds the listener `module`, unless it is among the listeners already.
    pub fn add_flow_acl_listener(&mut self, module: usize)
        ensures
            final(self).flow_acl_listener@ == if old(self).flow_acl_listener@.contains(module) {
                old(self).flow_acl_listener@
            } else {
                old(self).flow_acl_listener@.push(module)
            },
            final(self).running == old(self).running,
            final(self).max_memory == old(self).max_memory,
            final(self).ntp_diff == old(self).ntp_diff,
    {
        let mut i: usize = 0;
        while i < self.flow_acl_listener.len()
            invariant
                i <= self.flow_acl_listener@.len(),
                *self == *old(self),
                forall|j: int| 0 <= j < i ==> self.flow_acl_listener@[j] != module,
            decreases self.flow_acl_listener@.len() - i,
        {
            if self.flow_acl_listener[i] == module {
                return ;
            }
            i += 1;
        }
        self.flow_acl_listener.push(module);
    }

    pub fn max_memory(&self) -> (r: u64)
        ensures
            r == self.max_memory,
    {
        self.max_memory
    }

    pub fn ntp_diff(&self) -> (r: i64)
        ensures
            r == self.ntp_diff,
    {
        self.ntp_diff
    }

    /// Starts the synchroniser, and tells whether it was at rest.
    pub fn start(&mut self) -> (started: bool)
        ensures
            started == !old(self).running,
            final(self).running,
            final(self).status == old(self).status,
            final(self).flow_acl_listener == old(self).flow_acl_listener,
            final(self).ntp_diff == old(self).ntp_diff,
            final(self).max_memory == old(self).max_memory,
    {
        let started = !self.running;
        self.running = true;
        started
    }

    /// Stops the synchroniser, and tells whether it ran.
    pub fn stop(&mut self) -> (stopped: bool)
        ensures
            stopped == old(self).running,
            !final(self).running,
            final(self).status == old(self).status,
            final(self).flow_acl_listener == old(self).flow_acl_listener,
            final(self).ntp_diff == old(self).ntp_diff,
            final(self).max_memory == old(self).max_memory,
    {
        let stopped = self.running;
        self.running = false;
        stopped
    }
}

/// What a synchroniser is made from.
#[derive(Clone, Debug)]
pub struct SynchronizerBuilder {
    pub port: Option<u16>,
    pub tls_port: Option<u16>,
    /// How long a call may take, in seconds.
    pub timeout: u64,
    pub controller_cert_file_prefix: String,
    pub vtap_group_id_request: String,
    pub ctrl_ip: String,
    pub ctrl_mac: String,
    pub controller_ips: Vec<String>,
}

impl SynchronizerBuilder {
    /// The builder with the port `port` of the controller.
    pub fn port(self, port: u16) -> (r: SynchronizerBuilder)
        ensures
            r.port == Some(port),
            r.tls_port == self.tls_port,
            r.timeout == self.timeout,
            r.controller_cert_file_prefix == self.controller_cert_file_prefix,
            r.vtap_group_id_request == self.vtap_group_id_request,
            r.ctrl_ip == self.ctrl_ip,
            r.ctrl_mac == self.ctrl_mac,
            r.controller_ips == self.controller_ips,
    {
        let mut r = self;
        r.port = Some(port);
        r
    }
}

} // verus!
