//! The sandbox policy, as far as the supervisor reads or changes it.

use crate::text::{copy_list, copy_option, Text};
use vstd::prelude::*;

verus! {

/// How the sandboxed process reaches the network.
#[derive(PartialEq, Eq, Debug)]
pub enum NetworkMode {
    /// All traffic goes through the supervisor's proxy.
    Proxy,
    /// Any mode in which no proxy runs, by its name.
    Unproxied(String),
}

/// What happens where the kernel lacks a Landlock feature.
#[derive(Clone, Copy, PartialEq, Eq, Debug, Structural)]
pub enum LandlockCompatibility {
    /// Enforce what the kernel offers.
    BestEffort,
    /// Refuse to run.
    HardRequirement,
}

/// The paths that the sandboxed process may use.
#[derive(Debug, PartialEq, Eq)]
pub struct FilesystemPolicy {
    /// Paths that may be read.
    pub read_only: Vec<String>,
    /// Paths that may be read and written.
    pub read_write: Vec<String>,
    /// Whether the working directory is added to the list.
    pub with_workdir: bool,
}

/// A socket address. It prints as its host, a colon and its TCP port.
#[derive(Debug, PartialEq, Eq)]
pub struct HttpAddr {
    /// The host as it stands in a socket address: an IPv6 address is bracketed.
    pub host: String,
    /// The TCP port.
    pub port: u16,
}

/// The proxy's configuration.
#[derive(Debug, PartialEq, Eq)]
pub struct ProxyPolicy {
    /// Where the proxy listens, if that is configured.
    pub http_addr: Option<HttpAddr>,
}

/// Network access.
#[derive(Debug, PartialEq, Eq)]
pub struct NetworkPolicy {
    /// The mode.
    pub mode: NetworkMode,
    /// The proxy's configuration, if there is one.
    pub proxy: Option<ProxyPolicy>,
}

/// The account that the sandboxed process runs under.
#[derive(Debug, PartialEq, Eq)]
pub struct ProcessPolicy {
    /// The user, if one is configured.
    pub run_as_user: Option<String>,
    /// The group, if one is configured.
    pub run_as_group: Option<String>,
}

/// A complete policy.
#[derive(Debug, PartialEq, Eq)]
pub struct SandboxPolicy {
    /// The version of the schema.
    pub version: u32,
    /// The paths that may be used.
    pub filesystem: FilesystemPolicy,
    /// Network access.
    pub network: NetworkPolicy,
    /// Landlock's strictness.
    pub landlock: LandlockCompatibility,
    /// The account to run under.
    pub process: ProcessPolicy,
}

/// The part of a policy that local policy files configure.
#[derive(Debug, PartialEq, Eq)]
pub struct SandboxConfig {
    /// The paths that may be used.
    pub filesystem: FilesystemPolicy,
    /// Landlock's strictness.
    pub landlock: LandlockCompatibility,
    /// The account to run under.
    pub process: ProcessPolicy,
}

/// What a [`FilesystemPolicy`] holds.
#[verifier::ext_equal]
pub struct FilesystemView {
    pub read_only: Seq<Text>,
    pub read_write: Seq<Text>,
    pub with_workdir: bool,
}

/// What a [`NetworkMode`] holds.
#[verifier::ext_equal]
pub enum ModeView {
    Proxy,
    Unproxied(Text),
}

/// What an [`HttpAddr`] holds.
#[verifier::ext_equal]
pub struct AddrView {
    pub host: Text,
    pub port: u16,
}

/// What a [`ProxyPolicy`] holds.
#[verifier::ext_equal]
pub struct ProxyView {
    pub http_addr: Option<AddrView>,
}

/// What a [`NetworkPolicy`] holds.
#[verifier::ext_equal]
pub struct NetworkView {
    pub mode: ModeView,
    pub proxy: Option<ProxyView>,
}

/// What a [`ProcessPolicy`] holds.
#[verifier::ext_equal]
pub struct ProcessView {
    pub run_as_user: Option<Text>,
    pub run_as_group: Option<Text>,
}

/// What a [`SandboxPolicy`] holds.
#[verifier::ext_equal]
pub struct PolicyView {
    pub version: u32,
    pub filesystem: FilesystemView,
    pub network: NetworkView,
    pub landlock: LandlockCompatibility,
    pub process: ProcessView,
}

/// What a [`SandboxConfig`] holds.
#[verifier::ext_equal]
pub struct ConfigView {
    pub filesystem: FilesystemView,
    pub landlock: LandlockCompatibility,
    pub process: ProcessView,
}

impl View for FilesystemPolicy {
    type V = FilesystemView;

    open spec fn view(&self) -> FilesystemView {
        FilesystemView {
            read_only: self.read_only.deep_view(),
            read_write: self.read_write.deep_view(),
            with_workdir: self.with_workdir,
        }
    }
}

impl View for NetworkMode {
    type V = ModeView;

    open spec fn view(&self) -> ModeView {
        match *self {
            NetworkMode::Proxy => ModeView::Proxy,
            NetworkMode::Unproxied(name) => ModeView::Unproxied(name@),
        }
    }
}

impl View for HttpAddr {
    type V = AddrView;

    open spec fn view(&self) -> AddrView {
        AddrView { host: self.host@, port: self.port }
    }
}

impl View for ProxyPolicy {
    type V = ProxyView;

    open spec fn view(&self) -> ProxyView {
        ProxyView {
            http_addr: match self.http_addr {
                Some(addr) => Some(addr@),
                None => None,
            },
        }
    }
}

impl View for NetworkPolicy {
    type V = NetworkView;

    open spec fn view(&self) -> NetworkView {
        NetworkView {
            mode: self.mode@,
            proxy: match self.proxy {
                Some(proxy) => Some(proxy@),
                None => None,
            },
        }
    }
}

impl View for ProcessPolicy {
    type V = ProcessView;

    open spec fn view(&self) -> ProcessView {
        ProcessView {
            run_as_user: self.run_as_user.deep_view(),
            run_as_group: self.run_as_group.deep_view(),
        }
    }
}

impl View for SandboxPolicy {
    type V = PolicyView;

    open spec fn view(&self) -> PolicyView {
        PolicyView {
            version: self.version,
            filesystem: self.filesystem@,
            network: self.network@,
            landlock: self.landlock,
            process: self.process@,
        }
    }
}

impl View for SandboxConfig {
    type V = ConfigView;

    open spec fn view(&self) -> ConfigView {
        ConfigView {
            filesystem: self.filesystem@,
            landlock: self.landlock,
            process: self.process@,
        }
    }
}

impl PolicyView {
    /// Whether the policy routes traffic through the proxy.
    pub open spec fn proxied(self) -> bool {
        self.network.mode is Proxy
    }

    /// The policy with one more readable path at the end of the list.
    pub open spec fn with_readable(self, path: Text) -> PolicyView {
        PolicyView {
            filesystem: FilesystemView {
                read_only: self.filesystem.read_only.push(path),
                ..self.filesystem
            },
            ..self
        }
    }
}

impl Clone for FilesystemPolicy {
    fn clone(&self) -> (copy: Self)
        ensures
            copy@ == self@,
    {
        FilesystemPolicy {
            read_only: copy_list(&self.read_only),
            read_write: copy_list(&self.read_write),
            with_workdir: self.with_workdir,
        }
    }
}

impl Clone for NetworkMode {
    fn clone(&self) -> (copy: Self)
        ensures
            copy == *self,
    {
        match self {
            NetworkMode::Proxy => NetworkMode::Proxy,
            NetworkMode::Unproxied(name) => NetworkMode::Unproxied(name.clone()),
        }
    }
}

impl Clone for HttpAddr {
    fn clone(&self) -> (copy: Self)
        ensures
            copy == *self,
    {
        HttpAddr { host: self.host.clone(), port: self.port }
    }
}

impl Clone for ProxyPolicy {
    fn clone(&self) -> (copy: Self)
        ensures
            copy == *self,
    {
        ProxyPolicy {
            http_addr: match &self.http_addr {
                Some(addr) => Some(addr.clone()),
                None => None,
            },
        }
    }
}

impl Clone for NetworkPolicy {
    fn clone(&self) -> (copy: Self)
        ensures
            copy == *self,
    {
        NetworkPolicy {
            mode: self.mode.clone(),
            proxy: match &self.proxy {
                Some(proxy) => Some(proxy.clone()),
                None => None,
            },
        }
    }
}

impl Clone for ProcessPolicy {
    fn clone(&self) -> (copy: Self)
        ensures
            copy == *self,
    {
        ProcessPolicy {
            run_as_user: copy_option(&self.run_as_user),
            run_as_group: copy_option(&self.run_as_group),
        }
    }
}

impl Clone for SandboxPolicy {
    fn clone(&self) -> (copy: Self)
        ensures
            copy@ == self@,
    {
        SandboxPolicy {
            version: self.version,
            filesystem: self.filesystem.clone(),
            network: self.network.clone(),
            landlock: self.landlock,
            process: self.process.clone(),
        }
    }
}

impl SandboxPolicy {
    /// Whether the policy routes traffic through the proxy.
    pub fn proxied(&self) -> (proxied: bool)
        ensures
            proxied == self@.proxied(),
    {
        match self.network.mode {
            NetworkMode::Proxy => true,
            NetworkMode::Unproxied(_) => false,
        }
    }

    /// Adds one readable path at the end of the list.
    pub fn allow_reading(&mut self, path: String)
        ensures
            final(self)@ == old(self)@.with_readable(path@),
    {
        self.filesystem.read_only.push(path);
        assert(self.filesystem.read_only.deep_view() =~= old(
            self,
        ).filesystem.read_only.deep_view().push(path@));
    }
}

/// A policy is proxied exactly if its mode is the proxy's.
pub proof fn law_proxied_is_the_mode(policy: SandboxPolicy, proxied: bool)
    requires
        call_ensures(SandboxPolicy::proxied, (&policy,), proxied),
    ensures
        proxied <==> policy.network.mode is Proxy,
        policy@.proxied() == proxied,
{
}

/// One more readable path goes to the end of the list, and nothing else of the
/// policy changes.
pub proof fn law_readable_path_is_added(policy: PolicyView, path: Text)
    ensures
        policy.with_readable(path).filesystem.read_only == policy.filesystem.read_only.push(path),
        policy.with_readable(path).filesystem.read_write == policy.filesystem.read_write,
        policy.with_readable(path).filesystem.with_workdir == policy.filesystem.with_workdir,
        policy.with_readable(path).version == policy.version,
        policy.with_readable(path).network == policy.network,
        policy.with_readable(path).landlock == policy.landlock,
        policy.with_readable(path).process == policy.process,
{
}

} // verus!
