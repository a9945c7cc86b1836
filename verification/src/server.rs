//! The options of the streaming controller, and what is made of them at
//! start-up: the run mode and the configuration.
//!
//! Options are applied in a fixed order. The configuration starts from its
//! defaults; the addresses that were given replace the default ones; the
//! authorization scopes, the list of allowed controllers and the read-only
//! flag are taken over; the authorization policy, which the caller has read
//! from its file, is checked; and where TLS is asked for, the public address
//! is split into the proxy's address and the plaintext one behind it.

use crate::config::distinct;
use crate::config::distinct_names;
use crate::config::ScConfig;
use crate::config::ScConfigView;
use crate::config::DEFAULT_PRIVATE_ENDPOINT;
use crate::config::DEFAULT_PUBLIC_ENDPOINT;
use crate::paths::borrowed_path;
use crate::text::opt_text;
use crate::text::texts;
use crate::tls::TlsConfig;
use crate::tls::TlsConfigView;
use k8_client::K8Config;
use std::path::Path;
use std::path::PathBuf;
use vstd::prelude::*;

verus! {

/// The exit status of a controller that could not be configured.
pub const CONFIG_FAILED: i32 = -1;

/// The options of the streaming controller, as the command line gives them.
#[derive(Debug, Default)]
pub struct ScOpt {
    /// Run standalone, with metadata kept under this path.
    pub local: Option<PathBuf>,
    /// Run on Kubernetes.
    pub k8: bool,
    /// The address of the public service.
    pub bind_public: Option<String>,
    /// The address of the private service.
    pub bind_private: Option<String>,
    /// The Kubernetes namespace.
    pub namespace: Option<String>,
    /// The TLS options.
    pub tls: TlsConfig,
    /// Where the scopes of client certificates are read from.
    pub x509_auth_scopes: Option<PathBuf>,
    /// Where the authorization policy is read from.
    pub auth_policy: Option<PathBuf>,
    /// The controllers that may connect.
    pub white_list: Vec<String>,
    /// Run standalone and read-only, with metadata read from this path.
    pub read_only: Option<PathBuf>,
}

/// The three ways in which the controller can run. Exactly one holds.
#[derive(Debug)]
pub enum RunMode<'a> {
    /// Standalone, with metadata kept under the path.
    Local(&'a Path),
    /// Standalone and read-only, with metadata read from the path.
    ReadOnly(&'a Path),
    /// Backed by a Kubernetes cluster.
    K8s,
}

/// The mode that the three inputs select. A local path decides for `Local`
/// whatever the others are; without one, a read-only path decides for
/// `ReadOnly`; without either the mode is `K8s`, whatever the flag says.
pub open spec fn select<'a>(local: &'a Option<PathBuf>, read_only: &'a Option<PathBuf>, k8: bool) -> RunMode<'a> {
    match (local, read_only) {
        (Some(metadata), _) => RunMode::Local(borrowed_path(metadata)),
        (None, Some(path)) => RunMode::ReadOnly(borrowed_path(path)),
        (None, None) => RunMode::K8s,
    }
}

/// The order in which the inputs of `select` decide: a local path first,
/// then a read-only path, and the cluster where neither is given.
pub proof fn lemma_select_precedence(local: Option<PathBuf>, read_only: Option<PathBuf>, k8: bool)
    ensures
        local matches Some(path) ==> select(&local, &read_only, k8) == RunMode::Local(
            borrowed_path(&path),
        ),
        local is None ==> (read_only matches Some(path) ==> select(&local, &read_only, k8)
            == RunMode::ReadOnly(borrowed_path(&path))),
        local is None && read_only is None ==> select(&local, &read_only, k8) == RunMode::K8s,
{
}

/// Why no configuration could be built.
#[derive(Debug)]
pub enum ConfigError {
    /// The authorization policy could not be read or is malformed; the text
    /// says why.
    InvalidPolicy(String),
    /// TLS is asked for, and no plaintext address is given for the public
    /// service.
    MissingNonTlsPublicAddr,
    /// The configuration of the Kubernetes cluster could not be loaded; the
    /// text says why.
    ClusterConfig(String),
}

/// `ConfigError`, with each string as its text.
pub enum ConfigErrorView {
    InvalidPolicy(Seq<char>),
    MissingNonTlsPublicAddr,
    ClusterConfig(Seq<char>),
}

impl View for ConfigError {
    type V = ConfigErrorView;

    open spec fn view(&self) -> ConfigErrorView {
        match self {
            ConfigError::InvalidPolicy(reason) => ConfigErrorView::InvalidPolicy(reason@),
            ConfigError::MissingNonTlsPublicAddr => ConfigErrorView::MissingNonTlsPublicAddr,
            ConfigError::ClusterConfig(reason) => ConfigErrorView::ClusterConfig(reason@),
        }
    }
}

impl ConfigErrorView {
    /// The error in words.
    pub open spec fn message(self) -> Seq<char> {
        match self {
            ConfigErrorView::InvalidPolicy(reason) => reason,
            ConfigErrorView::MissingNonTlsPublicAddr => "non tls addr for public must be specified"@,
            ConfigErrorView::ClusterConfig(reason) => "no k8 config founded: "@ + reason,
        }
    }
}

impl ConfigError {
    /// The error in words, as it is shown to the user.
    pub fn message(&self) -> (message: String)
        ensures
            message@ == self@.message(),
    {
        match self {
            ConfigError::InvalidPolicy(reason) => reason.clone(),
            ConfigError::MissingNonTlsPublicAddr => String::from_str(
                "non tls addr for public must be specified",
            ),
            ConfigError::ClusterConfig(reason) => {
                let mut message = String::from_str("no k8 config founded: ");
                message.append(reason.as_str());
                message
            },
        }
    }
}

/// The name under which the server's TLS material is stored where the
/// options give none.
pub open spec fn default_secret_name() -> Seq<char> {
    "fluvio-tls"@
}

/// Reads the constant `fluvio_types::defaults::TLS_SERVER_SECRET_NAME`,
/// which holds the text `fluvio-tls`.
#[verifier::external_body]
fn tls_server_secret_name() -> (name: String)
    ensures
        name@ == default_secret_name(),
{
    fluvio_types::defaults::TLS_SERVER_SECRET_NAME.to_string()
}

/// `k8_client::K8Config`, the configuration of a Kubernetes cluster as it
/// was loaded.
#[verifier::external_type_specification]
#[verifier::external_body]
pub struct ExK8Config(K8Config);

/// The namespace that a cluster configuration names.
pub uninterp spec fn cluster_namespace(config: &K8Config) -> Seq<char>;

/// Calls `K8Config::namespace`, which hands out the namespace that the
/// configuration holds, and copies it.
#[verifier::external_body]
fn namespace_of(config: &K8Config) -> (namespace: String)
    ensures
        namespace@ == cluster_namespace(config),
{
    config.namespace().to_owned()
}

/// The policy that was loaded, where one was asked for and could be read.
pub open spec fn loaded<P>(policy: Option<Result<P, String>>) -> Option<P> {
    match policy {
        Some(Ok(policy)) => Some(policy),
        _ => None,
    }
}

/// The proxy's address and the TLS options, with each string as its text.
pub open spec fn tls_output_view(output: Option<(String, TlsConfig)>) -> Option<(Seq<char>, TlsConfigView)> {
    match output {
        Some((proxy_addr, tls)) => Some((proxy_addr@, tls@)),
        None => None,
    }
}

/// How start-up goes on once the options were read.
#[derive(Debug)]
pub enum Startup<T> {
    /// The controller runs with what was built.
    Ready(T),
    /// The controller ends: `message` goes to standard error and `code` is
    /// the exit status.
    Abort { code: i32, message: String },
}

impl ScOpt {
    /// The address of the public service that the options ask for.
    pub open spec fn public_addr(self) -> Seq<char> {
        match self.bind_public {
            Some(addr) => addr@,
            None => DEFAULT_PUBLIC_ENDPOINT@,
        }
    }

    /// The address of the private service that the options ask for.
    pub open spec fn private_addr(self) -> Seq<char> {
        match self.bind_private {
            Some(addr) => addr@,
            None => DEFAULT_PRIVATE_ENDPOINT@,
        }
    }

    /// The first thing that stops the configuration from being built: a
    /// policy that could not be loaded, then TLS without a plaintext address
    /// for the public service.
    pub open spec fn failure<P>(self, policy: Option<Result<P, String>>) -> Option<ConfigErrorView> {
        match policy {
            Some(Err(reason)) => Some(ConfigErrorView::InvalidPolicy(reason@)),
            _ => if self.tls.tls && self.tls.bind_non_tls_public is None {
                Some(ConfigErrorView::MissingNonTlsPublicAddr)
            } else {
                None
            },
        }
    }

    /// The configuration that the options lead to, where nothing stops it.
    /// With TLS the public endpoint is the plaintext address; without, it is
    /// the public address that was asked for.
    pub open spec fn config(self) -> ScConfigView {
        ScConfigView {
            read_only_metadata: self.read_only is Some,
            public_endpoint: if self.tls.tls {
                self.tls@.bind_non_tls_public.unwrap()
            } else {
                self.public_addr()
            },
            private_endpoint: self.private_addr(),
            x509_auth_scopes: self.x509_auth_scopes,
            white_list: distinct(texts(self.white_list@)),
        }
    }

    /// What goes with the configuration where TLS is asked for: the public
    /// address that was asked for, which becomes the proxy's, and the TLS
    /// options with the secret's name filled in. Nothing without TLS.
    pub open spec fn tls_output(self) -> Option<(Seq<char>, TlsConfigView)> {
        if self.tls.tls {
            Some(
                (
                    self.public_addr(),
                    TlsConfigView {
                        tls: self.tls@.tls,
                        server_cert: self.tls@.server_cert,
                        server_key: self.tls@.server_key,
                        enable_client_cert: self.tls@.enable_client_cert,
                        ca_cert: self.tls@.ca_cert,
                        bind_non_tls_public: self.tls@.bind_non_tls_public,
                        secret_name: match self.tls@.secret_name {
                            Some(name) => Some(name),
                            None => Some(default_secret_name()),
                        },
                    },
                ),
            )
        } else {
            None
        }
    }

    /// Whether `config`, `policy_out` and `tls_out` are what the options and
    /// the loaded policy lead to.
    pub open spec fn builds<P>(
        self,
        policy: Option<Result<P, String>>,
        config: ScConfig,
        policy_out: Option<P>,
        tls_out: Option<(String, TlsConfig)>,
    ) -> bool {
        &&& self.failure(policy) is None
        &&& config@ == self.config()
        &&& config.wf()
        &&& policy_out == loaded(policy)
        &&& tls_output_view(tls_out) == self.tls_output()
    }

    /// The run mode that the options select.
    pub fn mode(&self) -> (mode: RunMode<'_>)
        ensures
            mode == select(&self.local, &self.read_only, self.k8),
    {
        match (&self.local, &self.read_only, self.k8) {
            (Some(metadata), _, _) => RunMode::Local(metadata.as_path()),
            (_, Some(path), _) => RunMode::ReadOnly(path.as_path()),
            _ => RunMode::K8s,
        }
    }

    /// Builds the configuration from the options. `policy` is what came of
    /// reading the authorization policy from its file: nothing where no file
    /// was named, else the policy or the reason for which it is refused.
    ///
    /// Returns the configuration with the policy, and with them the proxy's
    /// address and the TLS options where TLS is asked for.
    pub fn as_sc_config<P>(self, policy: Option<Result<P, String>>) -> (built: Result<
        ((ScConfig, Option<P>), Option<(String, TlsConfig)>),
        ConfigError,
    >)
        ensures
            match built {
                Ok(((config, policy_out), tls_out)) => self.builds(policy, config, policy_out, tls_out),
                Err(e) => self.failure(policy) == Some(e@),
            },
    {
        let defaults = ScConfig::default();
        let public_addr = match self.bind_public {
            Some(addr) => addr,
            None => defaults.public_endpoint,
        };
        let private_endpoint = match self.bind_private {
            Some(addr) => addr,
            None => defaults.private_endpoint,
        };
        let x509_auth_scopes = self.x509_auth_scopes;
        let white_list = distinct_names(self.white_list);
        let read_only_metadata = self.read_only.is_some();

        let policy_out = match policy {
            Some(Ok(policy)) => Some(policy),
            Some(Err(reason)) => {
                return Err(ConfigError::InvalidPolicy(reason));
            },
            None => None,
        };

        let mut tls = self.tls;
        if tls.tls {
            // The public address belongs to the proxy, which forwards to the
            // plaintext address behind it.
            let proxy_addr = public_addr;
            let public_endpoint = match &tls.bind_non_tls_public {
                Some(addr) => addr.clone(),
                None => {
                    return Err(ConfigError::MissingNonTlsPublicAddr);
                },
            };
            if tls.secret_name.is_none() {
                tls.secret_name = Some(tls_server_secret_name());
            }
            let config = ScConfig {
                read_only_metadata,
                public_endpoint,
                private_endpoint,
                x509_auth_scopes,
                white_list,
            };
            Ok(((config, policy_out), Some((proxy_addr, tls))))
        } else {
            let config = ScConfig {
                read_only_metadata,
                public_endpoint: public_addr,
                private_endpoint,
                x509_auth_scopes,
                white_list,
            };
            Ok(((config, policy_out), None))
        }
    }

    /// The options with the namespace settled: the one that was given, or
    /// else the one of the cluster configuration. Nothing else changes.
    pub fn with_cluster_namespace(self, cluster: &K8Config) -> (opt: ScOpt)
        ensures
            opt == (ScOpt { namespace: opt.namespace, ..self }),
            opt_text(opt.namespace) == Some(
                match self.namespace {
                    Some(namespace) => namespace@,
                    None => cluster_namespace(cluster),
                },
            ),
    {
        let mut opt = self;
        if opt.namespace.is_none() {
            opt.namespace = Some(namespace_of(cluster));
        }
        opt
    }

    /// The first thing that stops the configuration of a controller on
    /// Kubernetes from being built: a cluster configuration that could not be
    /// loaded, then what stops any configuration.
    pub open spec fn cluster_failure<P>(
        self,
        k8_config: Result<K8Config, String>,
        policy: Option<Result<P, String>>,
    ) -> Option<ConfigErrorView> {
        match k8_config {
            Err(reason) => Some(ConfigErrorView::ClusterConfig(reason@)),
            Ok(_) => self.failure(policy),
        }
    }

    /// Builds the configuration of a controller on Kubernetes. `k8_config` is
    /// what came of loading the cluster configuration, and `policy` what came
    /// of reading the authorization policy, as for `as_sc_config`.
    ///
    /// A cluster configuration that could not be loaded stops everything.
    /// One that was loaded gives the namespace where the options name none,
    /// and is returned with what `as_sc_config` builds.
    pub fn get_sc_and_k8_config<P>(
        self,
        k8_config: Result<K8Config, String>,
        policy: Option<Result<P, String>>,
    ) -> (built: Result<((ScConfig, Option<P>), K8Config, Option<(String, TlsConfig)>), ConfigError>)
        ensures
            match built {
                Ok(((config, policy_out), cluster, tls_out)) => {
                    &&& k8_config == Ok::<K8Config, String>(cluster)
                    &&& self.builds(policy, config, policy_out, tls_out)
                },
                Err(e) => self.cluster_failure(k8_config, policy) == Some(e@),
            },
    {
        let cluster = match k8_config {
            Ok(cluster) => cluster,
            Err(reason) => {
                return Err(ConfigError::ClusterConfig(reason));
            },
        };
        let opt = self.with_cluster_namespace(&cluster);
        match opt.as_sc_config(policy) {
            Ok((sc_config, tls_out)) => Ok((sc_config, cluster, tls_out)),
            Err(e) => Err(e),
        }
    }

    /// Builds the configuration of a controller on Kubernetes, or says how
    /// the controller ends: with the error's message and the status
    /// `CONFIG_FAILED`.
    pub fn parse_k8s_cli_or_exit<P>(
        self,
        k8_config: Result<K8Config, String>,
        policy: Option<Result<P, String>>,
    ) -> (startup: Startup<((ScConfig, Option<P>), K8Config, Option<(String, TlsConfig)>)>)
        ensures
            match startup {
                Startup::Ready(((config, policy_out), cluster, tls_out)) => {
                    &&& k8_config == Ok::<K8Config, String>(cluster)
                    &&& self.builds(policy, config, policy_out, tls_out)
                },
                Startup::Abort { code, message } => {
                    &&& code == CONFIG_FAILED
                    &&& self.cluster_failure(k8_config, policy) matches Some(e)
                    &&& message@ == e.message()
                },
            },
    {
        match self.get_sc_and_k8_config(k8_config, policy) {
            Err(err) => Startup::Abort { code: CONFIG_FAILED, message: err.message() },
            Ok(config) => Startup::Ready(config),
        }
    }

    /// Builds the configuration, or says how the controller ends: with the
    /// error's message and the status `CONFIG_FAILED`.
    pub fn parse_cli_or_exit<P>(self, policy: Option<Result<P, String>>) -> (startup: Startup<
        ((ScConfig, Option<P>), Option<(String, TlsConfig)>),
    >)
        ensures
            match startup {
                Startup::Ready(((config, policy_out), tls_out)) => self.builds(
                    policy,
                    config,
                    policy_out,
                    tls_out,
                ),
                Startup::Abort { code, message } => {
                    &&& code == CONFIG_FAILED
                    &&& self.failure(policy) matches Some(e)
                    &&& message@ == e.message()
                },
            },
    {
        match self.as_sc_config(policy) {
            Err(err) => Startup::Abort { code: CONFIG_FAILED, message: err.message() },
            Ok(config) => Startup::Ready(config),
        }
    }
}

/// Without TLS, what is built has the endpoints as they were supplied, or at
/// their defaults where none was supplied, and nothing goes with it.
pub proof fn lemma_without_tls<P>(
    opt: ScOpt,
    policy: Option<Result<P, String>>,
    config: ScConfig,
    policy_out: Option<P>,
    tls_out: Option<(String, TlsConfig)>,
)
    requires
        !opt.tls.tls,
        opt.builds(policy, config, policy_out, tls_out),
    ensures
        config.public_endpoint@ == opt.public_addr(),
        config.private_endpoint@ == opt.private_addr(),
        opt.bind_public matches Some(addr) ==> config.public_endpoint@ == addr@,
        opt.bind_private matches Some(addr) ==> config.private_endpoint@ == addr@,
        tls_out is None,
{
}

/// TLS without a plaintext address for the public service builds nothing:
/// the build fails, and with that very error unless the policy has failed
/// before.
pub proof fn lemma_tls_needs_plaintext_addr<P>(opt: ScOpt, policy: Option<Result<P, String>>)
    requires
        opt.tls.tls,
        opt.tls.bind_non_tls_public is None,
    ensures
        opt.failure(policy) is Some,
        !(policy matches Some(Err(_))) ==> opt.failure(policy) == Some(
            ConfigErrorView::MissingNonTlsPublicAddr,
        ),
{
}

/// TLS with a plaintext address builds, where the policy does not fail: the
/// public address that was asked for becomes the proxy's, and the public
/// endpoint of the configuration is the plaintext address.
pub proof fn lemma_tls_splits_public_addr<P>(
    opt: ScOpt,
    policy: Option<Result<P, String>>,
    config: ScConfig,
    policy_out: Option<P>,
    tls_out: Option<(String, TlsConfig)>,
)
    requires
        opt.tls.tls,
        opt.tls.bind_non_tls_public is Some,
        !(policy matches Some(Err(_))),
    ensures
        opt.failure(policy) is None,
        opt.builds(policy, config, policy_out, tls_out) ==> {
            &&& tls_out matches Some(output) && output.0@ == opt.public_addr()
            &&& config.public_endpoint@ == opt.tls.bind_non_tls_public.unwrap()@
        },
{
}

} // verus!
