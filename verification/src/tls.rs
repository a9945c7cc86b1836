//! The TLS options of the streaming controller, and the acceptor that is
//! built from them.
//!
//! The options are checked here: which files are needed, and that each is
//! named. The acceptor itself comes from `fluvio_future`, which reads the
//! files and hands them to OpenSSL.

use crate::text::contains_char;
use crate::text::opt_text;
use fluvio_future::openssl::SslVerifyMode;
use fluvio_future::openssl::TlsAcceptor;
use fluvio_future::openssl::TlsAcceptorBuilder;
use vstd::prelude::*;

verus! {

/// The TLS options as they were given.
#[derive(Debug, Clone, Default)]
pub struct TlsConfig {
    /// Whether TLS is asked for.
    pub tls: bool,
    /// The path of the server certificate.
    pub server_cert: Option<String>,
    /// The path of the server's private key.
    pub server_key: Option<String>,
    /// Whether clients have to show a certificate.
    pub enable_client_cert: bool,
    /// The path of the CA certificate that client certificates are checked
    /// against. Needed where clients have to show one.
    pub ca_cert: Option<String>,
    /// The plaintext address of the public service, behind the TLS proxy.
    /// Needed where TLS is asked for.
    pub bind_non_tls_public: Option<String>,
    /// The name of the secret that the material is stored under in
    /// Kubernetes. The acceptor does not read it.
    pub secret_name: Option<String>,
}

/// The TLS options, with each string as its text.
pub struct TlsConfigView {
    pub tls: bool,
    pub server_cert: Option<Seq<char>>,
    pub server_key: Option<Seq<char>>,
    pub enable_client_cert: bool,
    pub ca_cert: Option<Seq<char>>,
    pub bind_non_tls_public: Option<Seq<char>>,
    pub secret_name: Option<Seq<char>>,
}

impl View for TlsConfig {
    type V = TlsConfigView;

    open spec fn view(&self) -> TlsConfigView {
        TlsConfigView {
            tls: self.tls,
            server_cert: opt_text(self.server_cert),
            server_key: opt_text(self.server_key),
            enable_client_cert: self.enable_client_cert,
            ca_cert: opt_text(self.ca_cert),
            bind_non_tls_public: opt_text(self.bind_non_tls_public),
            secret_name: opt_text(self.secret_name),
        }
    }
}

/// `anyhow::Error`, the error that `fluvio_future` reports.
#[verifier::external_type_specification]
#[verifier::external_body]
pub struct ExProviderError(anyhow::Error);

/// `fluvio_future::openssl::TlsAcceptor`, the finished acceptor.
#[verifier::external_type_specification]
#[verifier::external_body]
pub struct ExTlsAcceptor(TlsAcceptor);

/// `fluvio_future::openssl::TlsAcceptorBuilder`, an acceptor in the making.
#[verifier::external_type_specification]
#[verifier::external_body]
pub struct ExTlsAcceptorBuilder(TlsAcceptorBuilder);

/// Why no acceptor could be built.
#[derive(Debug)]
pub enum TlsError {
    /// No server certificate is named.
    MissingServerCert,
    /// No server key is named.
    MissingServerKey,
    /// Clients have to show a certificate, and no CA certificate is named.
    MissingCaCert,
    /// One of the paths that are needed holds a NUL character, which no file
    /// name can hold.
    NulInPath,
    /// The provider refused the material.
    Provider(anyhow::Error),
    /// The acceptor that the provider built does not treat the certificates
    /// of clients as the options ask.
    PeerVerification,
}

impl TlsError {
    /// The error in words, where the words are this crate's own: the
    /// provider's errors are worded by the provider.
    pub open spec fn own_message(self) -> Option<Seq<char>> {
        match self {
            TlsError::MissingServerCert => Some("missing server cert"@),
            TlsError::MissingServerKey => Some("missing server key"@),
            TlsError::MissingCaCert => Some("missing ca cert"@),
            TlsError::NulInPath => Some("path holds a NUL character"@),
            TlsError::Provider(_) => None,
            TlsError::PeerVerification => Some("acceptor does not check clients as asked"@),
        }
    }

    /// The error in words, as it is shown to the user.
    pub fn message(&self) -> (message: String)
        ensures
            self.own_message() matches Some(text) ==> message@ == text,
    {
        match self {
            TlsError::MissingServerCert => String::from_str("missing server cert"),
            TlsError::MissingServerKey => String::from_str("missing server key"),
            TlsError::MissingCaCert => String::from_str("missing ca cert"),
            TlsError::NulInPath => String::from_str("path holds a NUL character"),
            TlsError::Provider(e) => provider_message(e),
            TlsError::PeerVerification => String::from_str("acceptor does not check clients as asked"),
        }
    }
}

/// How the acceptor treats the certificate of a client.
#[derive(Debug)]
pub enum ClientAuth {
    /// Clients are not asked for a certificate.
    Anonymous,
    /// Clients have to show a certificate, which is checked against the CA
    /// certificate under `ca_cert`.
    VerifyPeer { ca_cert: String },
}

/// What an acceptor is built from.
#[derive(Debug)]
pub struct AcceptorPlan {
    /// The path of the server certificate.
    pub server_cert: String,
    /// The path of the server's private key.
    pub server_key: String,
    /// What is asked of clients.
    pub client_auth: ClientAuth,
}

/// `ClientAuth`, with each string as its text.
pub enum ClientAuthView {
    Anonymous,
    VerifyPeer { ca_cert: Seq<char> },
}

/// `AcceptorPlan`, with each string as its text.
pub struct AcceptorPlanView {
    pub server_cert: Seq<char>,
    pub server_key: Seq<char>,
    pub client_auth: ClientAuthView,
}

impl View for ClientAuth {
    type V = ClientAuthView;

    open spec fn view(&self) -> ClientAuthView {
        match self {
            ClientAuth::Anonymous => ClientAuthView::Anonymous,
            ClientAuth::VerifyPeer { ca_cert } => ClientAuthView::VerifyPeer { ca_cert: ca_cert@ },
        }
    }
}

impl View for AcceptorPlan {
    type V = AcceptorPlanView;

    open spec fn view(&self) -> AcceptorPlanView {
        AcceptorPlanView {
            server_cert: self.server_cert@,
            server_key: self.server_key@,
            client_auth: self.client_auth@,
        }
    }
}

impl AcceptorPlanView {
    /// Whether the plan has clients show a certificate.
    pub open spec fn verifies_peers(self) -> bool {
        self.client_auth is VerifyPeer
    }

    /// Whether a path of the plan holds a NUL character.
    pub open spec fn has_nul(self) -> bool {
        ||| self.server_cert.contains('\0')
        ||| self.server_key.contains('\0')
        ||| (self.client_auth matches ClientAuthView::VerifyPeer { ca_cert } && ca_cert.contains('\0'))
    }
}

impl TlsConfigView {
    /// What the options ask of clients, where they say enough.
    pub open spec fn client_auth(self) -> Option<ClientAuthView> {
        if !self.enable_client_cert {
            Some(ClientAuthView::Anonymous)
        } else {
            match self.ca_cert {
                Some(ca_cert) => Some(ClientAuthView::VerifyPeer { ca_cert }),
                None => None,
            }
        }
    }

    /// The plan that the options lead to, or the first thing that is wrong
    /// with them: no certificate, then no key, then no CA certificate where
    /// one is needed, then a NUL character in one of these paths.
    pub open spec fn plan(self) -> Result<AcceptorPlanView, TlsError> {
        match (self.server_cert, self.server_key, self.client_auth()) {
            (None, _, _) => Err(TlsError::MissingServerCert),
            (Some(_), None, _) => Err(TlsError::MissingServerKey),
            (Some(_), Some(_), None) => Err(TlsError::MissingCaCert),
            (Some(server_cert), Some(server_key), Some(client_auth)) => {
                let plan = AcceptorPlanView { server_cert, server_key, client_auth };
                if plan.has_nul() {
                    Err(TlsError::NulInPath)
                } else {
                    Ok(plan)
                }
            },
        }
    }
}

/// Options that lack the server certificate, the server key, or the CA
/// certificate while clients have to show one, lead to no plan: the first
/// of these that is missing is the error.
pub proof fn lemma_plan_needs_material(options: TlsConfigView)
    ensures
        options.server_cert is None ==> options.plan() == Err::<AcceptorPlanView, TlsError>(
            TlsError::MissingServerCert,
        ),
        options.server_cert is Some && options.server_key is None ==> options.plan() == Err::<
            AcceptorPlanView,
            TlsError,
        >(TlsError::MissingServerKey),
        options.server_cert is Some && options.server_key is Some && options.enable_client_cert
            && options.ca_cert is None ==> options.plan() == Err::<AcceptorPlanView, TlsError>(
            TlsError::MissingCaCert,
        ),
{
}

/// Options that name certificate, key and CA certificate while clients have
/// to show a certificate lead to a plan that checks clients against that CA
/// certificate, provided that the three paths can be file names.
pub proof fn lemma_plan_verifies_peer(options: TlsConfigView)
    requires
        options.enable_client_cert,
        options.server_cert matches Some(path) && !path.contains('\0'),
        options.server_key matches Some(path) && !path.contains('\0'),
        options.ca_cert matches Some(path) && !path.contains('\0'),
    ensures
        options.plan() == Ok::<AcceptorPlanView, TlsError>(
            AcceptorPlanView {
                server_cert: options.server_cert.unwrap(),
                server_key: options.server_key.unwrap(),
                client_auth: ClientAuthView::VerifyPeer { ca_cert: options.ca_cert.unwrap() },
            },
        ),
{
}

/// Writes an `anyhow::Error` out with its `Display`, in the words that the
/// provider chose.
#[verifier::external_body]
fn provider_message(e: &anyhow::Error) -> (message: String) {
    e.to_string()
}

/// Calls `TlsAcceptor::builder` of `fluvio_future`, which starts an acceptor
/// with the settings that OpenSSL calls Mozilla's intermediate ones. Nothing
/// is claimed of the result.
#[verifier::external_body]
fn acceptor_builder() -> (builder: Result<TlsAcceptorBuilder, anyhow::Error>) {
    TlsAcceptor::builder()
}

/// Calls `TlsAcceptorBuilder::with_ssl_verify_mode` with the mode `PEER`:
/// the acceptor will ask each client for a certificate and check it.
#[verifier::external_body]
fn verify_peer(builder: TlsAcceptorBuilder) -> (next: TlsAcceptorBuilder) {
    builder.with_ssl_verify_mode(SslVerifyMode::PEER)
}

/// Calls `TlsAcceptorBuilder::with_ca_from_pem_file`, which reads the CA
/// certificate from the file. The call panics on a path with a NUL
/// character, so none is let in. Nothing is claimed of the result: it
/// depends on what is on disk.
#[verifier::external_body]
fn ca_from_pem_file(builder: TlsAcceptorBuilder, ca_cert: &str) -> (next: Result<
    TlsAcceptorBuilder,
    anyhow::Error,
>)
    requires
        !ca_cert@.contains('\0'),
{
    builder.with_ca_from_pem_file(ca_cert)
}

/// Calls `TlsAcceptorBuilder::with_certifiate_and_key_from_pem_files`, which
/// reads the server's certificate and key from the two files. The call
/// panics on a path with a NUL character, so none is let in. Nothing is
/// claimed of the result: it depends on what is on disk.
#[verifier::external_body]
fn certificate_and_key_from_pem_files(
    builder: TlsAcceptorBuilder,
    server_cert: &str,
    server_key: &str,
) -> (next: Result<TlsAcceptorBuilder, anyhow::Error>)
    requires
        !server_cert@.contains('\0'),
        !server_key@.contains('\0'),
{
    builder.with_certifiate_and_key_from_pem_files(server_cert, server_key)
}

/// Calls `TlsAcceptorBuilder::build`, which finishes the acceptor.
#[verifier::external_body]
fn finish(builder: TlsAcceptorBuilder) -> (acceptor: TlsAcceptor) {
    builder.build()
}

/// Whether an acceptor asks each client for a certificate and checks it: what
/// the verify mode of its context says of `PEER`.
pub uninterp spec fn acceptor_verifies_peers(acceptor: &TlsAcceptor) -> bool;

/// Reads the verify mode of the acceptor's context with
/// `SslContextRef::verify_mode`, and asks it with `SslVerifyMode::contains`
/// whether it holds `PEER`. A finished acceptor does not change, so the
/// answer depends on the acceptor alone.
#[verifier::external_body]
fn verifies_peers(acceptor: &TlsAcceptor) -> (verifies: bool)
    ensures
        verifies == acceptor_verifies_peers(acceptor),
{
    acceptor.0.context().verify_mode().contains(SslVerifyMode::PEER)
}

/// Whether `fresh` is a builder that `acceptor_builder` gave.
closed spec fn begun(fresh: TlsAcceptorBuilder) -> bool {
    call_ensures(acceptor_builder, (), Ok::<TlsAcceptorBuilder, anyhow::Error>(fresh))
}

/// Whether `after` is the builder `before` once it treats clients as
/// `client_auth` asks. For anonymous clients the builder is left as it is.
/// For clients that show a certificate, `after` is what `ca_from_pem_file`
/// gave for the CA path of the plan and the builder that `verify_peer` made
/// of `before`.
closed spec fn clients_set(
    client_auth: ClientAuthView,
    before: TlsAcceptorBuilder,
    after: TlsAcceptorBuilder,
) -> bool {
    match client_auth {
        ClientAuthView::Anonymous => after == before,
        ClientAuthView::VerifyPeer { ca_cert } => exists|checking: TlsAcceptorBuilder, path: &str|
            {
                &&& call_ensures(verify_peer, (before,), checking)
                &&& path@ == ca_cert
                &&& #[trigger] call_ensures(
                    ca_from_pem_file,
                    (checking, path),
                    Ok::<TlsAcceptorBuilder, anyhow::Error>(after),
                )
            },
    }
}

/// Whether `after` is what `certificate_and_key_from_pem_files` gave for the
/// builder `before`, with `server_cert` as the path of the certificate and
/// `server_key` as the path of the key.
closed spec fn material_loaded(
    server_cert: Seq<char>,
    server_key: Seq<char>,
    before: TlsAcceptorBuilder,
    after: TlsAcceptorBuilder,
) -> bool {
    exists|cert_path: &str, key_path: &str|
        {
            &&& cert_path@ == server_cert
            &&& key_path@ == server_key
            &&& #[trigger] call_ensures(
                certificate_and_key_from_pem_files,
                (before, cert_path, key_path),
                Ok::<TlsAcceptorBuilder, anyhow::Error>(after),
            )
        }
}

/// Whether `acceptor` is what the provider made of `plan`, call by call.
/// The provider was asked for a fresh builder. Where the plan has clients
/// show a certificate, the builder was told to check them and then given the
/// CA certificate under the plan's CA path; else it was left as it was. The
/// builder was then given the certificate under the plan's certificate path
/// with the key under the plan's key path, and `acceptor` is what it was
/// finished to.
pub closed spec fn provided(plan: AcceptorPlanView, acceptor: TlsAcceptor) -> bool {
    exists|fresh: TlsAcceptorBuilder, ready: TlsAcceptorBuilder, loaded: TlsAcceptorBuilder|
        {
            &&& #[trigger] begun(fresh)
            &&& #[trigger] clients_set(plan.client_auth, fresh, ready)
            &&& #[trigger] material_loaded(plan.server_cert, plan.server_key, ready, loaded)
            &&& #[trigger] call_ensures(finish, (loaded,), acceptor)
        }
}

impl AcceptorPlan {
    /// Decides on a finished acceptor, of which `verifies_peers` says
    /// whether it checks the certificates of clients: the acceptor is handed
    /// on where that is what the plan asks, and refused where it is not.
    pub fn confirm(&self, acceptor: TlsAcceptor, verifies_peers: bool) -> (built: Result<
        TlsAcceptor,
        TlsError,
    >)
        ensures
            built == if verifies_peers == self@.verifies_peers() {
                Ok::<TlsAcceptor, TlsError>(acceptor)
            } else {
                Err::<TlsAcceptor, TlsError>(TlsError::PeerVerification)
            },
    {
        let asked = match &self.client_auth {
            ClientAuth::VerifyPeer { .. } => true,
            ClientAuth::Anonymous => false,
        };
        if verifies_peers == asked {
            Ok(acceptor)
        } else {
            Err(TlsError::PeerVerification)
        }
    }

    /// Builds the acceptor that the plan describes: with the check of client
    /// certificates first where the plan asks for it, then with the server's
    /// certificate and key.
    ///
    /// Whether the provider takes the material is the provider's to say. An
    /// acceptor that comes back is what the provider made of the plan's own
    /// paths, as `provided` spells out, and it checks the certificates of
    /// clients exactly where the plan asks for it: the finished acceptor is
    /// asked, and one that answers otherwise is refused.
    pub fn assemble(&self) -> (built: Result<TlsAcceptor, TlsError>)
        requires
            !self@.has_nul(),
        ensures
            match built {
                Ok(acceptor) => {
                    &&& provided(self@, acceptor)
                    &&& acceptor_verifies_peers(&acceptor) == self@.verifies_peers()
                },
                Err(e) => e is Provider || e is PeerVerification,
            },
    {
        let begin = acceptor_builder();
        assert(call_ensures(acceptor_builder, (), begin));
        let builder = match begin {
            Ok(builder) => builder,
            Err(e) => {
                return Err(TlsError::Provider(e));
            },
        };
        let ghost fresh = builder;
        let builder = match &self.client_auth {
            ClientAuth::VerifyPeer { ca_cert } => {
                let checking = verify_peer(builder);
                assert(call_ensures(verify_peer, (fresh,), checking));
                let ghost told = checking;
                let path = ca_cert.as_str();
                let with_ca = ca_from_pem_file(checking, path);
                assert(call_ensures(ca_from_pem_file, (told, path), with_ca));
                match with_ca {
                    Ok(builder) => builder,
                    Err(e) => {
                        return Err(TlsError::Provider(e));
                    },
                }
            },
            ClientAuth::Anonymous => builder,
        };
        let ghost ready = builder;
        assert(clients_set(self@.client_auth, fresh, ready));
        let cert_path = self.server_cert.as_str();
        let key_path = self.server_key.as_str();
        let with_material = certificate_and_key_from_pem_files(builder, cert_path, key_path);
        assert(call_ensures(
            certificate_and_key_from_pem_files,
            (ready, cert_path, key_path),
            with_material,
        ));
        match with_material {
            Ok(builder) => {
                let ghost loaded = builder;
                assert(material_loaded(self@.server_cert, self@.server_key, ready, loaded));
                let acceptor = finish(builder);
                assert(call_ensures(finish, (loaded,), acceptor));
                assert(begun(fresh));
                assert(provided(self@, acceptor));
                let verifies = verifies_peers(&acceptor);
                self.confirm(acceptor, verifies)
            },
            Err(e) => Err(TlsError::Provider(e)),
        }
    }
}

impl TlsConfig {
    /// What an acceptor would be built from, or the first thing that is
    /// wrong with the options. Reads no file.
    pub fn acceptor_plan(&self) -> (plan: Result<AcceptorPlan, TlsError>)
        ensures
            match plan {
                Ok(plan) => self@.plan() == Ok::<AcceptorPlanView, TlsError>(plan@),
                Err(e) => self@.plan() == Err::<AcceptorPlanView, TlsError>(e),
            },
    {
        let server_cert = match &self.server_cert {
            Some(path) => path.clone(),
            None => {
                return Err(TlsError::MissingServerCert);
            },
        };
        let server_key = match &self.server_key {
            Some(path) => path.clone(),
            None => {
                return Err(TlsError::MissingServerKey);
            },
        };
        let client_auth = if self.enable_client_cert {
            match &self.ca_cert {
                Some(path) => ClientAuth::VerifyPeer { ca_cert: path.clone() },
                None => {
                    return Err(TlsError::MissingCaCert);
                },
            }
        } else {
            ClientAuth::Anonymous
        };
        let nul_in_ca = match &client_auth {
            ClientAuth::VerifyPeer { ca_cert } => contains_char(ca_cert.as_str(), '\0'),
            ClientAuth::Anonymous => false,
        };
        if contains_char(server_cert.as_str(), '\0') || contains_char(server_key.as_str(), '\0')
            || nul_in_ca {
            return Err(TlsError::NulInPath);
        }
        Ok(AcceptorPlan { server_cert, server_key, client_auth })
    }

    /// Builds the TLS acceptor of the controller from the options.
    ///
    /// Options that do not name what is needed are refused before any file is
    /// read, with the error that `TlsConfigView::plan` gives. Options that
    /// pass are handed to the provider, which may refuse the material. An
    /// acceptor that comes back is what the provider made of the paths that
    /// the options name, and it checks the certificates of clients exactly
    /// where the options ask for it.
    pub fn try_build_tls_acceptor(&self) -> (built: Result<TlsAcceptor, TlsError>)
        ensures
            match self@.plan() {
                Err(refused) => built matches Err(e) && e == refused,
                Ok(plan) => match built {
                    Ok(acceptor) => {
                        &&& provided(plan, acceptor)
                        &&& acceptor_verifies_peers(&acceptor) == self.enable_client_cert
                    },
                    Err(e) => e is Provider || e is PeerVerification,
                },
            },
    {
        match self.acceptor_plan() {
            Ok(plan) => plan.assemble(),
            Err(e) => Err(e),
        }
    }
}

} // verus!
