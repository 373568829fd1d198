//! Transports: how the driver reaches a server, and the gRPC endpoints for that.

use vstd::prelude::*;

use crate::double::Duration;
use crate::error::{
    adbc, bare, AdbcError, AdbcErrorView, ErrorHelper, FlightSqlErrorHelper, Status,
};
use crate::text::{begins_with, concat2, copy_opt, decimal, opt_view, u64_text};

verus! {

/// How a server is reached.
#[derive(Debug)]
pub enum Transport {
    /// Plaintext gRPC.
    Plaintext { host: String, port: u16 },
    /// gRPC secured by TLS.
    Tls { host: String, port: u16 },
    /// A Unix domain socket.
    Unix { path: String },
}

/// The content of a [`Transport`].
#[verifier::ext_equal]
pub enum TransportView {
    Plaintext { host: Seq<char>, port: u16 },
    Tls { host: Seq<char>, port: u16 },
    Unix { path: Seq<char> },
}

impl View for Transport {
    type V = TransportView;

    open spec fn view(&self) -> TransportView {
        match self {
            Transport::Plaintext { host, port } => TransportView::Plaintext {
                host: host@,
                port: *port,
            },
            Transport::Tls { host, port } => TransportView::Tls { host: host@, port: *port },
            Transport::Unix { path } => TransportView::Unix { path: path@ },
        }
    }
}

impl Clone for Transport {
    fn clone(&self) -> (r: Self)
        ensures
            r@ == self@,
    {
        match self {
            Transport::Plaintext { host, port } => Transport::Plaintext {
                host: host.clone(),
                port: *port,
            },
            Transport::Tls { host, port } => Transport::Tls { host: host.clone(), port: *port },
            Transport::Unix { path } => Transport::Unix { path: path.clone() },
        }
    }
}

/// Certificates and names for TLS.
#[derive(Debug)]
pub struct TlsOptions {
    pub ca_cert_path: Option<String>,
    pub ca_cert_pem: Option<String>,
    pub skip_verify: bool,
    pub override_hostname: Option<String>,
    pub mtls_cert_chain: Option<String>,
    pub mtls_private_key: Option<String>,
    pub authority: Option<String>,
}

/// The content of [`TlsOptions`].
#[verifier::ext_equal]
pub struct TlsOptionsView {
    pub ca_cert_path: Option<Seq<char>>,
    pub ca_cert_pem: Option<Seq<char>>,
    pub skip_verify: bool,
    pub override_hostname: Option<Seq<char>>,
    pub mtls_cert_chain: Option<Seq<char>>,
    pub mtls_private_key: Option<Seq<char>>,
    pub authority: Option<Seq<char>>,
}

impl View for TlsOptions {
    type V = TlsOptionsView;

    open spec fn view(&self) -> TlsOptionsView {
        TlsOptionsView {
            ca_cert_path: opt_view(self.ca_cert_path),
            ca_cert_pem: opt_view(self.ca_cert_pem),
            skip_verify: self.skip_verify,
            override_hostname: opt_view(self.override_hostname),
            mtls_cert_chain: opt_view(self.mtls_cert_chain),
            mtls_private_key: opt_view(self.mtls_private_key),
            authority: opt_view(self.authority),
        }
    }
}

/// No options at all.
pub open spec fn no_tls_options() -> TlsOptionsView {
    TlsOptionsView {
        ca_cert_path: None,
        ca_cert_pem: None,
        skip_verify: false,
        override_hostname: None,
        mtls_cert_chain: None,
        mtls_private_key: None,
        authority: None,
    }
}

impl Default for TlsOptions {
    fn default() -> (r: Self)
        ensures
            r@ == no_tls_options(),
    {
        TlsOptions {
            ca_cert_path: None,
            ca_cert_pem: None,
            skip_verify: false,
            override_hostname: None,
            mtls_cert_chain: None,
            mtls_private_key: None,
            authority: None,
        }
    }
}

impl Clone for TlsOptions {
    fn clone(&self) -> (r: Self)
        ensures
            r@ == self@,
    {
        TlsOptions {
            ca_cert_path: copy_opt(&self.ca_cert_path),
            ca_cert_pem: copy_opt(&self.ca_cert_pem),
            skip_verify: self.skip_verify,
            override_hostname: copy_opt(&self.override_hostname),
            mtls_cert_chain: copy_opt(&self.mtls_cert_chain),
            mtls_private_key: copy_opt(&self.mtls_private_key),
            authority: copy_opt(&self.authority),
        }
    }
}

#[verifier::external_type_specification]
#[verifier::external_body]
pub struct ExEndpoint(tonic::transport::Endpoint);

#[verifier::external_type_specification]
#[verifier::external_body]
pub struct ExClientTlsConfig(tonic::transport::ClientTlsConfig);

/// How an endpoint is set up.
#[verifier::ext_equal]
pub struct EndpointView {
    pub address: Seq<char>,
    pub keep_alive_interval: Option<Duration>,
    pub keep_alive_while_idle: Option<bool>,
    pub keep_alive_timeout: Option<Duration>,
    pub tcp_nodelay: bool,
}

/// How TLS is set up: the name to verify, the certificates to trust, whether the platform's
/// certificates are trusted, and the identity to present, as a certificate and a key.
#[verifier::ext_equal]
pub struct TlsView {
    pub domain: Option<Seq<char>>,
    pub certificates: Seq<Seq<char>>,
    pub native_roots: bool,
    pub identity: Option<(Seq<char>, Seq<char>)>,
}

/// How an endpoint is set up.
pub uninterp spec fn endpoint_view(endpoint: tonic::transport::Endpoint) -> EndpointView;

/// How TLS is set up.
pub uninterp spec fn tls_view(config: tonic::transport::ClientTlsConfig) -> TlsView;

/// What is wrong with the address of an endpoint, if anything is.
pub uninterp spec fn address_fault(address: Seq<char>) -> Option<Seq<char>>;

/// An endpoint of which only the address is set.
pub open spec fn fresh_endpoint(address: Seq<char>) -> EndpointView {
    EndpointView {
        address,
        keep_alive_interval: None,
        keep_alive_while_idle: None,
        keep_alive_timeout: None,
        tcp_nodelay: true,
    }
}

/// What is wrong with an address, as making the endpoint told.
pub open spec fn told_fault(r: Result<tonic::transport::Endpoint, String>) -> Option<Seq<char>> {
    match r {
        Ok(_) => None,
        Err(e) => Some(e@),
    }
}

/// Makes an endpoint of an address.
///
/// Trusted: what `tonic::transport::Endpoint::from_shared` does depends on the address alone; it
/// takes every address of a Unix domain socket. An error is given here as the text in which it
/// prints. Of a new endpoint the address is set and TCP_NODELAY is on.
#[verifier::external_body]
fn from_shared(address: String) -> (r: Result<tonic::transport::Endpoint, String>)
    ensures
        told_fault(r) == address_fault(address@),
        begins_with(address@, "unix://"@) ==> r is Ok,
        r matches Ok(e) ==> endpoint_view(e) == fresh_endpoint(address@),
{
    match tonic::transport::Endpoint::from_shared(address) {
        Ok(e) => Ok(e),
        Err(e) => Err(e.to_string()),
    }
}

/// Trusted: `tonic::transport::Endpoint::http2_keep_alive_interval` sets that interval alone.
#[verifier::external_body]
fn http2_keep_alive_interval(endpoint: tonic::transport::Endpoint, secs: u64) -> (r:
    tonic::transport::Endpoint)
    ensures
        endpoint_view(r) == (EndpointView {
            keep_alive_interval: Some(Duration { secs, nanos: 0 }),
            ..endpoint_view(endpoint)
        }),
{
    endpoint.http2_keep_alive_interval(std::time::Duration::from_secs(secs))
}

/// Trusted: `tonic::transport::Endpoint::keep_alive_while_idle` sets that switch alone.
#[verifier::external_body]
fn keep_alive_while_idle(endpoint: tonic::transport::Endpoint, enabled: bool) -> (r:
    tonic::transport::Endpoint)
    ensures
        endpoint_view(r) == (EndpointView {
            keep_alive_while_idle: Some(enabled),
            ..endpoint_view(endpoint)
        }),
{
    endpoint.keep_alive_while_idle(enabled)
}

/// Trusted: `tonic::transport::Endpoint::keep_alive_timeout` sets that timeout alone.
#[verifier::external_body]
fn keep_alive_timeout(endpoint: tonic::transport::Endpoint, secs: u64) -> (r:
    tonic::transport::Endpoint)
    ensures
        endpoint_view(r) == (EndpointView {
            keep_alive_timeout: Some(Duration { secs, nanos: 0 }),
            ..endpoint_view(endpoint)
        }),
{
    endpoint.keep_alive_timeout(std::time::Duration::from_secs(secs))
}

/// Trusted: `tonic::transport::Endpoint::tcp_nodelay` sets that switch alone.
#[verifier::external_body]
fn tcp_nodelay(endpoint: tonic::transport::Endpoint, enabled: bool) -> (r:
    tonic::transport::Endpoint)
    ensures
        endpoint_view(r) == (EndpointView { tcp_nodelay: enabled, ..endpoint_view(endpoint) }),
{
    endpoint.tcp_nodelay(enabled)
}

/// Trusted: `tonic::transport::ClientTlsConfig::new` sets nothing.
#[verifier::external_body]
fn new_tls_config() -> (r: tonic::transport::ClientTlsConfig)
    ensures
        tls_view(r) == (TlsView {
            domain: None,
            certificates: Seq::empty(),
            native_roots: false,
            identity: None,
        }),
{
    tonic::transport::ClientTlsConfig::new()
}

/// Trusted: `tonic::transport::ClientTlsConfig::ca_certificate` adds a certificate to those to
/// trust, and changes nothing else.
#[verifier::external_body]
fn ca_certificate(config: tonic::transport::ClientTlsConfig, pem: &str) -> (r:
    tonic::transport::ClientTlsConfig)
    ensures
        tls_view(r) == (TlsView {
            certificates: tls_view(config).certificates.push(pem@),
            ..tls_view(config)
        }),
{
    config.ca_certificate(tonic::transport::Certificate::from_pem(pem))
}

/// Trusted: `tonic::transport::ClientTlsConfig::with_native_roots` makes the platform's
/// certificates trusted, and changes nothing else.
#[verifier::external_body]
fn with_native_roots(config: tonic::transport::ClientTlsConfig) -> (r:
    tonic::transport::ClientTlsConfig)
    ensures
        tls_view(r) == (TlsView { native_roots: true, ..tls_view(config) }),
{
    config.with_native_roots()
}

/// Trusted: `tonic::transport::ClientTlsConfig::domain_name` sets the name to verify, and changes
/// nothing else.
#[verifier::external_body]
fn domain_name(config: tonic::transport::ClientTlsConfig, name: &str) -> (r:
    tonic::transport::ClientTlsConfig)
    ensures
        tls_view(r) == (TlsView { domain: Some(name@), ..tls_view(config) }),
{
    config.domain_name(name)
}

/// Trusted: `tonic::transport::ClientTlsConfig::identity` sets the identity to present, and changes
/// nothing else.
#[verifier::external_body]
fn identity(config: tonic::transport::ClientTlsConfig, cert: &str, key: &str) -> (r:
    tonic::transport::ClientTlsConfig)
    ensures
        tls_view(r) == (TlsView { identity: Some((cert@, key@)), ..tls_view(config) }),
{
    config.identity(tonic::transport::Identity::from_pem(cert, key))
}

/// An endpoint that is kept alive: pinged every 30 seconds, also while idle, and given up after 10.
pub open spec fn kept_alive(address: Seq<char>) -> EndpointView {
    EndpointView {
        address,
        keep_alive_interval: Some(Duration { secs: 30, nanos: 0 }),
        keep_alive_while_idle: Some(true),
        keep_alive_timeout: Some(Duration { secs: 10, nanos: 0 }),
        tcp_nodelay: true,
    }
}

/// The address of a host and a port.
pub open spec fn host_address(scheme: Seq<char>, host: Seq<char>, port: u16) -> Seq<char> {
    scheme + host + ":"@ + decimal(port as nat)
}

/// Writes the address of a host and a port.
fn write_address(scheme: &str, host: &str, port: u16) -> (r: String)
    ensures
        r@ == host_address(scheme@, host@, port),
{
    let mut r = concat2(scheme, host);
    r.append(":");
    r.append(u64_text(port as u64).as_str());
    r
}

/// The error for an address that is none.
pub open spec fn bad_address(
    message: Seq<char>,
    text: Seq<char>,
    context: Seq<char>,
) -> AdbcErrorView {
    adbc(bare(Status::InvalidArguments).message(message + text).context(context))
}

/// Reports a file or an address that cannot be used.
fn refuse(message: &str, text: &str, context: &str) -> (r: AdbcError)
    ensures
        r@ == bad_address(message@, text@, context@),
{
    FlightSqlErrorHelper::invalid_argument().message(concat2(message, text).as_str()).context(
        context,
    ).to_adbc()
}

/// Sets up an endpoint for plaintext.
pub fn create_plaintext_channel(host: &str, port: u16) -> (r: Result<
    tonic::transport::Endpoint,
    AdbcError,
>)
    ensures
        match address_fault(host_address("http://"@, host@, port)) {
            Some(text) => r matches Err(e) && e@ == bad_address(
                "invalid endpoint: "@,
                text,
                "creating gRPC channel"@,
            ),
            None => r matches Ok(endpoint) && endpoint_view(endpoint) == kept_alive(
                host_address("http://"@, host@, port),
            ),
        },
{
    match from_shared(write_address("http://", host, port)) {
        Ok(endpoint) => {
            let endpoint = http2_keep_alive_interval(endpoint, 30);
            let endpoint = keep_alive_while_idle(endpoint, true);
            let endpoint = keep_alive_timeout(endpoint, 10);
            Ok(tcp_nodelay(endpoint, true))
        },
        Err(text) => Err(refuse("invalid endpoint: ", text.as_str(), "creating gRPC channel")),
    }
}

/// The files that TLS needs, as they were read: their contents, or what went wrong.
pub struct PemFiles {
    pub ca_cert: Option<Result<String, String>>,
    pub cert_chain: Option<Result<String, String>>,
    pub private_key: Option<Result<String, String>>,
}

impl TlsOptionsView {
    /// A client certificate is to be presented.
    pub open spec fn has_identity(self) -> bool {
        self.mtls_cert_chain is Some && self.mtls_private_key is Some
    }

    /// The host to connect to.
    pub open spec fn effective_host(self, host: Seq<char>) -> Seq<char> {
        match self.authority {
            Some(authority) => authority,
            None => host,
        }
    }

    /// The name to verify.
    pub open spec fn verified_name(self, host: Seq<char>) -> Seq<char> {
        match self.override_hostname {
            Some(name) if !self.skip_verify => name,
            _ => host,
        }
    }
}

/// The files are those that the options name.
pub open spec fn files_match(options: TlsOptionsView, files: PemFiles) -> bool {
    &&& files.ca_cert is Some <==> options.ca_cert_path is Some
    &&& files.cert_chain is Some <==> options.has_identity()
    &&& files.private_key is Some <==> options.has_identity()
}

/// What is wrong with the files and the address for TLS, if anything is. The first fault counts.
pub open spec fn tls_fault(
    host: Seq<char>,
    port: u16,
    options: TlsOptionsView,
    files: PemFiles,
) -> Option<AdbcErrorView> {
    let context = "creating TLS channel"@;
    match (files.ca_cert, files.cert_chain, files.private_key) {
        (Some(Err(text)), _, _) => Some(bad_address("failed to read CA cert: "@, text@, context)),
        (_, Some(Err(text)), _) => Some(
            bad_address("failed to read mTLS cert chain: "@, text@, context),
        ),
        (_, _, Some(Err(text))) => Some(
            bad_address("failed to read mTLS private key: "@, text@, context),
        ),
        _ => match address_fault(host_address("https://"@, options.effective_host(host), port)) {
            Some(text) => Some(bad_address("invalid endpoint: "@, text, context)),
            None => None,
        },
    }
}

/// The content of a file that was read.
pub open spec fn read_text(file: Option<Result<String, String>>) -> Option<Seq<char>> {
    match file {
        Some(Ok(text)) => Some(text@),
        _ => None,
    }
}

/// How TLS is set up for a host.
pub open spec fn tls_setup(host: Seq<char>, options: TlsOptionsView, files: PemFiles) -> TlsView {
    TlsView {
        domain: Some(options.verified_name(host)),
        certificates: match read_text(files.ca_cert) {
            Some(pem) => seq![pem],
            None => Seq::empty(),
        },
        native_roots: files.ca_cert is None || options.skip_verify,
        identity: match (read_text(files.cert_chain), read_text(files.private_key)) {
            (Some(cert), Some(key)) => Some((cert, key)),
            _ => None,
        },
    }
}

/// Sets up an endpoint for TLS, and TLS itself.
pub fn create_tls_channel(
    host: &str,
    port: u16,
    tls_opts: &TlsOptions,
    files: &PemFiles,
) -> (r: Result<(tonic::transport::Endpoint, tonic::transport::ClientTlsConfig), AdbcError>)
    requires
        files_match(tls_opts@, *files),
    ensures
        match tls_fault(host@, port, tls_opts@, *files) {
            Some(e) => r matches Err(x) && x@ == e,
            None => r matches Ok(channel) && endpoint_view(channel.0) == kept_alive(
                host_address("https://"@, tls_opts@.effective_host(host@), port),
            ) && tls_view(channel.1) == tls_setup(host@, tls_opts@, *files),
        },
{
    let effective_host = match &tls_opts.authority {
        Some(authority) => authority.as_str(),
        None => host,
    };
    let address = write_address("https://", effective_host, port);
    let mut tls_config = new_tls_config();
    match &files.ca_cert {
        Some(Ok(pem)) => {
            tls_config = ca_certificate(tls_config, pem.as_str());
            assert(tls_view(tls_config).certificates =~= seq![pem@]);
        },
        Some(Err(text)) => {
            return Err(
                refuse("failed to read CA cert: ", text.as_str(), "creating TLS channel"),
            );
        },
        None => {
            if !tls_opts.skip_verify {
                tls_config = with_native_roots(tls_config);
            }
        },
    }
    if tls_opts.skip_verify {
        tls_config = with_native_roots(domain_name(tls_config, host));
    } else {
        let hostname = match &tls_opts.override_hostname {
            Some(name) => name.as_str(),
            None => host,
        };
        tls_config = domain_name(tls_config, hostname);
    }
    if let Some(cert_chain) = &files.cert_chain {
        let cert_pem = match cert_chain {
            Ok(pem) => pem,
            Err(text) => {
                return Err(
                    refuse(
                        "failed to read mTLS cert chain: ",
                        text.as_str(),
                        "creating TLS channel",
                    ),
                );
            },
        };
        if let Some(private_key) = &files.private_key {
            let key_pem = match private_key {
                Ok(pem) => pem,
                Err(text) => {
                    return Err(
                        refuse(
                            "failed to read mTLS private key: ",
                            text.as_str(),
                            "creating TLS channel",
                        ),
                    );
                },
            };
            tls_config = identity(tls_config, cert_pem.as_str(), key_pem.as_str());
        }
    }
    match from_shared(address) {
        Ok(endpoint) => {
            let endpoint = http2_keep_alive_interval(endpoint, 30);
            let endpoint = keep_alive_while_idle(endpoint, true);
            let endpoint = keep_alive_timeout(endpoint, 10);
            Ok((tcp_nodelay(endpoint, true), tls_config))
        },
        Err(text) => Err(refuse("invalid endpoint: ", text.as_str(), "creating TLS channel")),
    }
}

/// The error for a TLS setup that is refused.
pub fn tls_config_error(text: &str) -> (r: AdbcError)
    ensures
        r@ == adbc(
            bare(Status::Internal).message("TLS configuration error: "@ + text@).context(
                "creating TLS channel"@,
            ),
        ),
{
    FlightSqlErrorHelper::internal_no_location().message(
        concat2("TLS configuration error: ", text).as_str(),
    ).context("creating TLS channel").to_adbc()
}

/// Sets up an endpoint for a Unix domain socket.
pub fn create_unix_channel(path: &str) -> (r: Result<tonic::transport::Endpoint, AdbcError>)
    ensures
        r matches Ok(endpoint) && endpoint_view(endpoint) == kept_alive("unix://"@ + path@),
{
    let address = concat2("unix://", path);
    assert(address@.subrange(0, "unix://"@.len() as int) =~= "unix://"@);
    match from_shared(address) {
        Ok(endpoint) => {
            let endpoint = http2_keep_alive_interval(endpoint, 30);
            let endpoint = keep_alive_while_idle(endpoint, true);
            Ok(keep_alive_timeout(endpoint, 10))
        },
        Err(text) => Err(
            refuse(
                "failed to create Unix socket endpoint: ",
                text.as_str(),
                "creating Unix socket channel",
            ),
        ),
    }
}

/// An endpoint to connect to, with TLS where the transport asks for it.
pub struct ChannelSetup {
    pub endpoint: tonic::transport::Endpoint,
    pub tls: Option<tonic::transport::ClientTlsConfig>,
}

/// What setting up a transport leads to.
pub open spec fn set_up(
    r: Result<ChannelSetup, AdbcError>,
    transport: TransportView,
    options: TlsOptionsView,
    files: PemFiles,
) -> bool {
    match transport {
        TransportView::Plaintext { host, port } => match address_fault(
            host_address("http://"@, host, port),
        ) {
            Some(text) => r matches Err(e) && e@ == bad_address(
                "invalid endpoint: "@,
                text,
                "creating gRPC channel"@,
            ),
            None => r matches Ok(setup) && setup.tls is None && endpoint_view(setup.endpoint)
                == kept_alive(host_address("http://"@, host, port)),
        },
        TransportView::Tls { host, port } => match tls_fault(host, port, options, files) {
            Some(e) => r matches Err(x) && x@ == e,
            None => r matches Ok(setup) && endpoint_view(setup.endpoint) == kept_alive(
                host_address("https://"@, options.effective_host(host), port),
            ) && (setup.tls matches Some(config) && tls_view(config) == tls_setup(
                host,
                options,
                files,
            )),
        },
        TransportView::Unix { path } => r matches Ok(setup) && setup.tls is None && endpoint_view(
            setup.endpoint,
        ) == kept_alive("unix://"@ + path),
    }
}

/// Sets up the transport.
pub fn create_channel(transport: &Transport, tls_opts: &TlsOptions, files: &PemFiles) -> (r: Result<
    ChannelSetup,
    AdbcError,
>)
    requires
        transport is Tls ==> files_match(tls_opts@, *files),
    ensures
        set_up(r, transport@, tls_opts@, *files),
{
    match transport {
        Transport::Plaintext { host, port } => match create_plaintext_channel(
            host.as_str(),
            *port,
        ) {
            Ok(endpoint) => Ok(ChannelSetup { endpoint, tls: None }),
            Err(e) => Err(e),
        },
        Transport::Tls { host, port } => match create_tls_channel(
            host.as_str(),
            *port,
            tls_opts,
            files,
        ) {
            Ok((endpoint, config)) => Ok(ChannelSetup { endpoint, tls: Some(config) }),
            Err(e) => Err(e),
        },
        Transport::Unix { path } => match create_unix_channel(path.as_str()) {
            Ok(endpoint) => Ok(ChannelSetup { endpoint, tls: None }),
            Err(e) => Err(e),
        },
    }
}

} // verus!
