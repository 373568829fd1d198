//! Laws of the transports: addresses, keep-alive, names, certificates and identities.

use vstd::prelude::*;

use crate::error::{AdbcError, Status};
use crate::laws::tells_of;
use crate::text::decimal;
use crate::transport::{
    address_fault, create_channel, create_plaintext_channel, create_tls_channel,
    create_unix_channel, endpoint_view, files_match, tls_config_error, tls_view, ChannelSetup,
    PemFiles, TlsOptions, Transport,
};

verus! {

/// The content of a file that was to be read.
pub open spec fn content(file: Option<Result<String, String>>) -> Option<Seq<char>> {
    match file {
        Some(Ok(text)) => Some(text@),
        _ => None,
    }
}

/// A file could not be read, for that reason.
pub open spec fn is_unreadable(file: Option<Result<String, String>>) -> bool {
    file matches Some(Err(_))
}

/// An endpoint is pinged every 30 seconds, also while it is idle, is given up after 10 seconds
/// without an answer, and sends small packets at once.
pub open spec fn is_kept_alive(endpoint: tonic::transport::Endpoint) -> bool {
    &&& (endpoint_view(endpoint).keep_alive_interval matches Some(d) && d.secs == 30 && d.nanos == 0)
    &&& endpoint_view(endpoint).keep_alive_while_idle == Some(true)
    &&& (endpoint_view(endpoint).keep_alive_timeout matches Some(d) && d.secs == 10 && d.nanos == 0)
    &&& endpoint_view(endpoint).tcp_nodelay
}

/// The address of a port of a host.
pub open spec fn address_of(scheme: Seq<char>, host: Seq<char>, port: u16) -> Seq<char> {
    scheme + host + ":"@ + decimal(port as nat)
}

/// The host that TLS connects to: the authority, where one is set.
pub open spec fn dialled_host(host: Seq<char>, options: TlsOptions) -> Seq<char> {
    match options.authority {
        Some(authority) => authority@,
        None => host,
    }
}

/// A plaintext endpoint has the address of its host and port, and is kept alive; an address that is
/// none is told.
pub proof fn law_plaintext_reaches_its_host(
    host: &str,
    port: u16,
    r: Result<tonic::transport::Endpoint, AdbcError>,
)
    requires
        call_ensures(create_plaintext_channel, (host, port), r),
    ensures
        r is Ok <==> address_fault(address_of("http://"@, host@, port)) is None,
        r matches Ok(endpoint) ==> is_kept_alive(endpoint) && endpoint_view(endpoint).address
            == address_of("http://"@, host@, port),
        r matches Err(e) ==> tells_of(
            e,
            Status::InvalidArguments,
            "creating gRPC channel"@,
            "invalid endpoint: "@ + address_fault(address_of("http://"@, host@, port))->Some_0,
        ),
{
}

/// An endpoint of a Unix domain socket has the address of its path, and is kept alive.
pub proof fn law_socket_is_reached_by_its_path(
    path: &str,
    r: Result<tonic::transport::Endpoint, AdbcError>,
)
    requires
        call_ensures(create_unix_channel, (path,), r),
    ensures
        r matches Ok(endpoint) && is_kept_alive(endpoint) && endpoint_view(endpoint).address
            == "unix://"@ + path@,
{
}

/// TLS presents exactly the certificate and the key that were read, whatever the CA certificate,
/// the name to verify and the verification are; and it presents none if none was given.
pub proof fn law_identity_is_presented(
    host: &str,
    port: u16,
    options: &TlsOptions,
    files: &PemFiles,
    r: Result<(tonic::transport::Endpoint, tonic::transport::ClientTlsConfig), AdbcError>,
)
    requires
        files_match(options@, *files),
        call_ensures(create_tls_channel, (host, port, options, files), r),
        r is Ok,
    ensures
        files.cert_chain matches Some(Ok(cert)) ==> files.private_key matches Some(Ok(key)) ==> (
        tls_view(r->Ok_0.1).identity matches Some(identity) && identity.0 == cert@ && identity.1
            == key@),
        files.cert_chain is None || files.private_key is None ==> tls_view(r->Ok_0.1).identity
            is None,
        tls_view(r->Ok_0.1).identity is Some <==> options.mtls_cert_chain is Some
            && options.mtls_private_key is Some,
{
}

/// TLS verifies the name that overrides the host name if there is one and names are verified, and
/// the host itself if not. An authority has no part in it.
pub proof fn law_name_is_verified(
    host: &str,
    port: u16,
    options: &TlsOptions,
    files: &PemFiles,
    r: Result<(tonic::transport::Endpoint, tonic::transport::ClientTlsConfig), AdbcError>,
)
    requires
        files_match(options@, *files),
        call_ensures(create_tls_channel, (host, port, options, files), r),
        r is Ok,
    ensures
        options.override_hostname matches Some(name) ==> !options.skip_verify ==> tls_view(
            r->Ok_0.1,
        ).domain == Some(name@),
        options.override_hostname is None || options.skip_verify ==> tls_view(r->Ok_0.1).domain
            == Some(host@),
{
}

/// TLS trusts the CA certificate that was read, and it alone, unless names are not verified;
/// without one it trusts the platform's certificates.
pub proof fn law_certificates_are_trusted(
    host: &str,
    port: u16,
    options: &TlsOptions,
    files: &PemFiles,
    r: Result<(tonic::transport::Endpoint, tonic::transport::ClientTlsConfig), AdbcError>,
)
    requires
        files_match(options@, *files),
        call_ensures(create_tls_channel, (host, port, options, files), r),
        r is Ok,
    ensures
        options.ca_cert_path is Some ==> content(files.ca_cert) is Some,
        content(files.ca_cert) matches Some(pem) ==> tls_view(r->Ok_0.1).certificates == seq![pem],
        content(files.ca_cert) is None ==> tls_view(r->Ok_0.1).certificates.len() == 0,
        tls_view(r->Ok_0.1).native_roots <==> options.ca_cert_path is None || options.skip_verify,
{
}

/// An endpoint for TLS has the address of the authority, or of the host where none is set, at the
/// port that was given; and it is kept alive.
pub proof fn law_tls_reaches_its_host(
    host: &str,
    port: u16,
    options: &TlsOptions,
    files: &PemFiles,
    r: Result<(tonic::transport::Endpoint, tonic::transport::ClientTlsConfig), AdbcError>,
)
    requires
        files_match(options@, *files),
        call_ensures(create_tls_channel, (host, port, options, files), r),
        r is Ok,
    ensures
        is_kept_alive(r->Ok_0.0),
        endpoint_view(r->Ok_0.0).address == address_of(
            "https://"@,
            dialled_host(host@, *options),
            port,
        ),
{
}

/// TLS is set up if every file could be read and the address is one. Else the first fault is told:
/// of the CA certificate, of the certificate, of its key, of the address.
pub proof fn law_tls_needs_its_files(
    host: &str,
    port: u16,
    options: &TlsOptions,
    files: &PemFiles,
    r: Result<(tonic::transport::Endpoint, tonic::transport::ClientTlsConfig), AdbcError>,
)
    requires
        files_match(options@, *files),
        call_ensures(create_tls_channel, (host, port, options, files), r),
    ensures
        r is Ok <==> !is_unreadable(files.ca_cert) && !is_unreadable(files.cert_chain)
            && !is_unreadable(files.private_key) && address_fault(
            address_of("https://"@, dialled_host(host@, *options), port),
        ) is None,
        files.ca_cert matches Some(Err(text)) ==> (r matches Err(e) && tells_of(
            e,
            Status::InvalidArguments,
            "creating TLS channel"@,
            "failed to read CA cert: "@ + text@,
        )),
        files.cert_chain matches Some(Err(text)) ==> !is_unreadable(files.ca_cert) ==> (
        r matches Err(e) && tells_of(
            e,
            Status::InvalidArguments,
            "creating TLS channel"@,
            "failed to read mTLS cert chain: "@ + text@,
        )),
        files.private_key matches Some(Err(text)) ==> !is_unreadable(files.ca_cert)
            && !is_unreadable(files.cert_chain) ==> (r matches Err(e) && tells_of(
            e,
            Status::InvalidArguments,
            "creating TLS channel"@,
            "failed to read mTLS private key: "@ + text@,
        )),
        !is_unreadable(files.ca_cert) && !is_unreadable(files.cert_chain) && !is_unreadable(
            files.private_key,
        ) ==> (address_fault(
            address_of("https://"@, dialled_host(host@, *options), port),
        ) matches Some(text) ==> (r matches Err(e) && tells_of(
            e,
            Status::InvalidArguments,
            "creating TLS channel"@,
            "invalid endpoint: "@ + text,
        ))),
{
}

/// A transport is set up as its kind says: plaintext and sockets without TLS, TLS with it, each as
/// if it were set up by itself.
pub proof fn law_transport_is_set_up_by_its_kind(
    transport: &Transport,
    options: &TlsOptions,
    files: &PemFiles,
    r: Result<ChannelSetup, AdbcError>,
)
    requires
        transport is Tls ==> files_match(options@, *files),
        call_ensures(create_channel, (transport, options, files), r),
    ensures
        r matches Ok(setup) ==> is_kept_alive(setup.endpoint) && (setup.tls is Some
            <==> transport is Tls),
        transport matches Transport::Plaintext { host, port } ==> (r is Ok <==> address_fault(
            address_of("http://"@, host@, *port),
        ) is None) && (r matches Ok(setup) ==> endpoint_view(setup.endpoint).address == address_of(
            "http://"@,
            host@,
            *port,
        )),
        transport matches Transport::Unix { path } ==> (r matches Ok(setup) && endpoint_view(
            setup.endpoint,
        ).address == "unix://"@ + path@),
        transport matches Transport::Tls { host, port } ==> (r is Ok <==> !is_unreadable(
            files.ca_cert,
        ) && !is_unreadable(files.cert_chain) && !is_unreadable(files.private_key)
            && address_fault(address_of("https://"@, dialled_host(host@, *options), *port))
            is None),
        transport matches Transport::Tls { host, port } ==> (r matches Ok(setup) ==> {
            &&& endpoint_view(setup.endpoint).address == address_of(
                "https://"@,
                dialled_host(host@, *options),
                *port,
            )
            &&& tls_view(setup.tls->Some_0).domain == Some(
                if options.override_hostname is Some && !options.skip_verify {
                    options.override_hostname->Some_0@
                } else {
                    host@
                },
            )
            &&& (content(files.cert_chain) matches Some(cert) ==> content(
                files.private_key,
            ) matches Some(key) ==> tls_view(setup.tls->Some_0).identity == Some((cert, key)))
            &&& (tls_view(setup.tls->Some_0).identity is Some <==> options.mtls_cert_chain is Some
                && options.mtls_private_key is Some)
            &&& (content(files.ca_cert) matches Some(pem) ==> tls_view(
                setup.tls->Some_0,
            ).certificates == seq![pem])
            &&& (content(files.ca_cert) is None ==> tls_view(setup.tls->Some_0).certificates.len()
                == 0)
            &&& (tls_view(setup.tls->Some_0).native_roots <==> options.ca_cert_path is None
                || options.skip_verify)
        }),
{
}

/// A TLS setup that is refused is a fault of the driver, and says why.
pub proof fn law_refused_tls_setup_is_told(text: &str, r: AdbcError)
    requires
        call_ensures(tls_config_error, (text,), r),
    ensures
        tells_of(
            r,
            Status::Internal,
            "creating TLS channel"@,
            "TLS configuration error: "@ + text@,
        ),
{
}

} // verus!
