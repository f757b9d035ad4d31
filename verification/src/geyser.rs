use vstd::prelude::*;
use yellowstone_grpc_client::{ClientTlsConfig, GeyserGrpcBuilder, GeyserGrpcBuilderError, GeyserGrpcClient};

verus! {

#[verifier::external_type_specification]
#[verifier::external_body]
pub struct ExGeyserGrpcBuilder(GeyserGrpcBuilder);

#[verifier::external_type_specification]
#[verifier::external_body]
pub struct ExGeyserGrpcBuilderError(GeyserGrpcBuilderError);

#[verifier::external_type_specification]
#[verifier::external_body]
pub struct ExClientTlsConfig(ClientTlsConfig);

/// Whether tonic takes the text as the address of an endpoint.
pub uninterp spec fn accepts_endpoint(url: Seq<char>) -> bool;

/// A character that may stand in a metadata value: a tab, or any character
/// from the space up other than DEL (characters beyond ASCII are written as
/// bytes from 128 up, which are allowed too).
pub open spec fn is_token_char(c: char) -> bool {
    c == '\t' || (c as u32 >= 32 && c as u32 != 127)
}

/// Whether the text can be sent as the `x-token` metadata value.
pub open spec fn accepts_x_token(token: Seq<char>) -> bool {
    forall|i: int| 0 <= i < token.len() ==> is_token_char(#[trigger] token[i])
}

/// A Geyser client builder, with a record of how it was set up: the
/// address it is for, the `x-token` it carries, and whether TLS over the
/// platform's root certificates is configured. Only the steps below make
/// one, so the record is the builder's own.
pub struct ClientBuilder {
    builder: GeyserGrpcBuilder,
    endpoint: String,
    x_token: Option<String>,
    native_roots_tls: bool,
}

impl ClientBuilder {
    /// The address the builder is for.
    pub closed spec fn endpoint(self) -> Seq<char> {
        self.endpoint@
    }

    /// The `x-token` the builder carries, if any.
    pub closed spec fn x_token(self) -> Option<Seq<char>> {
        match self.x_token {
            Some(t) => Some(t@),
            None => None,
        }
    }

    /// Whether TLS over the platform's root certificates is configured.
    pub closed spec fn native_roots_tls(self) -> bool {
        self.native_roots_tls
    }

    /// The builder itself, to connect with.
    pub fn into_inner(self) -> GeyserGrpcBuilder {
        self.builder
    }
}

/// A TLS configuration, with a record of whether it trusts the platform's
/// root certificates.
pub struct TlsSettings {
    config: ClientTlsConfig,
    native_roots: bool,
}

impl TlsSettings {
    /// Whether the configuration trusts the platform's root certificates.
    pub closed spec fn native_roots(self) -> bool {
        self.native_roots
    }
}

/// A step of setting up a client builder.
#[derive(Debug, Clone, Copy, PartialEq, Eq, Structural)]
pub enum BuildStep {
    /// Parsing the address.
    Endpoint,
    /// Setting the `x-token`.
    XToken,
    /// Setting up TLS.
    Tls,
}

/// The error of a step of setting up a client builder, with the step that
/// gave it and the setup that the step was tried on: the address, the
/// `x-token` and whether TLS over the platform's root certificates was
/// being configured. Only the steps below make one.
#[derive(Debug)]
pub struct BuilderError {
    error: GeyserGrpcBuilderError,
    step: BuildStep,
    endpoint: String,
    x_token: Option<String>,
    native_roots_tls: bool,
}

impl BuilderError {
    /// The step that failed.
    pub closed spec fn step(self) -> BuildStep {
        self.step
    }

    /// The address the step was tried for.
    pub closed spec fn endpoint(self) -> Seq<char> {
        self.endpoint@
    }

    /// The `x-token` the step was tried with, if any.
    pub closed spec fn x_token(self) -> Option<Seq<char>> {
        match self.x_token {
            Some(t) => Some(t@),
            None => None,
        }
    }

    /// Whether the step was setting up TLS over the platform's roots.
    pub closed spec fn native_roots_tls(self) -> bool {
        self.native_roots_tls
    }

    /// The error that the step gave.
    pub fn into_inner(self) -> GeyserGrpcBuilderError {
        self.error
    }
}

/// Calls `GeyserGrpcClient::build_from_shared`: a builder for the given
/// address, with no token and no TLS configured; it fails exactly when the
/// address is not accepted, which the source decides from the address alone
/// (`Endpoint::from_shared`).
#[verifier::external_body]
pub(crate) fn builder_for_endpoint(url: String) -> (res: Result<ClientBuilder, BuilderError>)
    ensures
        res is Ok <==> accepts_endpoint(url@),
        res matches Ok(b) ==> b.endpoint() == url@ && b.x_token() is None && !b.native_roots_tls(),
        res matches Err(e) ==> e.step() == BuildStep::Endpoint && e.endpoint() == url@ && e.x_token() is None
            && !e.native_roots_tls(),
{
    let endpoint = url.clone();
    match GeyserGrpcClient::build_from_shared(url) {
        Ok(builder) => Ok(ClientBuilder { builder, endpoint, x_token: None, native_roots_tls: false }),
        Err(error) => Err(BuilderError { error, step: BuildStep::Endpoint, endpoint, x_token: None, native_roots_tls: false }),
    }
}

/// Calls `GeyserGrpcBuilder::x_token` with `Some(token)`: it fails exactly
/// when a character of the token cannot stand in a metadata value (tonic
/// goes through `HeaderValue::from_str` of `http`); otherwise the builder
/// carries the token and keeps its address and TLS setting.
#[verifier::external_body]
pub(crate) fn builder_with_x_token(builder: ClientBuilder, token: String) -> (res: Result<ClientBuilder, BuilderError>)
    ensures
        res is Ok <==> accepts_x_token(token@),
        res matches Ok(b) ==> b.endpoint() == builder.endpoint() && b.x_token() == Some(token@)
            && b.native_roots_tls() == builder.native_roots_tls(),
        res matches Err(e) ==> e.step() == BuildStep::XToken && e.endpoint() == builder.endpoint()
            && e.x_token() == Some(token@) && e.native_roots_tls() == builder.native_roots_tls(),
{
    let tried = token.clone();
    match builder.builder.x_token(Some(token)) {
        Ok(inner) => Ok(ClientBuilder {
            builder: inner, endpoint: builder.endpoint, x_token: Some(tried),
            native_roots_tls: builder.native_roots_tls,
        }),
        Err(error) => Err(BuilderError {
            error, step: BuildStep::XToken, endpoint: builder.endpoint, x_token: Some(tried),
            native_roots_tls: builder.native_roots_tls,
        }),
    }
}

/// Calls `ClientTlsConfig::new().with_native_roots()` of tonic: a TLS
/// configuration that trusts the platform's root certificates.
#[verifier::external_body]
pub(crate) fn native_roots_tls_config() -> (tls: TlsSettings)
    ensures
        tls.native_roots(),
{
    TlsSettings { config: ClientTlsConfig::new().with_native_roots(), native_roots: true }
}

/// Calls `GeyserGrpcBuilder::tls_config`. Whether it succeeds depends on
/// the root certificates found on the machine, so the outcome is not
/// claimed; when it succeeds, the builder keeps its address and token and
/// uses the given TLS configuration; when it fails, the error records the
/// setup it was tried on.
#[verifier::external_body]
pub(crate) fn builder_with_tls(builder: ClientBuilder, tls: TlsSettings) -> (res: Result<ClientBuilder, BuilderError>)
    ensures
        res matches Ok(b) ==> b.endpoint() == builder.endpoint() && b.x_token() == builder.x_token()
            && b.native_roots_tls() == tls.native_roots(),
        res matches Err(e) ==> e.step() == BuildStep::Tls && e.endpoint() == builder.endpoint()
            && e.x_token() == builder.x_token() && e.native_roots_tls() == tls.native_roots(),
{
    match builder.builder.tls_config(tls.config) {
        Ok(inner) => Ok(ClientBuilder {
            builder: inner, endpoint: builder.endpoint, x_token: builder.x_token,
            native_roots_tls: tls.native_roots,
        }),
        Err(error) => Err(BuilderError {
            error, step: BuildStep::Tls, endpoint: builder.endpoint, x_token: builder.x_token,
            native_roots_tls: tls.native_roots,
        }),
    }
}

} // verus!
