use crate::BlobClient;
use crate::connection_string::ConnectionString;
use crate::connection_string::cs_endpoint;
use crate::credentials::SharedCredential;
use crate::endpoint::parse_absolute_url;
use crate::endpoint::url_parse;
use crate::errors::Error;
use crate::errors::ErrorKind;
use crate::options::ClientBuilder;
use crate::options::ClientBuilderView;
use crate::options::DiagnosticsOptions;
use crate::options::DiagnosticsView;
use crate::options::RetryMode;
use crate::options::RetryOptions;
use crate::pipeline::Pipeline;
use vstd::prelude::*;

verus! {

/// Type-level marker: the corresponding mandatory ingredient has been
/// supplied.  It only ever appears as a type argument.
#[derive(Clone, Copy, Debug)]
pub struct Provided;

/// Type-level marker: the corresponding mandatory ingredient is still
/// missing.  It only ever appears as a type argument.
#[derive(Clone, Copy, Debug)]
pub struct Unset;

/// The mathematical content of a [`BlobClientBuilder`], independent of the
/// builder's type-level state.
pub struct ClientConfig {
    pub endpoint: Option<Seq<char>>,
    pub connection_string: Option<Seq<char>>,
    pub has_credential: bool,
    pub sas_token: Option<Seq<char>>,
    pub api_version: Option<Seq<char>>,
    pub options: ClientBuilderView,
}

/// The configuration of a freshly created builder: nothing supplied, every
/// option at its default.
pub open spec fn empty_config() -> ClientConfig {
    ClientConfig {
        endpoint: None,
        connection_string: None,
        has_credential: false,
        sas_token: None,
        api_version: None,
        options: ClientBuilderView {
            diagnostics: DiagnosticsView {
                application_id: None,
                logging: true,
                logging_content: false,
                telemetry: true,
            },
            retry: RetryMode::Exponential,
        },
    }
}

/// Whether a configuration has its target: an endpoint, set directly or
/// carried by a connection string.
pub open spec fn has_target(c: ClientConfig) -> bool {
    c.endpoint is Some || c.connection_string is Some
}

/// Whether a configuration has its authentication material: a credential, a
/// SAS token, or a connection string (which carries credentials itself).
pub open spec fn has_auth(c: ClientConfig) -> bool {
    c.has_credential || c.sas_token is Some || c.connection_string is Some
}

/// The endpoint a finalized client uses.  An explicitly set endpoint is
/// authoritative and used verbatim (it was already validated and normalized
/// when it was set); otherwise the endpoint is derived from the connection
/// string's entries and must itself parse as an absolute URL.
pub open spec fn resolved_endpoint(c: ClientConfig) -> Option<Seq<char>> {
    match c.endpoint {
        Some(e) => Some(e),
        None => match c.connection_string {
            Some(cs) => match cs_endpoint(cs) {
                Some(derived) => url_parse(derived),
                None => None,
            },
            None => None,
        },
    }
}

/// The text a failed finalize reports: the connection string itself when
/// its endpoint ingredients are missing, otherwise the derived endpoint
/// that failed URL validation.  (With an explicitly set endpoint a finalize
/// cannot fail, so the text is arbitrary there.)
pub open spec fn build_failure_input(c: ClientConfig) -> Seq<char> {
    match c.connection_string {
        Some(cs) => match cs_endpoint(cs) {
            Some(derived) => derived,
            None => cs,
        },
        None => Seq::empty(),
    }
}

/// Configures and constructs a [`BlobClient`].
///
/// The two type parameters record, at the type level, whether the target
/// (endpoint or connection string) and the authentication material
/// (credential, SAS token, or connection string) have been supplied.  The
/// finalizing [`build`](BlobClientBuilder::build) call only exists on
/// `BlobClientBuilder<Provided, Provided>`, so a client cannot be
/// constructed from an incomplete configuration: the attempt does not
/// compile, and no missing-required-field failure exists at run time.
///
/// A builder is single-use: every configuring call consumes it and returns
/// the successor, so the type a caller holds always reflects the state its
/// configuration has reached.
pub struct BlobClientBuilder<C, A> {
    endpoint: Option<String>,
    credential: Option<SharedCredential>,
    connection_string: Option<String>,
    sas_token: Option<String>,
    api_version: Option<String>,
    options: ClientBuilder,
    _phantom: core::marker::PhantomData<(C, A)>,
}

impl<C, A> View for BlobClientBuilder<C, A> {
    type V = ClientConfig;

    closed spec fn view(&self) -> ClientConfig {
        ClientConfig {
            endpoint: self.endpoint.deep_view(),
            connection_string: self.connection_string.deep_view(),
            has_credential: self.credential is Some,
            sas_token: self.sas_token.deep_view(),
            api_version: self.api_version.deep_view(),
            options: self.options@,
        }
    }
}

impl<C, A> BlobClientBuilder<C, A> {
    /// Re-tags the builder with a new type-level state; the configuration
    /// itself is unchanged.
    fn retag<C2, A2>(self) -> (r: BlobClientBuilder<C2, A2>)
        ensures
            r@ == self@,
    {
        BlobClientBuilder {
            endpoint: self.endpoint,
            credential: self.credential,
            connection_string: self.connection_string,
            sas_token: self.sas_token,
            api_version: self.api_version,
            options: self.options,
            _phantom: core::marker::PhantomData,
        }
    }
}

impl BlobClientBuilder<Unset, Unset> {
    /// Creates a builder with nothing supplied yet.  A target must be
    /// supplied first, then authentication; optional overrides follow.
    pub fn new() -> (r: Self)
        ensures
            r@ == empty_config(),
    {
        BlobClientBuilder {
            endpoint: None,
            credential: None,
            connection_string: None,
            sas_token: None,
            api_version: None,
            options: ClientBuilder::default(),
            _phantom: core::marker::PhantomData,
        }
    }

    /// Supplies the target endpoint, validating it at once: the text must
    /// parse as an absolute URL, and is stored in its parsed, normalized
    /// form.  On failure the builder comes back unchanged beside the error,
    /// still awaiting a corrected target.
    pub fn with_endpoint(self, endpoint: &str) -> (r: Result<
        BlobClientBuilder<Provided, Unset>,
        (BlobClientBuilder<Unset, Unset>, Error),
    >)
        ensures
            r is Ok <==> url_parse(endpoint@) is Some,
            r matches Ok(b) ==> url_parse(endpoint@) matches Some(u) && b@ == (ClientConfig {
                endpoint: Some(u),
                ..self@
            }),
            r matches Err((b, e)) ==> b@ == self@ && e@.kind == ErrorKind::InvalidEndpoint
                && e@.input == endpoint@,
    {
        match parse_absolute_url(endpoint) {
            Some(u) => Ok(
                BlobClientBuilder { endpoint: Some(u), ..self.retag() },
            ),
            None => Err((self, Error::invalid_endpoint(endpoint.to_owned()))),
        }
    }

    /// Supplies a connection string, stored verbatim.  A connection string
    /// carries both the endpoint and the credentials, so it satisfies both
    /// mandatory ingredients at once; its entries are not examined until
    /// finalize time.
    pub fn with_connection_string(self, connection_string: &str) -> (r: BlobClientBuilder<
        Provided,
        Provided,
    >)
        requires
            connection_string@.len() > 0,
        ensures
            r@ == (ClientConfig { connection_string: Some(connection_string@), ..self@ }),
    {
        BlobClientBuilder {
            connection_string: Some(connection_string.to_owned()),
            ..self.retag()
        }
    }
}

impl BlobClientBuilder<Provided, Unset> {
    /// Supplies the credential for the endpoint.  The shared handle is
    /// stored and later forwarded; it is never inspected or exercised while
    /// the client is being configured.
    pub fn with_credential(self, credential: SharedCredential) -> (r: BlobClientBuilder<
        Provided,
        Provided,
    >)
        ensures
            r@ == (ClientConfig { has_credential: true, ..self@ }),
    {
        BlobClientBuilder { credential: Some(credential), ..self.retag() }
    }

    /// Supplies the SAS token for the endpoint.
    pub fn with_sas_token(self, sas_token: &str) -> (r: BlobClientBuilder<Provided, Provided>)
        requires
            sas_token@.len() > 0,
        ensures
            r@ == (ClientConfig { sas_token: Some(sas_token@), ..self@ }),
    {
        BlobClientBuilder { sas_token: Some(sas_token.to_owned()), ..self.retag() }
    }
}

impl BlobClientBuilder<Provided, Provided> {
    /// Overrides the api-version query parameter sent to the endpoint.  May
    /// be called any number of times; the last value wins.
    pub fn with_api_version(self, api_version: &str) -> (r: Self)
        requires
            api_version@.len() > 0,
        ensures
            r@ == (ClientConfig { api_version: Some(api_version@), ..self@ }),
    {
        BlobClientBuilder { api_version: Some(api_version.to_owned()), ..self.retag() }
    }

    /// Replaces the diagnostics sub-record of the options aggregate.  May be
    /// called any number of times; the last value wins.
    pub fn with_diagnostics(self, options: DiagnosticsOptions) -> (r: Self)
        ensures
            r@ == (ClientConfig {
                options: ClientBuilderView { diagnostics: options@, retry: self@.options.retry },
                ..self@
            }),
    {
        let mut b: Self = self.retag();
        b.options.diagnostics = options;
        b
    }

    /// Replaces the retry policy of the options aggregate.  May be called
    /// any number of times; the last value wins.
    pub fn with_retry(self, options: RetryOptions) -> (r: Self)
        ensures
            r@ == (ClientConfig {
                options: ClientBuilderView {
                    diagnostics: self@.options.diagnostics,
                    retry: options@,
                },
                ..self@
            }),
    {
        let mut b: Self = self.retag();
        b.options.retry = options;
        b
    }

    /// The api-version override currently configured, if any.
    pub fn api_version(&self) -> (r: &Option<String>)
        ensures
            r.deep_view() == self@.api_version,
    {
        &self.api_version
    }

    /// Finalizes the configuration into a [`BlobClient`].
    ///
    /// An explicitly set endpoint is authoritative and used verbatim (it was
    /// validated when it was set), so a finalize with one cannot fail.
    /// Otherwise the endpoint is derived from the connection string's
    /// entries and validated here: a connection string that does not
    /// describe a well-formed absolute URL fails with
    /// [`ErrorKind::InvalidEndpoint`].  No I/O takes place; the transport
    /// pipeline is constructed inertly from the resolved endpoint.
    pub fn build(self) -> (r: Result<BlobClient, Error>)
        requires
            has_target(self@),
        ensures
            r is Ok <==> resolved_endpoint(self@) is Some,
            r matches Ok(c) ==> resolved_endpoint(self@) matches Some(e) && c@ == e,
            r matches Err(e) ==> resolved_endpoint(self@) is None && e@.kind
                == ErrorKind::InvalidEndpoint && e@.input == build_failure_input(self@),
    {
        let endpoint_text: String = match self.endpoint {
            Some(e) => e,
            None => {
                let cs = self.connection_string.unwrap();
                match ConnectionString::parse(cs.as_str()) {
                    Ok(parsed) => match parse_absolute_url(parsed.endpoint.as_str()) {
                        Some(u) => u,
                        None => {
                            return Err(Error::invalid_endpoint(parsed.endpoint));
                        },
                    },
                    Err(e) => {
                        return Err(e);
                    },
                }
            },
        };
        Ok(BlobClient { pipeline: Pipeline::new(endpoint_text) })
    }
}

/// Law: a connection string alone satisfies both mandatory ingredients.  A
/// configuration holding one has its target and its authentication, so it
/// is immediately eligible for finalizing.
pub proof fn lemma_connection_string_satisfies_build(c: ClientConfig)
    requires
        c.connection_string is Some,
    ensures
        has_target(c),
        has_auth(c),
{
}

/// Law: the explicitly set endpoint takes precedence.  Whenever both an
/// endpoint and a connection string are present, the resolved endpoint is
/// the explicitly set one; the connection string is not consulted.
pub proof fn lemma_endpoint_precedence(c: ClientConfig)
    requires
        c.endpoint is Some,
        c.connection_string is Some,
    ensures
        resolved_endpoint(c) == c.endpoint,
{
}

} // verus!
