//! A storage client with a typestate configuration builder.
//!
//! The builder encodes, in its type parameters, which of the two mandatory
//! configuration ingredients (a target endpoint and authentication material)
//! have already been supplied.  Finalizing the configuration is only possible
//! on the fully supplied builder type, so an incomplete configuration is
//! rejected at compile time rather than at run time; optional settings may be
//! applied in any order once both ingredients are present.

use vstd::prelude::*;

mod builders;
mod connection_string;
mod credentials;
mod endpoint;
mod errors;
mod options;
mod pipeline;

pub use builders::BlobClientBuilder;
pub use builders::ClientConfig;
pub use builders::Provided;
pub use builders::Unset;
pub use builders::build_failure_input;
pub use builders::empty_config;
pub use builders::has_auth;
pub use builders::has_target;
pub use builders::lemma_connection_string_satisfies_build;
pub use builders::lemma_endpoint_precedence;
pub use builders::resolved_endpoint;
pub use connection_string::ConnectionString;
pub use connection_string::cs_endpoint;
pub use connection_string::cs_lookup;
pub use connection_string::entry_has_value;
pub use connection_string::entry_key;
pub use connection_string::entry_value;
pub use connection_string::first_idx;
pub use credentials::DefaultAzureCredential;
pub use credentials::SharedCredential;
pub use credentials::TokenCredential;
pub use endpoint::url_parse;
pub use errors::Error;
pub use errors::ErrorKind;
pub use errors::ErrorView;
pub use options::ClientBuilder;
pub use options::ClientBuilderView;
pub use options::DiagnosticsOptions;
pub use options::DiagnosticsView;
pub use options::RetryMode;
pub use options::RetryOptions;
pub use pipeline::Headers;
pub use pipeline::Pipeline;
pub use pipeline::RequestContent;
pub use pipeline::Response;
pub use pipeline::ResponseView;
pub use pipeline::StatusCode;

verus! {

/// A storage client for accessing blobs.
///
/// A client is constructed through [`BlobClient::builder`] and, once
/// finalized, is immutable: it holds only the transport pipeline derived
/// from the resolved endpoint, and no further configuration is possible.
pub struct BlobClient {
    pub(crate) pipeline: Pipeline,
}

impl View for BlobClient {
    type V = Seq<char>;

    closed spec fn view(&self) -> Seq<char> {
        self.pipeline@
    }
}

impl BlobClient {
    /// A builder for configuring and constructing a `BlobClient`.
    pub fn builder() -> (r: BlobClientBuilder<Unset, Unset>)
        ensures
            r@ == empty_config(),
    {
        BlobClientBuilder::new()
    }

    /// The transport pipeline this client was finalized with.
    pub fn pipeline(&self) -> (r: &Pipeline)
        ensures
            r@ == self@,
    {
        &self.pipeline
    }
}

} // verus!

mod models;

pub use models::Model;
