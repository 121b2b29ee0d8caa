use vstd::prelude::*;

verus! {

/// The capability marker for an authentication credential.
///
/// A credential is an opaque, shareable handle: a builder never inspects or
/// exercises it, it only stores the shared handle and forwards it.  Token
/// acquisition itself lives outside this library.
pub trait TokenCredential {
}

/// A credential that the identity machinery would resolve from the process
/// environment.  The handle itself is inert data as far as client
/// configuration is concerned.
#[derive(Clone, Debug)]
pub struct DefaultAzureCredential {}

impl TokenCredential for DefaultAzureCredential {

}

impl Default for DefaultAzureCredential {
    fn default() -> (r: Self) {
        DefaultAzureCredential {}
    }
}

/// A shared, type-erased credential handle.
///
/// The verifier does not yet accept `dyn`-typed values in verified code, so
/// the erased handle lives behind this opaque wrapper.  Nothing in this
/// library ever looks inside: a wrapped credential is only stored and handed
/// onward, which is all the configuration layer is allowed to do with it.
#[verifier::external_body]
pub struct SharedCredential {
    handle: std::sync::Arc<dyn TokenCredential>,
}

impl SharedCredential {
    /// Erases the concrete credential type behind the shared handle.  The
    /// caller keeps its own `Arc`, so ownership of the underlying credential
    /// stays shared.  Relies on `Arc`'s unsizing coercion alone.
    #[verifier::external_body]
    pub fn new<T: TokenCredential + 'static>(credential: std::sync::Arc<T>) -> SharedCredential {
        SharedCredential { handle: credential }
    }
}

} // verus!
