use vstd::prelude::*;

verus! {

/// Diagnostics settings carried through, untouched, to the transport layer.
#[derive(Clone, Debug)]
pub struct DiagnosticsOptions {
    /// Optional application identifier attached to outgoing telemetry.
    pub application_id: Option<String>,
    /// Whether request logging is enabled.
    pub logging: bool,
    /// Whether the content of requests may be logged as well.
    pub logging_content: bool,
    /// Whether telemetry emission is enabled.
    pub telemetry: bool,
}

/// The mathematical content of a [`DiagnosticsOptions`].
pub struct DiagnosticsView {
    pub application_id: Option<Seq<char>>,
    pub logging: bool,
    pub logging_content: bool,
    pub telemetry: bool,
}

impl View for DiagnosticsOptions {
    type V = DiagnosticsView;

    open spec fn view(&self) -> DiagnosticsView {
        DiagnosticsView {
            application_id: self.application_id.deep_view(),
            logging: self.logging,
            logging_content: self.logging_content,
            telemetry: self.telemetry,
        }
    }
}

impl Default for DiagnosticsOptions {
    /// Logging and telemetry are on by default; logging of request content is
    /// opt-in, and no application identifier is attached.
    fn default() -> (r: Self)
        ensures
            r@.application_id is None,
            r@.logging,
            !r@.logging_content,
            r@.telemetry,
    {
        DiagnosticsOptions {
            application_id: None,
            logging: true,
            logging_content: false,
            telemetry: true,
        }
    }
}

/// Which retry policy the transport should apply.  The selector carries no
/// tunable parameters; it is configuration data passed through to the
/// transport, never acted on while a client is being configured.
#[derive(Clone, Copy, PartialEq, Eq, Structural, Debug)]
pub enum RetryMode {
    /// Retry with exponentially growing delays (the default).
    Exponential,
    /// Retry with a fixed delay.
    Fixed,
    /// A caller-supplied policy.
    Custom,
    /// Never retry.
    Disabled,
}

/// Retry behaviour selection, carried through to the transport layer.
#[derive(Clone, Debug)]
pub struct RetryOptions {
    mode: RetryMode,
}

impl View for RetryOptions {
    type V = RetryMode;

    closed spec fn view(&self) -> RetryMode {
        self.mode
    }
}

impl RetryOptions {
    /// Retry with exponentially growing delays.
    pub fn exponential() -> (r: Self)
        ensures
            r@ == RetryMode::Exponential,
    {
        RetryOptions { mode: RetryMode::Exponential }
    }

    /// Retry with a fixed delay.
    pub fn fixed() -> (r: Self)
        ensures
            r@ == RetryMode::Fixed,
    {
        RetryOptions { mode: RetryMode::Fixed }
    }

    /// Use a caller-supplied retry policy.
    pub fn custom() -> (r: Self)
        ensures
            r@ == RetryMode::Custom,
    {
        RetryOptions { mode: RetryMode::Custom }
    }

    /// Never retry.
    pub fn none() -> (r: Self)
        ensures
            r@ == RetryMode::Disabled,
    {
        RetryOptions { mode: RetryMode::Disabled }
    }
}

impl Default for RetryOptions {
    /// The default retry policy is exponential back-off.
    fn default() -> (r: Self)
        ensures
            r@ == RetryMode::Exponential,
    {
        RetryOptions { mode: RetryMode::Exponential }
    }
}

/// The aggregate of core options that every client builder carries:
/// diagnostics settings and a retry policy selector.
#[derive(Clone, Debug)]
pub struct ClientBuilder {
    /// Diagnostics settings for the eventual transport.
    pub diagnostics: DiagnosticsOptions,
    /// Retry policy selector for the eventual transport.
    pub retry: RetryOptions,
}

/// The mathematical content of a [`ClientBuilder`].
pub struct ClientBuilderView {
    pub diagnostics: DiagnosticsView,
    pub retry: RetryMode,
}

impl View for ClientBuilder {
    type V = ClientBuilderView;

    open spec fn view(&self) -> ClientBuilderView {
        ClientBuilderView { diagnostics: self.diagnostics@, retry: self.retry@ }
    }
}

impl Default for ClientBuilder {
    /// Both sub-records start at their own defaults.
    fn default() -> (r: Self)
        ensures
            r@.diagnostics.application_id is None,
            r@.diagnostics.logging,
            !r@.diagnostics.logging_content,
            r@.diagnostics.telemetry,
            r@.retry == RetryMode::Exponential,
    {
        ClientBuilder { diagnostics: Default::default(), retry: Default::default() }
    }
}

} // verus!
