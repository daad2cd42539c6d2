//! The tracer provider: exporting where a collector endpoint is configured,
//! a no-op otherwise, and shut down once.

use crate::trace::ClosedSpan;
use vstd::prelude::*;

verus! {

/// The provider as a mathematical value.
pub struct ProviderState {
    /// The collector endpoint, if the provider exports.
    pub endpoint: Option<Seq<char>>,
    /// Whether the provider has been shut down.
    pub shut_down: bool,
}

impl ProviderState {
    /// Whether spans leave the process.
    pub open spec fn exports(self) -> bool {
        self.endpoint.is_some()
    }

    /// Whether a shutdown now has buffered spans to flush.
    pub open spec fn must_flush(self) -> bool {
        self.exports() && !self.shut_down
    }

    /// The provider after a shutdown.
    pub open spec fn after_shutdown(self) -> ProviderState {
        ProviderState { endpoint: self.endpoint, shut_down: true }
    }
}

/// The provider that the configuration asks for: exporting to the endpoint
/// where one is given and not empty, a no-op otherwise.
pub open spec fn configured(endpoint: Option<Seq<char>>) -> ProviderState {
    if endpoint.is_some() && endpoint.unwrap().len() > 0 {
        ProviderState { endpoint, shut_down: false }
    } else {
        ProviderState { endpoint: None, shut_down: false }
    }
}

/// The tracer provider.
pub struct TracerProvider {
    endpoint: Option<String>,
    shut_down: bool,
}

impl View for TracerProvider {
    type V = ProviderState;

    closed spec fn view(&self) -> ProviderState {
        ProviderState {
            endpoint: match self.endpoint {
                Some(e) => Some(e@),
                None => None,
            },
            shut_down: self.shut_down,
        }
    }
}

/// The view of an optional text.
pub open spec fn text_of(endpoint: Option<String>) -> Option<Seq<char>> {
    match endpoint {
        Some(e) => Some(e@),
        None => None,
    }
}

impl TracerProvider {
    /// Builds the provider from the configured collector endpoint.
    pub fn from_environment(endpoint: Option<String>) -> (provider: TracerProvider)
        ensures
            provider@ == configured(text_of(endpoint)),
    {
        match endpoint {
            Some(e) => {
                if e.as_str().is_empty() {
                    TracerProvider { endpoint: None, shut_down: false }
                } else {
                    TracerProvider { endpoint: Some(e), shut_down: false }
                }
            },
            None => TracerProvider { endpoint: None, shut_down: false },
        }
    }

    /// Whether spans leave the process.
    pub fn exports(&self) -> (yes: bool)
        ensures
            yes == self@.exports(),
    {
        self.endpoint.is_some()
    }

    /// The collector endpoint, if the provider exports.
    pub fn endpoint(&self) -> (endpoint: Option<&str>)
        ensures
            endpoint.is_some() == self@.endpoint.is_some(),
            endpoint.is_some() ==> endpoint.unwrap()@ == self@.endpoint.unwrap(),
    {
        match &self.endpoint {
            Some(e) => Some(e.as_str()),
            None => None,
        }
    }

    /// Whether the provider has been shut down.
    pub fn is_shut_down(&self) -> (yes: bool)
        ensures
            yes == self@.shut_down,
    {
        self.shut_down
    }

    /// Whether a span that has ended is handed to the exporter: only a
    /// sampled span, and only while an exporting provider is open.
    pub fn takes(&self, span: &ClosedSpan) -> (yes: bool)
        ensures
            yes == (self@.must_flush() && span.sampled),
    {
        self.endpoint.is_some() && !self.shut_down && span.sampled
    }

    /// Shuts the provider down. Returns whether the exporter is to be flushed
    /// and released now: on the first shutdown of an exporting provider, and
    /// never otherwise.
    pub fn shutdown(&mut self) -> (flush: bool)
        ensures
            flush == old(self)@.must_flush(),
            final(self)@ == old(self)@.after_shutdown(),
    {
        let flush = self.endpoint.is_some() && !self.shut_down;
        self.shut_down = true;
        flush
    }
}

/// The exporter is flushed at most once: after a shutdown no later shutdown
/// flushes, and a provider without an endpoint never does.
pub proof fn flush_happens_once(p: ProviderState)
    ensures
        !p.after_shutdown().must_flush(),
        p.after_shutdown().after_shutdown() == p.after_shutdown(),
        !p.exports() ==> !p.must_flush(),
        configured(None).exports() == false,
{
}

} // verus!
