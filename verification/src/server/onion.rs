use vstd::prelude::*;

verus! {

/// A layer wraps a service in another service.
pub trait Layer<S> {
    type Service;

    /// The service that the layer makes around `inner`.
    fn layer(&self, inner: S) -> Self::Service;
}

/// Builds a service from the inside out, one layer at a time.
pub struct ServiceBuilder<S> {
    service: S,
}

impl<S> ServiceBuilder<S> {
    /// The service built so far.
    pub closed spec fn spec_service(&self) -> S {
        self.service
    }

    /// Starts from the innermost service.
    pub fn new(service: S) -> (b: Self)
        ensures
            b.spec_service() == service,
    {
        ServiceBuilder { service }
    }

    /// Wraps the service built so far in `layer`: the new service is one
    /// that the layer's `layer` returns for the service built so far.
    pub fn layer<L: Layer<S>>(self, layer: L) -> (b: ServiceBuilder<L::Service>)
        ensures
            call_ensures(L::layer, (&layer, self.spec_service()), b.spec_service()),
    {
        let wrap = L::layer;
        let wrapped = wrap(&layer, self.service);
        ServiceBuilder::new(wrapped)
    }

    /// The service built.
    pub fn build(self) -> (s: S)
        ensures
            s == self.spec_service(),
    {
        self.service
    }
}

} // verus!
