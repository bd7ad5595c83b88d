use vstd::prelude::*;

verus! {

/// A service with the name it was registered under.
pub struct RegisteredService<TService> {
    pub name: &'static str,
    pub service: TService,
}

/// The services registered so far, in registration order.
pub struct ServiceRegistry<TService> {
    services: Vec<RegisteredService<TService>>,
}

impl<TService> View for ServiceRegistry<TService> {
    type V = Seq<RegisteredService<TService>>;

    closed spec fn view(&self) -> Seq<RegisteredService<TService>> {
        self.services@
    }
}

/// The names of registered services, in order.
pub open spec fn registered_names<TService>(services: Seq<RegisteredService<TService>>) -> Seq<
    &'static str,
> {
    services.map_values(|registered: RegisteredService<TService>| registered.name)
}

impl<TService> ServiceRegistry<TService> {
    /// A registry with no service.
    pub fn new() -> (registry: Self)
        ensures
            registry@ == Seq::<RegisteredService<TService>>::empty(),
    {
        ServiceRegistry { services: Vec::new() }
    }

    /// Registers a service after those registered before it.
    pub fn register(&mut self, name: &'static str, service: TService)
        ensures
            final(self)@ == old(self)@.push(RegisteredService { name, service }),
    {
        self.services.push(RegisteredService { name, service });
    }

    pub fn len(&self) -> (count: usize)
        ensures
            count == self@.len(),
    {
        self.services.len()
    }

    /// The registered services, in registration order.
    pub fn into_services(self) -> (services: Vec<RegisteredService<TService>>)
        ensures
            services@ == self@,
    {
        self.services
    }
}

/// Registration keeps order: after registering services one after the other,
/// their names stand in the order of registration, after the names registered
/// before.
pub proof fn lemma_registration_keeps_order<TService>(
    before: Seq<RegisteredService<TService>>,
    name: &'static str,
    service: TService,
)
    ensures
        registered_names(before.push(RegisteredService { name, service })) == registered_names(
            before,
        ).push(name),
{
    assert(registered_names(before.push(RegisteredService { name, service }))
        =~= registered_names(before).push(name));
}

} // verus!
