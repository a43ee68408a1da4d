use vstd::prelude::*;

verus! {

/// The services behind the REST api.
pub trait RestService {}

/// The REST services that hand their commands to a command bus.
pub struct DefaultRestService<Cb> {
    command_bus: Cb,
}

impl<Cb> DefaultRestService<Cb> {
    /// The bus that the services send their commands to.
    pub closed spec fn spec_command_bus(&self) -> Cb {
        self.command_bus
    }

    /// The services over the given command bus.
    pub fn new(command_bus: Cb) -> (r: Self)
        ensures
            r.spec_command_bus() == command_bus,
    {
        DefaultRestService { command_bus }
    }
}

impl<Cb> RestService for DefaultRestService<Cb> {}

} // verus!
