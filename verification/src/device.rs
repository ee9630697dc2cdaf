//! A device that the controller interface has created, with the handle of the
//! state machine that drives it and the endpoints created for it.
use vstd::prelude::*;
use crate::endpoint::{Endpoint, EndpointModel};

verus! {

/// A device: the handle `D` of its state machine, the address the controller
/// gave it, and its endpoints in the order they were created.
#[derive(Debug)]
pub struct Device<D, E> {
    state_machine: D,
    address: usize,
    endpoints: Vec<Endpoint<E>>,
}

/// The fields of a [`Device`].
pub struct DeviceModel<D, E> {
    pub state_machine: D,
    pub address: usize,
    pub endpoints: Seq<EndpointModel<E>>,
}

impl<D, E> View for Device<D, E> {
    type V = DeviceModel<D, E>;

    closed spec fn view(&self) -> DeviceModel<D, E> {
        DeviceModel {
            state_machine: self.state_machine,
            address: self.address,
            endpoints: self.endpoints@.map_values(|e: Endpoint<E>| e@),
        }
    }
}

impl<D, E> Device<D, E> {
    /// A device with no endpoints yet.
    pub fn new(state_machine: D, address: usize) -> (r: Self)
        ensures
            r@ == (DeviceModel {
                state_machine,
                address,
                endpoints: Seq::<EndpointModel<E>>::empty(),
            }),
    {
        let endpoints: Vec<Endpoint<E>> = Vec::new();
        proof {
            assert(endpoints@.map_values(|e: Endpoint<E>| e@) =~= Seq::<EndpointModel<E>>::empty());
        }
        Self { state_machine, address, endpoints }
    }

    /// Adds an endpoint after the existing ones.
    pub fn add_endpoint(&mut self, endpoint: Endpoint<E>)
        ensures
            final(self)@ == (DeviceModel {
                endpoints: old(self)@.endpoints.push(endpoint@),
                ..old(self)@
            }),
    {
        self.endpoints.push(endpoint);
        proof {
            assert(self.endpoints@.map_values(|e: Endpoint<E>| e@) =~= old(self)@.endpoints.push(
                endpoint@,
            ));
        }
    }

    pub fn device_address(&self) -> (r: usize)
        ensures
            r == self@.address,
    {
        self.address
    }

    pub fn state_machine(&self) -> (r: &D)
        ensures
            *r == self@.state_machine,
    {
        &self.state_machine
    }

    pub fn endpoints(&self) -> (r: &[Endpoint<E>])
        ensures
            r@.map_values(|e: Endpoint<E>| e@) == self@.endpoints,
    {
        self.endpoints.as_slice()
    }
}

} // verus!
