//! An endpoint that the controller interface has created, with the handle
//! of the state machine that drives it.
use vstd::prelude::*;

verus! {

/// An endpoint: the handle `E` of its state machine and its endpoint address,
/// read once when the endpoint was created.
#[derive(Debug)]
pub struct Endpoint<E> {
    state_machine: E,
    address: usize,
}

/// The fields of an [`Endpoint`].
pub struct EndpointModel<E> {
    pub state_machine: E,
    pub address: usize,
}

impl<E> View for Endpoint<E> {
    type V = EndpointModel<E>;

    closed spec fn view(&self) -> EndpointModel<E> {
        EndpointModel { state_machine: self.state_machine, address: self.address }
    }
}

impl<E> Endpoint<E> {
    pub fn new(state_machine: E, address: usize) -> (r: Self)
        ensures
            r@ == (EndpointModel { state_machine, address }),
    {
        Self { state_machine, address }
    }

    pub fn endpoint_address(&self) -> (r: usize)
        ensures
            r == self@.address,
    {
        self.address
    }

    pub fn state_machine(&self) -> (r: &E)
        ensures
            *r == self@.state_machine,
    {
        &self.state_machine
    }

    /// A new handle to the endpoint's state machine.
    pub fn clone_state_machine(&self) -> (r: E)
        where
            E: Clone,
        ensures
            cloned::<E>(self@.state_machine, r),
    {
        self.state_machine.clone()
    }
}

} // verus!
