//! The persistence collaborator, modelled as what it is to the engine: a
//! single-slot store holding at most one agreement record, read and
//! overwritten atomically by each transition.

use vstd::prelude::*;
use crate::state::{State, StateView};
use crate::error::StdError;

verus! {

/// The single-slot keyed store behind the one agreement record.
pub struct Store {
    state: Option<State>,
}

impl View for Store {
    type V = Option<StateView>;

    closed spec fn view(&self) -> Option<StateView> {
        match self.state {
            Some(s) => Some(s@),
            None => None,
        }
    }
}

impl Store {
    /// A store in which nothing was ever saved.
    pub fn new() -> (s: Store)
        ensures
            s@ is None,
    {
        Store { state: None }
    }

    /// Overwrites the slot with `state`, in place and atomically.
    pub fn save(&mut self, state: &State)
        ensures
            final(self)@ == Some(state@),
    {
        self.state = Some(state.clone());
    }

    /// Reads the slot; fails exactly when nothing was ever saved.
    pub fn load(&self) -> (r: Result<State, StdError>)
        ensures
            match r {
                Ok(s) => self@ == Some(s@),
                Err(e) => self@ is None && e == (StdError::NotFound {  }),
            },
    {
        match &self.state {
            Some(s) => Ok(s.clone()),
            None => Err(StdError::NotFound {  }),
        }
    }
}

} // verus!
