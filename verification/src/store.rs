//! The single record that a contract keeps between calls.

use vstd::prelude::*;
use crate::error::ContractError;

verus! {

/// Storage for one record of type `T`: empty until the first `save`, then
/// holding the record that was saved last.
#[derive(Debug, Clone, PartialEq, Eq)]
pub struct StateStore<T> {
    record: Option<T>,
}

impl<T> View for StateStore<T> {
    type V = Option<T>;

    closed spec fn view(&self) -> Option<T> {
        self.record
    }
}

impl<T: View> StateStore<T> {
    /// What the store holds, as a mathematical value.
    pub open spec fn stored(&self) -> Option<T::V> {
        match self@ {
            Some(record) => Some(record@),
            None => None,
        }
    }
}

impl<T> StateStore<T> {
    /// A store in which nothing was saved yet.
    pub fn new() -> (res: Self)
        ensures
            res@ == None::<T>,
    {
        StateStore { record: None }
    }

    /// The record, or `NotFound` where none was saved.
    pub fn load(&self) -> (res: Result<&T, ContractError>)
        ensures
            res == match self@ {
                Some(record) => Ok::<&T, ContractError>(&record),
                None => Err::<&T, ContractError>(ContractError::NotFound),
            },
    {
        match &self.record {
            Some(record) => Ok(record),
            None => Err(ContractError::NotFound),
        }
    }

    /// Replaces the record, if any, by `record`.
    pub fn save(&mut self, record: T)
        ensures
            final(self)@ == Some(record),
    {
        self.record = Some(record);
    }

    /// Hands the record to `action` and saves what it returns. Where no
    /// record was saved, or `action` returns an error, nothing is written
    /// and the error is returned.
    pub fn update<F>(&mut self, action: F) -> (res: Result<&T, ContractError>)
        where F: FnOnce(&T) -> Result<T, ContractError>
        requires
            old(self)@ matches Some(record) ==> action.requires((&record,)),
        ensures
            old(self)@ is None ==> res == Err::<&T, ContractError>(ContractError::NotFound)
                && final(self)@ == old(self)@,
            old(self)@ matches Some(record) ==> match res {
                Ok(saved) => final(self)@ == Some(*saved) && action.ensures(
                    (&record,),
                    Ok(*saved),
                ),
                Err(e) => final(self)@ == old(self)@ && action.ensures((&record,), Err(e)),
            },
    {
        let outcome = match &self.record {
            Some(record) => action(record),
            None => {
                return Err(ContractError::NotFound);
            },
        };
        match outcome {
            Ok(next) => {
                self.record = Some(next);
            },
            Err(e) => {
                return Err(e);
            },
        }
        self.load()
    }
}

} // verus!
