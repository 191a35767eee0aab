use vstd::prelude::*;
use std::collections::HashMap;

use crate::error::ClientError;

verus! {

broadcast use vstd::std_specs::hash::group_hash_axioms;

/// The write handles of the downloads in flight, by transfer key. A handle
/// is registered when the server starts pushing a file and removed when the
/// download closes it.
pub struct Registry<H> {
    files: HashMap<u64, H>,
}

impl<H> View for Registry<H> {
    type V = Map<u64, H>;

    closed spec fn view(&self) -> Map<u64, H> {
        self.files@
    }
}

impl<H> Registry<H> {
    pub fn new() -> (r: Registry<H>)
        ensures
            r@ == Map::<u64, H>::empty(),
    {
        Registry { files: HashMap::new() }
    }

    /// Registers `handle` under `key`, replacing any handle already there.
    pub fn create(&mut self, key: u64, handle: H)
        ensures
            final(self)@ == old(self)@.insert(key, handle),
    {
        self.files.insert(key, handle);
    }

    /// Whether a handle is registered under `key`.
    pub fn contains(&self, key: u64) -> (r: bool)
        ensures
            r == self@.contains_key(key),
    {
        self.files.contains_key(&key)
    }

    /// Takes out the handle of `key` so that a write can be applied to it;
    /// the caller registers it again afterwards. An unregistered key is an
    /// error and changes nothing.
    pub fn checkout(&mut self, key: u64) -> (r: Result<H, ClientError>)
        ensures
            old(self)@.contains_key(key) ==> r == Ok::<H, ClientError>(old(self)@[key])
                && final(self)@ == old(self)@.remove(key),
            !old(self)@.contains_key(key) ==> r == Err::<H, ClientError>(
                ClientError::UnknownKey(key),
            ) && final(self)@ == old(self)@,
    {
        match self.files.remove(&key) {
            Some(h) => Ok(h),
            None => {
                proof {
                    assert(self.files@ =~= old(self).files@);
                }
                Err(ClientError::UnknownKey(key))
            },
        }
    }

    /// Removes the handle of `key` and hands it back for flushing; an
    /// unregistered key yields nothing.
    pub fn close(&mut self, key: u64) -> (r: Option<H>)
        ensures
            final(self)@ == old(self)@.remove(key),
            old(self)@.contains_key(key) ==> r == Some(old(self)@[key]),
            !old(self)@.contains_key(key) ==> r is None,
    {
        self.files.remove(&key)
    }
}

} // verus!
