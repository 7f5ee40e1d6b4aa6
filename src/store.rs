//! A store of objects addressed by key, whose deletions may fail while it
//! cannot be reached.
use vstd::prelude::*;
use crate::keys::{contains_text, distinct, key_set, orphaned_keys};

verus! {

/// Why a deletion did not take place.
#[derive(PartialEq, Eq, Structural, Clone, Copy, Debug)]
pub enum StoreError {
    /// The store could not be reached, or refused the request.
    Unavailable,
}

/// The keys held by an object store, and whether it can be reached.
pub struct Bucket {
    pub objects: Vec<String>,
    pub online: bool,
}

impl Bucket {
    /// Whether the store holds an object under `key`.
    pub fn holds(&self, key: &String) -> (r: bool)
        ensures
            r == key_set(self.objects@).contains(key@),
    {
        contains_text(&self.objects, key)
    }

    /// Deletes the objects under `keys` and returns how many there were.
    /// A key that the store does not hold is no error, and an empty batch
    /// succeeds without reaching the store.
    pub fn delete_batch(&mut self, keys: &Vec<String>) -> (r: Result<usize, StoreError>)
        ensures
            keys@.len() == 0 ==> r == Ok::<usize, StoreError>(0) && *final(self) == *old(self),
            keys@.len() > 0 && !old(self).online ==> r == Err::<usize, StoreError>(
                StoreError::Unavailable,
            ) && *final(self) == *old(self),
            keys@.len() > 0 && old(self).online ==> {
                &&& r is Ok
                &&& final(self).online
                &&& key_set(final(self).objects@) == key_set(old(self).objects@).difference(
                    key_set(keys@),
                )
                &&& r.unwrap() == old(self).objects@.len() - final(self).objects@.len()
            },
            distinct(old(self).objects@) ==> distinct(final(self).objects@),
    {
        if keys.len() == 0 {
            return Ok(0);
        }
        if !self.online {
            return Err(StoreError::Unavailable);
        }
        let kept = orphaned_keys(&self.objects, keys);
        let removed = self.objects.len() - kept.len();
        self.objects = kept;
        Ok(removed)
    }
}

} // verus!
