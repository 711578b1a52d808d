use std::marker::PhantomData;
use vstd::prelude::*;

use crate::serializer::{Serializer, StorageError};

verus! {

/// A slot that keeps at most one value of `T`, encoded with the serializer
/// `S`.
pub struct Storage<T, S> {
    data: Option<Vec<u8>>,
    serializer: S,
    _marker: PhantomData<T>,
}

impl<T: View, S: Serializer<T>> Storage<T, S> {
    /// The stored bytes, if a value was saved.
    pub closed spec fn stored(&self) -> Option<Seq<u8>> {
        match &self.data {
            Some(b) => Some(b@),
            None => None,
        }
    }

    /// An empty slot.
    pub fn new(serializer: S) -> (r: Self)
        ensures
            r.stored() is None,
    {
        Storage { data: None, serializer, _marker: PhantomData }
    }

    /// Replaces the stored value with the encoding of `value`; on failure
    /// the slot is left as it was.
    pub fn save(&mut self, value: &T) -> (r: Result<(), StorageError>)
        ensures
            r is Ok ==> final(self).stored() == Some(S::encoded(value@)),
            r matches Err(e) ==> e == StorageError::Encode && final(self).stored() == old(self).stored(),
    {
        let bytes = self.serializer.to_bytes(value)?;
        self.data = Some(bytes);
        Ok(())
    }

    /// Decodes the stored value.
    pub fn load(&self) -> (r: Result<T, StorageError>)
        ensures
            self.stored() is None ==> r == Err::<T, StorageError>(StorageError::NoData),
            forall|v: T::V| #[trigger] S::encoded(v) == self.stored().unwrap() && self.stored() is Some ==> (r matches Ok(
                x,
            ) && x@ == v),
            self.stored() is Some ==> (r matches Err(e) ==> e == StorageError::Decode),
    {
        match &self.data {
            Some(bytes) => self.serializer.from_bytes(bytes.as_slice()),
            None => Err(StorageError::NoData),
        }
    }

    /// Whether a value is stored.
    pub fn has_data(&self) -> (r: bool)
        ensures
            r == self.stored() is Some,
    {
        self.data.is_some()
    }

    /// Re-encodes the stored value with `new_serializer`.
    pub fn convert<S2: Serializer<T>>(self, new_serializer: S2) -> (r: Result<Storage<T, S2>, StorageError>)
        ensures
            self.stored() is None ==> r == Err::<Storage<T, S2>, StorageError>(StorageError::NoData),
            r matches Ok(st) ==> st.stored() is Some,
            forall|v: T::V| #[trigger] S::encoded(v) == self.stored().unwrap() && self.stored() is Some ==> (r matches Ok(
                st,
            ) ==> st.stored() == Some(S2::encoded(v))),
            forall|v: T::V| #[trigger] S::encoded(v) == self.stored().unwrap() && self.stored() is Some ==> (r matches Err(
                e,
            ) ==> e == StorageError::Encode),
    {
        let bytes = match self.data {
            Some(b) => b,
            None => {
                return Err(StorageError::NoData);
            },
        };
        let value = self.serializer.from_bytes(bytes.as_slice())?;
        let new_bytes = new_serializer.to_bytes(&value)?;
        Ok(Storage { data: Some(new_bytes), serializer: new_serializer, _marker: PhantomData })
    }
}

} // verus!
