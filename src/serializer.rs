use vstd::prelude::*;

use crate::person::Person;

verus! {

/// Why a storage operation failed.
#[derive(Clone, Copy, Debug, PartialEq, Eq, Structural)]
pub enum StorageError {
    /// Nothing has been saved.
    NoData,
    /// The serializer could not encode the value.
    Encode,
    /// The stored bytes are not an encoding of a value.
    Decode,
}

/// A binary format for values of `T`.
pub trait Serializer<T: View>: Sized {
    /// The bytes that encode a value.
    spec fn encoded(v: T::V) -> Seq<u8>;

    /// Encodes `value`; on success the bytes are its encoding.
    fn to_bytes(&self, value: &T) -> (r: Result<Vec<u8>, StorageError>)
        ensures
            r matches Ok(b) ==> b@ == Self::encoded(value@),
            r matches Err(e) ==> e == StorageError::Encode,
    ;

    /// Decodes `bytes`; the encoding of a value always decodes to that value.
    fn from_bytes(&self, bytes: &[u8]) -> (r: Result<T, StorageError>)
        ensures
            r matches Ok(x) ==> forall|v: T::V| #[trigger] Self::encoded(v) == bytes@ ==> x@ == v,
            r matches Err(e) ==> e == StorageError::Decode && forall|v: T::V| #[trigger] Self::encoded(v) != bytes@,
    ;
}

/// Borsh: the name as a four-byte length and its UTF-8 bytes, then the age
/// in four little-endian bytes.
pub struct BorshSerializer;

/// JSON text.
pub struct JsonSerializer;

/// Wincode: the name as an eight-byte length and its UTF-8 bytes, then the
/// age in four little-endian bytes.
pub struct WincodeSerializer;

/// The Borsh encoding of a name and an age.
pub uninterp spec fn borsh_bytes(name: Seq<char>, age: u32) -> Seq<u8>;

/// The JSON encoding of a name and an age.
pub uninterp spec fn json_bytes(name: Seq<char>, age: u32) -> Seq<u8>;

/// The wincode encoding of a name and an age.
pub uninterp spec fn wincode_bytes(name: Seq<char>, age: u32) -> Seq<u8>;

/// Relies on `borsh::to_vec` of the pair `(name, age)`, which Borsh lays out
/// as the fields in order.
#[verifier::external_body]
fn borsh_encode(name: &String, age: u32) -> (r: Option<Vec<u8>>)
    ensures
        r matches Some(b) ==> b@ == borsh_bytes(name@, age),
{
    borsh::to_vec(&(name, age)).ok()
}

/// Relies on `borsh::from_slice` of a pair `(String, u32)`: decoding the
/// encoding of a pair gives back that pair.
#[verifier::external_body]
fn borsh_decode(bytes: &[u8]) -> (r: Option<(String, u32)>)
    ensures
        r is None ==> forall|n: Seq<char>, a: u32| #[trigger] borsh_bytes(n, a) != bytes@,
        r matches Some(p) ==> forall|n: Seq<char>, a: u32| #[trigger] borsh_bytes(n, a) == bytes@ ==> p.0@ == n && p.1 == a,
{
    borsh::from_slice::<(String, u32)>(bytes).ok()
}

/// Relies on `serde_json::to_vec` of the pair `(name, age)`.
#[verifier::external_body]
fn json_encode(name: &String, age: u32) -> (r: Option<Vec<u8>>)
    ensures
        r matches Some(b) ==> b@ == json_bytes(name@, age),
{
    serde_json::to_vec(&(name, age)).ok()
}

/// Relies on `serde_json::from_slice` of a pair `(String, u32)`: decoding the
/// encoding of a pair gives back that pair.
#[verifier::external_body]
fn json_decode(bytes: &[u8]) -> (r: Option<(String, u32)>)
    ensures
        r is None ==> forall|n: Seq<char>, a: u32| #[trigger] json_bytes(n, a) != bytes@,
        r matches Some(p) ==> forall|n: Seq<char>, a: u32| #[trigger] json_bytes(n, a) == bytes@ ==> p.0@ == n && p.1 == a,
{
    serde_json::from_slice::<(String, u32)>(bytes).ok()
}

/// Relies on `wincode::serialize` of the pair `(name, age)`, which wincode
/// lays out as the fields in order.
#[verifier::external_body]
fn wincode_encode(name: &String, age: u32) -> (r: Option<Vec<u8>>)
    ensures
        r matches Some(b) ==> b@ == wincode_bytes(name@, age),
{
    wincode::serialize(&(name.clone(), age)).ok()
}

/// Relies on `wincode::deserialize` of a pair `(String, u32)`: decoding the
/// encoding of a pair gives back that pair.
#[verifier::external_body]
fn wincode_decode(bytes: &[u8]) -> (r: Option<(String, u32)>)
    ensures
        r is None ==> forall|n: Seq<char>, a: u32| #[trigger] wincode_bytes(n, a) != bytes@,
        r matches Some(p) ==> forall|n: Seq<char>, a: u32| #[trigger] wincode_bytes(n, a) == bytes@ ==> p.0@ == n && p.1 == a,
{
    wincode::deserialize::<(String, u32)>(bytes).ok()
}

impl Serializer<Person> for BorshSerializer {
    open spec fn encoded(v: (Seq<char>, u32)) -> Seq<u8> {
        borsh_bytes(v.0, v.1)
    }

    fn to_bytes(&self, value: &Person) -> (r: Result<Vec<u8>, StorageError>) {
        match borsh_encode(&value.name, value.age) {
            Some(b) => Ok(b),
            None => Err(StorageError::Encode),
        }
    }

    fn from_bytes(&self, bytes: &[u8]) -> (r: Result<Person, StorageError>) {
        match borsh_decode(bytes) {
            Some((name, age)) => Ok(Person { name, age }),
            None => Err(StorageError::Decode),
        }
    }
}

impl Serializer<Person> for JsonSerializer {
    open spec fn encoded(v: (Seq<char>, u32)) -> Seq<u8> {
        json_bytes(v.0, v.1)
    }

    fn to_bytes(&self, value: &Person) -> (r: Result<Vec<u8>, StorageError>) {
        match json_encode(&value.name, value.age) {
            Some(b) => Ok(b),
            None => Err(StorageError::Encode),
        }
    }

    fn from_bytes(&self, bytes: &[u8]) -> (r: Result<Person, StorageError>) {
        match json_decode(bytes) {
            Some((name, age)) => Ok(Person { name, age }),
            None => Err(StorageError::Decode),
        }
    }
}

impl Serializer<Person> for WincodeSerializer {
    open spec fn encoded(v: (Seq<char>, u32)) -> Seq<u8> {
        wincode_bytes(v.0, v.1)
    }

    fn to_bytes(&self, value: &Person) -> (r: Result<Vec<u8>, StorageError>) {
        match wincode_encode(&value.name, value.age) {
            Some(b) => Ok(b),
            None => Err(StorageError::Encode),
        }
    }

    fn from_bytes(&self, bytes: &[u8]) -> (r: Result<Person, StorageError>) {
        match wincode_decode(bytes) {
            Some((name, age)) => Ok(Person { name, age }),
            None => Err(StorageError::Decode),
        }
    }
}

} // verus!
