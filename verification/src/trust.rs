//! Items of the engine's trust database.

use vstd::prelude::*;

verus! {

/// What a trust item of the engine holds.
pub struct TrustItemView {
    pub level: i32,
    pub key_id: Option<Seq<u8>>,
    pub owner_trust: Option<Seq<u8>>,
    pub name: Option<Seq<u8>>,
    pub validity: Option<Seq<u8>>,
}

/// One item of the trust database, as the engine recorded it.
pub struct TrustItem {
    level: i32,
    key_id: Option<Vec<u8>>,
    owner_trust: Option<Vec<u8>>,
    name: Option<Vec<u8>>,
    validity: Option<Vec<u8>>,
}

/// The bytes of a string that may be absent.
pub open spec fn bytes_of(field: Option<Vec<u8>>) -> Option<Seq<u8>> {
    match field {
        Some(v) => Some(v@),
        None => None,
    }
}

/// A borrowed view of a string that may be absent.
fn borrow(field: &Option<Vec<u8>>) -> (r: Option<&[u8]>)
    ensures
        r is Some <==> field is Some,
        r matches Some(bytes) ==> bytes_of(*field) == Some(bytes@),
{
    match field {
        Some(v) => Some(v.as_slice()),
        None => None,
    }
}

/// A copy of a string that may be absent.
fn copy(field: &Option<Vec<u8>>) -> (r: Option<Vec<u8>>)
    ensures
        bytes_of(r) == bytes_of(*field),
{
    match field {
        Some(v) => {
            let c = v.clone();
            assert(c@ =~= v@);
            Some(c)
        },
        None => None,
    }
}

impl Clone for TrustItem {
    /// A second handle on the same record: every field reads the same.
    fn clone(&self) -> (item: TrustItem)
        ensures
            item@ == self@,
    {
        TrustItem {
            level: self.level,
            key_id: copy(&self.key_id),
            owner_trust: copy(&self.owner_trust),
            name: copy(&self.name),
            validity: copy(&self.validity),
        }
    }
}

impl View for TrustItem {
    type V = TrustItemView;

    closed spec fn view(&self) -> TrustItemView {
        TrustItemView {
            level: self.level,
            key_id: bytes_of(self.key_id),
            owner_trust: bytes_of(self.owner_trust),
            name: bytes_of(self.name),
            validity: bytes_of(self.validity),
        }
    }
}

impl TrustItem {
    /// A trust item with the fields of an engine record.
    pub fn new(
        level: i32,
        key_id: Option<Vec<u8>>,
        owner_trust: Option<Vec<u8>>,
        name: Option<Vec<u8>>,
        validity: Option<Vec<u8>>,
    ) -> (item: TrustItem)
        ensures
            item@ == (TrustItemView {
                level,
                key_id: bytes_of(key_id),
                owner_trust: bytes_of(owner_trust),
                name: bytes_of(name),
                validity: bytes_of(validity),
            }),
    {
        TrustItem { level, key_id, owner_trust, name, validity }
    }

    /// The trust level.
    pub fn level(&self) -> (level: i32)
        ensures
            level == self@.level,
    {
        self.level
    }

    /// The key ID as bytes, if the record has one.
    pub fn key_id_raw(&self) -> (r: Option<&[u8]>)
        ensures
            r is Some <==> self@.key_id is Some,
            r matches Some(bytes) ==> self@.key_id == Some(bytes@),
    {
        borrow(&self.key_id)
    }

    /// The owner trust as bytes, if the record has one.
    pub fn owner_trust_raw(&self) -> (r: Option<&[u8]>)
        ensures
            r is Some <==> self@.owner_trust is Some,
            r matches Some(bytes) ==> self@.owner_trust == Some(bytes@),
    {
        borrow(&self.owner_trust)
    }

    /// The name as bytes, if the record has one.
    pub fn name_raw(&self) -> (r: Option<&[u8]>)
        ensures
            r is Some <==> self@.name is Some,
            r matches Some(bytes) ==> self@.name == Some(bytes@),
    {
        borrow(&self.name)
    }

    /// The validity as bytes, if the record has one.
    pub fn validity_raw(&self) -> (r: Option<&[u8]>)
        ensures
            r is Some <==> self@.validity is Some,
            r matches Some(bytes) ==> self@.validity == Some(bytes@),
    {
        borrow(&self.validity)
    }
}

} // verus!
