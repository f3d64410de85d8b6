//! Notations of a signature: name and value pairs that the signer attached.

use vstd::prelude::*;
use vstd::string::StringSliceAdditionalSpecFns;
use vstd::utf8::valid_utf8;
use crate::text::to_str;

verus! {

/// The flag bit of a notation whose value is text for people to read.
pub const HUMAN_READABLE: u32 = 1;

/// The flag bit of a notation that a verifier has to understand.
pub const CRITICAL: u32 = 2;

/// Every flag bit that has a meaning.
pub const ALL: u32 = 3;

/// A set of notation flags.
#[derive(Clone, Copy, Debug, PartialEq, Eq, Hash, Structural)]
pub struct Flags {
    bits: u32,
}

impl View for Flags {
    type V = u32;

    closed spec fn view(&self) -> u32 {
        self.bits
    }
}

impl Flags {
    /// The set with the known bits of `bits`; unknown bits are dropped.
    pub fn from_bits_truncate(bits: u32) -> (flags: Flags)
        ensures
            flags@ == bits & ALL,
            flags@ <= ALL,
    {
        assert(bits & 3 <= 3) by (bit_vector);
        Flags { bits: bits & ALL }
    }

    /// The bits of the set.
    pub fn bits(&self) -> (bits: u32)
        ensures
            bits == self@,
    {
        self.bits
    }

    /// Whether every bit of `bits` is in the set.
    pub fn contains(&self, bits: u32) -> (b: bool)
        ensures
            b == (self@ & bits == bits),
    {
        self.bits & bits == bits
    }
}

/// What a notation record of the engine holds.
pub struct NotationView {
    pub name: Option<Seq<u8>>,
    pub value: Option<Seq<u8>>,
    pub flags: u32,
    pub human_readable: bool,
    pub critical: bool,
}

/// One notation of a signature, as the engine recorded it.
pub struct SignatureNotation {
    name: Option<Vec<u8>>,
    value: Option<Vec<u8>>,
    flags: u32,
    human_readable: bool,
    critical: bool,
}

impl View for SignatureNotation {
    type V = NotationView;

    closed spec fn view(&self) -> NotationView {
        NotationView {
            name: match self.name {
                Some(v) => Some(v@),
                None => None,
            },
            value: match self.value {
                Some(v) => Some(v@),
                None => None,
            },
            flags: self.flags,
            human_readable: self.human_readable,
            critical: self.critical,
        }
    }
}

impl SignatureNotation {
    /// A notation with the fields of an engine record.
    pub fn new(
        name: Option<Vec<u8>>,
        value: Option<Vec<u8>>,
        flags: u32,
        human_readable: bool,
        critical: bool,
    ) -> (n: SignatureNotation)
        ensures
            n@.name == (match name {
                Some(v) => Some(v@),
                None => None,
            }),
            n@.value == (match value {
                Some(v) => Some(v@),
                None => None,
            }),
            n@.flags == flags,
            n@.human_readable == human_readable,
            n@.critical == critical,
    {
        SignatureNotation { name, value, flags, human_readable, critical }
    }

    /// Whether the value is text for people to read.
    pub fn is_human_readable(&self) -> (b: bool)
        ensures
            b == self@.human_readable,
    {
        self.human_readable
    }

    /// Whether a verifier has to understand this notation.
    pub fn is_critical(&self) -> (b: bool)
        ensures
            b == self@.critical,
    {
        self.critical
    }

    /// The flags of the record, without the bits that have no meaning.
    pub fn flags(&self) -> (flags: Flags)
        ensures
            flags@ == self@.flags & ALL,
    {
        Flags::from_bits_truncate(self.flags)
    }

    /// The name as bytes, if the record has one.
    pub fn name_raw(&self) -> (r: Option<&[u8]>)
        ensures
            r is Some <==> self@.name is Some,
            r matches Some(bytes) ==> self@.name == Some(bytes@),
    {
        match &self.name {
            Some(v) => Some(v.as_slice()),
            None => None,
        }
    }

    /// The name as text: `Err(None)` without a name, the decoding error
    /// for a name that is not valid UTF-8.
    pub fn name(&self) -> (r: Result<&str, Option<std::str::Utf8Error>>)
        ensures
            self@.name is None ==> r == Err::<&str, Option<std::str::Utf8Error>>(None),
            self@.name matches Some(bytes) ==> {
                &&& r is Ok <==> valid_utf8(bytes)
                &&& r matches Ok(s) ==> s.spec_bytes() == bytes
                &&& r matches Err(e) ==> e is Some
            },
    {
        to_str(self.name_raw())
    }

    /// The value as bytes, if the record has one.
    pub fn value_raw(&self) -> (r: Option<&[u8]>)
        ensures
            r is Some <==> self@.value is Some,
            r matches Some(bytes) ==> self@.value == Some(bytes@),
    {
        match &self.value {
            Some(v) => Some(v.as_slice()),
            None => None,
        }
    }

    /// The value as text: `Err(None)` without a value, the decoding error
    /// for a value that is not valid UTF-8.
    pub fn value(&self) -> (r: Result<&str, Option<std::str::Utf8Error>>)
        ensures
            self@.value is None ==> r == Err::<&str, Option<std::str::Utf8Error>>(None),
            self@.value matches Some(bytes) ==> {
                &&& r is Ok <==> valid_utf8(bytes)
                &&& r matches Ok(s) ==> s.spec_bytes() == bytes
                &&& r matches Err(e) ==> e is Some
            },
    {
        to_str(self.value_raw())
    }
}

/// Walks the notations of a signature in the order of the engine's list.
pub struct SignatureNotationIter {
    list: Vec<SignatureNotation>,
    pos: usize,
}

impl View for SignatureNotationIter {
    type V = Seq<NotationView>;

    /// The notations that are still to come, next one first.
    closed spec fn view(&self) -> Seq<NotationView> {
        self.list@.skip(self.pos as int).map_values(|n: SignatureNotation| n@)
    }
}

impl SignatureNotationIter {
    #[verifier::type_invariant]
    spec fn within_list(self) -> bool {
        self.pos <= self.list@.len()
    }

    /// An iterator over the records of a list, first record first.
    pub fn from_list(list: Vec<SignatureNotation>) -> (iter: SignatureNotationIter)
        ensures
            iter@ == list@.map_values(|n: SignatureNotation| n@),
    {
        assert(list@.skip(0) =~= list@);
        SignatureNotationIter { list, pos: 0 }
    }

    /// The next notation, or `None` at the end of the list.
    pub fn next(&mut self) -> (r: Option<&SignatureNotation>)
        ensures
            old(self)@.len() == 0 ==> r is None && final(self)@ == old(self)@,
            old(self)@.len() > 0 ==> (r matches Some(n) && n@ == old(self)@[0] && final(self)@
                == old(self)@.skip(1)),
    {
        proof {
            use_type_invariant(&*self);
        }
        if self.pos < self.list.len() {
            let at = self.pos;
            self.pos = at + 1;
            assert(self.list@.skip(at as int + 1).map_values(|n: SignatureNotation| n@)
                =~= self.list@.skip(at as int).map_values(|n: SignatureNotation| n@).skip(1));
            Some(&self.list[at])
        } else {
            None
        }
    }
}

} // verus!
