//! What service discovery reports of a peripheral: services, their
//! characteristics, and the property flags of each characteristic.

use vstd::prelude::*;

use crate::search::first_at;

verus! {

/// The characteristic may be broadcast.
pub const BROADCAST: u8 = 0x01;

/// The characteristic may be read.
pub const READ: u8 = 0x02;

/// The characteristic may be written without a response.
pub const WRITE_WITHOUT_RESPONSE: u8 = 0x04;

/// The characteristic may be written, with a response.
pub const WRITE: u8 = 0x08;

/// The characteristic notifies.
pub const NOTIFY: u8 = 0x10;

/// The characteristic indicates.
pub const INDICATE: u8 = 0x20;

/// The characteristic takes authenticated signed writes.
pub const AUTHENTICATED_SIGNED_WRITES: u8 = 0x40;

/// The characteristic has an extended properties descriptor.
pub const EXTENDED_PROPERTIES: u8 = 0x80;

/// The property flags of a characteristic: one bit per capability.
#[derive(Clone, Copy, Debug, PartialEq, Eq, Structural)]
pub struct CharPropFlags {
    pub bits: u8,
}

/// The mask of the flag with index `k`, in ascending order of the bits.
pub open spec fn flag_mask(k: int) -> u8 {
    if k == 0 {
        BROADCAST
    } else if k == 1 {
        READ
    } else if k == 2 {
        WRITE_WITHOUT_RESPONSE
    } else if k == 3 {
        WRITE
    } else if k == 4 {
        NOTIFY
    } else if k == 5 {
        INDICATE
    } else if k == 6 {
        AUTHENTICATED_SIGNED_WRITES
    } else {
        EXTENDED_PROPERTIES
    }
}

/// The name of the flag with index `k`.
pub open spec fn flag_name(k: int) -> Seq<char> {
    if k == 0 {
        "BROADCAST"@
    } else if k == 1 {
        "READ"@
    } else if k == 2 {
        "WRITE_WITHOUT_RESPONSE"@
    } else if k == 3 {
        "WRITE"@
    } else if k == 4 {
        "NOTIFY"@
    } else if k == 5 {
        "INDICATE"@
    } else if k == 6 {
        "AUTHENTICATED_SIGNED_WRITES"@
    } else {
        "EXTENDED_PROPERTIES"@
    }
}

/// Whether `bits` holds the flag with index `k`.
pub open spec fn has_flag(bits: u8, k: int) -> bool {
    bits & flag_mask(k) != 0
}

/// Whether `bits` holds a flag with an index below `k`.
pub open spec fn any_flag_below(bits: u8, k: int) -> bool
    decreases k,
{
    k > 0 && (has_flag(bits, k - 1) || any_flag_below(bits, k - 1))
}

/// The names of the flags of `bits` with an index below `k`, in ascending
/// order, separated by `" | "`.
pub open spec fn flag_names_below(bits: u8, k: int) -> Seq<char>
    decreases k,
{
    if k <= 0 {
        Seq::empty()
    } else if !has_flag(bits, k - 1) {
        flag_names_below(bits, k - 1)
    } else if any_flag_below(bits, k - 1) {
        flag_names_below(bits, k - 1) + " | "@ + flag_name(k - 1)
    } else {
        flag_name(k - 1)
    }
}

/// The text of a flag set in diagnostics: the names of its flags inside
/// `CharPropFlags(..)`, or `CharPropFlags(0x0)` for the empty set.
pub open spec fn flags_text(bits: u8) -> Seq<char> {
    if bits == 0 {
        "CharPropFlags(0x0)"@
    } else {
        "CharPropFlags("@ + flag_names_below(bits, 8) + ")"@
    }
}

/// Without a flag below `k` there is no name to show.
proof fn lemma_no_flag_no_name(bits: u8, k: int)
    requires
        !any_flag_below(bits, k),
    ensures
        flag_names_below(bits, k) == Seq::<char>::empty(),
    decreases k,
{
    if k > 0 {
        lemma_no_flag_no_name(bits, k - 1);
    }
}

fn mask_of(k: usize) -> (m: u8)
    requires
        k < 8,
    ensures
        m == flag_mask(k as int),
{
    if k == 0 {
        BROADCAST
    } else if k == 1 {
        READ
    } else if k == 2 {
        WRITE_WITHOUT_RESPONSE
    } else if k == 3 {
        WRITE
    } else if k == 4 {
        NOTIFY
    } else if k == 5 {
        INDICATE
    } else if k == 6 {
        AUTHENTICATED_SIGNED_WRITES
    } else {
        EXTENDED_PROPERTIES
    }
}

fn name_of(k: usize) -> (t: &'static str)
    requires
        k < 8,
    ensures
        t@ == flag_name(k as int),
{
    if k == 0 {
        "BROADCAST"
    } else if k == 1 {
        "READ"
    } else if k == 2 {
        "WRITE_WITHOUT_RESPONSE"
    } else if k == 3 {
        "WRITE"
    } else if k == 4 {
        "NOTIFY"
    } else if k == 5 {
        "INDICATE"
    } else if k == 6 {
        "AUTHENTICATED_SIGNED_WRITES"
    } else {
        "EXTENDED_PROPERTIES"
    }
}

impl CharPropFlags {
    /// The flag set with exactly the given bits.
    pub fn from_bits(bits: u8) -> (flags: CharPropFlags)
        ensures
            flags.bits == bits,
    {
        CharPropFlags { bits }
    }

    /// The flags of either set.
    pub fn union(self, other: CharPropFlags) -> (flags: CharPropFlags)
        ensures
            flags.bits == self.bits | other.bits,
    {
        CharPropFlags { bits: self.bits | other.bits }
    }

    /// Whether the two sets hold exactly the same flags.
    pub fn same(self, other: CharPropFlags) -> (r: bool)
        ensures
            r == (self == other),
            r == (self.bits == other.bits),
    {
        self.bits == other.bits
    }

    /// The text of the set in diagnostics.
    pub fn text(self) -> (s: String)
        ensures
            s@ == flags_text(self.bits),
    {
        if self.bits == 0 {
            return String::from_str("CharPropFlags(0x0)");
        }
        let mut s = String::from_str("CharPropFlags(");
        let mut any = false;
        let mut k: usize = 0;
        while k < 8
            invariant
                k <= 8,
                any == any_flag_below(self.bits, k as int),
                s@ == "CharPropFlags("@ + flag_names_below(self.bits, k as int),
            decreases 8 - k,
        {
            let ghost head = "CharPropFlags("@;
            let ghost earlier = flag_names_below(self.bits, k as int);
            if self.bits & mask_of(k) != 0 {
                if any {
                    s.append(" | ");
                    assert(s@ + flag_name(k as int) =~= head + (earlier + " | "@ + flag_name(
                        k as int,
                    )));
                } else {
                    assert(earlier == Seq::<char>::empty()) by {
                        lemma_no_flag_no_name(self.bits, k as int);
                    }
                    assert(s@ + flag_name(k as int) =~= head + flag_name(k as int));
                }
                s.append(name_of(k));
                any = true;
            }
            k += 1;
        }
        s.append(")");
        s
    }
}

/// One characteristic as discovered.
#[derive(Clone, Copy, Debug, PartialEq, Eq, Structural)]
pub struct CharacteristicDescriptor {
    pub identifier: u128,
    pub properties: CharPropFlags,
}

/// One service as discovered, with its characteristics in the order reported.
#[derive(Clone, Debug, PartialEq, Eq)]
pub struct ServiceDescriptor {
    pub identifier: u128,
    pub characteristics: Vec<CharacteristicDescriptor>,
}

/// The identifiers of a list of services, in order.
pub open spec fn service_ids(services: Seq<ServiceDescriptor>) -> Seq<u128> {
    Seq::new(services.len(), |i: int| services[i].identifier)
}

/// The identifiers of a list of characteristics, in order.
pub open spec fn characteristic_ids(characteristics: Seq<CharacteristicDescriptor>) -> Seq<u128> {
    Seq::new(characteristics.len(), |i: int| characteristics[i].identifier)
}

/// The identifiers of the discovered services.
pub fn service_identifiers(services: &Vec<ServiceDescriptor>) -> (ids: Vec<u128>)
    ensures
        ids@ == service_ids(services@),
{
    let mut ids: Vec<u128> = Vec::new();
    let mut i: usize = 0;
    while i < services.len()
        invariant
            i <= services.len(),
            ids@ == service_ids(services@.take(i as int)),
        decreases services.len() - i,
    {
        ids.push(services[i].identifier);
        assert(ids@ =~= service_ids(services@.take(i + 1)));
        i += 1;
    }
    assert(services@.take(i as int) =~= services@);
    ids
}

/// The identifiers of the discovered characteristics.
pub fn characteristic_identifiers(characteristics: &Vec<CharacteristicDescriptor>) -> (ids: Vec<
    u128,
>)
    ensures
        ids@ == characteristic_ids(characteristics@),
{
    let mut ids: Vec<u128> = Vec::new();
    let mut i: usize = 0;
    while i < characteristics.len()
        invariant
            i <= characteristics.len(),
            ids@ == characteristic_ids(characteristics@.take(i as int)),
        decreases characteristics.len() - i,
    {
        ids.push(characteristics[i].identifier);
        assert(ids@ =~= characteristic_ids(characteristics@.take(i + 1)));
        i += 1;
    }
    assert(characteristics@.take(i as int) =~= characteristics@);
    ids
}

/// Whether `id` occurs among `ids`.
pub fn contains_identifier(ids: &Vec<u128>, id: u128) -> (found: bool)
    ensures
        found == ids@.contains(id),
{
    let mut i: usize = 0;
    while i < ids.len()
        invariant
            i <= ids.len(),
            forall|j: int| 0 <= j < i ==> ids@[j] != id,
        decreases ids.len() - i,
    {
        if ids[i] == id {
            return true;
        }
        i += 1;
    }
    false
}

/// The position of the first service with the identifier `id`, if there is one.
pub fn find_service(services: &Vec<ServiceDescriptor>, id: u128) -> (at: Option<usize>)
    ensures
        match at {
            Some(i) => first_at(service_ids(services@), id, i as int),
            None => !service_ids(services@).contains(id),
        },
{
    let mut i: usize = 0;
    while i < services.len()
        invariant
            i <= services.len(),
            forall|j: int| 0 <= j < i ==> service_ids(services@)[j] != id,
        decreases services.len() - i,
    {
        if services[i].identifier == id {
            return Some(i);
        }
        i += 1;
    }
    None
}

/// The position of the first characteristic with the identifier `id`, if there is one.
pub fn find_characteristic(characteristics: &Vec<CharacteristicDescriptor>, id: u128) -> (at:
    Option<usize>)
    ensures
        match at {
            Some(i) => first_at(characteristic_ids(characteristics@), id, i as int),
            None => !characteristic_ids(characteristics@).contains(id),
        },
{
    let mut i: usize = 0;
    while i < characteristics.len()
        invariant
            i <= characteristics.len(),
            forall|j: int| 0 <= j < i ==> characteristic_ids(characteristics@)[j] != id,
        decreases characteristics.len() - i,
    {
        if characteristics[i].identifier == id {
            return Some(i);
        }
        i += 1;
    }
    None
}

} // verus!
