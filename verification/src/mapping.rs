//! The arguments of `mmap(2)` and `mprotect(2)`.

use vstd::prelude::*;

verus! {

/// Page can be read.
pub const PROT_READ: i32 = 1;

/// Page can be written.
pub const PROT_WRITE: i32 = 2;

/// Page can be executed.
pub const PROT_EXEC: i32 = 4;

/// The known protection bits.
pub const PROT_ALL: i32 = 7;

/// Share changes.
pub const MAP_SHARED: i32 = 0x1;

/// Changes private; copy pages on write.
pub const MAP_PRIVATE: i32 = 0x2;

/// Map address must be exactly as requested, no matter whether it is available.
pub const MAP_FIXED: i32 = 0x10;

/// Don't use a file.
pub const MAP_ANONYMOUS: i32 = 0x20;

/// Don't check for reservations.
pub const MAP_NORESERVE: i32 = 0x4000;

/// Allocation is for a stack.
pub const MAP_STACK: i32 = 0x20000;

/// The known mapping bits.
pub const MAP_ALL: i32 = 0x24033;

/// Whether all set bits are known.
pub open spec fn known_bits(bits: i32, all: i32) -> bool {
    bits & !all == 0
}

/// Whether all the given bits are set.
pub open spec fn has_bits(bits: i32, mask: i32) -> bool {
    bits & mask == mask
}

/// The access that a mapping grants.
#[derive(Clone, Copy, Debug, PartialEq, Eq, Structural)]
pub struct MappingFlags {
    pub read: bool,
    pub write: bool,
    pub execute: bool,
    pub user: bool,
}

/// The access that protection bits ask for. User programs always have access.
pub open spec fn flags_of_prot(prot: i32) -> MappingFlags {
    MappingFlags {
        read: has_bits(prot, PROT_READ),
        write: has_bits(prot, PROT_WRITE),
        execute: has_bits(prot, PROT_EXEC),
        user: true,
    }
}

/// Protection bits for `mmap` and `mprotect`, none of them unknown.
#[derive(Clone, Copy, Debug, PartialEq, Eq)]
pub struct MmapProt {
    bits: i32,
}

impl MmapProt {
    #[verifier::type_invariant]
    spec fn inv(self) -> bool {
        known_bits(self.bits, PROT_ALL)
    }

    pub closed spec fn spec_bits(self) -> i32 {
        self.bits
    }

    /// Takes bits that are all known.
    pub fn from_bits(bits: i32) -> (r: Option<MmapProt>)
        ensures
            r is Some <==> known_bits(bits, PROT_ALL),
            r matches Some(p) ==> p.spec_bits() == bits,
    {
        if bits & !PROT_ALL == 0 {
            Some(MmapProt { bits })
        } else {
            None
        }
    }

    /// Whether all the given bits are set.
    pub fn contains(&self, mask: i32) -> (r: bool)
        ensures
            r == has_bits(self.spec_bits(), mask),
    {
        self.bits & mask == mask
    }
}

impl MappingFlags {
    /// The access that protection bits ask for.
    pub fn from_prot(value: MmapProt) -> (r: MappingFlags)
        ensures
            r == flags_of_prot(value.spec_bits()),
    {
        let mut flags = MappingFlags { read: false, write: false, execute: false, user: true };
        if value.contains(PROT_READ) {
            flags.read = true;
        }
        if value.contains(PROT_WRITE) {
            flags.write = true;
        }
        if value.contains(PROT_EXEC) {
            flags.execute = true;
        }
        flags
    }
}

/// Mapping bits for `mmap`, none of them unknown.
#[derive(Clone, Copy, Debug, PartialEq, Eq)]
pub struct MmapFlags {
    bits: i32,
}

impl MmapFlags {
    #[verifier::type_invariant]
    spec fn inv(self) -> bool {
        known_bits(self.bits, MAP_ALL)
    }

    pub closed spec fn spec_bits(self) -> i32 {
        self.bits
    }

    /// Takes bits that are all known.
    pub fn from_bits(bits: i32) -> (r: Option<MmapFlags>)
        ensures
            r is Some <==> known_bits(bits, MAP_ALL),
            r matches Some(f) ==> f.spec_bits() == bits,
    {
        if bits & !MAP_ALL == 0 {
            Some(MmapFlags { bits })
        } else {
            None
        }
    }

    /// Whether all the given bits are set.
    pub fn contains(&self, mask: i32) -> (r: bool)
        ensures
            r == has_bits(self.spec_bits(), mask),
    {
        self.bits & mask == mask
    }

    /// Whether some of the given bits are set.
    pub fn intersects(&self, mask: i32) -> (r: bool)
        ensures
            r == (self.spec_bits() & mask != 0),
    {
        self.bits & mask != 0
    }
}

/// Protection bits and the access they grant determine each other.
pub proof fn law_prot_bits(p: i32, q: i32)
    requires
        known_bits(p, PROT_ALL),
        known_bits(q, PROT_ALL),
    ensures
        flags_of_prot(p) == flags_of_prot(q) <==> p == q,
{
    assert(p & !7 == 0 && q & !7 == 0 && ((p & 1 == 1) <==> (q & 1 == 1)) && ((p & 2 == 2) <==> (q
        & 2 == 2)) && ((p & 4 == 4) <==> (q & 4 == 4)) ==> p == q) by (bit_vector);
}

/// Memory can be read, written and executed exactly if the bits 1, 2 and 4 are
/// set, and a user program always has access. These are all the known bits of a
/// protection, and those of a mapping are 0x1, 0x2, 0x10, 0x20, 0x4000 and
/// 0x20000.
pub proof fn law_bits(bits: i32)
    ensures
        flags_of_prot(bits).read == (bits & 1 != 0),
        flags_of_prot(bits).write == (bits & 2 != 0),
        flags_of_prot(bits).execute == (bits & 4 != 0),
        flags_of_prot(bits).user,
        known_bits(bits, PROT_ALL) <==> bits & !7 == 0,
        known_bits(bits, MAP_ALL) <==> bits & !0x24033 == 0,
        has_bits(bits, MAP_FIXED) <==> bits & 0x10 != 0,
        has_bits(bits, MAP_ANONYMOUS) <==> bits & 0x20 != 0,
{
    assert((bits & 1 == 1) == (bits & 1 != 0) && (bits & 2 == 2) == (bits & 2 != 0) && (bits & 4
        == 4) == (bits & 4 != 0) && (bits & 0x10 == 0x10) == (bits & 0x10 != 0) && (bits & 0x20
        == 0x20) == (bits & 0x20 != 0)) by (bit_vector);
}

/// Bits contain a mask exactly if adding the mask changes nothing.
pub proof fn law_contains(bits: i32, mask: i32)
    ensures
        has_bits(bits, mask) <==> bits | mask == bits,
        known_bits(bits, mask) <==> bits | mask == mask,
{
    assert((bits & mask == mask) == (bits | mask == bits) && (bits & !mask == 0) == (bits | mask
        == mask)) by (bit_vector);
}

} // verus!
