//! A type-safe view of the Linux `personality` flag word.
//!
//! The kernel keeps one 32-bit execution-domain word per process.  The low
//! byte selects a legacy persona profile; the higher bits toggle individual
//! behaviours (address-space layout, timeout handling, and so on).  This
//! library holds the closed table of documented constants, a `Personality`
//! type that is guaranteed to carry only documented bits, and the logic that
//! turns a raw kernel return value into a typed outcome.
//!
//! The kernel call itself is an OS boundary that a host crate performs; it
//! hands the raw integer result to [`decode_personality`].

use vstd::prelude::*;

verus! {

// ---------------------------------------------------------------------------
// Individual behaviour flag bits
// ---------------------------------------------------------------------------

/// Have `uname` report a 2.6.40+ version number rather than a 3.x one.
pub const UNAME26: u32 = 0x0020000;

/// Disable address-space-layout randomization.
pub const ADDR_NO_RANDOMIZE: u32 = 0x0040000;

/// User-space function pointers to signal handlers point, on certain
/// architectures, to descriptors.
pub const FDPIC_FUNCPTRS: u32 = 0x0080000;

/// Map page 0 as read-only, to support binaries that depend on this SVr4
/// behaviour.
pub const MMAP_PAGE_ZERO: u32 = 0x0100000;

/// Provide the legacy virtual address space layout.
pub const ADDR_COMPAT_LAYOUT: u32 = 0x0200000;

/// `PROT_READ` implies `PROT_EXEC` for `mmap`.
pub const READ_IMPLIES_EXEC: u32 = 0x0400000;

/// Limit the address space to 32 bits.
pub const ADDR_LIMIT_32BIT: u32 = 0x0800000;

/// No effects.
pub const SHORT_INODE: u32 = 0x1000000;

/// No effects.
pub const WHOLE_SECONDS: u32 = 0x2000000;

/// `select`, `pselect` and `ppoll` do not modify the returned timeout
/// argument when interrupted by a signal handler.
pub const STICKY_TIMEOUTS: u32 = 0x4000000;

/// Use `0xC0000000` as the offset at which to search a virtual memory chunk
/// on `mmap`; otherwise use `0xFFFFE000`.
pub const ADDR_LIMIT_3GB: u32 = 0x8000000;

// ---------------------------------------------------------------------------
// Persona identifiers (low byte), some with their documented implied flags
// ---------------------------------------------------------------------------

/// Linux.
pub const PER_LINUX: u32 = 0x0000;

/// Linux, with the address space limited to 32 bits.
pub const PER_LINUX_32BIT: u32 = 0x0000 | ADDR_LIMIT_32BIT;

/// Linux, with signal-handler function pointers as descriptors.
pub const PER_LINUX_FDPIC: u32 = 0x0000 | FDPIC_FUNCPTRS;

/// SVr4; implies sticky timeouts and a read-only page 0.
pub const PER_SVR4: u32 = 0x0001 | STICKY_TIMEOUTS | MMAP_PAGE_ZERO;

/// SVr3; implies sticky timeouts and short inodes.
pub const PER_SVR3: u32 = 0x0002 | STICKY_TIMEOUTS | SHORT_INODE;

/// SCO SVr3; implies sticky timeouts, whole seconds and short inodes.
pub const PER_SCOSVR3: u32 = 0x0003 | STICKY_TIMEOUTS | WHOLE_SECONDS | SHORT_INODE;

/// OpenServer 5; implies sticky timeouts and whole seconds.
pub const PER_OSR5: u32 = 0x0003 | STICKY_TIMEOUTS | WHOLE_SECONDS;

/// Wyse V/386; implies sticky timeouts and short inodes.
pub const PER_WYSEV386: u32 = 0x0004 | STICKY_TIMEOUTS | SHORT_INODE;

/// ISC SVr4; implies sticky timeouts.
pub const PER_ISCR4: u32 = 0x0005 | STICKY_TIMEOUTS;

/// BSD.
pub const PER_BSD: u32 = 0x0006;

/// SunOS; implies sticky timeouts.
pub const PER_SUNOS: u32 = 0x0006 | STICKY_TIMEOUTS;

/// Xenix; implies sticky timeouts and short inodes.
pub const PER_XENIX: u32 = 0x0007 | STICKY_TIMEOUTS | SHORT_INODE;

/// 32-bit Linux.
pub const PER_LINUX32: u32 = 0x0008;

/// 32-bit Linux with a 3 GB address-space search offset.
pub const PER_LINUX32_3GB: u32 = 0x0008 | ADDR_LIMIT_3GB;

/// IRIX 5 32-bit; implies sticky timeouts.
pub const PER_IRIX32: u32 = 0x0009 | STICKY_TIMEOUTS;

/// IRIX 6 new 32-bit; implies sticky timeouts.
pub const PER_IRIXN32: u32 = 0x000a | STICKY_TIMEOUTS;

/// IRIX 6 64-bit; implies sticky timeouts.
pub const PER_IRIX64: u32 = 0x000b | STICKY_TIMEOUTS;

/// RISC OS.
pub const PER_RISCOS: u32 = 0x000c;

/// Solaris; implies sticky timeouts.
pub const PER_SOLARIS: u32 = 0x000d | STICKY_TIMEOUTS;

/// UnixWare 7; implies sticky timeouts and a read-only page 0.
pub const PER_UW7: u32 = 0x000e | STICKY_TIMEOUTS | MMAP_PAGE_ZERO;

/// OSF/1 v4.
pub const PER_OSF4: u32 = 0x000f;

/// 32-bit HP/UX; has had no effect since Linux 4.0.
pub const PER_HPUX: u32 = 0x0010;

/// Mask of the persona sub-field (the low byte).
pub const PER_MASK: u32 = 0x00ff;

// ---------------------------------------------------------------------------
// The closed bit space
// ---------------------------------------------------------------------------

/// Every bit that some documented constant names: the whole persona low byte
/// together with each behaviour flag bit.
pub const KNOWN_BITS: u32 = 0x0ffe00ff;

/// A 32-bit word uses only documented bits.
pub open spec fn known_word(word: u32) -> bool {
    word & KNOWN_BITS == word
}

/// The all-ones request word that the kernel treats as "report the current
/// personality without changing it".
pub const QUERY_WORD: u32 = 0xffffffff;

/// Law: the closed bit space is exactly the union of the named constants.
pub proof fn lemma_known_bits_is_union()
    ensures
        KNOWN_BITS == PER_MASK | UNAME26 | ADDR_NO_RANDOMIZE | FDPIC_FUNCPTRS | MMAP_PAGE_ZERO
            | ADDR_COMPAT_LAYOUT | READ_IMPLIES_EXEC | ADDR_LIMIT_32BIT | SHORT_INODE
            | WHOLE_SECONDS | STICKY_TIMEOUTS | ADDR_LIMIT_3GB,
{
    assert(0x0ffe00ffu32 == 0x00ffu32 | 0x0020000u32 | 0x0040000u32 | 0x0080000u32
        | 0x0100000u32 | 0x0200000u32 | 0x0400000u32 | 0x0800000u32 | 0x1000000u32
        | 0x2000000u32 | 0x4000000u32 | 0x8000000u32) by (bit_vector);
}

// ---------------------------------------------------------------------------
// The Personality type
// ---------------------------------------------------------------------------

/// A personality flag word restricted to the documented bits.
///
/// A value of this type always satisfies [`known_word`] of its view: the only
/// constructors are [`Personality::from_bits`], which rejects a word with
/// undocumented bits, and the bit operations, which stay inside the closed
/// set.
#[derive(Clone, Copy, Debug, PartialEq, Eq, Structural)]
pub struct Personality {
    bits: u32,
}

impl View for Personality {
    type V = u32;

    closed spec fn view(&self) -> u32 {
        self.bits
    }
}

impl Personality {
    #[verifier::type_invariant]
    spec fn well_formed(self) -> bool {
        known_word(self.bits)
    }

    /// Validate a raw word against the closed set of documented bits.
    ///
    /// Returns `Some` exactly when every set bit of `bits` is documented, and
    /// the value then carries `bits` unchanged.
    pub fn from_bits(bits: u32) -> (r: Option<Personality>)
        ensures
            r is Some <==> known_word(bits),
            r is Some ==> r->Some_0@ == bits,
    {
        if bits & KNOWN_BITS == bits {
            Some(Personality { bits })
        } else {
            None
        }
    }

    /// The raw 32-bit word, which always uses documented bits only.
    pub fn bits(self) -> (r: u32)
        ensures
            r == self@,
            known_word(r),
    {
        proof {
            use_type_invariant(&self);
        }
        self.bits
    }

    /// Bitwise OR of two flag words.
    pub fn union(self, other: Personality) -> (r: Personality)
        ensures
            r@ == self@ | other@,
    {
        proof {
            use_type_invariant(&self);
            use_type_invariant(&other);
            lemma_union_stays_known(self.bits, other.bits);
        }
        Personality { bits: self.bits | other.bits }
    }

    /// Bitwise AND of two flag words.
    pub fn intersection(self, other: Personality) -> (r: Personality)
        ensures
            r@ == self@ & other@,
    {
        proof {
            use_type_invariant(&self);
            lemma_intersection_stays_known(self.bits, other.bits);
        }
        Personality { bits: self.bits & other.bits }
    }

    /// Bitwise NOT, kept inside the documented bit space.
    pub fn complement(self) -> (r: Personality)
        ensures
            r@ == !self@ & KNOWN_BITS,
    {
        proof {
            lemma_mask_stays_known(!self.bits);
        }
        Personality { bits: !self.bits & KNOWN_BITS }
    }

    /// Whether every bit of `other` is also set in `self`.
    pub fn contains(self, other: Personality) -> (r: bool)
        ensures
            r == (self@ & other@ == other@),
    {
        self.bits & other.bits == other.bits
    }
}

proof fn lemma_union_stays_known(a: u32, b: u32)
    by (bit_vector)
    requires
        a & 0x0ffe00ffu32 == a,
        b & 0x0ffe00ffu32 == b,
    ensures
        (a | b) & 0x0ffe00ffu32 == (a | b),
{
}

proof fn lemma_intersection_stays_known(a: u32, b: u32)
    by (bit_vector)
    requires
        a & 0x0ffe00ffu32 == a,
    ensures
        (a & b) & 0x0ffe00ffu32 == (a & b),
{
}

proof fn lemma_mask_stays_known(a: u32)
    by (bit_vector)
    ensures
        (a & 0x0ffe00ffu32) & 0x0ffe00ffu32 == (a & 0x0ffe00ffu32),
{
}

// ---------------------------------------------------------------------------
// Decoding the kernel's return value
// ---------------------------------------------------------------------------

/// The 32-bit word that a raw kernel return value carries.
pub open spec fn raw_word(raw: i32) -> u32 {
    raw as u32
}

/// Turn the raw return value of the kernel personality call into a typed
/// outcome.
///
/// The kernel reports failure with `-1`; any other return value carries the
/// previous (or current) personality word.  A word that uses undocumented
/// bits is reported as the same generic failure outcome rather than accepted:
/// the named bit set is closed, and this library validates strictly instead
/// of crashing or passing unknown bits through.
pub fn decode_personality(raw: i32) -> (r: Result<Personality, ()>)
    ensures
        raw == -1 ==> r is Err,
        raw != -1 && known_word(raw_word(raw)) ==> r is Ok && r->Ok_0@ == raw_word(raw),
        raw != -1 && !known_word(raw_word(raw)) ==> r is Err,
{
    if raw == -1 {
        Err(())
    } else {
        let word: u32 = raw as u32;
        match Personality::from_bits(word) {
            Some(p) => Ok(p),
            None => Err(()),
        }
    }
}

// ---------------------------------------------------------------------------
// The kernel model and its laws
// ---------------------------------------------------------------------------

/// One kernel personality call, as the kernel documents it: the process
/// carries a current word `cur`; a request of [`QUERY_WORD`] leaves it
/// unchanged, any other request replaces it; either way the call reports the
/// word that was in force before.  The pair is (word afterwards, reported
/// word).
pub open spec fn kernel_step(cur: u32, request: u32) -> (u32, u32) {
    if request == QUERY_WORD {
        (cur, cur)
    } else {
        (request, cur)
    }
}

/// Law: setting any word of documented bits and then querying reads back
/// exactly the word that was set, and the query changes nothing.
pub proof fn lemma_set_then_get_round_trip(cur: u32, f: u32)
    requires
        known_word(f),
    ensures
        ({
            let (after_set, _prev) = kernel_step(cur, f);
            let (after_get, got) = kernel_step(after_set, QUERY_WORD);
            &&& got == f
            &&& after_get == after_set
        }),
{
    assert(f & 0x0ffe00ffu32 == f ==> f != 0xffffffffu32) by (bit_vector);
}

/// Law: a set reports the word that was in force immediately before it, so
/// after setting `a`, a second set (of any word `b`) reports `a`.
pub proof fn lemma_set_reports_previous(cur: u32, a: u32, b: u32)
    requires
        known_word(a),
        known_word(b),
    ensures
        ({
            let (after_a, _first) = kernel_step(cur, a);
            let (_after_b, second) = kernel_step(after_a, b);
            second == a
        }),
{
    assert(a & 0x0ffe00ffu32 == a ==> a != 0xffffffffu32) by (bit_vector);
}

/// Law: a query reads without writing, so two queries in a row report the
/// same word and leave the word as it was.
pub proof fn lemma_get_idempotent(cur: u32)
    ensures
        ({
            let (s1, g1) = kernel_step(cur, QUERY_WORD);
            let (s2, g2) = kernel_step(s1, QUERY_WORD);
            &&& g1 == g2
            &&& s2 == cur
        }),
{
}

/// Law: `PER_LINUX` is the zero word, and combining it with any word by OR
/// yields exactly that word.
pub proof fn lemma_per_linux_is_identity(x: u32)
    ensures
        PER_LINUX == 0,
        PER_LINUX | x == x,
        x | PER_LINUX == x,
{
    assert(0u32 | x == x && x | 0u32 == x) by (bit_vector);
}

/// Law: each composite persona constant is exactly the OR of its base
/// identifier with its documented implied flags, so its persona sub-field is
/// the base identifier and each implied flag bit is set in it.
pub proof fn lemma_composite_personas()
    ensures
        PER_LINUX_32BIT == PER_LINUX | ADDR_LIMIT_32BIT,
        PER_LINUX_FDPIC == PER_LINUX | FDPIC_FUNCPTRS,
        PER_SVR4 == 0x0001 | STICKY_TIMEOUTS | MMAP_PAGE_ZERO,
        PER_SVR3 == 0x0002 | STICKY_TIMEOUTS | SHORT_INODE,
        PER_SCOSVR3 == 0x0003 | STICKY_TIMEOUTS | WHOLE_SECONDS | SHORT_INODE,
        PER_OSR5 == 0x0003 | STICKY_TIMEOUTS | WHOLE_SECONDS,
        PER_WYSEV386 == 0x0004 | STICKY_TIMEOUTS | SHORT_INODE,
        PER_ISCR4 == 0x0005 | STICKY_TIMEOUTS,
        PER_SUNOS == PER_BSD | STICKY_TIMEOUTS,
        PER_XENIX == 0x0007 | STICKY_TIMEOUTS | SHORT_INODE,
        PER_LINUX32_3GB == PER_LINUX32 | ADDR_LIMIT_3GB,
        PER_IRIX32 == 0x0009 | STICKY_TIMEOUTS,
        PER_IRIXN32 == 0x000a | STICKY_TIMEOUTS,
        PER_IRIX64 == 0x000b | STICKY_TIMEOUTS,
        PER_SOLARIS == 0x000d | STICKY_TIMEOUTS,
        PER_UW7 == 0x000e | STICKY_TIMEOUTS | MMAP_PAGE_ZERO,
        PER_SVR4 & PER_MASK == 0x0001,
        PER_SVR4 & STICKY_TIMEOUTS == STICKY_TIMEOUTS,
        PER_SVR4 & MMAP_PAGE_ZERO == MMAP_PAGE_ZERO,
        PER_LINUX_32BIT & PER_MASK == PER_LINUX,
        PER_LINUX_32BIT & ADDR_LIMIT_32BIT == ADDR_LIMIT_32BIT,
{
    assert((0x0001u32 | 0x4000000u32 | 0x0100000u32) & 0x00ffu32 == 0x0001u32
        && (0x0001u32 | 0x4000000u32 | 0x0100000u32) & 0x4000000u32 == 0x4000000u32
        && (0x0001u32 | 0x4000000u32 | 0x0100000u32) & 0x0100000u32 == 0x0100000u32
        && (0x0000u32 | 0x0800000u32) & 0x00ffu32 == 0x0000u32
        && (0x0000u32 | 0x0800000u32) & 0x0800000u32 == 0x0800000u32) by (bit_vector);
}

} // verus!
