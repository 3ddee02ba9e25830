//! The runtime's `CHashMap`: open addressing with linear probing, keyed by a
//! 31-bit hash, where a slot whose hash is 0 is empty and every entry records
//! its hash so that a lookup can tell when it has passed the place where its
//! key would have been put.
//!
//! The maps live in the game's memory. The caller reads the header and the
//! slots this module points it to; [`Probe`] decides, slot by slot, where a
//! lookup goes next and when it ends.

use vstd::prelude::*;

pub mod murmurhash;

use crate::small_str::{c_bytes, SmallStr};
use murmurhash::{calculate, murmur3_32};

verus! {

use vstd::wrapping::u32_specs::{wrapping_add as u32_wrapping_add, wrapping_mul as u32_wrapping_mul, wrapping_sub as u32_wrapping_sub};
use vstd::wrapping::u64_specs::wrapping_add as u64_wrapping_add;
use vstd::string::StringSliceAdditionalSpecFns;

/// The bits of a key's hash that the map keeps; hash 0 marks an empty slot.
pub const HASH_MASK: u32 = 0x7fff_ffff;

/// What the runtime multiplies an instance variable's slot number by before
/// hashing it, in versions where that hash is the "complex" one.
pub const GOLDEN_RATIO_MULTIPLIER: u32 = 0x9E37_79B1;

/// A key type of a `CHashMap`: how a key that is looked for is hashed, and
/// whether a key stored in the map is the one looked for.
pub trait Hash: Sized {
    /// What a lookup is given to find an entry.
    type CompareKey: ?Sized;

    /// The keys that `hash` accepts.
    spec fn hashable(compare_key: &Self::CompareKey) -> bool;

    /// The hash of a key that is looked for.
    spec fn key_hash(compare_key: &Self::CompareKey) -> u32;

    /// Whether a stored key is the one looked for.
    spec fn key_matches(&self, compare_key: &Self::CompareKey) -> bool;

    fn hash(compare_key: &Self::CompareKey) -> (h: u32)
        requires
            Self::hashable(compare_key),
        ensures
            h == Self::key_hash(compare_key),
    ;

    fn matches(&self, compare_key: &Self::CompareKey) -> (b: bool)
        ensures
            b == self.key_matches(compare_key),
    ;
}

/// The hash of an instance variable's slot number: the number as unsigned,
/// multiplied by [`GOLDEN_RATIO_MULTIPLIER`] when the hash is the complex
/// one, plus one, all modulo 2^32.
pub open spec fn slot_key_hash(key: i32, is_complex: bool) -> u32 {
    let multiplier: u32 = if is_complex { GOLDEN_RATIO_MULTIPLIER } else { 1 };
    u32_wrapping_add(u32_wrapping_mul(key as u32, multiplier), 1)
}

/// For a fixed choice of hash, different slot numbers never share a hash:
/// both multipliers are odd, so nothing is lost modulo 2^32.
pub proof fn lemma_slot_key_hash_injective(k1: i32, k2: i32, is_complex: bool)
    requires
        k1 != k2,
    ensures
        slot_key_hash(k1, is_complex) != slot_key_hash(k2, is_complex),
{
    let x1 = k1 as u32;
    let x2 = k2 as u32;
    assert(k1 as u32 == k2 as u32 ==> k1 == k2) by (bit_vector);
    let m: u32 = if is_complex { GOLDEN_RATIO_MULTIPLIER } else { 1 };
    assert(u32_wrapping_mul(x1, m) == (x1 * m) as u32) by (bit_vector);
    assert(u32_wrapping_mul(x2, m) == (x2 * m) as u32) by (bit_vector);
    if is_complex {
        assert((x1 * 0x9E37_79B1u32) as u32 == (x2 * 0x9E37_79B1u32) as u32 ==> x1 == x2)
            by (bit_vector);
    } else {
        assert((x1 * 1u32) as u32 == x1 && (x2 * 1u32) as u32 == x2) by (bit_vector);
    }
}

/// The hash of a slot number is the number read as unsigned, times
/// 0x9E3779B1 for the complex hash, plus one, modulo 2^32.
pub proof fn lemma_slot_key_hash_value(key: i32, is_complex: bool)
    ensures
        !is_complex ==> slot_key_hash(key, is_complex) as int == ((key as u32) + 1) % 0x1_0000_0000int,
        is_complex ==> slot_key_hash(key, is_complex) as int == ((key as u32) * 0x9E37_79B1int + 1)
            % 0x1_0000_0000int,
{
    let x = key as u32;
    let m: u32 = if is_complex { GOLDEN_RATIO_MULTIPLIER } else { 1 };
    let p = u32_wrapping_mul(x, m);
    assert(p as int == (x * m) % 0x1_0000_0000int);
    if p + 1 > u32::MAX {
        vstd::arithmetic::div_mod::lemma_fundamental_div_mod_converse(
            p + 1,
            0x1_0000_0000int,
            1,
            0,
        );
    } else {
        vstd::arithmetic::div_mod::lemma_small_mod((p + 1) as nat, 0x1_0000_0000nat);
    }
    vstd::arithmetic::div_mod::lemma_add_mod_noop(x * m, 1, 0x1_0000_0000int);
    vstd::arithmetic::div_mod::lemma_small_mod(1, 0x1_0000_0000nat);
    vstd::arithmetic::div_mod::lemma_small_mod(x as nat, 0x1_0000_0000nat);
}

/// Variable names: hashed with MurmurHash3 and seed 0, as GameMaker does,
/// and compared byte for byte with the name stored in the map.
impl Hash for SmallStr {
    type CompareKey = str;

    open spec fn hashable(compare_key: &str) -> bool {
        compare_key.spec_bytes().len() <= u32::MAX
    }

    open spec fn key_hash(compare_key: &str) -> u32 {
        murmur3_32(compare_key.spec_bytes(), 0)
    }

    open spec fn key_matches(&self, compare_key: &str) -> bool {
        c_bytes(self@) == compare_key.spec_bytes()
    }

    fn hash(compare_key: &str) -> (h: u32)
        ensures
            h == murmur3_32(compare_key.spec_bytes(), 0),
    {
        calculate(compare_key.as_bytes(), 0)
    }

    fn matches(&self, compare_key: &str) -> (b: bool) {
        SmallStr::matches(self, compare_key.as_bytes())
    }
}

/// A name is hashed as MurmurHash3 of exactly its UTF-8 bytes, unchanged,
/// with seed 0, and a stored name matches exactly the names with the same
/// bytes as the C string stored.
pub proof fn lemma_name_hash_is_murmur3_of_bytes(name: &str, stored: SmallStr)
    ensures
        <SmallStr as Hash>::key_hash(name) == murmur3_32(name.spec_bytes(), 0),
        <SmallStr as Hash>::hashable(name) <==> name.spec_bytes().len() <= u32::MAX,
        stored.key_matches(name) <==> c_bytes(stored@) == name.spec_bytes(),
{
}

/// Slot numbers of instance variables, looked for together with whether
/// the runtime hashes them the complex way.
impl Hash for i32 {
    type CompareKey = (i32, bool);

    open spec fn hashable(compare_key: &(i32, bool)) -> bool {
        true
    }

    open spec fn key_hash(compare_key: &(i32, bool)) -> u32 {
        slot_key_hash(compare_key.0, compare_key.1)
    }

    open spec fn key_matches(&self, compare_key: &(i32, bool)) -> bool {
        *self == compare_key.0
    }

    fn hash(compare_key: &(i32, bool)) -> (h: u32) {
        let multiplier: u32 = if compare_key.1 {
            GOLDEN_RATIO_MULTIPLIER
        } else {
            1
        };
        (compare_key.0 as u32).wrapping_mul(multiplier).wrapping_add(1)
    }

    fn matches(&self, compare_key: &(i32, bool)) -> (b: bool) {
        *self == compare_key.0
    }
}

/// The header of a `CHashMap` as it lies in memory.
#[derive(Clone, Copy, Debug, PartialEq, Eq, Structural)]
pub struct HashMapHeader {
    /// The number of slots.
    pub cur_size: u32,
    pub num_used: u32,
    /// The mask that turns a hash into a slot index.
    pub cur_mask: u32,
    pub grow_threshold: u32,
    /// The address of the first slot.
    pub elements: u64,
}

/// Where slot `index` of a map whose slots start at `elements` and take
/// `slot_size` bytes each lies: addresses add modulo 2^64.
pub open spec fn slot_address_of(elements: u64, index: int, slot_size: u64) -> u64 {
    u64_wrapping_add(elements, (index * slot_size) as u64)
}

impl HashMapHeader {
    /// The address of slot `index`, for slots of `slot_size` bytes.
    pub fn slot_address(&self, index: u64, slot_size: u64) -> (addr: u64)
        requires
            index * slot_size <= u64::MAX,
        ensures
            addr == slot_address_of(self.elements, index as int, slot_size),
            addr as int == (self.elements + index * slot_size) % 0x1_0000_0000_0000_0000int,
    {
        proof {
            lemma_slot_address_is_offset(self.elements, index as int, slot_size);
        }
        self.elements.wrapping_add(index * slot_size)
    }
}

/// Whether a slot whose stored hash is `slot_hash` holds an entry.
pub open spec fn is_occupied(slot_hash: u32) -> bool {
    slot_hash != 0
}

/// Whether a slot whose stored hash is `slot_hash` holds an entry.
pub fn slot_is_occupied(slot_hash: u32) -> (b: bool)
    ensures
        b == is_occupied(slot_hash),
        b == (slot_hash != 0),
{
    slot_hash != 0
}

/// Slot `index` lies `index * slot_size` bytes past the first slot, on the
/// whole 64-bit address space: the address is `elements + index *
/// slot_size` modulo 2^64, nothing of the high half of `elements` lost.
pub proof fn lemma_slot_address_is_offset(elements: u64, index: int, slot_size: u64)
    requires
        0 <= index * slot_size <= u64::MAX,
    ensures
        slot_address_of(elements, index, slot_size) as int == (elements + index * slot_size)
            % 0x1_0000_0000_0000_0000int,
        (slot_address_of(elements, index, slot_size) - elements) % 0x1_0000_0000_0000_0000int == (index
            * slot_size) % 0x1_0000_0000_0000_0000int,
{
    let x = index * slot_size;
    let a = slot_address_of(elements, index, slot_size) as int;
    if elements + x > u64::MAX {
        assert(a == elements + x - 0x1_0000_0000_0000_0000int);
        assert((elements + x) % 0x1_0000_0000_0000_0000int == elements + x - 0x1_0000_0000_0000_0000int) by {
            vstd::arithmetic::div_mod::lemma_fundamental_div_mod_converse(
                elements + x,
                0x1_0000_0000_0000_0000int,
                1,
                elements + x - 0x1_0000_0000_0000_0000int,
            );
        }
        assert((a - elements) % 0x1_0000_0000_0000_0000int == x % 0x1_0000_0000_0000_0000int) by {
            vstd::arithmetic::div_mod::lemma_fundamental_div_mod_converse(
                a - elements,
                0x1_0000_0000_0000_0000int,
                -1,
                x,
            );
            vstd::arithmetic::div_mod::lemma_small_mod(x as nat, 0x1_0000_0000_0000_0000int as nat);
        }
    } else {
        assert(a == elements + x);
        vstd::arithmetic::div_mod::lemma_small_mod((elements + x) as nat, 0x1_0000_0000_0000_0000int as nat);
    }
}

/// Which slots count as holding an entry: exactly those whose stored hash
/// is not 0. Listing a map keeps the same slots that a lookup does not
/// stop at as empty: a slot a lookup finds its key in is occupied, and a
/// slot that is not occupied ends every lookup.
pub proof fn lemma_occupied_slots(p: Probe, slot_hash: u32, key_matches: bool)
    ensures
        is_occupied(slot_hash) <==> slot_hash != 0,
        probe_step(p, slot_hash, key_matches) is Found ==> is_occupied(slot_hash),
        !is_occupied(slot_hash) ==> probe_step(p, slot_hash, key_matches) is NotFound,
        p.hash != 0 && slot_hash == p.hash && key_matches ==> is_occupied(slot_hash),
{
}

/// How far the entry whose hash is `slot_hash`, found at slot `pos`, lies
/// past the slot its hash points to, counted round the table.
pub open spec fn displacement(pos: u32, slot_hash: u32, cur_size: u32, cur_mask: u32) -> u32 {
    u32_wrapping_add(u32_wrapping_sub(pos, slot_hash & cur_mask), cur_size) & cur_mask
}

/// A lookup in progress: the key's hash, the map, and how far the lookup
/// has come.
#[derive(Clone, Copy, Debug, PartialEq, Eq, Structural)]
pub struct Probe {
    /// The key's hash, masked with [`HASH_MASK`].
    pub hash: u32,
    pub header: HashMapHeader,
    pub slot_size: u64,
    /// The slot to read next.
    pub pos: u32,
    /// How many slots the lookup has read before this one.
    pub step: u32,
}

/// What a lookup does after reading a slot.
#[derive(Clone, Copy, Debug, PartialEq, Eq, Structural)]
pub enum ProbeStep {
    /// The slot holds the key: its value is the answer.
    Found,
    /// The key is not in the map.
    NotFound,
    /// Read the next slot.
    Next(Probe),
}

/// The lookup's state before it reads its first slot.
pub open spec fn probe_start(key_hash: u32, header: HashMapHeader, slot_size: u64) -> Probe {
    let hash = key_hash & HASH_MASK;
    Probe { hash, header, slot_size, pos: hash & header.cur_mask, step: 0 }
}

/// Whether the slot read holds the key looked for.
pub open spec fn probe_hits(p: Probe, slot_hash: u32, key_matches: bool) -> bool {
    slot_hash != 0 && slot_hash == p.hash && key_matches
}

/// Whether the lookup goes on after reading a slot whose stored hash is
/// `slot_hash`: the slot is occupied by another key, and that key lies at
/// least as far past its own place as this lookup has come.
pub open spec fn probe_continues(p: Probe, slot_hash: u32, key_matches: bool) -> bool {
    &&& slot_hash != 0
    &&& !probe_hits(p, slot_hash, key_matches)
    &&& displacement(p.pos, slot_hash, p.header.cur_size, p.header.cur_mask) >= p.step
}

/// The lookup's state after it moves on from `p`: the next slot round the
/// table.
pub open spec fn probe_next(p: Probe) -> Probe {
    Probe { pos: u32_wrapping_add(p.pos, 1) & p.header.cur_mask, step: (p.step + 1) as u32, ..p }
}

/// What the lookup does after reading a slot: `slot_hash` is the hash that
/// slot stores and `key_matches` whether its key is the one looked for (it
/// counts only where the two hashes agree).
pub open spec fn probe_step(p: Probe, slot_hash: u32, key_matches: bool) -> ProbeStep {
    if probe_hits(p, slot_hash, key_matches) {
        ProbeStep::Found
    } else if probe_continues(p, slot_hash, key_matches) {
        ProbeStep::Next(probe_next(p))
    } else {
        ProbeStep::NotFound
    }
}

/// Where a lookup that starts in state `p` and reads slots storing
/// `slots[i].0` (with `slots[i].1` telling whether the key there matches)
/// ends: `Next` when it would read more slots than these.
pub open spec fn probe_run(p: Probe, slots: Seq<(u32, bool)>) -> ProbeStep
    decreases slots.len(),
{
    if slots.len() == 0 {
        ProbeStep::Next(p)
    } else {
        match probe_step(p, slots[0].0, slots[0].1) {
            ProbeStep::Next(q) => probe_run(q, slots.drop_first()),
            r => r,
        }
    }
}

proof fn lemma_displacement_bounded(pos: u32, slot_hash: u32, cur_size: u32, cur_mask: u32)
    ensures
        displacement(pos, slot_hash, cur_size, cur_mask) <= cur_mask,
{
    let d = u32_wrapping_add(u32_wrapping_sub(pos, slot_hash & cur_mask), cur_size);
    assert(d & cur_mask <= cur_mask) by (bit_vector);
}

/// A lookup that has read more slots than the mask allows never reads
/// another: every entry lies at most `cur_mask` slots past its place.
pub proof fn lemma_probe_stops_after_full_round(p: Probe, slot_hash: u32, key_matches: bool)
    requires
        p.step > p.header.cur_mask,
    ensures
        !(probe_step(p, slot_hash, key_matches) is Next),
{
    lemma_displacement_bounded(p.pos, slot_hash, p.header.cur_size, p.header.cur_mask);
}

proof fn lemma_probe_run_ends(p: Probe, slots: Seq<(u32, bool)>)
    requires
        p.header.cur_mask < u32::MAX,
        p.step <= p.header.cur_mask + 1,
        slots.len() >= p.header.cur_mask + 2 - p.step,
    ensures
        !(probe_run(p, slots) is Next),
    decreases slots.len(),
{
    match probe_step(p, slots[0].0, slots[0].1) {
        ProbeStep::Next(q) => {
            lemma_displacement_bounded(p.pos, slots[0].0, p.header.cur_size, p.header.cur_mask);
            lemma_probe_run_ends(q, slots.drop_first());
        },
        _ => {},
    }
}

/// Every lookup ends: from its start, it reads at most `cur_mask + 2`
/// slots, whatever they hold (for masks below `u32::MAX`, where the count
/// of slots read cannot overflow).
pub proof fn lemma_lookup_terminates(
    key_hash: u32,
    header: HashMapHeader,
    slot_size: u64,
    slots: Seq<(u32, bool)>,
)
    requires
        header.cur_mask < u32::MAX,
        slots.len() >= header.cur_mask + 2,
    ensures
        !(probe_run(probe_start(key_hash, header, slot_size), slots) is Next),
{
    lemma_probe_run_ends(probe_start(key_hash, header, slot_size), slots);
}

/// A lookup reports its key found only where it read a slot that stores
/// the key's masked hash and holds the key.
pub proof fn lemma_found_only_at_matching_slot(p: Probe, slots: Seq<(u32, bool)>)
    requires
        probe_run(p, slots) is Found,
    ensures
        exists|i: int|
            0 <= i < slots.len() && #[trigger] slots[i].0 == p.hash && slots[i].0 != 0
                && slots[i].1,
    decreases slots.len(),
{
    match probe_step(p, slots[0].0, slots[0].1) {
        ProbeStep::Next(q) => {
            lemma_found_only_at_matching_slot(q, slots.drop_first());
            let i = choose|i: int|
                0 <= i < slots.drop_first().len() && #[trigger] slots.drop_first()[i].0 == q.hash
                    && slots.drop_first()[i].0 != 0 && slots.drop_first()[i].1;
            assert(slots[i + 1] == slots.drop_first()[i]);
        },
        _ => {
            assert(slots[0].0 == p.hash);
        },
    }
}

/// The slot a lookup in state `p` reads after moving on `i` times.
pub open spec fn probe_pos(p: Probe, i: nat) -> u32
    decreases i,
{
    if i == 0 {
        p.pos
    } else {
        u32_wrapping_add(probe_pos(p, (i - 1) as nat), 1) & p.header.cur_mask
    }
}

proof fn lemma_probe_pos_next(p: Probe, i: nat)
    ensures
        probe_pos(probe_next(p), i) == probe_pos(p, i + 1),
    decreases i,
{
    let q = probe_next(p);
    assert(q.header == p.header);
    if i > 0 {
        lemma_probe_pos_next(p, (i - 1) as nat);
        assert(probe_pos(q, i) == u32_wrapping_add(probe_pos(q, (i - 1) as nat), 1)
            & p.header.cur_mask);
        assert(probe_pos(p, i + 1) == u32_wrapping_add(probe_pos(p, i), 1) & p.header.cur_mask);
    } else {
        assert(probe_pos(p, 0) == p.pos);
        assert(probe_pos(p, 1) == u32_wrapping_add(probe_pos(p, 0), 1) & p.header.cur_mask);
    }
}

/// A lookup finds a key that lies in the map the way the runtime lays
/// entries out: if the slot it reads after moving on `d` times holds the
/// key, and every slot it reads before that holds an entry lying at least
/// as far past its own place as the lookup has come by then, the lookup
/// reports the key found (at that slot, or at an earlier one holding the
/// key too).
pub proof fn lemma_lookup_finds_laid_out_key(p: Probe, slots: Seq<(u32, bool)>, d: nat)
    requires
        d < slots.len(),
        p.step + d < u32::MAX,
        slots[d as int].0 != 0,
        slots[d as int].0 == p.hash,
        slots[d as int].1,
        forall|i: int|
            0 <= i < d ==> #[trigger] slots[i].0 != 0 && displacement(
                probe_pos(p, i as nat),
                slots[i].0,
                p.header.cur_size,
                p.header.cur_mask,
            ) >= p.step + i,
    ensures
        probe_run(p, slots) is Found,
    decreases d,
{
    if !probe_hits(p, slots[0].0, slots[0].1) {
        assert(d > 0);
        assert(slots[0].0 != 0);
        assert(probe_pos(p, 0) == p.pos);
        let q = probe_next(p);
        let rest = slots.drop_first();
        assert forall|i: int| 0 <= i < d - 1 implies #[trigger] rest[i].0 != 0 && displacement(
            probe_pos(q, i as nat),
            rest[i].0,
            q.header.cur_size,
            q.header.cur_mask,
        ) >= q.step + i by {
            assert(rest[i] == slots[i + 1]);
            lemma_probe_pos_next(p, i as nat);
            assert(slots[i + 1].0 != 0);
        }
        assert(rest[d - 1] == slots[d as int]);
        lemma_lookup_finds_laid_out_key(q, rest, (d - 1) as nat);
    }
}

/// A lookup reports the key found only at a slot that stores the key's
/// masked hash and holds the key, and otherwise moves on to the next slot
/// round the table with one more slot read, or gives up.
pub proof fn lemma_probe_step_cases(p: Probe, slot_hash: u32, key_matches: bool)
    ensures
        probe_step(p, slot_hash, key_matches) is Found <==> (slot_hash != 0 && slot_hash
            == p.hash && key_matches),
        probe_step(p, slot_hash, key_matches) is Next ==> probe_step(
            p,
            slot_hash,
            key_matches,
        )->Next_0 == (Probe {
            pos: u32_wrapping_add(p.pos, 1) & p.header.cur_mask,
            step: (p.step + 1) as u32,
            ..p
        }),
        slot_hash == 0 ==> probe_step(p, slot_hash, key_matches) is NotFound,
{
}

impl Probe {
    /// Starts a lookup for a key whose hash is `key_hash` in the map whose
    /// header is `header`, with slots of `slot_size` bytes.
    pub fn start(key_hash: u32, header: HashMapHeader, slot_size: u64) -> (p: Probe)
        ensures
            p == probe_start(key_hash, header, slot_size),
    {
        let hash = key_hash & HASH_MASK;
        Probe { hash, header, slot_size, pos: hash & header.cur_mask, step: 0 }
    }

    /// The address of the slot to read next.
    pub fn slot_address(&self) -> (addr: u64)
        requires
            self.pos * self.slot_size <= u64::MAX,
        ensures
            addr == slot_address_of(self.header.elements, self.pos as int, self.slot_size),
            addr as int == (self.header.elements + self.pos * self.slot_size) % 0x1_0000_0000_0000_0000int,
    {
        self.header.slot_address(self.pos as u64, self.slot_size)
    }

    /// Whether the key stored in a slot whose stored hash is `slot_hash` has
    /// to be compared with the key looked for: only where the hashes agree.
    pub fn needs_key(&self, slot_hash: u32) -> (b: bool)
        ensures
            b == (slot_hash != 0 && slot_hash == self.hash),
    {
        slot_hash != 0 && slot_hash == self.hash
    }

    /// Whether the lookup goes on after reading a slot whose stored hash is
    /// `slot_hash`, `key_matches` telling whether its key is the one looked
    /// for.
    pub fn continues(&self, slot_hash: u32, key_matches: bool) -> (b: bool)
        ensures
            b == probe_continues(*self, slot_hash, key_matches),
    {
        if slot_hash == 0 || (slot_hash == self.hash && key_matches) {
            return false;
        }
        let slot_ideal_pos = slot_hash & self.header.cur_mask;
        let difference = self.pos.wrapping_sub(slot_ideal_pos);
        let inbounds_difference = difference.wrapping_add(self.header.cur_size) & self.header.cur_mask;
        inbounds_difference >= self.step
    }

    /// What to do after reading the slot at `self.pos`, whose stored hash is
    /// `slot_hash`; `key_matches` tells whether its key is the one looked
    /// for, and is not looked at unless `needs_key(slot_hash)`.
    ///
    /// The lookup counts the slots it reads in a `u32`; it cannot go on
    /// once that count would overflow.
    pub fn examine(&self, slot_hash: u32, key_matches: bool) -> (r: ProbeStep)
        requires
            probe_continues(*self, slot_hash, key_matches) ==> self.step < u32::MAX - 1,
        ensures
            r == probe_step(*self, slot_hash, key_matches),
    {
        if slot_hash != 0 && slot_hash == self.hash && key_matches {
            ProbeStep::Found
        } else if self.continues(slot_hash, key_matches) {
            ProbeStep::Next(
                Probe {
                    pos: self.pos.wrapping_add(1) & self.header.cur_mask,
                    step: self.step + 1,
                    ..*self
                },
            )
        } else {
            ProbeStep::NotFound
        }
    }
}

} // verus!
