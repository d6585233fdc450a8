use vstd::prelude::*;
use slotmap::DefaultKey;
use slotmap::Key;
use slotmap::KeyData;
use slotmap::SlotMap;

verus! {

/// The bit that every key of a slot map has set when it is written as one
/// 64-bit number: the lowest bit of the key's version, which is odd.
pub const VERSION_BIT: u64 = 0x1_0000_0000;

/// A slot map that issues the handles of a node store and keeps, for each
/// handle, the place of the record that it names.
///
/// Nothing is ever removed from it.
#[verifier::external_body]
pub struct HandleArena {
    slots: SlotMap<DefaultKey, usize>,
}

/// What the arena holds: for each key that it has issued, written as one
/// 64-bit number, the value that was inserted with it.
pub uninterp spec fn arena_contents(arena: HandleArena) -> Map<u64, usize>;

/// `SlotMap::new`: a slot map that holds nothing.
#[verifier::external_body]
pub(crate) fn arena_new() -> (arena: HandleArena)
    ensures
        arena_contents(arena) =~= Map::empty(),
{
    HandleArena { slots: SlotMap::new() }
}

/// `SlotMap::insert`, then `Key::data` and `KeyData::as_ffi` on the key that
/// it returns.
///
/// The slot map picks a key that it does not hold, stores the value under
/// it and leaves the rest as it was. The key's version is odd, so the
/// version bit of the number is set. The call panics only when no slot is
/// free and the slot map has 2^32 - 2 slots besides its sentinel, which
/// cannot be while it holds fewer values than that.
#[verifier::external_body]
pub(crate) fn arena_insert(arena: &mut HandleArena, value: usize) -> (key: u64)
    requires
        arena_contents(*old(arena)).dom().finite(),
        arena_contents(*old(arena)).dom().len() < 0xFFFF_FFFE,
    ensures
        !arena_contents(*old(arena)).dom().contains(key),
        key & VERSION_BIT == VERSION_BIT,
        arena_contents(*final(arena)) == arena_contents(*old(arena)).insert(key, value),
{
    arena.slots.insert(value).data().as_ffi()
}

/// `KeyData::from_ffi`, then `SlotMap::get` with the key made of it.
///
/// `from_ffi` reads any number as a key with an odd version: the key whose
/// own number is the given one with the version bit set. `get` returns the
/// value stored under that key, if the slot map holds it.
#[verifier::external_body]
pub(crate) fn arena_get(arena: &HandleArena, key: u64) -> (value: Option<usize>)
    ensures
        value == (if arena_contents(*arena).dom().contains(key | VERSION_BIT) {
            Some(arena_contents(*arena)[key | VERSION_BIT])
        } else {
            None
        }),
{
    arena.slots.get(DefaultKey::from(KeyData::from_ffi(key))).copied()
}

} // verus!
