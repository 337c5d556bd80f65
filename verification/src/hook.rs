//! The arithmetic of the weapon hook: where to look for memory for the
//! hook's code near the patched instruction, and the five-byte relative
//! jump that sends the patched instruction to that code.
use vstd::prelude::*;

verus! {

/// Offset, from the game's image base, of the instruction that the hook replaces.
pub const GET_WEAPON_HOOK_OFFSET: usize = 0x7c045d;

/// Offset, from the game's image base, of the instruction after the replaced one.
pub const GET_WEAPON_RETURN_OFFSET: usize = 0x7c0462;

/// How many places are tried for the hook's code.
pub const ALLOCATION_ATTEMPTS: usize = 40;

/// The distance between two places tried for the hook's code (one MiB).
pub const ALLOCATION_STEP: usize = 0x100000;

/// The opcode of a near jump with a 32-bit displacement.
pub const JMP_REL32: u8 = 0xE9;

/// The place tried at attempt `attempt`: `attempt` MiB above the target on
/// even attempts and below it on odd ones (wrapping around the address
/// space), rounded down to a MiB boundary.
pub open spec fn allocation_candidate_spec(target_addr: usize, attempt: usize) -> usize {
    let offset = (attempt * ALLOCATION_STEP) as usize;
    let moved = if attempt % 2 == 0 {
        vstd::wrapping::usize_specs::wrapping_add(target_addr, offset)
    } else {
        vstd::wrapping::usize_specs::wrapping_sub(target_addr, offset)
    };
    moved & !0xFFFFFusize
}

/// The address at which to try to allocate the hook's code at attempt
/// `attempt`, for the instruction at `target_addr`.
pub fn allocation_candidate(target_addr: usize, attempt: usize) -> (r: usize)
    requires
        attempt < ALLOCATION_ATTEMPTS,
    ensures
        r == allocation_candidate_spec(target_addr, attempt),
        r % 0x100000 == 0,
{
    let offset: usize = if attempt == 0 {
        0
    } else {
        attempt * ALLOCATION_STEP
    };
    let moved: usize = if attempt % 2 == 0 {
        target_addr.wrapping_add(offset)
    } else {
        target_addr.wrapping_sub(offset)
    };
    let r: usize = moved & !0xFFFFFusize;
    assert(r % 0x100000 == 0) by (bit_vector)
        requires
            r == moved & !0xFFFFFusize,
    ;
    r
}

/// The 32-bit displacement of a jump from the five-byte instruction at
/// `target_addr` to `hook_addr`: the distance from the end of the jump to
/// the hook, the addresses read as signed, truncated to 32 bits.
pub open spec fn jump_displacement(hook_addr: usize, target_addr: usize) -> i32 {
    ((hook_addr as isize) as int - ((target_addr as isize) as int + 5)) as i32
}

/// The four bytes of a 32-bit value, least significant first.
pub open spec fn le_bytes(v: u32) -> Seq<u8> {
    seq![
        (v & 0xFF) as u8,
        ((v >> 8) & 0xFF) as u8,
        ((v >> 16) & 0xFF) as u8,
        ((v >> 24) & 0xFF) as u8,
    ]
}

/// The 32-bit value whose bytes, least significant first, are `b`.
pub open spec fn from_le_bytes(b: Seq<u8>) -> u32 {
    (b[0] as u32) | ((b[1] as u32) << 8) | ((b[2] as u32) << 16) | ((b[3] as u32) << 24)
}

/// The five-byte near jump from the instruction at `target_addr` to
/// `hook_addr`: the opcode `E9`, then the displacement, least significant
/// byte first.
pub fn jump_instruction(hook_addr: usize, target_addr: usize) -> (r: [u8; 5])
    requires
        (target_addr as isize) + 5 <= isize::MAX,
        isize::MIN <= (hook_addr as isize) - ((target_addr as isize) + 5) <= isize::MAX,
    ensures
        r@ == seq![JMP_REL32] + le_bytes(jump_displacement(hook_addr, target_addr) as u32),
        from_le_bytes(r@.subrange(1, 5)) == jump_displacement(hook_addr, target_addr) as u32,
{
    let hook_signed: isize = hook_addr as isize;
    let target_signed: isize = target_addr as isize;
    let rel_offset: i32 = (hook_signed - (target_signed + 5)) as i32;
    let v: u32 = rel_offset as u32;
    let b0: u8 = (v & 0xFF) as u8;
    let b1: u8 = ((v >> 8) & 0xFF) as u8;
    let b2: u8 = ((v >> 16) & 0xFF) as u8;
    let b3: u8 = ((v >> 24) & 0xFF) as u8;
    let r: [u8; 5] = [JMP_REL32, b0, b1, b2, b3];
    assert(r@ =~= seq![JMP_REL32] + le_bytes(v));
    assert(r@.subrange(1, 5) =~= le_bytes(v));
    assert((b0 as u32) | ((b1 as u32) << 8) | ((b2 as u32) << 16) | ((b3 as u32) << 24) == v)
        by (bit_vector)
        requires
            b0 == (v & 0xFF) as u8,
            b1 == ((v >> 8) & 0xFF) as u8,
            b2 == ((v >> 16) & 0xFF) as u8,
            b3 == ((v >> 24) & 0xFF) as u8,
    ;
    r
}

} // verus!
