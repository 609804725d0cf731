use vstd::prelude::*;
use crate::cpu::{CPU, CpuError, Flow};
use crate::opcode::AddressingMode;

verus! {

/// After Load Accumulator places a value in the accumulator, Zero is set
/// exactly when the value is zero and Negative exactly when its bit 7 is set.
pub proof fn lemma_load_sets_zero_negative(pre: CPU, post: CPU, mode: AddressingMode, at: u16)
    requires
        CPU::lda_effect(&pre, &post, mode, at),
    ensures
        (post.status & 0x02 != 0) == (post.register_a == 0),
        (post.status & 0x80 != 0) == (post.register_a >= 0x80),
{
    let v = post.register_a;
    assert((v & 0x80 != 0) == (v >= 0x80)) by (bit_vector);
}

/// After Transfer Accumulator to X places a value in X, Zero is set exactly
/// when the value is zero and Negative exactly when its bit 7 is set.
pub proof fn lemma_transfer_sets_zero_negative(pre: CPU, post: CPU)
    requires
        CPU::tax_effect(&pre, &post),
    ensures
        (post.status & 0x02 != 0) == (post.register_x == 0),
        (post.status & 0x80 != 0) == (post.register_x >= 0x80),
{
    let v = post.register_x;
    assert((v & 0x80 != 0) == (v >= 0x80)) by (bit_vector);
}

/// Increment X wraps from 0xFF to 0x00 and then sets Zero.
pub proof fn lemma_increment_wraps(pre: CPU, post: CPU)
    requires
        CPU::inx_effect(&pre, &post),
        pre.register_x == 0xFF,
    ensures
        post.register_x == 0,
        post.status & 0x02 != 0,
{
}

/// A store followed by a load from the same effective address gives back the
/// stored accumulator unchanged.
pub proof fn lemma_store_load_round_trip(
    c0: CPU,
    c1: CPU,
    c2: CPU,
    store_mode: AddressingMode,
    store_at: u16,
    load_mode: AddressingMode,
    load_at: u16,
)
    requires
        c0.wf(),
        CPU::sta_effect(&c0, &c1, store_mode, store_at),
        CPU::lda_effect(&c1, &c2, load_mode, load_at),
        c1.operand_at(load_at, load_mode) == c0.operand_at(store_at, store_mode),
    ensures
        c2.register_a == c0.register_a,
{
}

/// A step on an opcode byte that the table does not hold fails with an error
/// naming that byte and its address, and leaves the processor unchanged.
pub proof fn lemma_unrecognized_opcode_stops(pre: CPU, post: CPU, r: Result<Flow, CpuError>)
    requires
        CPU::step_result(&pre, &post, r),
        !pre.table().entries().contains_key(pre.current_code()),
    ensures
        r == CPU::unrecognized(pre.current_code(), pre.program_counter),
        post == pre,
{
}

} // verus!
