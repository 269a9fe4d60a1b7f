//! The library's stated laws: interning idempotence, size fidelity of the
//! instruction stream, branch-resolution correctness in both directions,
//! label-environment isolation, and the stack-map frame-kind threshold, each
//! proved against the spec functions the builders' contracts are written in.

use vstd::prelude::*;

use crate::class_builder::LabelEntryV;
use crate::class_builder::MethodBuilder;
use crate::class_builder::PendingV;
use crate::class_builder::branch_code;
use crate::class_builder::frame_for;
use crate::class_builder::frame_offset;
use crate::class_builder::has_unresolved;
use crate::class_builder::intern_overflows;
use crate::class_builder::interned_index;
use crate::class_builder::interned_pool;
use crate::class_builder::label_lookup;
use crate::class_builder::pending_instr;
use crate::class_builder::pool_contains;
use crate::class_builder::pool_wf;
use crate::class_builder::resolve_entry;
use crate::class_builder::unresolved_at;
use crate::classfile::ConstantV;
use crate::classfile::Instruction;
use crate::classfile::StackMapFrame;
use crate::classfile::VerificationType;
use crate::classfile::instruction_size;

verus! {

/// Interning idempotence: interning a value into a well-formed pool that
/// already went through the same interning changes nothing — the same index
/// comes back and the pool stays as it is — and a single interning grows the
/// pool by at most one entry.
pub proof fn lemma_intern_idempotent(pool: Seq<ConstantV>, c: ConstantV)
    requires
        pool_wf(pool),
        !intern_overflows(pool, c),
    ensures
        interned_pool(interned_pool(pool, c), c) == interned_pool(pool, c),
        interned_index(interned_pool(pool, c), c) == interned_index(pool, c),
        pool.len() <= interned_pool(pool, c).len() <= pool.len() + 1,
{
    if !pool_contains(pool, c) {
        let p1 = pool.push(c);
        assert(p1[pool.len() as int] == c);
        assert(pool_contains(p1, c));
        let j = choose|j: int| 0 <= j < p1.len() && p1[j] == c;
        if j < pool.len() {
            assert(pool[j] == p1[j]);
            assert(false);
        }
        assert(interned_index(p1, c) == pool.len() + 1);
    }
}

/// Size fidelity: in a well-formed assembler, the recorded offset of
/// instruction `i + 1` equals the offset of instruction `i` plus
/// instruction `i`'s fixed encoded size.
pub proof fn lemma_size_fidelity(mb: MethodBuilder, i: int)
    requires
        mb.wf(),
        0 <= i < mb.code().len() - 1,
    ensures
        mb.code()[i + 1].0 == mb.code()[i].0 + instruction_size(pending_instr(mb.code()[i].1)),
{
}

/// Forward-branch correctness: a conditional branch at offset `pos` to a
/// label declared `k` encoded bytes later resolves its operand to exactly
/// `k`, not to the label's absolute position.
pub proof fn lemma_forward_branch(
    t: Seq<LabelEntryV>,
    pos: u16,
    k: u16,
    name: Seq<char>,
    env: u16,
    placeholder: u16,
)
    requires
        pos + k <= 0xFFFF,
        label_lookup(t, name, env) == Some((pos + k) as u16),
    ensures
        resolve_entry(
            (pos, PendingV::Waiting(name, env, Instruction::IfIcmpEq(placeholder))),
            t,
        ) == Instruction::IfIcmpEq(k),
{
}

/// Backward-branch correctness: an unconditional jump at offset `pos` to a
/// label declared earlier resolves to the negative delta
/// `target - pos`, carried as its 16-bit two's-complement encoding.
pub proof fn lemma_backward_branch(
    t: Seq<LabelEntryV>,
    pos: u16,
    target: u16,
    name: Seq<char>,
    env: u16,
    placeholder: u16,
)
    requires
        target < pos,
        label_lookup(t, name, env) == Some(target),
    ensures
        resolve_entry((pos, PendingV::Waiting(name, env, Instruction::Goto(placeholder))), t)
            == Instruction::Goto(branch_code(target, pos)),
        branch_code(target, pos) as int - 0x10000 == target - pos,
{
}

/// Environment isolation, declaration side: declaring a label under
/// environment `a` leaves every lookup under a different environment `b`
/// exactly as it was, whatever the label's name.
pub proof fn lemma_env_isolation(
    t: Seq<LabelEntryV>,
    name: Seq<char>,
    a: u16,
    b: u16,
    offset: u16,
)
    requires
        a != b,
    ensures
        label_lookup(t.push(LabelEntryV { name, env: a, offset }), name, b) == label_lookup(
            t,
            name,
            b,
        ),
{
    let t2 = t.push(LabelEntryV { name, env: a, offset });
    assert(t2.drop_last() =~= t);
}

/// Environment isolation, lookup side: a table with no entry under
/// `(name, env)` resolves that key to nothing, however many same-named
/// labels other environments hold.
pub proof fn lemma_lookup_none(t: Seq<LabelEntryV>, name: Seq<char>, env: u16)
    requires
        forall|i: int|
            0 <= i < t.len() ==> !((#[trigger] t[i]).name == name && t[i].env == env),
    ensures
        label_lookup(t, name, env) is None,
    decreases t.len(),
{
    if t.len() > 0 {
        assert(t[t.len() - 1] == t.last());
        assert(forall|i: int|
            0 <= i < t.drop_last().len() ==> (#[trigger] t.drop_last()[i]) == t[i]);
        lemma_lookup_none(t.drop_last(), name, env);
    }
}

/// A pending branch whose key resolves to nothing makes the whole method
/// build unresolvable: `done` then fails with the unresolved-label error and
/// appends no method record (by its contract).
pub proof fn lemma_unresolved_branch_fails(
    mb: MethodBuilder,
    i: int,
    name: Seq<char>,
    env: u16,
)
    requires
        0 <= i < mb.code().len(),
        mb.code()[i].1 matches PendingV::Waiting(n, e, _) && n == name && e == env,
        label_lookup(mb.label_table(), name, env) is None,
    ensures
        has_unresolved(mb.code(), mb.label_table()),
{
    assert(unresolved_at(mb.code(), mb.label_table(), i));
}

/// Frame-kind threshold: a label declared more than 255 bytes after the
/// previous frame — 256 bytes exactly is already past the 8-bit range —
/// with no verification type live on the tracked stack is recorded as the
/// extended 16-bit delta-only frame, never the compact form.
pub proof fn lemma_frame_kind_threshold(last: u16, cursor: u16, types: Seq<VerificationType>)
    requires
        last <= cursor,
        cursor - last > 255,
        types.len() == 0,
    ensures
        frame_for(frame_offset(Some(last), cursor), types) == StackMapFrame::SameFrameExtended(
            (cursor - last) as u16,
        ),
{
}

} // verus!
