use vstd::prelude::*;

verus! {

/// The opcode that starts a literal: a type byte and four value bytes follow.
pub const OP_LITERAL: u8 = 0x01;

pub const OP_SWAP: u8 = 0x02;

pub const OP_DEL: u8 = 0x03;

pub const OP_COPY: u8 = 0x04;

pub const OP_ADD: u8 = 0x10;

pub const OP_SUB: u8 = 0x11;

pub const OP_MUL: u8 = 0x12;

pub const OP_FLOOR: u8 = 0x19;

/// One instruction of the value stack machine.
#[derive(Clone, Copy, Debug, PartialEq, Eq, Structural)]
pub enum Op {
    /// Push the value whose bits these are.
    Literal(u32),
    Swap,
    Del,
    Copy,
    Add,
    Sub,
    Mul,
    Floor,
}

/// The number that four bytes give, most significant first.
pub open spec fn u32_be(b0: u8, b1: u8, b2: u8, b3: u8) -> int {
    b0 * 0x1000000int + b1 * 0x10000int + b2 * 0x100int + b3
}

/// The number that four bytes give, least significant first.
pub open spec fn u32_le(b0: u8, b1: u8, b2: u8, b3: u8) -> int {
    u32_be(b3, b2, b1, b0)
}

/// The instruction that a one-byte opcode stands for; `None` for a literal's
/// opcode and for any byte that is no opcode.
pub open spec fn plain_op(b: u8) -> Option<Op> {
    if b == OP_SWAP {
        Some(Op::Swap)
    } else if b == OP_DEL {
        Some(Op::Del)
    } else if b == OP_COPY {
        Some(Op::Copy)
    } else if b == OP_ADD {
        Some(Op::Add)
    } else if b == OP_SUB {
        Some(Op::Sub)
    } else if b == OP_MUL {
        Some(Op::Mul)
    } else if b == OP_FLOOR {
        Some(Op::Floor)
    } else {
        None
    }
}

/// The instructions that `bytes` encode. Decoding stops at the first byte that
/// is no opcode and at a literal cut short by the end of the bytes.
pub open spec fn decoded(bytes: Seq<u8>) -> Seq<Op>
    decreases bytes.len(),
{
    if bytes.len() == 0 {
        Seq::empty()
    } else if bytes[0] == OP_LITERAL {
        if bytes.len() >= 6 {
            seq![Op::Literal(u32_be(bytes[2], bytes[3], bytes[4], bytes[5]) as u32)] + decoded(
                bytes.subrange(6, bytes.len() as int),
            )
        } else {
            Seq::empty()
        }
    } else {
        match plain_op(bytes[0]) {
            Some(op) => seq![op] + decoded(bytes.subrange(1, bytes.len() as int)),
            None => Seq::empty(),
        }
    }
}

proof fn lemma_shifted_byte(b: u32)
    requires
        b < 256,
    ensures
        b << 8u32 == b * 0x100,
        b << 16u32 == b * 0x10000,
        b << 24u32 == b * 0x1000000,
{
    assert(b < 256 ==> b << 8u32 == b * 0x100) by (bit_vector);
    assert(b < 256 ==> b << 16u32 == b * 0x10000) by (bit_vector);
    assert(b < 256 ==> b << 24u32 == b * 0x1000000) by (bit_vector);
}

/// Reads four bytes as a number, most significant first.
pub fn as_u32_be(array: &[u8; 4]) -> (r: u32)
    ensures
        r == u32_be(array[0], array[1], array[2], array[3]),
{
    let b0 = array[0] as u32;
    let b1 = array[1] as u32;
    let b2 = array[2] as u32;
    let b3 = array[3] as u32;
    proof {
        lemma_shifted_byte(b0);
        lemma_shifted_byte(b1);
        lemma_shifted_byte(b2);
    }
    (b0 << 24u32) + (b1 << 16u32) + (b2 << 8u32) + b3
}

/// Reads four bytes as a number, least significant first.
pub fn as_u32_le(array: &[u8; 4]) -> (r: u32)
    ensures
        r == u32_le(array[0], array[1], array[2], array[3]),
{
    let b0 = array[0] as u32;
    let b1 = array[1] as u32;
    let b2 = array[2] as u32;
    let b3 = array[3] as u32;
    proof {
        lemma_shifted_byte(b1);
        lemma_shifted_byte(b2);
        lemma_shifted_byte(b3);
    }
    b0 + (b1 << 8u32) + (b2 << 16u32) + (b3 << 24u32)
}

/// The instruction that a one-byte opcode stands for.
fn plain_op_of(b: u8) -> (r: Option<Op>)
    ensures
        r == plain_op(b),
{
    if b == OP_SWAP {
        Some(Op::Swap)
    } else if b == OP_DEL {
        Some(Op::Del)
    } else if b == OP_COPY {
        Some(Op::Copy)
    } else if b == OP_ADD {
        Some(Op::Add)
    } else if b == OP_SUB {
        Some(Op::Sub)
    } else if b == OP_MUL {
        Some(Op::Mul)
    } else if b == OP_FLOOR {
        Some(Op::Floor)
    } else {
        None
    }
}

/// Decodes a program into its instructions, in order.
pub fn decode(instructions: &Vec<u8>) -> (ops: Vec<Op>)
    ensures
        ops@ == decoded(instructions@),
{
    let n = instructions.len();
    let mut ops: Vec<Op> = Vec::new();
    let mut i: usize = 0;
    assert(instructions@.subrange(0, n as int) =~= instructions@);
    assert(ops@ + decoded(instructions@) =~= decoded(instructions@));
    while i < n
        invariant
            i <= n,
            n == instructions@.len(),
            ops@ + decoded(instructions@.subrange(i as int, n as int)) == decoded(instructions@),
        decreases n - i,
    {
        let ghost rest = instructions@.subrange(i as int, n as int);
        let b = instructions[i];
        assert(rest[0] == b);
        if b == OP_LITERAL {
            if n - i < 6 {
                assert(ops@ =~= ops@ + decoded(rest));
                return ops;
            }
            let bits = as_u32_be(
                &[instructions[i + 2], instructions[i + 3], instructions[i + 4], instructions[i + 5]],
            );
            assert(rest.subrange(6, rest.len() as int) =~= instructions@.subrange(
                i + 6,
                n as int,
            ));
            ops.push(Op::Literal(bits));
            i = i + 6;
            assert(ops@ + decoded(instructions@.subrange(i as int, n as int)) =~= decoded(
                instructions@,
            ));
        } else {
            match plain_op_of(b) {
                Some(op) => {
                    assert(rest.subrange(1, rest.len() as int) =~= instructions@.subrange(
                        i + 1,
                        n as int,
                    ));
                    ops.push(op);
                    i = i + 1;
                    assert(ops@ + decoded(instructions@.subrange(i as int, n as int)) =~= decoded(
                        instructions@,
                    ));
                },
                None => {
                    assert(ops@ =~= ops@ + decoded(rest));
                    return ops;
                },
            }
        }
    }
    assert(instructions@.subrange(n as int, n as int) =~= Seq::<u8>::empty());
    assert(ops@ =~= ops@ + decoded(instructions@.subrange(n as int, n as int)));
    ops
}

/// Takes the top two values off the stack and returns them, deeper one first;
/// with fewer than two, the stack is emptied and `None` returned.
pub fn pop_pair<T>(values: &mut Vec<T>) -> (r: Option<(T, T)>)
    ensures
        old(values)@.len() >= 2 ==> r == Some(
            (old(values)@[old(values)@.len() - 2], old(values)@[old(values)@.len() - 1]),
        ) && final(values)@ == old(values)@.take(old(values)@.len() - 2),
        old(values)@.len() < 2 ==> r is None && final(values)@ == Seq::<T>::empty(),
{
    let b = values.pop();
    let a = values.pop();
    match (a, b) {
        (Some(a), Some(b)) => Some((a, b)),
        _ => None,
    }
}

/// Swaps the top two values; with fewer than two, the stack is emptied.
pub fn swap<T>(values: &mut Vec<T>)
    ensures
        old(values)@.len() >= 2 ==> final(values)@ == old(values)@.take(old(values)@.len() - 2).push(
            old(values)@[old(values)@.len() - 1],
        ).push(old(values)@[old(values)@.len() - 2]),
        old(values)@.len() < 2 ==> final(values)@ == Seq::<T>::empty(),
{
    if let Some((a, b)) = pop_pair(values) {
        values.push(b);
        values.push(a);
    }
}

/// Drops the top value, if any.
pub fn del<T>(values: &mut Vec<T>)
    ensures
        old(values)@.len() > 0 ==> final(values)@ == old(values)@.take(old(values)@.len() - 1),
        old(values)@.len() == 0 ==> final(values)@ == Seq::<T>::empty(),
{
    values.pop();
}

/// Pushes a second copy of the top value, if any.
pub fn copy<T: Copy>(values: &mut Vec<T>)
    ensures
        old(values)@.len() > 0 ==> final(values)@ == old(values)@.push(old(values)@.last()),
        old(values)@.len() == 0 ==> final(values)@ == Seq::<T>::empty(),
{
    if let Some(a) = values.pop() {
        values.push(a);
        values.push(a);
    }
}

} // verus!
