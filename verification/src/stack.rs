//! Placement of the initial stack pointer inside a caller-supplied buffer.
//!
//! Addresses are plain integers here. The embedding program turns the buffer
//! into an address and a length, and turns the result back into a pointer.

use vstd::prelude::*;

verus! {

/// Alignment, in bytes, that the ABI asks of a stack pointer on entry to a
/// function.
pub const STACK_ALIGNMENT: usize = 16;

/// Least length, in bytes, of a buffer that may serve as a coroutine's stack.
pub const STACK_MINIMUM: usize = 4096;

/// Whether `addr` is a multiple of [`STACK_ALIGNMENT`].
pub open spec fn is_aligned(addr: int) -> bool {
    addr % (STACK_ALIGNMENT as int) == 0
}

/// The greatest aligned address that is not above `addr`.
pub open spec fn align_down(addr: int) -> int {
    addr - addr % (STACK_ALIGNMENT as int)
}

/// The least aligned address that is not below `addr`.
pub open spec fn align_up(addr: int) -> int {
    if is_aligned(addr) {
        addr
    } else {
        align_down(addr) + STACK_ALIGNMENT
    }
}

/// Whether `addr` lies inside the buffer of `len` bytes that starts at `base`.
pub open spec fn in_buffer(base: int, len: int, addr: int) -> bool {
    base <= addr < base + len
}

/// Where the stack of a coroutine starts.
///
/// A stack that grows toward lower addresses starts at the highest address of
/// the buffer, rounded down to the alignment. One that grows toward higher
/// addresses starts at the lowest address of the buffer, rounded up.
pub open spec fn stack_top_of(base: int, len: int, grows_up: bool) -> int {
    if grows_up {
        align_up(base)
    } else {
        align_down(base + len - 1)
    }
}

/// `align_down` and `align_up` return aligned addresses less than one
/// alignment step away from `addr`, and `addr` itself where it is aligned.
pub proof fn lemma_align_bounds(addr: int)
    ensures
        is_aligned(align_down(addr)),
        is_aligned(align_up(addr)),
        addr - STACK_ALIGNMENT < align_down(addr) <= addr,
        addr <= align_up(addr) < addr + STACK_ALIGNMENT,
        is_aligned(addr) ==> align_down(addr) == addr && align_up(addr) == addr,
{
    let step = STACK_ALIGNMENT as int;
    let rem = addr % step;
    assert(0 <= rem < step);
    assert((addr - rem) % step == 0) by {
        lemma_multiple_is_aligned(addr / step);
        assert(addr == step * (addr / step) + rem) by (nonlinear_arith)
            requires
                step == 16,
                rem == addr % step,
        ;
    }
    assert((addr - rem + step) % step == 0) by {
        lemma_multiple_is_aligned(addr / step + 1);
        assert(addr + step == step * (addr / step + 1) + rem) by (nonlinear_arith)
            requires
                step == 16,
                rem == addr % step,
        ;
    }
}

/// Every multiple of the alignment is aligned.
proof fn lemma_multiple_is_aligned(count: int)
    ensures
        is_aligned(STACK_ALIGNMENT * count),
{
    assert((16 * count) % 16 == 0) by (nonlinear_arith);
}

/// Two aligned addresses are equal or at least one alignment step apart.
proof fn lemma_aligned_gap(a: int, b: int)
    requires
        is_aligned(a),
        is_aligned(b),
        a > b,
    ensures
        a >= b + STACK_ALIGNMENT,
{
    let step = STACK_ALIGNMENT as int;
    assert(a == step * (a / step) + a % step) by (nonlinear_arith)
        requires
            step == 16,
    ;
    assert(b == step * (b / step) + b % step) by (nonlinear_arith)
        requires
            step == 16,
    ;
    assert(a / step > b / step);
}

/// No aligned address lies strictly between `align_down(addr)` and `addr`,
/// nor strictly between `addr` and `align_up(addr)`.
pub proof fn lemma_align_nearest(addr: int)
    ensures
        forall|a: int| is_aligned(a) && a <= addr ==> a <= align_down(addr),
        forall|a: int| is_aligned(a) && addr <= a ==> align_up(addr) <= a,
{
    lemma_align_bounds(addr);
    assert forall|a: int| is_aligned(a) && a <= addr implies a <= align_down(addr) by {
        if a > align_down(addr) {
            lemma_aligned_gap(a, align_down(addr));
        }
    }
    assert forall|a: int| is_aligned(a) && addr <= a implies align_up(addr) <= a by {
        if align_up(addr) > a {
            lemma_aligned_gap(align_up(addr), a);
        }
    }
}

/// Rounding the address one alignment step below an unaligned `addr` up
/// gives the same as rounding `addr` down.
pub proof fn lemma_align_up_from_below(addr: int)
    requires
        !is_aligned(addr),
    ensures
        align_up(addr - STACK_ALIGNMENT) == align_down(addr),
{
    let step = STACK_ALIGNMENT as int;
    lemma_align_bounds(addr);
    lemma_align_bounds(addr - step);
    if align_up(addr - step) > align_down(addr) {
        lemma_aligned_gap(align_up(addr - step), align_down(addr));
    }
    if align_up(addr - step) < align_down(addr) {
        lemma_aligned_gap(align_down(addr), align_up(addr - step));
    }
}

/// The start of the stack is the aligned address of the buffer that lies
/// farthest in the direction the stack grows away from: no aligned address of
/// the buffer is above it on a stack that grows down, none below it on one
/// that grows up. The last byte of the buffer counts.
pub proof fn lemma_stack_top_extremal(base: int, len: int, grows_up: bool)
    requires
        0 <= base,
        len >= STACK_MINIMUM,
    ensures
        is_aligned(stack_top_of(base, len, grows_up)),
        in_buffer(base, len, stack_top_of(base, len, grows_up)),
        forall|a: int|
            is_aligned(a) && in_buffer(base, len, a) ==> if grows_up {
                stack_top_of(base, len, grows_up) <= a
            } else {
                a <= stack_top_of(base, len, grows_up)
            },
{
    lemma_align_bounds(base);
    lemma_align_bounds(base + len - 1);
    lemma_align_nearest(base);
    lemma_align_nearest(base + len - 1);
}

/// Tells from two addresses whether stacks grow toward higher addresses.
///
/// `caller_local` is the address of a local variable of some function, and
/// `callee_local` the address of a local variable of a function that it has
/// called: the frame of the callee lies on the side the stack grows to.
pub fn stack_grows_up(caller_local: usize, callee_local: usize) -> (up: bool)
    ensures
        up <==> callee_local > caller_local,
{
    callee_local > caller_local
}

/// Number of bytes to add to `addr` to reach the next aligned address: zero
/// where `addr` is aligned already.
pub fn align_offset(addr: usize) -> (offset: usize)
    ensures
        addr + offset == align_up(addr as int),
        offset < STACK_ALIGNMENT,
        offset == 0 <==> is_aligned(addr as int),
{
    let rem: usize = addr % STACK_ALIGNMENT;
    if rem == 0 {
        0
    } else {
        STACK_ALIGNMENT - rem
    }
}

/// Computes the address at which the stack of a coroutine starts, for a buffer
/// of `len` bytes at address `base`.
pub fn stack_top(base: usize, len: usize, grows_up: bool) -> (top: usize)
    requires
        len >= STACK_MINIMUM,
        base + len <= usize::MAX,
    ensures
        top == stack_top_of(base as int, len as int, grows_up),
        is_aligned(top as int),
        in_buffer(base as int, len as int, top as int),
{
    if grows_up {
        proof {
            lemma_align_bounds(base as int);
        }
        base + align_offset(base)
    } else {
        let last: usize = base + (len - 1);
        proof {
            lemma_align_bounds(last as int);
        }
        if align_offset(last) != 0 {
            let below: usize = last - STACK_ALIGNMENT;
            proof {
                lemma_align_up_from_below(last as int);
            }
            below + align_offset(below)
        } else {
            last
        }
    }
}

} // verus!
