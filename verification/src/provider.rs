use vstd::prelude::*;

use crate::size::StackSize;

verus! {

/// A suspended execution: the context-switch provider's record of a frozen
/// register state and stack pointer, together with the last word exchanged.
/// Opaque to this crate; exclusively owned, consumed by every resume.
#[verifier::external_type_specification]
#[verifier::external_body]
pub struct ExTransfer(context::Transfer);

/// A guard-paged fixed-size stack owned by a routine. Opaque to this crate;
/// the allocator maps it on construction and unmaps it on drop.
#[verifier::external_type_specification]
#[verifier::external_body]
pub struct ExProtectedFixedSizeStack(context::stack::ProtectedFixedSizeStack);

/// Relies on `context::stack::ProtectedFixedSizeStack::new`: it allocates a
/// guard-paged stack of at least `size` bytes, or returns
/// `StackError::ExceedsMaximumSize` exactly when the request — clamped up
/// to the platform minimum, rounded to pages, plus the guard allowance —
/// exceeds the platform maximum, carrying that maximum less the guard
/// allowance. The rounded request stays below `size` whenever `size` is at
/// least the platform minimum, so an error implies that `size` exceeds the
/// carried maximum; below the minimum an error would need a platform whose
/// maximum does not admit even the minimum stack, on which no allocation
/// succeeds at all. Any other failure of the allocator is unrecoverable
/// and aborts here.
#[verifier::external_body]
fn new_stack(size: usize) -> (r: Result<context::stack::ProtectedFixedSizeStack, usize>)
    ensures
        r matches Err(max) ==> size > max,
{
    match context::stack::ProtectedFixedSizeStack::new(size) {
        Ok(stack) => Ok(stack),
        Err(context::stack::StackError::ExceedsMaximumSize(max)) => Err(max),
        Err(other) => {
            let failed: Result<context::stack::ProtectedFixedSizeStack,
                context::stack::StackError> = Err(other);
            Ok(failed.expect("unrecoverable stack allocation failure"))
        }
    }
}

/// Relies on `context::Context::resume`: it freezes the running execution,
/// switches to the suspended execution that `t` carries, delivering `word`
/// to it, and returns only when some later resume hands control back. The
/// returned pair is the transfer produced by that hand-back and the word it
/// carried. Nothing is promised of the word: it is chosen by the peer.
#[verifier::external_body]
pub(crate) fn resume_transfer(t: context::Transfer, word: usize) -> (r: (
    context::Transfer,
    usize,
)) {
    let next = t.context.resume(word);
    let delivered = next.data;
    (next, delivered)
}

/// Allocate a guard-paged stack for the given size class.
///
/// On failure the request exceeded the platform maximum for stacks, and the
/// error carries that maximum in bytes: the caller may retry with a smaller
/// class. No stack is allocated in that case.
pub fn allocate_stack(size: StackSize) -> (r: Result<
    context::stack::ProtectedFixedSizeStack,
    usize,
>)
    ensures
        r matches Err(max) ==> size.spec_bytes() > max,
{
    new_stack(size.bytes())
}

} // verus!
