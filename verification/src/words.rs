use vstd::prelude::*;

verus! {

/// Reserved word the trampoline sends on its one final yield, after the
/// routine's body has returned. It must never be delivered as a payload.
pub const EXIT: usize = usize::MAX;

/// Reserved word delivered by the bootstrap resume that first starts a
/// routine's body. Internal to the engine; never surfaced to the body.
pub const START: usize = usize::MAX - 1;

/// Whether a word is one of the two reserved sentinels. Every other word is
/// a legal payload for a resume/yield round trip.
pub open spec fn reserved(w: usize) -> bool {
    w == EXIT || w == START
}

/// Runtime test for `reserved`.
pub fn is_reserved(w: usize) -> (r: bool)
    ensures
        r == reserved(w),
{
    w == EXIT || w == START
}

/// The two sentinels are distinct, and every word below `START` is a legal
/// payload: only the top two values of the word range are set aside.
pub proof fn lemma_reserved_words()
    ensures
        EXIT != START,
        forall|w: usize| w < START ==> !reserved(w),
{
}

} // verus!
