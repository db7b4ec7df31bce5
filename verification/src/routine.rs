use vstd::pervasive::unreached;
use vstd::prelude::*;

use crate::provider::resume_transfer;
use crate::words::reserved;
use crate::words::START;

verus! {

/// The state of a coroutine: its last constructed word, its one-time
/// bootstrap flag, its pending body (present only until the first resume),
/// its owned guard-paged stack, and its current suspended-execution handle.
///
/// The handle is exclusively owned and is absent exactly while the routine
/// is actually executing, inside a resume; between calls it is present.
/// The body `F` is the zero-argument callable the routine will run; it
/// leaves the routine exactly once, staged into the thread's hand-off slot
/// just before the bootstrap resume.
///
/// Two ghost sequences record the words handed to the provider and the
/// words it delivered back, one entry per resume, so that contracts can
/// state the exchange discipline exactly.
pub struct Routine<F> {
    /// The word this routine was constructed with. Kept for inspection;
    /// the engine never rewrites it.
    pub data: usize,
    init: bool,
    lambda: Option<F>,
    stack: context::stack::ProtectedFixedSizeStack,
    context: Option<context::Transfer>,
    sent: Ghost<Seq<usize>>,
    received: Ghost<Seq<usize>>,
}

impl<F> Routine<F> {
    /// The word the routine was constructed with.
    pub closed spec fn spec_data(self) -> usize {
        self.data
    }

    /// Whether the bootstrap resume has already happened.
    pub closed spec fn is_init(self) -> bool {
        self.init
    }

    /// Whether the suspended-execution handle is present, that is whether
    /// the routine may be resumed.
    pub closed spec fn has_context(self) -> bool {
        self.context is Some
    }

    /// The pending body, present only before the bootstrap.
    pub closed spec fn spec_pending(self) -> Option<F> {
        self.lambda
    }

    /// The words handed to the provider so far, one per resume, in order.
    pub closed spec fn sent(self) -> Seq<usize> {
        self.sent@
    }

    /// The words the provider delivered back so far, one per resume, in
    /// order.
    pub closed spec fn received(self) -> Seq<usize> {
        self.received@
    }

    /// The resume history is well formed: one delivery per resume, the
    /// bootstrap happened exactly when some word was sent, the first word
    /// sent was the reserved start word, and every later word sent was a
    /// caller's payload, never a sentinel.
    pub open spec fn history_wf(self) -> bool {
        &&& self.sent().len() == self.received().len()
        &&& (self.is_init() <==> self.sent().len() > 0)
        &&& (self.sent().len() > 0 ==> self.sent()[0] == START)
        &&& (forall|i: int| 1 <= i < self.sent().len() ==> !reserved(self.sent()[i]))
    }

    /// A routine at rest: resumable, past its bootstrap only if its body
    /// has left it, with a well-formed history.
    pub open spec fn wf(self) -> bool {
        &&& self.has_context()
        &&& (self.is_init() ==> self.spec_pending() is None)
        &&& self.history_wf()
    }

    /// Assemble a routine from its parts: a freshly allocated stack, the
    /// provider's initial (not yet started) suspended execution bound to
    /// that stack, and the body the routine will run.
    pub fn from_parts(
        stack: context::stack::ProtectedFixedSizeStack,
        first: context::Transfer,
        body: F,
    ) -> (r: Routine<F>)
        ensures
            !r.is_init(),
            r.has_context(),
            r.spec_pending() == Some(body),
            r.spec_data() == START,
            r.sent() == Seq::<usize>::empty(),
            r.received() == Seq::<usize>::empty(),
            r.wf(),
    {
        Routine {
            data: START,
            init: false,
            lambda: Some(body),
            stack,
            context: Some(first),
            sent: Ghost(Seq::empty()),
            received: Ghost(Seq::empty()),
        }
    }

    /// Whether the bootstrap resume has already happened.
    pub fn initialized(&self) -> (r: bool)
        ensures
            r == self.is_init(),
    {
        self.init
    }

    /// Whether the routine may be resumed now.
    pub fn ready(&self) -> (r: bool)
        ensures
            r == self.has_context(),
    {
        self.context.is_some()
    }

    /// Whether the body is still held here, waiting for its bootstrap.
    pub fn pending(&self) -> (r: bool)
        ensures
            r == (self.spec_pending() is Some),
    {
        self.lambda.is_some()
    }

    /// Remove the body so it can be staged into the thread's hand-off
    /// slot. Allowed only before the bootstrap, and only once: ownership
    /// of the body transfers exactly once.
    pub fn take_pending(&mut self) -> (body: F)
        requires
            !old(self).is_init(),
            old(self).spec_pending() is Some,
        ensures
            old(self).spec_pending() == Some(body),
            final(self).spec_pending() is None,
            final(self).is_init() == old(self).is_init(),
            final(self).has_context() == old(self).has_context(),
            final(self).spec_data() == old(self).spec_data(),
            final(self).sent() == old(self).sent(),
            final(self).received() == old(self).received(),
    {
        match self.lambda.take() {
            Some(body) => body,
            None => unreached(),
        }
    }

    /// Resume the routine, delivering one word, and return the word of its
    /// next yield.
    ///
    /// The first call is the bootstrap: the body must already have been
    /// taken out (staged in the hand-off slot), and the reserved start
    /// word is sent in place of the caller's word, which is discarded —
    /// the start word never surfaces to the body. Every later call hands
    /// `word` to the provider unmodified, and what the provider delivers
    /// back is returned unmodified.
    ///
    /// The handle is taken out for the duration of the switch and stored
    /// back before returning, so a routine at rest is always resumable;
    /// resuming while the handle is absent is excluded here and is the
    /// fatal re-entrancy misuse.
    pub fn exec(&mut self, word: usize) -> (r: usize)
        requires
            old(self).has_context(),
            !reserved(word),
            !old(self).is_init() ==> old(self).spec_pending() is None,
        ensures
            final(self).is_init(),
            final(self).has_context(),
            final(self).spec_pending() == old(self).spec_pending(),
            final(self).spec_data() == old(self).spec_data(),
            final(self).sent() == old(self).sent().push(
                if old(self).is_init() {
                    word
                } else {
                    START
                },
            ),
            final(self).received() == old(self).received().push(r),
            old(self).wf() ==> final(self).wf(),
    {
        let payload = if self.init {
            word
        } else {
            START
        };
        self.init = true;
        let handle = match self.context.take() {
            Some(handle) => handle,
            None => unreached(),
        };
        let (next, delivered) = resume_transfer(handle, payload);
        self.context = Some(next);
        proof {
            self.sent@ = self.sent@.push(payload);
            self.received@ = self.received@.push(delivered);
        }
        delivered
    }
}

/// Law: over any well-formed routine's whole history, the reserved start
/// word was sent exactly once — by the bootstrap, as the first resume —
/// however many resumes followed.
pub proof fn lemma_bootstrap_once<F>(r: Routine<F>)
    requires
        r.wf(),
    ensures
        forall|i: int| 0 <= i < r.sent().len() ==> (r.sent()[i] == START <==> i == 0),
{
}

} // verus!
