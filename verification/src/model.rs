use vstd::prelude::*;

use crate::words::START;

verus! {

/// A deterministic model of one routine running the counter body
/// `for i in 0, 1, 2, ...: yield factor * i`.
///
/// The real engine cannot say what a body yields — that crosses the opaque
/// context switch — so the exchange discipline is proved here instead, on a
/// model that performs the same lifecycle steps as `exec`: a one-time
/// bootstrap that runs the body's setup prefix, then one yield per resume.
/// The word delivered by the caller is discarded, as the counter body
/// ignores what `swap` returns.
pub struct CounterRoutine {
    /// Whether the bootstrap has happened.
    pub started: bool,
    /// How many times the body's setup prefix has run.
    pub setups: usize,
    /// How many yields the body has performed.
    pub yields: usize,
    /// The body yields `factor * i` at its `i`-th yield, counting from 0.
    pub factor: usize,
}

impl CounterRoutine {
    /// The setup prefix runs exactly at the bootstrap: once the routine has
    /// started it has run once, and before that not at all.
    pub open spec fn wf(self) -> bool {
        &&& (self.started ==> self.setups == 1)
        &&& (!self.started ==> self.setups == 0)
    }

    /// A fresh, not yet started routine for the given factor.
    pub fn new(factor: usize) -> (m: CounterRoutine)
        ensures
            !m.started,
            m.setups == 0,
            m.yields == 0,
            m.factor == factor,
            m.wf(),
    {
        CounterRoutine { started: false, setups: 0, yields: 0, factor }
    }

    /// Resume the modelled routine: the `n`-th call, counting from 0,
    /// returns `factor * n`, whatever word is delivered and however the
    /// calls are spaced. The first call also runs the setup prefix, which
    /// afterwards has run exactly once, however many calls follow.
    pub fn exec(&mut self, word: usize) -> (r: usize)
        requires
            old(self).wf(),
            old(self).yields < usize::MAX,
            old(self).yields * old(self).factor < START,
        ensures
            r == old(self).yields * old(self).factor,
            final(self).started,
            final(self).setups == 1,
            final(self).yields == old(self).yields + 1,
            final(self).factor == old(self).factor,
            final(self).wf(),
    {
        let _ = word;
        if !self.started {
            self.started = true;
            self.setups = self.setups + 1;
        }
        let r = self.yields * self.factor;
        self.yields = self.yields + 1;
        r
    }
}

/// Every yield stays below the start sentinel while the final one does:
/// multiplying by the factor is monotonic.
proof fn lemma_yield_in_range(y: int, i: int, n: int, f: int, bound: int)
    by (nonlinear_arith)
    requires
        0 <= y,
        0 <= i < n,
        0 <= f,
        0 < bound,
        (y + n) * f <= bound,
    ensures
        (y + i) * f < bound,
{
}

/// Law: driving a counter routine `n` more times yields the next `n`
/// multiples of its factor, in order — the `i`-th resume of a fresh routine
/// returns `factor * i` — and leaves the setup prefix having run exactly
/// once (provided it is driven at all).
pub fn drive(m: &mut CounterRoutine, n: usize) -> (out: Vec<usize>)
    requires
        old(m).wf(),
        old(m).yields + n <= usize::MAX,
        (old(m).yields + n) * old(m).factor <= START,
    ensures
        out@.len() == n,
        forall|i: int| 0 <= i < n ==> out@[i] == (old(m).yields + i) * old(m).factor,
        final(m).yields == old(m).yields + n,
        final(m).factor == old(m).factor,
        final(m).wf(),
        n > 0 ==> final(m).setups == 1,
{
    let mut out: Vec<usize> = Vec::new();
    let mut k: usize = 0;
    while k < n
        invariant
            k <= n,
            m.wf(),
            m.yields == old(m).yields + k,
            m.factor == old(m).factor,
            old(m).yields + n <= usize::MAX,
            (old(m).yields + n) * old(m).factor <= START,
            out@.len() == k,
            forall|i: int| 0 <= i < k ==> out@[i] == (old(m).yields + i) * old(m).factor,
            k > 0 ==> m.setups == 1,
        decreases n - k,
    {
        proof {
            lemma_yield_in_range(
                old(m).yields as int,
                k as int,
                n as int,
                old(m).factor as int,
                START as int,
            );
        }
        let w = m.exec(0);
        out.push(w);
        k = k + 1;
    }
    out
}

/// Law: interleaving two counter routines in any order changes nothing
/// about what each yields. Whatever the schedule — `true` picks the first
/// routine, `false` the second — the `i`-th resume of each routine returns
/// `factor * i` for its own factor, independent of how the other routine's
/// resumes are interleaved.
pub fn drive_interleaved(
    a: &mut CounterRoutine,
    b: &mut CounterRoutine,
    schedule: &Vec<bool>,
) -> (out: (Vec<usize>, Vec<usize>))
    requires
        old(a).wf(),
        old(b).wf(),
        old(a).yields + schedule@.len() <= usize::MAX,
        (old(a).yields + schedule@.len()) * old(a).factor <= START,
        old(b).yields + schedule@.len() <= usize::MAX,
        (old(b).yields + schedule@.len()) * old(b).factor <= START,
    ensures
        out.0@.len() + out.1@.len() == schedule@.len(),
        final(a).yields == old(a).yields + out.0@.len(),
        final(b).yields == old(b).yields + out.1@.len(),
        final(a).factor == old(a).factor,
        final(b).factor == old(b).factor,
        final(a).wf(),
        final(b).wf(),
        forall|i: int|
            0 <= i < out.0@.len() ==> out.0@[i] == (old(a).yields + i) * old(a).factor,
        forall|i: int|
            0 <= i < out.1@.len() ==> out.1@[i] == (old(b).yields + i) * old(b).factor,
{
    let mut first: Vec<usize> = Vec::new();
    let mut second: Vec<usize> = Vec::new();
    let n = schedule.len();
    let mut k: usize = 0;
    while k < n
        invariant
            k <= n,
            n == schedule@.len(),
            a.wf(),
            b.wf(),
            first@.len() + second@.len() == k,
            a.yields == old(a).yields + first@.len(),
            b.yields == old(b).yields + second@.len(),
            a.factor == old(a).factor,
            b.factor == old(b).factor,
            old(a).yields + n <= usize::MAX,
            (old(a).yields + n) * old(a).factor <= START,
            old(b).yields + n <= usize::MAX,
            (old(b).yields + n) * old(b).factor <= START,
            forall|i: int|
                0 <= i < first@.len() ==> first@[i] == (old(a).yields + i) * old(a).factor,
            forall|i: int|
                0 <= i < second@.len() ==> second@[i] == (old(b).yields + i) * old(b).factor,
        decreases n - k,
    {
        if schedule[k] {
            proof {
                lemma_yield_in_range(
                    old(a).yields as int,
                    first@.len() as int,
                    n as int,
                    old(a).factor as int,
                    START as int,
                );
            }
            let w = a.exec(0);
            first.push(w);
        } else {
            proof {
                lemma_yield_in_range(
                    old(b).yields as int,
                    second@.len() as int,
                    n as int,
                    old(b).factor as int,
                    START as int,
                );
            }
            let w = b.exec(0);
            second.push(w);
        }
        k = k + 1;
    }
    (first, second)
}

} // verus!

