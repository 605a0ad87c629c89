//! The sliding analysis window: 400 ms of filtered samples at the native
//! rate, advanced in hops of 100 ms.

use vstd::prelude::*;
use vstd::arithmetic::div_mod::{lemma_fundamental_div_mod, lemma_fundamental_div_mod_converse};

verus! {

/// Samples in one analysis window (400 ms at 48 kHz).
pub const WINDOW_LEN: usize = 19200;

/// Samples by which the window advances after each reading (100 ms at 48 kHz).
pub const HOP_LEN: usize = 4800;

/// The last `k` elements of `s`.
pub open spec fn latest<T>(s: Seq<T>, k: nat) -> Seq<T> {
    s.subrange(s.len() - k, s.len() as int)
}

/// Whether the `n`-th push (counting from 1) completes a window: the first
/// time after `WINDOW_LEN` pushes, then after every further `HOP_LEN`.
pub open spec fn completes_window(n: nat) -> bool {
    n >= WINDOW_LEN && (n - WINDOW_LEN) % (HOP_LEN as int) == 0
}

/// Samples held by the window after `n` pushes.
pub open spec fn fill_after(n: nat) -> nat {
    if n < WINDOW_LEN {
        n
    } else {
        ((WINDOW_LEN - HOP_LEN) + (n - WINDOW_LEN) % (HOP_LEN as int)) as nat
    }
}

/// The window never holds a full window between pushes, and a push completes
/// a window exactly when the samples held would reach `WINDOW_LEN`; the window
/// then drops the oldest `HOP_LEN` samples.
pub proof fn lemma_window_step(n: nat)
    ensures
        fill_after(n) < WINDOW_LEN,
        completes_window(n + 1) <==> fill_after(n) + 1 == WINDOW_LEN,
        fill_after(n + 1) == if completes_window(n + 1) {
            fill_after(n) + 1 - HOP_LEN
        } else {
            fill_after(n) + 1int
        },
{
    let h = HOP_LEN as int;
    if n + 1 >= WINDOW_LEN {
        let m = n + 1 - WINDOW_LEN;
        lemma_fundamental_div_mod(m, h);
        if m > 0 {
            lemma_fundamental_div_mod(m - 1, h);
            let q = (m - 1) / h;
            let r = (m - 1) % h;
            if r + 1 < h {
                lemma_fundamental_div_mod_converse(m, h, q, r + 1);
            } else {
                lemma_fundamental_div_mod_converse(m, h, q + 1, 0);
            }
        } else {
            lemma_fundamental_div_mod_converse(m, h, 0, 0);
        }
    }
}

/// The Loudness Aggregator's buffer: filtered samples, oldest first.
pub struct LoudnessWindow<T> {
    buf: Vec<T>,
    history: Ghost<Seq<T>>,
}

impl<T: Copy> LoudnessWindow<T> {
    /// Every sample pushed so far, oldest first.
    pub closed spec fn history(&self) -> Seq<T> {
        self.history@
    }

    /// The samples that the window holds, oldest first.
    pub closed spec fn held(&self) -> Seq<T> {
        self.buf@
    }

    /// The window holds the latest `fill_after(n)` of the `n` samples pushed.
    pub closed spec fn wf(&self) -> bool {
        &&& self.buf@.len() == fill_after(self.history@.len())
        &&& self.buf@ == latest(self.history@, fill_after(self.history@.len()))
    }

    /// An empty window.
    pub fn new() -> (r: LoudnessWindow<T>)
        ensures
            r.wf(),
            r.history().len() == 0,
            r.held().len() == 0,
    {
        let r = LoudnessWindow { buf: Vec::with_capacity(WINDOW_LEN), history: Ghost(Seq::empty()) };
        assert(r.buf@ =~= latest(r.history@, 0));
        r
    }

    /// Number of samples that the window holds; always under `WINDOW_LEN`.
    pub fn len(&self) -> (r: usize)
        requires
            self.wf(),
        ensures
            r == self.held().len(),
            r == fill_after(self.history().len()),
            r < WINDOW_LEN,
    {
        proof {
            lemma_window_step(self.history@.len());
        }
        self.buf.len()
    }

    /// Appends a filtered sample. When that completes a window, returns its
    /// `WINDOW_LEN` samples, oldest first (the latest `WINDOW_LEN` pushed), and
    /// drops the oldest `HOP_LEN` of them from the window; otherwise `None`.
    pub fn push(&mut self, x: T) -> (r: Option<Vec<T>>)
        requires
            old(self).wf(),
        ensures
            final(self).wf(),
            final(self).history() == old(self).history().push(x),
            r is Some <==> completes_window(final(self).history().len()),
            r is Some <==> old(self).held().len() + 1 == WINDOW_LEN,
            r matches Some(w) ==> w@ == latest(final(self).history(), WINDOW_LEN as nat),
            final(self).held() == if r is Some {
                old(self).held().push(x).subrange(HOP_LEN as int, WINDOW_LEN as int)
            } else {
                old(self).held().push(x)
            },
    {
        proof {
            lemma_window_step(self.history@.len());
        }
        let ghost h = self.history@.push(x);
        self.buf.push(x);
        self.history = Ghost(h);
        assert(self.buf@ =~= latest(h, (fill_after((h.len() - 1) as nat) + 1) as nat));
        if self.buf.len() == WINDOW_LEN {
            let mut rest: Vec<T> = Vec::with_capacity(WINDOW_LEN);
            let mut i: usize = HOP_LEN;
            while i < WINDOW_LEN
                invariant
                    HOP_LEN <= i <= WINDOW_LEN,
                    self.buf@.len() == WINDOW_LEN,
                    rest@ == self.buf@.subrange(HOP_LEN as int, i as int),
                decreases WINDOW_LEN - i,
            {
                rest.push(self.buf[i]);
                i = i + 1;
                assert(rest@ =~= self.buf@.subrange(HOP_LEN as int, i as int));
            }
            std::mem::swap(&mut rest, &mut self.buf);
            assert(self.buf@ =~= latest(h, fill_after(h.len())));
            Some(rest)
        } else {
            None
        }
    }
}

} // verus!
