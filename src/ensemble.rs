use vstd::prelude::*;

use crate::body::{DoublePendulum, Pendulum};
use crate::trail::{record_spec, Points};

verus! {

/// `after` is `before` advanced by one tick of length `h` under gravity `g`:
/// `integrate` gave the next state `(a1, v1, a2, v2)` from both arms, each
/// angle then went through `normalize`, and `wrapped` tells whether either
/// of them wrapped.
pub open spec fn advanced_by<F, C, I, N>(
    before: DoublePendulum<F, C>,
    after: DoublePendulum<F, C>,
    wrapped: bool,
    h: F,
    g: F,
    integrate: I,
    normalize: N,
) -> bool where
    F: Copy,
    C: Copy,
    I: Fn(Pendulum<F>, Pendulum<F>, F, F) -> (F, F, F, F),
    N: Fn(F) -> (F, bool),
 {
    exists|s: (F, F, F, F), w1: bool, w2: bool|
        #![trigger
            integrate.ensures((before.p1, before.p2, h, g), s),
            normalize.ensures((s.0,), (after.p1.angle, w1)),
            normalize.ensures((s.2,), (after.p2.angle, w2)),
        ]
        {
            &&& integrate.ensures((before.p1, before.p2, h, g), s)
            &&& normalize.ensures((s.0,), (after.p1.angle, w1))
            &&& normalize.ensures((s.2,), (after.p2.angle, w2))
            &&& wrapped == (w1 || w2)
            &&& after.is_moved_from(before, after.p1.angle, s.1, after.p2.angle, s.3)
        }
}

/// `after` is `before` advanced by one tick, as `advanced_by` says, whether
/// or not an angle wrapped.
pub open spec fn stepped<F, C, I, N>(
    before: DoublePendulum<F, C>,
    after: DoublePendulum<F, C>,
    h: F,
    g: F,
    integrate: I,
    normalize: N,
) -> bool where
    F: Copy,
    C: Copy,
    I: Fn(Pendulum<F>, Pendulum<F>, F, F) -> (F, F, F, F),
    N: Fn(F) -> (F, bool),
 {
    exists|w: bool| advanced_by(before, after, w, h, g, integrate, normalize)
}

/// Every body of `after` keeps the initial state of the body at the same
/// place in `before`.
pub open spec fn keeps_initial_states<F, C>(
    before: Seq<DoublePendulum<F, C>>,
    after: Seq<DoublePendulum<F, C>>,
) -> bool {
    &&& after.len() == before.len()
    &&& forall|i: int|
        0 <= i < before.len() ==> (#[trigger] after[i]).initial_state == before[i].initial_state
}

/// The point that the trail records for a body: its two angles.
pub open spec fn trail_point<F, C>(b: DoublePendulum<F, C>) -> [F; 2] {
    [b.p1.angle, b.p2.angle]
}

/// `after` is `before` one tick later: every body was advanced by `h` under
/// gravity `g` through `integrate` and `normalize`, each keeping its initial
/// state, and the angle pair of the tracked (first) body was recorded on the
/// trail, on a new segment when one of its angles wrapped. Without bodies the
/// trail is left as it was.
pub open spec fn ticked<F, C, I, N>(
    before: Ensemble<F, C>,
    after: Ensemble<F, C>,
    h: F,
    g: F,
    integrate: I,
    normalize: N,
) -> bool where
    F: Copy,
    C: Copy,
    I: Fn(Pendulum<F>, Pendulum<F>, F, F) -> (F, F, F, F),
    N: Fn(F) -> (F, bool),
 {
    &&& after.trail.wf()
    &&& after.bodies.len() == before.bodies.len()
    &&& keeps_initial_states(before.bodies@, after.bodies@)
    &&& forall|i: int|
        0 <= i < before.bodies.len() ==> stepped(
            #[trigger] before.bodies[i],
            after.bodies[i],
            h,
            g,
            integrate,
            normalize,
        )
    &&& before.bodies.len() == 0 ==> after.trail@ == before.trail@
    &&& before.bodies.len() > 0 ==> exists|w: bool|
        {
            &&& advanced_by(before.bodies[0], after.bodies[0], w, h, g, integrate, normalize)
            &&& #[trigger] record_spec(before.trail@, w, trail_point(after.bodies[0]))
                == after.trail@
        }
}

/// `after` is `before` with every body back at its initial state and the
/// trail cleared to one empty segment.
pub open spec fn was_reset<F: Copy, C: Copy>(
    before: Ensemble<F, C>,
    after: Ensemble<F, C>,
) -> bool {
    &&& after.trail.wf()
    &&& after.bodies.len() == before.bodies.len()
    &&& forall|i: int|
        0 <= i < before.bodies.len() ==> (#[trigger] after.bodies[i]).is_reset_of(before.bodies[i])
    &&& after.trail@ == seq![Seq::<[F; 2]>::empty()]
}

/// An ordered collection of independent bodies, and the trail of the first
/// one, the tracked body, through angle space.
pub struct Ensemble<F, C> {
    pub bodies: Vec<DoublePendulum<F, C>>,
    pub trail: Points<[F; 2]>,
}

impl<F: Copy, C: Copy> Ensemble<F, C> {
    /// Well-formed: the trail has a current segment.
    pub open spec fn wf(&self) -> bool {
        self.trail.wf()
    }

    /// An ensemble of `bodies`, in this order, with an empty trail.
    pub fn new(bodies: Vec<DoublePendulum<F, C>>) -> (r: Self)
        ensures
            r.wf(),
            r.bodies@ == bodies@,
            r.trail@ == seq![Seq::<[F; 2]>::empty()],
    {
        Ensemble { bodies, trail: Points::new() }
    }

    /// Advances every body by `h` under gravity `g`. Each body's next state
    /// comes from `integrate`, given its two arms; its angles then go
    /// through `normalize`. The tracked body's angle pair joins the trail, on
    /// a new segment when either angle wrapped.
    pub fn step<I, N>(&mut self, h: F, g: F, integrate: I, normalize: N)
        where
            I: Fn(Pendulum<F>, Pendulum<F>, F, F) -> (F, F, F, F),
            N: Fn(F) -> (F, bool),
        requires
            old(self).wf(),
            forall|p1: Pendulum<F>, p2: Pendulum<F>| integrate.requires((p1, p2, h, g)),
            forall|a: F| normalize.requires((a,)),
        ensures
            ticked(*old(self), *final(self), h, g, integrate, normalize),
    {
        let n = self.bodies.len();
        let mut i: usize = 0;
        while i < n
            invariant
                n == old(self).bodies.len(),
                n == self.bodies.len(),
                0 <= i <= n,
                self.wf(),
                forall|p1: Pendulum<F>, p2: Pendulum<F>| integrate.requires((p1, p2, h, g)),
                forall|a: F| normalize.requires((a,)),
                forall|j: int|
                    0 <= j < i ==> stepped(
                        #[trigger] old(self).bodies[j],
                        self.bodies[j],
                        h,
                        g,
                        integrate,
                        normalize,
                    ),
                forall|j: int| i <= j < n ==> self.bodies[j] == old(self).bodies[j],
                i == 0 ==> self.trail@ == old(self).trail@,
                i > 0 ==> exists|w: bool|
                    {
                        &&& advanced_by(
                            old(self).bodies[0],
                            self.bodies[0],
                            w,
                            h,
                            g,
                            integrate,
                            normalize,
                        )
                        &&& #[trigger] record_spec(
                            old(self).trail@,
                            w,
                            trail_point(self.bodies[0]),
                        ) == self.trail@
                    },
            decreases n - i,
        {
            let p1 = self.bodies[i].p1;
            let p2 = self.bodies[i].p2;
            let s = integrate(p1, p2, h, g);
            let (a1, w1) = normalize(s.0);
            let (a2, w2) = normalize(s.2);
            let ghost before = self.bodies[i as int];
            let ghost prev = self.bodies@;
            self.bodies[i].set_state(a1, s.1, a2, s.3);
            let ghost after = self.bodies[i as int];
            assert(advanced_by(before, after, w1 || w2, h, g, integrate, normalize)) by {
                assert(integrate.ensures((before.p1, before.p2, h, g), s));
                assert(normalize.ensures((s.0,), (after.p1.angle, w1)));
                assert(normalize.ensures((s.2,), (after.p2.angle, w2)));
            }
            assert forall|j: int| 0 <= j < i + 1 implies stepped(
                #[trigger] old(self).bodies[j],
                self.bodies[j],
                h,
                g,
                integrate,
                normalize,
            ) by {
                if j < i {
                    assert(self.bodies[j] == prev[j]);
                } else {
                    assert(advanced_by(
                        old(self).bodies[j],
                        self.bodies[j],
                        w1 || w2,
                        h,
                        g,
                        integrate,
                        normalize,
                    ));
                }
            }
            if i == 0 {
                let pt = [a1, a2];
                assert(pt == trail_point(after));
                self.trail.record(w1 || w2, pt);
                assert(record_spec(old(self).trail@, w1 || w2, trail_point(self.bodies[0]))
                    == self.trail@);
            } else {
                assert(self.bodies[0] == prev[0]);
            }
            i += 1;
        }
    }

    /// Puts every body back to its initial state and clears the trail.
    pub fn reset_all(&mut self)
        ensures
            was_reset(*old(self), *final(self)),
    {
        let n = self.bodies.len();
        let mut i: usize = 0;
        while i < n
            invariant
                n == old(self).bodies.len(),
                n == self.bodies.len(),
                0 <= i <= n,
                forall|j: int|
                    0 <= j < i ==> (#[trigger] self.bodies[j]).is_reset_of(old(self).bodies[j]),
                forall|j: int| i <= j < n ==> self.bodies[j] == old(self).bodies[j],
            decreases n - i,
        {
            self.bodies[i].reset();
            i += 1;
        }
        self.trail.empty();
    }

    /// Clears the trail to one empty segment; the bodies are kept.
    pub fn clear_trail(&mut self)
        ensures
            final(self).wf(),
            final(self).bodies@ == old(self).bodies@,
            final(self).trail@ == seq![Seq::<[F; 2]>::empty()],
    {
        self.trail.empty();
    }

    /// The trail's segments, oldest first.
    pub fn segments(&self) -> (r: &Vec<Vec<[F; 2]>>)
        ensures
            r@.map_values(|l: Vec<[F; 2]>| l@) == self.trail@,
    {
        self.trail.segments()
    }
}

/// Reset fidelity: whatever sequence of ticks (or edits that leave initial
/// states alone) the bodies went through, resetting them afterwards brings
/// every arm back to the state its body was built with.
pub proof fn lemma_reset_fidelity<F: Copy, C: Copy>(
    runs: Seq<Seq<DoublePendulum<F, C>>>,
    reset: Seq<DoublePendulum<F, C>>,
)
    requires
        runs.len() >= 1,
        forall|k: int|
            0 <= k < runs.len() - 1 ==> keeps_initial_states(runs[k], #[trigger] runs[k + 1]),
        reset.len() == runs.last().len(),
        forall|i: int| 0 <= i < reset.len() ==> (#[trigger] reset[i]).is_reset_of(runs.last()[i]),
    ensures
        reset.len() == runs[0].len(),
        forall|i: int|
            0 <= i < reset.len() ==> {
                &&& (#[trigger] reset[i]).p1 == runs[0][i].initial_state.0
                &&& reset[i].p2 == runs[0][i].initial_state.1
            },
    decreases runs.len(),
{
    if runs.len() > 1 {
        let m = runs.len() - 1;
        let shorter = runs.drop_last();
        assert forall|k: int| 0 <= k < shorter.len() - 1 implies keeps_initial_states(
            shorter[k],
            #[trigger] shorter[k + 1],
        ) by {
            assert(shorter[k] == runs[k]);
            assert(shorter[k + 1] == runs[k + 1]);
        }
        let prior = runs[m - 1];
        assert(keeps_initial_states(runs[m - 1], runs[(m - 1) + 1]));
        let prior_reset = Seq::new(
            prior.len(),
            |i: int|
                DoublePendulum {
                    p1: prior[i].initial_state.0,
                    p2: prior[i].initial_state.1,
                    ..prior[i]
                },
        );
        lemma_reset_fidelity(shorter, prior_reset);
        assert forall|i: int| 0 <= i < reset.len() implies {
            &&& (#[trigger] reset[i]).p1 == runs[0][i].initial_state.0
            &&& reset[i].p2 == runs[0][i].initial_state.1
        } by {
            assert(prior_reset[i].p1 == prior[i].initial_state.0);
            assert(runs[m][i].initial_state == prior[i].initial_state);
        }
    }
}

/// Determinism: stepping adds no randomness and no hidden state of its own.
/// When `integrate` and `normalize` give one result for each input, two
/// ticks from the same ensemble with the same `h` and `g` end in the same
/// bodies and the same trail.
pub proof fn lemma_tick_deterministic<F, C, I, N>(
    before: Ensemble<F, C>,
    after1: Ensemble<F, C>,
    after2: Ensemble<F, C>,
    h: F,
    g: F,
    integrate: I,
    normalize: N,
) where
    F: Copy,
    C: Copy,
    I: Fn(Pendulum<F>, Pendulum<F>, F, F) -> (F, F, F, F),
    N: Fn(F) -> (F, bool),

    requires
        forall|p1: Pendulum<F>, p2: Pendulum<F>, s1: (F, F, F, F), s2: (F, F, F, F)|
            #![trigger integrate.ensures((p1, p2, h, g), s1), integrate.ensures((p1, p2, h, g), s2)]
            integrate.ensures((p1, p2, h, g), s1) && integrate.ensures((p1, p2, h, g), s2) ==> s1
                == s2,
        forall|a: F, r1: (F, bool), r2: (F, bool)|
            #![trigger normalize.ensures((a,), r1), normalize.ensures((a,), r2)]
            normalize.ensures((a,), r1) && normalize.ensures((a,), r2) ==> r1 == r2,
        ticked(before, after1, h, g, integrate, normalize),
        ticked(before, after2, h, g, integrate, normalize),
    ensures
        after1.bodies@ == after2.bodies@,
        after1.trail@ == after2.trail@,
{
    assert forall|i: int| 0 <= i < before.bodies.len() implies after1.bodies[i]
        == after2.bodies[i] by {
        let b = before.bodies[i];
        assert(stepped(b, after1.bodies[i], h, g, integrate, normalize));
        assert(stepped(b, after2.bodies[i], h, g, integrate, normalize));
        let w = choose|w: bool| advanced_by(b, after1.bodies[i], w, h, g, integrate, normalize);
        let v = choose|v: bool| advanced_by(b, after2.bodies[i], v, h, g, integrate, normalize);
        lemma_advanced_by_unique(
            b,
            after1.bodies[i],
            after2.bodies[i],
            w,
            v,
            h,
            g,
            integrate,
            normalize,
        );
    }
    assert(after1.bodies@ =~= after2.bodies@);
    if before.bodies.len() > 0 {
        let b = before.bodies[0];
        let w = choose|w: bool|
            {
                &&& advanced_by(b, after1.bodies[0], w, h, g, integrate, normalize)
                &&& #[trigger] record_spec(before.trail@, w, trail_point(after1.bodies[0]))
                    == after1.trail@
            };
        let v = choose|v: bool|
            {
                &&& advanced_by(b, after2.bodies[0], v, h, g, integrate, normalize)
                &&& #[trigger] record_spec(before.trail@, v, trail_point(after2.bodies[0]))
                    == after2.trail@
            };
        lemma_advanced_by_unique(
            b,
            after1.bodies[0],
            after2.bodies[0],
            w,
            v,
            h,
            g,
            integrate,
            normalize,
        );
    }
}

/// With functional `integrate` and `normalize`, one body advanced twice the
/// same way gives the same body and the same wrap flag.
proof fn lemma_advanced_by_unique<F, C, I, N>(
    before: DoublePendulum<F, C>,
    after1: DoublePendulum<F, C>,
    after2: DoublePendulum<F, C>,
    w: bool,
    v: bool,
    h: F,
    g: F,
    integrate: I,
    normalize: N,
) where
    F: Copy,
    C: Copy,
    I: Fn(Pendulum<F>, Pendulum<F>, F, F) -> (F, F, F, F),
    N: Fn(F) -> (F, bool),

    requires
        forall|p1: Pendulum<F>, p2: Pendulum<F>, s1: (F, F, F, F), s2: (F, F, F, F)|
            #![trigger integrate.ensures((p1, p2, h, g), s1), integrate.ensures((p1, p2, h, g), s2)]
            integrate.ensures((p1, p2, h, g), s1) && integrate.ensures((p1, p2, h, g), s2) ==> s1
                == s2,
        forall|a: F, r1: (F, bool), r2: (F, bool)|
            #![trigger normalize.ensures((a,), r1), normalize.ensures((a,), r2)]
            normalize.ensures((a,), r1) && normalize.ensures((a,), r2) ==> r1 == r2,
        advanced_by(before, after1, w, h, g, integrate, normalize),
        advanced_by(before, after2, v, h, g, integrate, normalize),
    ensures
        after1 == after2,
        w == v,
{
}

} // verus!
