use vstd::prelude::*;

verus! {

/// The trail of one body through angle space: a sequence of segments, each a
/// sequence of points. There is always at least one segment, and points go to
/// the last one.
pub struct Points<P> {
    lines: Vec<Vec<P>>,
}

/// The trail after recording `pt`: a new segment is opened first when the
/// angles wrapped, then the point joins the last segment.
pub open spec fn record_spec<P>(lines: Seq<Seq<P>>, wrapped: bool, pt: P) -> Seq<Seq<P>>
    recommends
        lines.len() >= 1,
{
    let opened = if wrapped {
        lines.push(Seq::empty())
    } else {
        lines
    };
    opened.update(opened.len() - 1, opened.last().push(pt))
}

/// The number of points over all segments.
pub open spec fn point_count<P>(lines: Seq<Seq<P>>) -> nat
    decreases lines.len(),
{
    if lines.len() == 0 {
        0
    } else {
        point_count(lines.drop_last()) + lines.last().len()
    }
}

/// The number of wraps among `flags`.
pub open spec fn wrap_count(flags: Seq<bool>) -> nat
    decreases flags.len(),
{
    if flags.len() == 0 {
        0
    } else {
        wrap_count(flags.drop_last()) + if flags.last() {
            1nat
        } else {
            0nat
        }
    }
}

/// The trail after recording `pts[k]` with wrap flag `flags[k]`, in order.
pub open spec fn record_all<P>(lines: Seq<Seq<P>>, flags: Seq<bool>, pts: Seq<P>) -> Seq<Seq<P>>
    recommends
        flags.len() == pts.len(),
    decreases flags.len(),
{
    if flags.len() == 0 || pts.len() == 0 {
        lines
    } else {
        record_spec(record_all(lines, flags.drop_last(), pts.drop_last()), flags.last(), pts.last())
    }
}

impl<P> View for Points<P> {
    type V = Seq<Seq<P>>;

    closed spec fn view(&self) -> Seq<Seq<P>> {
        self.lines@.map_values(|l: Vec<P>| l@)
    }
}

impl<P> Points<P> {
    /// Well-formed: the trail has a current segment.
    pub open spec fn wf(&self) -> bool {
        self@.len() >= 1
    }

    /// A trail holding one empty segment.
    pub fn new() -> (r: Self)
        ensures
            r@ == seq![Seq::<P>::empty()],
            r.wf(),
    {
        let r = Points { lines: vec![Vec::new()] };
        assert(r@ =~= seq![Seq::<P>::empty()]);
        r
    }

    /// Drops every point and segment, leaving one empty segment.
    pub fn empty(&mut self)
        ensures
            final(self)@ == seq![Seq::<P>::empty()],
            final(self).wf(),
    {
        self.lines = vec![Vec::new()];
        assert(self@ =~= seq![Seq::<P>::empty()]);
    }

    /// Opens a new, empty segment.
    pub fn add_line(&mut self)
        requires
            old(self).wf(),
        ensures
            final(self).wf(),
            final(self)@ == old(self)@.push(Seq::empty()),
    {
        self.lines.push(Vec::new());
        assert(self@ =~= old(self)@.push(Seq::empty()));
    }

    /// Appends a point to the current (last) segment.
    pub fn push(&mut self, pt: P)
        requires
            old(self).wf(),
        ensures
            final(self).wf(),
            final(self)@ == old(self)@.update(old(self)@.len() - 1, old(self)@.last().push(pt)),
    {
        let i = self.lines.len() - 1;
        self.lines[i].push(pt);
        assert(self@ =~= old(self)@.update(old(self)@.len() - 1, old(self)@.last().push(pt)));
    }

    /// Records one point of the tracked body: when its angles wrapped, the
    /// point starts a new segment, otherwise it extends the current one.
    pub fn record(&mut self, wrapped: bool, pt: P)
        requires
            old(self).wf(),
        ensures
            final(self).wf(),
            final(self)@ == record_spec(old(self)@, wrapped, pt),
    {
        if wrapped {
            self.add_line();
        }
        self.push(pt);
    }

    /// The segments, oldest first.
    pub fn segments(&self) -> (r: &Vec<Vec<P>>)
        ensures
            r@.map_values(|l: Vec<P>| l@) == self@,
    {
        &self.lines
    }
}

impl<P> Default for Points<P> {
    fn default() -> (r: Self)
        ensures
            r@ == seq![Seq::<P>::empty()],
            r.wf(),
    {
        Points::new()
    }
}

/// Recording a point adds exactly one point, and adds a segment exactly when
/// the angles wrapped.
pub proof fn lemma_record_counts<P>(lines: Seq<Seq<P>>, wrapped: bool, pt: P)
    requires
        lines.len() >= 1,
    ensures
        record_spec(lines, wrapped, pt).len() == lines.len() + if wrapped {
            1nat
        } else {
            0nat
        },
        point_count(record_spec(lines, wrapped, pt)) == point_count(lines) + 1,
        record_spec(lines, wrapped, pt).last() == (if wrapped {
            seq![pt]
        } else {
            lines.last().push(pt)
        }),
{
    let r = record_spec(lines, wrapped, pt);
    let opened = if wrapped {
        lines.push(Seq::empty())
    } else {
        lines
    };
    if wrapped {
        assert(opened.drop_last() =~= lines);
        assert(r.drop_last() =~= lines);
        assert(r.last() =~= seq![pt]);
    } else {
        assert(r.drop_last() =~= lines.drop_last());
    }
}

/// Starting from a cleared trail and recording one point per tick, the trail
/// holds one segment more than the number of wraps, and as many points as
/// there were ticks.
pub proof fn lemma_trail_segmentation<P>(flags: Seq<bool>, pts: Seq<P>)
    requires
        flags.len() == pts.len(),
    ensures
        record_all(seq![Seq::<P>::empty()], flags, pts).len() == 1 + wrap_count(flags),
        point_count(record_all(seq![Seq::<P>::empty()], flags, pts)) == flags.len(),
    decreases flags.len(),
{
    let start = seq![Seq::<P>::empty()];
    if flags.len() == 0 {
        assert(start.drop_last() =~= Seq::<Seq<P>>::empty());
        assert(point_count(start) == point_count(start.drop_last()) + start.last().len());
    } else {
        lemma_trail_segmentation(flags.drop_last(), pts.drop_last());
        lemma_record_counts(
            record_all(start, flags.drop_last(), pts.drop_last()),
            flags.last(),
            pts.last(),
        );
    }
}

} // verus!
