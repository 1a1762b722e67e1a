//! A transform that is animated by keyframes, through a hierarchy of
//! levels.

use crate::geometry::BoundingBox;
use crate::linalg::model::{
    before, before_in_range, before_is, composed, distinct, evaluate, evaluate_one_level,
    level_blends_neighbours, level_clamps_to_first, level_clamps_to_last, level_meets_keyframe,
    level_transform, ordered, sample_time, sample_time_bounds, swept, swept_encloses_ends, SAMPLES,
};
use crate::linalg::{Keyframe, Transform};
use vstd::multiset::Multiset;
use vstd::prelude::*;

verus! {

/// A transform that varies with time.
///
/// It is a list of levels, the object's own first and each ancestor's
/// after it. A level is a list of keyframes in the order of their
/// instants, no two at one instant.
#[derive(Debug, Clone)]
pub struct AnimatedTransform<T: Transform> {
    keyframes: Vec<Vec<Keyframe<T::Pose>>>,
}

impl<T: Transform> AnimatedTransform<T> {
    /// The levels, innermost first, each as the list of its keyframes.
    pub closed spec fn levels(&self) -> Seq<Seq<Keyframe<T::Pose>>> {
        Seq::new(self.keyframes@.len(), |i: int| self.keyframes@[i]@)
    }

    /// Whether each level is in the strict order of its instants.
    pub open spec fn wf(&self) -> bool {
        forall|i: int| 0 <= i < self.levels().len() ==> ordered(#[trigger] self.levels()[i])
    }

    /// Whether no level is empty, so that each has a pose at any time.
    pub open spec fn posed(&self) -> bool {
        forall|i: int| 0 <= i < self.levels().len() ==> (#[trigger] self.levels()[i]).len() > 0
    }

    /// Whether the transform counts as animated: it has no level, or
    /// each of its levels has more than one keyframe.
    pub open spec fn animated(&self) -> bool {
        self.levels().len() == 0 || forall|i: int|
            0 <= i < self.levels().len() ==> (#[trigger] self.levels()[i]).len() > 1
    }

    /// Makes a transform without levels.
    pub fn new() -> (r: AnimatedTransform<T>)
        ensures
            r.levels() == Seq::<Seq<Keyframe<T::Pose>>>::empty(),
            r.wf(),
    {
        let r = AnimatedTransform { keyframes: Vec::new() };
        assert(r.levels() =~= Seq::<Seq<Keyframe<T::Pose>>>::empty());
        r
    }

    /// Makes a transform of one level from keyframes in any order.
    pub fn with_keyframes(keyframes: Vec<Keyframe<T::Pose>>) -> (r: AnimatedTransform<T>)
        requires
            distinct(keyframes@),
        ensures
            r.wf(),
            r.levels().len() == 1,
            r.levels()[0].to_multiset() == keyframes@.to_multiset(),
    {
        let ghost given = keyframes@;
        let mut keyframes = keyframes;
        let mut level: Vec<Keyframe<T::Pose>> = Vec::new();
        proof {
            assert(level@.to_multiset() =~= Multiset::empty()) by {
                level@.to_multiset_ensures();
            }
            assert(Multiset::empty().add(given.to_multiset()) =~= given.to_multiset());
        }
        while keyframes.len() > 0
            invariant
                ordered(level@),
                level@.to_multiset().add(keyframes@.to_multiset()) == given.to_multiset(),
                forall|i: int, j: int|
                    0 <= i < j < keyframes@.len() ==> keyframes@[i].time != keyframes@[j].time,
                forall|a: int, b: int|
                    0 <= a < level@.len() && 0 <= b < keyframes@.len() ==> level@[a].time
                        != keyframes@[b].time,
            decreases keyframes@.len(),
        {
            let ghost rest = keyframes@;
            let ghost placed = level@;
            let keyframe = keyframes.pop().unwrap();
            Self::place(&mut level, keyframe);
            proof {
                let at = before(placed, keyframe.time);
                before_in_range(placed, keyframe.time);
                assert(rest =~= keyframes@.push(keyframe));
                vstd::seq_lib::to_multiset_build(keyframes@, keyframe);
                vstd::seq_lib::to_multiset_insert(placed, at, keyframe);
                assert(level@.to_multiset().add(keyframes@.to_multiset()) =~= placed.to_multiset().add(
                    rest.to_multiset(),
                ));
                assert forall|a: int, b: int|
                    0 <= a < level@.len() && 0 <= b < keyframes@.len() implies level@[a].time
                    != keyframes@[b].time by {
                    assert(keyframes@[b] == rest[b]);
                    if a < at {
                        assert(level@[a] == placed[a]);
                    } else if a > at {
                        assert(level@[a] == placed[a - 1]);
                    }
                }
            }
        }
        proof {
            assert(keyframes@.to_multiset() =~= Multiset::empty()) by {
                keyframes@.to_multiset_ensures();
            }
            assert(level@.to_multiset().add(Multiset::empty()) =~= level@.to_multiset());
        }
        let mut stacks: Vec<Vec<Keyframe<T::Pose>>> = Vec::new();
        stacks.push(level);
        let r = AnimatedTransform { keyframes: stacks };
        assert(r.levels()[0] == level@);
        r
    }

    /// Puts a keyframe into the innermost level, which it makes where
    /// the transform has no level yet. No keyframe of that level may
    /// stand at the same instant.
    pub fn insert(&mut self, keyframe: Keyframe<T::Pose>)
        requires
            old(self).wf(),
            old(self).levels().len() > 0 ==> forall|j: int|
                0 <= j < old(self).levels()[0].len() ==> old(self).levels()[0][j].time
                    != keyframe.time,
        ensures
            final(self).wf(),
            old(self).levels().len() == 0 ==> final(self).levels() == seq![seq![keyframe]],
            old(self).levels().len() > 0 ==> final(self).levels() == old(self).levels().update(
                0,
                old(self).levels()[0].insert(
                    before(old(self).levels()[0], keyframe.time),
                    keyframe,
                ),
            ),
    {
        if self.keyframes.len() == 0 {
            let mut level: Vec<Keyframe<T::Pose>> = Vec::new();
            level.push(keyframe);
            self.keyframes.push(level);
            proof {
                assert(level@ =~= seq![keyframe]);
                assert(self.levels() =~= seq![seq![keyframe]]);
            }
        } else {
            let ghost was = self.levels();
            assert(was[0] == self.keyframes@[0]@);
            Self::place(&mut self.keyframes[0], keyframe);
            proof {
                let now = was.update(0, was[0].insert(before(was[0], keyframe.time), keyframe));
                assert(self.levels() =~= now);
                assert forall|i: int| 0 <= i < self.levels().len() implies ordered(
                    #[trigger] self.levels()[i],
                ) by {
                    if i > 0 {
                        assert(self.levels()[i] == was[i]);
                    }
                }
            }
        }
    }

    /// The transform at an instant.
    ///
    /// Each level gives its own transform at `time`; the result
    /// applies the innermost level first and each ancestor after it.
    pub fn transform(&self, time: i64) -> (r: T)
        requires
            self.posed(),
        ensures
            r == evaluate::<T>(self.levels(), time),
    {
        let mut transform = T::identity();
        let n = self.keyframes.len();
        let mut i: usize = 0;
        while i < n
            invariant
                n == self.keyframes@.len(),
                i <= n,
                self.posed(),
                transform == evaluate::<T>(self.levels().take(i as int), time),
            decreases n - i,
        {
            let stack = &self.keyframes[i];
            proof {
                assert(self.levels()[i as int] == stack@);
                assert(self.levels().take(i + 1).drop_last() =~= self.levels().take(i as int));
                assert(self.levels().take(i + 1).last() == stack@);
            }
            let t = Self::level_at(stack, time);
            transform = t.compose(&transform);
            i += 1;
        }
        assert(self.levels().take(n as int) =~= self.levels());
        transform
    }

    /// The bounds of a box that moves with the transform from `start`
    /// to `end`.
    ///
    /// Where the transform is not animated this is the image of the
    /// box at `start`. Where it is, it is the union of the images at
    /// the sampled instants.
    pub fn animation_bounds(&self, b: &T::BBox, start: i64, end: i64) -> (r: T::BBox)
        requires
            self.posed(),
        ensures
            !self.animated() ==> r == evaluate::<T>(self.levels(), start).box_spec(*b),
            self.animated() ==> r == swept::<T>(self.levels(), *b, start, end, SAMPLES as nat),
            self.animated() ==> r.encloses(evaluate::<T>(self.levels(), start).box_spec(*b))
                && r.encloses(evaluate::<T>(self.levels(), end).box_spec(*b)),
    {
        proof {
            swept_encloses_ends::<T>(self.levels(), *b, start, end);
        }
        if !self.is_animated() {
            let t = self.transform(start);
            t.apply_box(b)
        } else {
            let mut ret = T::BBox::empty();
            let mut i: usize = 0;
            while i < SAMPLES
                invariant
                    i <= SAMPLES,
                    self.posed(),
                    ret == swept::<T>(self.levels(), *b, start, end, i as nat),
                decreases SAMPLES - i,
            {
                let time = Self::sample(i, start, end);
                let t = self.transform(time);
                ret = ret.box_union(&t.apply_box(b));
                i += 1;
            }
            ret
        }
    }

    /// Whether the transform counts as animated: it has no level, or
    /// each of its levels has more than one keyframe.
    pub fn is_animated(&self) -> (r: bool)
        ensures
            r == self.animated(),
    {
        let n = self.keyframes.len();
        let mut i: usize = 0;
        while i < n
            invariant
                n == self.keyframes@.len(),
                i <= n,
                forall|j: int| 0 <= j < i ==> (#[trigger] self.levels()[j]).len() > 1,
            decreases n - i,
        {
            if self.keyframes[i].len() <= 1 {
                assert(self.levels()[i as int].len() <= 1);
                return false;
            }
            assert(self.levels()[i as int] == self.keyframes@[i as int]@);
            i += 1;
        }
        true
    }

    /// Whether no level is empty, so that `transform` can be asked.
    pub fn is_posed(&self) -> (r: bool)
        ensures
            r == self.posed(),
    {
        let n = self.keyframes.len();
        let mut i: usize = 0;
        while i < n
            invariant
                n == self.keyframes@.len(),
                i <= n,
                forall|j: int| 0 <= j < i ==> (#[trigger] self.levels()[j]).len() > 0,
            decreases n - i,
        {
            if self.keyframes[i].len() == 0 {
                assert(self.levels()[i as int].len() == 0);
                return false;
            }
            assert(self.levels()[i as int] == self.keyframes@[i as int]@);
            i += 1;
        }
        true
    }

    /// Whether the innermost level has a keyframe at an instant, so
    /// that `insert` cannot take another one there.
    pub fn has_instant(&self, time: i64) -> (r: bool)
        ensures
            r == (self.levels().len() > 0 && exists|j: int|
                0 <= j < self.levels()[0].len() && self.levels()[0][j].time == time),
    {
        if self.keyframes.len() == 0 {
            return false;
        }
        let level = &self.keyframes[0];
        assert(self.levels()[0] == level@);
        let len = level.len();
        let mut j: usize = 0;
        while j < len
            invariant
                len == level@.len(),
                j <= len,
                self.levels().len() > 0,
                self.levels()[0] == level@,
                forall|k: int| 0 <= k < j ==> level@[k].time != time,
            decreases len - j,
        {
            if level[j].time == time {
                assert(self.levels()[0][j as int].time == time);
                return true;
            }
            j += 1;
        }
        false
    }

    /// Puts a keyframe into a level at its place in the order of
    /// instants.
    fn place(level: &mut Vec<Keyframe<T::Pose>>, keyframe: Keyframe<T::Pose>)
        requires
            ordered(old(level)@),
            forall|j: int| 0 <= j < old(level)@.len() ==> old(level)@[j].time != keyframe.time,
        ensures
            final(level)@ == old(level)@.insert(before(old(level)@, keyframe.time), keyframe),
            ordered(final(level)@),
    {
        let len = level.len();
        let mut n: usize = 0;
        while n < len && level[n].time < keyframe.time
            invariant
                len == level@.len(),
                level@ == old(level)@,
                n <= len,
                forall|j: int| 0 <= j < n ==> level@[j].time < keyframe.time,
            decreases len - n,
        {
            n += 1;
        }
        proof {
            before_is(level@, keyframe.time, n as int);
        }
        level.insert(n, keyframe);
        proof {
            let was = old(level)@;
            assert forall|i: int, j: int| 0 <= i < j < level@.len() implies level@[i].time
                < level@[j].time by {
                if j < n {
                    assert(level@[i] == was[i] && level@[j] == was[j]);
                } else if j == n {
                    assert(level@[i] == was[i]);
                } else if i < n {
                    assert(level@[i] == was[i] && level@[j] == was[j - 1]);
                    assert(was[n as int].time >= keyframe.time);
                } else if i == n {
                    assert(level@[j] == was[j - 1]);
                    assert(was[n as int].time >= keyframe.time);
                } else {
                    assert(level@[i] == was[i - 1] && level@[j] == was[j - 1]);
                }
            }
        }
    }

    /// The transform of one level at an instant, found by walking the
    /// level from its first keyframe.
    fn level_at(stack: &Vec<Keyframe<T::Pose>>, time: i64) -> (r: T)
        requires
            stack@.len() > 0,
        ensures
            r == level_transform::<T>(stack@, time),
    {
        let len = stack.len();
        if len == 1 {
            return stack[0].transform();
        }
        let mut n: usize = 0;
        while n < len && stack[n].time < time
            invariant
                len == stack@.len(),
                n <= len,
                forall|j: int| 0 <= j < n ==> stack@[j].time < time,
            decreases len - n,
        {
            n += 1;
        }
        proof {
            before_is(stack@, time, n as int);
        }
        if n == 0 {
            stack[0].transform()
        } else if n == len {
            stack[len - 1].transform()
        } else {
            T::interpolate(time, &stack[n - 1], &stack[n])
        }
    }

    /// The `i`-th sampled instant.
    fn sample(i: usize, start: i64, end: i64) -> (r: i64)
        requires
            i < SAMPLES,
        ensures
            r == sample_time(i as int, start, end),
    {
        proof {
            sample_time_bounds(i as int, start, end);
        }
        let steps: i128 = (SAMPLES - 1) as i128;
        if start <= end {
            let span: i128 = end as i128 - start as i128;
            assert(0 <= span * i <= span * 127) by (nonlinear_arith)
                requires
                    0 <= span,
                    0 <= i <= 127,
            ;
            (start as i128 + (span * i as i128) / steps) as i64
        } else {
            let span: i128 = start as i128 - end as i128;
            assert(0 <= span * i <= span * 127) by (nonlinear_arith)
                requires
                    0 <= span,
                    0 <= i <= 127,
            ;
            (start as i128 - (span * i as i128) / steps) as i64
        }
    }
}

/// `child * parent` is the hierarchy of both.
impl<T: Transform> core::ops::Mul for AnimatedTransform<T> {
    type Output = AnimatedTransform<T>;

    /// The hierarchy with the levels of `self` inside those of
    /// `parent`.
    fn mul(self, parent: AnimatedTransform<T>) -> (r: AnimatedTransform<T>)
        ensures
            r.levels() == composed(self.levels(), parent.levels()),
            self.wf() && parent.wf() ==> r.wf(),
    {
        let mut keyframes = self.keyframes;
        let mut outer = parent.keyframes;
        keyframes.append(&mut outer);
        let r = AnimatedTransform { keyframes };
        assert(r.levels() =~= self.levels() + parent.levels());
        proof {
            if self.wf() && parent.wf() {
                assert forall|i: int| 0 <= i < r.levels().len() implies ordered(
                    #[trigger] r.levels()[i],
                ) by {
                    if i < self.levels().len() {
                        assert(r.levels()[i] == self.levels()[i]);
                    } else {
                        assert(r.levels()[i] == parent.levels()[i - self.levels().len()]);
                    }
                }
            }
        }
        r
    }
}

/// The operator's result is stated by the contract of `mul`, over the
/// levels of the operands; it has no formula over the values.
impl<T: Transform> vstd::std_specs::ops::MulSpecImpl for AnimatedTransform<T> {
    open spec fn obeys_mul_spec() -> bool {
        false
    }

    open spec fn mul_req(self, parent: AnimatedTransform<T>) -> bool {
        true
    }

    open spec fn mul_spec(self, parent: AnimatedTransform<T>) -> AnimatedTransform<T> {
        self
    }
}

/// Whether no two keyframes of a list stand at one instant, so that
/// `with_keyframes` can take the list.
pub fn distinct_instants<P>(keyframes: &Vec<Keyframe<P>>) -> (r: bool)
    ensures
        r == distinct(keyframes@),
{
    let len = keyframes.len();
    let mut j: usize = 0;
    while j < len
        invariant
            len == keyframes@.len(),
            j <= len,
            forall|a: int, b: int| 0 <= a < b < j ==> keyframes@[a].time != keyframes@[b].time,
        decreases len - j,
    {
        let mut i: usize = 0;
        while i < j
            invariant
                len == keyframes@.len(),
                i <= j < len,
                forall|a: int| 0 <= a < i ==> keyframes@[a].time != keyframes@[j as int].time,
            decreases j - i,
        {
            if keyframes[i].time == keyframes[j].time {
                return false;
            }
            i += 1;
        }
        j += 1;
    }
    true
}

impl<T: Transform> AnimatedTransform<T> {
    /// A transform of one level with one keyframe has that keyframe's
    /// transform at every instant, and is not animated.
    pub proof fn single_keyframe_is_static(self, time: i64)
        requires
            self.levels().len() == 1,
            self.levels()[0].len() == 1,
        ensures
            evaluate::<T>(self.levels(), time) == T::pose_spec(self.levels()[0][0].pose),
            !self.animated(),
    {
        evaluate_one_level::<T>(self.levels(), time);
    }

    /// A transform of one level with two keyframes has each keyframe's
    /// transform at that keyframe's instant, and between the two
    /// instants the blend of the two keyframes.
    pub proof fn two_keyframes_meet_and_blend(self, time: i64)
        requires
            self.wf(),
            self.levels().len() == 1,
            self.levels()[0].len() == 2,
        ensures
            evaluate::<T>(self.levels(), self.levels()[0][0].time) == T::pose_spec(
                self.levels()[0][0].pose,
            ),
            evaluate::<T>(self.levels(), self.levels()[0][1].time) == T::pose_spec(
                self.levels()[0][1].pose,
            ),
            self.levels()[0][0].time < time <= self.levels()[0][1].time ==> evaluate::<T>(
                self.levels(),
                time,
            ) == T::interpolate_spec(time, self.levels()[0][0], self.levels()[0][1]),
    {
        let level = self.levels()[0];
        evaluate_one_level::<T>(self.levels(), level[0].time);
        evaluate_one_level::<T>(self.levels(), level[1].time);
        evaluate_one_level::<T>(self.levels(), time);
        level_meets_keyframe::<T>(level, 0);
        level_meets_keyframe::<T>(level, 1);
        if level[0].time < time <= level[1].time {
            level_blends_neighbours::<T>(level, time, 1);
        }
    }

    /// A transform of one level never goes beyond its keyframes: up
    /// to the first instant it has the first keyframe's transform,
    /// from the last instant on the last keyframe's.
    pub proof fn clamps_outside_keyframes(self, time: i64)
        requires
            self.wf(),
            self.levels().len() == 1,
            self.levels()[0].len() > 0,
        ensures
            time <= self.levels()[0][0].time ==> evaluate::<T>(self.levels(), time) == T::pose_spec(
                self.levels()[0][0].pose,
            ),
            time >= self.levels()[0].last().time ==> evaluate::<T>(self.levels(), time)
                == T::pose_spec(self.levels()[0].last().pose),
    {
        let level = self.levels()[0];
        evaluate_one_level::<T>(self.levels(), time);
        if time <= level[0].time {
            level_clamps_to_first::<T>(level, time);
        }
        if time > level.last().time {
            level_clamps_to_last::<T>(level, time);
        } else if time == level.last().time {
            level_meets_keyframe::<T>(level, level.len() - 1);
        }
    }
}

} // verus!
