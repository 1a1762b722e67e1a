//! The mathematical model of a keyframed hierarchy.
//!
//! A level is a list of keyframes, a hierarchy a list of levels with
//! the innermost first. The functions here say which transform a
//! level and a hierarchy have at an instant, and which box a moving
//! box sweeps; the lemmas after them say what follows.

use crate::geometry::BoundingBox;
use crate::linalg::{Keyframe, Transform};
use vstd::prelude::*;

verus! {

/// Whether the instants of a level strictly increase.
pub open spec fn ordered<P>(level: Seq<Keyframe<P>>) -> bool {
    forall|i: int, j: int| 0 <= i < j < level.len() ==> level[i].time < level[j].time
}

/// Whether no two keyframes of a list stand at one instant.
pub open spec fn distinct<P>(keyframes: Seq<Keyframe<P>>) -> bool {
    forall|i: int, j: int| 0 <= i < j < keyframes.len() ==> keyframes[i].time != keyframes[j].time
}

/// How many keyframes stand at the head of a level with an instant
/// before `time`.
pub open spec fn before<P>(level: Seq<Keyframe<P>>, time: i64) -> int
    decreases level.len(),
{
    if level.len() == 0 || level[0].time >= time {
        0
    } else {
        1 + before(level.subrange(1, level.len() as int), time)
    }
}

/// The transform of one level at an instant.
///
/// A level of one keyframe holds its pose at all times. Another level
/// holds its first pose until the first instant, its last pose after
/// the last instant, and in between blends the last keyframe before
/// `time` with the first one that is not before it.
pub open spec fn level_transform<T: Transform>(level: Seq<Keyframe<T::Pose>>, time: i64) -> T
    recommends
        level.len() > 0,
{
    let n = before(level, time);
    if level.len() == 1 || n == 0 {
        T::pose_spec(level[0].pose)
    } else if n == level.len() {
        T::pose_spec(level.last().pose)
    } else {
        T::interpolate_spec(time, level[n - 1], level[n])
    }
}

/// The transform of a hierarchy at an instant: that of the outermost
/// level after that of the levels inside it, and the identity where
/// there is no level.
pub open spec fn evaluate<T: Transform>(levels: Seq<Seq<Keyframe<T::Pose>>>, time: i64) -> T
    decreases levels.len(),
{
    if levels.len() == 0 {
        T::identity_spec()
    } else {
        level_transform::<T>(levels.last(), time).compose_spec(
            evaluate::<T>(levels.drop_last(), time),
        )
    }
}

/// The levels of a hierarchy whose inner part is `child` and whose
/// outer part is `parent`.
pub open spec fn composed<P>(child: Seq<Seq<Keyframe<P>>>, parent: Seq<Seq<Keyframe<P>>>) -> Seq<
    Seq<Keyframe<P>>,
> {
    child + parent
}

/// How many instants `animation_bounds` samples.
pub const SAMPLES: usize = 128;

/// The `i`-th of the sampled instants: they run from `start` to `end`
/// in equal steps, rounded towards `start`.
pub open spec fn sample_time(i: int, start: i64, end: i64) -> int {
    if start <= end {
        start + ((end - start) * i) / (SAMPLES - 1)
    } else {
        start - ((start - end) * i) / (SAMPLES - 1)
    }
}

/// The union of the images of a box at the first `n` sampled instants.
pub open spec fn swept<T: Transform>(
    levels: Seq<Seq<Keyframe<T::Pose>>>,
    b: T::BBox,
    start: i64,
    end: i64,
    n: nat,
) -> T::BBox
    decreases n,
{
    if n == 0 {
        T::BBox::empty_spec()
    } else {
        swept::<T>(levels, b, start, end, (n - 1) as nat).union_spec(
            evaluate::<T>(levels, sample_time(n - 1, start, end) as i64).box_spec(b),
        )
    }
}

/// `before` counts within the level.
pub proof fn before_in_range<P>(level: Seq<Keyframe<P>>, time: i64)
    ensures
        0 <= before(level, time) <= level.len(),
    decreases level.len(),
{
    if level.len() > 0 && level[0].time < time {
        before_in_range(level.subrange(1, level.len() as int), time);
    }
}

/// `before` is the one place where a head of earlier keyframes ends.
pub proof fn before_is<P>(level: Seq<Keyframe<P>>, time: i64, n: int)
    requires
        0 <= n <= level.len(),
        forall|j: int| 0 <= j < n ==> level[j].time < time,
        n < level.len() ==> level[n].time >= time,
    ensures
        before(level, time) == n,
    decreases level.len(),
{
    if n > 0 {
        let rest = level.subrange(1, level.len() as int);
        assert forall|j: int| 0 <= j < n - 1 implies rest[j].time < time by {
            assert(rest[j] == level[j + 1]);
        }
        before_is(rest, time, n - 1);
    }
}

/// A level is determined by its keyframes: two levels in order that
/// hold the same keyframes are the same list.
pub proof fn ordered_level_unique<P>(a: Seq<Keyframe<P>>, b: Seq<Keyframe<P>>)
    requires
        ordered(a),
        ordered(b),
        a.to_multiset() == b.to_multiset(),
    ensures
        a == b,
    decreases a.len(),
{
    a.to_multiset_ensures();
    b.to_multiset_ensures();
    if a.len() == 0 {
        assert(a =~= b);
    } else {
        let n = a.len() - 1;
        assert(a.to_multiset().contains(a[n]));
        assert(b.to_multiset().contains(a[n]));
        let j = choose|j: int| 0 <= j < b.len() && b[j] == a[n];
        assert(b.to_multiset().contains(b[n]));
        assert(a.to_multiset().contains(b[n]));
        let i = choose|i: int| 0 <= i < a.len() && a[i] == b[n];
        if i < n {
            assert(a[i].time < a[n].time);
        }
        if j < n {
            assert(b[j].time < b[n].time);
        }
        assert(a[n] == b[n]);
        let a0 = a.drop_last();
        let b0 = b.drop_last();
        assert(a =~= a0.push(a[n]));
        assert(b =~= b0.push(b[n]));
        vstd::seq_lib::to_multiset_build(a0, a[n]);
        vstd::seq_lib::to_multiset_build(b0, b[n]);
        assert(a0.to_multiset() =~= b0.to_multiset()) by {
            assert forall|k: Keyframe<P>| a0.to_multiset().count(k) == b0.to_multiset().count(k) by {
                assert(a0.to_multiset().insert(a[n]).count(k) == b0.to_multiset().insert(
                    b[n],
                ).count(k));
            }
        }
        ordered_level_unique(a0, b0);
    }
}

/// Until the first instant of a level in order, the level holds its
/// first pose.
pub proof fn level_clamps_to_first<T: Transform>(level: Seq<Keyframe<T::Pose>>, time: i64)
    requires
        level.len() > 0,
        time <= level[0].time,
    ensures
        level_transform::<T>(level, time) == T::pose_spec(level[0].pose),
{
}

/// After the last instant of a level in order, the level holds its
/// last pose.
pub proof fn level_clamps_to_last<T: Transform>(level: Seq<Keyframe<T::Pose>>, time: i64)
    requires
        level.len() > 0,
        ordered(level),
        level.last().time < time,
    ensures
        level_transform::<T>(level, time) == T::pose_spec(level.last().pose),
{
    assert forall|j: int| 0 <= j < level.len() implies level[j].time < time by {
        if j < level.len() - 1 {
            assert(level[j].time < level[level.len() - 1].time);
        }
    }
    before_is(level, time, level.len() as int);
}

/// Between two instants that follow each other in a level in order,
/// and at the later of them, the level blends the two keyframes.
pub proof fn level_blends_neighbours<T: Transform>(
    level: Seq<Keyframe<T::Pose>>,
    time: i64,
    i: int,
)
    requires
        ordered(level),
        0 < i < level.len(),
        level[i - 1].time < time <= level[i].time,
    ensures
        level_transform::<T>(level, time) == T::interpolate_spec(time, level[i - 1], level[i]),
{
    assert forall|j: int| 0 <= j < i implies level[j].time < time by {
        if j < i - 1 {
            assert(level[j].time < level[i - 1].time);
        }
    }
    before_is(level, time, i);
}

/// At the instant of one of its keyframes, a level in order holds
/// that keyframe's pose.
pub proof fn level_meets_keyframe<T: Transform>(level: Seq<Keyframe<T::Pose>>, i: int)
    requires
        ordered(level),
        0 <= i < level.len(),
    ensures
        level_transform::<T>(level, level[i].time) == T::pose_spec(level[i].pose),
{
    if i == 0 {
        level_clamps_to_first::<T>(level, level[0].time);
    } else {
        assert(level[i - 1].time < level[i].time);
        level_blends_neighbours::<T>(level, level[i].time, i);
        T::interpolate_at_second(level[i - 1], level[i]);
    }
}

/// A hierarchy of one level has that level's transform.
pub proof fn evaluate_one_level<T: Transform>(levels: Seq<Seq<Keyframe<T::Pose>>>, time: i64)
    requires
        levels.len() == 1,
    ensures
        evaluate::<T>(levels, time) == level_transform::<T>(levels[0], time),
{
    assert(levels.drop_last().len() == 0);
    assert(evaluate::<T>(levels.drop_last(), time) == T::identity_spec());
    T::compose_identity(level_transform::<T>(levels[0], time));
}

/// Putting hierarchies together is associative: both groupings give
/// the same levels, and so the same transform at every instant.
pub proof fn composed_associative<T: Transform>(
    a: Seq<Seq<Keyframe<T::Pose>>>,
    b: Seq<Seq<Keyframe<T::Pose>>>,
    c: Seq<Seq<Keyframe<T::Pose>>>,
)
    ensures
        composed(composed(a, b), c) == composed(a, composed(b, c)),
        forall|time: i64|
            evaluate::<T>(composed(composed(a, b), c), time) == evaluate::<T>(
                composed(a, composed(b, c)),
                time,
            ),
{
    assert(composed(composed(a, b), c) =~= composed(a, composed(b, c)));
}

/// The sampled instants lie between `start` and `end`, the first on
/// `start` and the last on `end`.
pub proof fn sample_time_bounds(i: int, start: i64, end: i64)
    requires
        0 <= i < SAMPLES,
    ensures
        start <= end ==> start <= sample_time(i, start, end) <= end,
        end <= start ==> end <= sample_time(i, start, end) <= start,
        sample_time(0, start, end) == start,
        sample_time(SAMPLES - 1, start, end) == end,
{
    let span: int = if start <= end { end - start } else { start - end };
    assert(0 <= (span * i) / 127 <= span) by (nonlinear_arith)
        requires
            0 <= span,
            0 <= i <= 127,
    ;
    assert((span * 0) / 127 == 0) by (nonlinear_arith);
    assert((span * 127) / 127 == span) by (nonlinear_arith);
}

/// The union over the first `n` sampled instants encloses the image
/// of the box at each of them.
pub proof fn swept_encloses_sample<T: Transform>(
    levels: Seq<Seq<Keyframe<T::Pose>>>,
    b: T::BBox,
    start: i64,
    end: i64,
    n: nat,
    j: int,
)
    requires
        0 <= j < n,
    ensures
        swept::<T>(levels, b, start, end, n).encloses(
            evaluate::<T>(levels, sample_time(j, start, end) as i64).box_spec(b),
        ),
    decreases n,
{
    let earlier = swept::<T>(levels, b, start, end, (n - 1) as nat);
    let latest = evaluate::<T>(levels, sample_time(n - 1, start, end) as i64).box_spec(b);
    T::BBox::union_encloses(earlier, latest);
    if j < n - 1 {
        swept_encloses_sample::<T>(levels, b, start, end, (n - 1) as nat, j);
        T::BBox::encloses_transitive(
            earlier.union_spec(latest),
            earlier,
            evaluate::<T>(levels, sample_time(j, start, end) as i64).box_spec(b),
        );
    }
}

/// The union over all sampled instants encloses the image of the box
/// at `start` and its image at `end`.
pub proof fn swept_encloses_ends<T: Transform>(
    levels: Seq<Seq<Keyframe<T::Pose>>>,
    b: T::BBox,
    start: i64,
    end: i64,
)
    ensures
        swept::<T>(levels, b, start, end, SAMPLES as nat).encloses(
            evaluate::<T>(levels, start).box_spec(b),
        ),
        swept::<T>(levels, b, start, end, SAMPLES as nat).encloses(
            evaluate::<T>(levels, end).box_spec(b),
        ),
{
    sample_time_bounds(0, start, end);
    swept_encloses_sample::<T>(levels, b, start, end, SAMPLES as nat, 0);
    swept_encloses_sample::<T>(levels, b, start, end, SAMPLES as nat, SAMPLES - 1);
}

} // verus!
