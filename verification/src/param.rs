//! Parameters as the engine holds them: validated axes, shared values and the
//! bindings through which a parameter acts on a node.

use crate::atomic::AtomicF32;
use crate::atomic::AtomicF32x2;
use crate::error::Error;
use crate::error::ErrorKind;
use crate::float::bits_eq;
use crate::float::bits_gt;
use crate::float::bits_max;
use crate::float::bits_min;
use crate::float::eq;
use crate::float::is_nan;
use crate::float::lt;
use crate::float::maximum;
use crate::float::minimum;
use crate::float::total_key;
use crate::float::ONE;
use crate::float::ZERO;
use crate::io::param::InterpolateMode;
use crate::io::param::Param;
use crate::io::param::ParamValue;
use crate::io::param::ParamValueView;
use crate::io::param::ParamView;
use crate::io::Uuid;
use crate::ord::is_sorted;
use crate::ord::sorted;
use crate::ord::step_in_order;
use crate::ord::TotalF32;
use crate::text::str_eq;
use std::collections::HashMap;
use std::sync::atomic::Ordering;
use std::sync::Arc;
use vstd::prelude::*;
use vstd::string::StringExecFns;

verus! {

/// The property of a node that a binding acts on.
#[derive(Debug, Clone, Copy, PartialEq, Eq, Structural)]
pub enum ParamTarget {
    ZSort,
    TranslationX,
    TranslationY,
    TranslationZ,
    RotationX,
    RotationY,
    RotationZ,
    ScaleX,
    ScaleY,
}

/// The target that a property name stands for, if it stands for one.
pub open spec fn target_named(name: Seq<char>) -> Option<ParamTarget> {
    if name == "zSort"@ {
        Some(ParamTarget::ZSort)
    } else if name == "transform.t.x"@ {
        Some(ParamTarget::TranslationX)
    } else if name == "transform.t.y"@ {
        Some(ParamTarget::TranslationY)
    } else if name == "transform.t.z"@ {
        Some(ParamTarget::TranslationZ)
    } else if name == "transform.r.x"@ {
        Some(ParamTarget::RotationX)
    } else if name == "transform.r.y"@ {
        Some(ParamTarget::RotationY)
    } else if name == "transform.r.z"@ {
        Some(ParamTarget::RotationZ)
    } else if name == "transform.s.x"@ {
        Some(ParamTarget::ScaleX)
    } else if name == "transform.s.y"@ {
        Some(ParamTarget::ScaleY)
    } else {
        None
    }
}

impl ParamTarget {
    /// Reads the name of a node property. Any name but the nine known ones is
    /// an `Unsupported` error.
    pub fn from_str(s: &str) -> (r: Result<ParamTarget, Error>)
        ensures
            match r {
                Ok(target) => target_named(s@) == Some(target),
                Err(e) => target_named(s@) is None && e.spec_kind() == ErrorKind::Unsupported,
            },
    {
        proof {
            reveal_strlit("zSort");
            reveal_strlit("transform.t.x");
            reveal_strlit("transform.t.y");
            reveal_strlit("transform.t.z");
            reveal_strlit("transform.r.x");
            reveal_strlit("transform.r.y");
            reveal_strlit("transform.r.z");
            reveal_strlit("transform.s.x");
            reveal_strlit("transform.s.y");
        }
        if str_eq(s, "zSort") {
            Ok(ParamTarget::ZSort)
        } else if str_eq(s, "transform.t.x") {
            Ok(ParamTarget::TranslationX)
        } else if str_eq(s, "transform.t.y") {
            Ok(ParamTarget::TranslationY)
        } else if str_eq(s, "transform.t.z") {
            Ok(ParamTarget::TranslationZ)
        } else if str_eq(s, "transform.r.x") {
            Ok(ParamTarget::RotationX)
        } else if str_eq(s, "transform.r.y") {
            Ok(ParamTarget::RotationY)
        } else if str_eq(s, "transform.r.z") {
            Ok(ParamTarget::RotationZ)
        } else if str_eq(s, "transform.s.x") {
            Ok(ParamTarget::ScaleX)
        } else if str_eq(s, "transform.s.y") {
            Ok(ParamTarget::ScaleY)
        } else {
            let what = String::from_str("parameter target '").concat(s).concat("'");
            Err(Error::unsupported(what.as_str()))
        }
    }
}

impl core::str::FromStr for ParamTarget {
    type Err = Error;

    fn from_str(s: &str) -> (r: Result<ParamTarget, Error>)
        ensures
            match r {
                Ok(target) => target_named(s@) == Some(target),
                Err(e) => target_named(s@) is None && e.spec_kind() == ErrorKind::Unsupported,
            },
    {
        ParamTarget::from_str(s)
    }
}

/// Whether the breakpoints stand in ascending order by the total order on
/// single-precision values.
pub open spec fn ascending(points: Seq<u32>) -> bool {
    forall|i: int, j: int|
        0 <= i <= j < points.len() ==> total_key(#[trigger] points[i]) <= total_key(
            #[trigger] points[j],
        )
}

/// What a [`ParamAxis`] is.
pub struct ParamAxisView {
    /// The smallest value of the axis.
    pub min: u32,
    /// The largest value of the axis.
    pub max: u32,
    /// The breakpoints, between `0.0` and `1.0`.
    pub axis_points: Seq<u32>,
}

impl ParamAxisView {
    /// What an axis must meet: there are breakpoints, the first is `0.0`, the
    /// last is `1.0`, they ascend, and the minimum is not above the maximum.
    pub open spec fn valid(&self) -> bool {
        &&& self.axis_points.len() > 0
        &&& eq(self.axis_points[0], ZERO)
        &&& eq(self.axis_points.last(), ONE)
        &&& ascending(self.axis_points)
        &&& !lt(self.max, self.min)
    }

    /// The value brought into the range of the axis.
    pub open spec fn clamp(&self, value: u32) -> u32 {
        maximum(minimum(value, self.max), self.min)
    }

    /// Whether `i` is the index of the first breakpoint above `normalized`.
    pub open spec fn first_above(&self, normalized: u32, i: int) -> bool {
        &&& 0 <= i < self.axis_points.len()
        &&& lt(normalized, self.axis_points[i])
        &&& forall|k: int| 0 <= k < i ==> !lt(normalized, #[trigger] self.axis_points[k])
    }

    /// Whether no breakpoint is above `normalized`.
    pub open spec fn none_above(&self, normalized: u32) -> bool {
        forall|k: int|
            0 <= k < self.axis_points.len() ==> !lt(normalized, #[trigger] self.axis_points[k])
    }

    /// Whether `upper` is the upper bucket of `normalized`: the index of the
    /// first breakpoint above it, or that of the last breakpoint where none is.
    pub open spec fn is_upper(&self, normalized: u32, upper: int) -> bool {
        ||| self.first_above(normalized, upper)
        ||| (self.none_above(normalized) && upper == self.axis_points.len() - 1)
    }
}

/// The axis that the description `param` gives for `index`. Where the
/// description holds no list of breakpoints for that index, the axis has none.
pub open spec fn axis_described(param: ParamView, index: int) -> ParamAxisView {
    ParamAxisView {
        min: param.min[index],
        max: param.max[index],
        axis_points: if index < param.axis_points.len() {
            param.axis_points[index]
        } else {
            Seq::empty()
        },
    }
}

/// Configuration of a single axis of a parameter.
#[derive(Debug)]
pub struct ParamAxis {
    min: u32,
    max: u32,
    axis_points: Vec<u32>,
}

impl View for ParamAxis {
    type V = ParamAxisView;

    closed spec fn view(&self) -> ParamAxisView {
        ParamAxisView { min: self.min, max: self.max, axis_points: self.axis_points@ }
    }
}

/// Ascending order step by step is ascending order between any two places.
proof fn lemma_steps_ascend(points: Seq<u32>, wrapped: Seq<TotalF32>)
    requires
        wrapped.len() == points.len(),
        forall|i: int| 0 <= i < points.len() ==> (#[trigger] wrapped[i]).0 == points[i],
        sorted(wrapped),
    ensures
        ascending(points),
{
    assert forall|i: int, j: int| 0 <= i <= j < points.len() implies total_key(
        #[trigger] points[i],
    ) <= total_key(#[trigger] points[j]) by {
        lemma_steps_reach(points, wrapped, i, j);
    }
}

proof fn lemma_steps_reach(points: Seq<u32>, wrapped: Seq<TotalF32>, i: int, j: int)
    requires
        wrapped.len() == points.len(),
        forall|k: int| 0 <= k < points.len() ==> (#[trigger] wrapped[k]).0 == points[k],
        sorted(wrapped),
        0 <= i <= j < points.len(),
    ensures
        total_key(points[i]) <= total_key(points[j]),
    decreases j - i,
{
    if i < j {
        lemma_steps_reach(points, wrapped, i, j - 1);
        assert(step_in_order(wrapped, j - 1));
        assert(wrapped[j - 1].0 == points[j - 1]);
        assert(wrapped[j].0 == points[j]);
    }
}

/// Where a step descends, the order is not ascending.
proof fn lemma_descent_breaks(points: Seq<u32>, wrapped: Seq<TotalF32>)
    requires
        wrapped.len() == points.len(),
        forall|i: int| 0 <= i < points.len() ==> (#[trigger] wrapped[i]).0 == points[i],
        !sorted(wrapped),
    ensures
        !ascending(points),
{
    let i = choose|i: int| 0 <= i && i + 1 < wrapped.len() && !#[trigger] step_in_order(wrapped, i);
    assert(wrapped[i].0 == points[i]);
    assert(wrapped[i + 1].0 == points[i + 1]);
    assert(total_key(points[i]) > total_key(points[i + 1]));
}

impl ParamAxis {
    #[verifier::type_invariant]
    spec fn well_formed(self) -> bool {
        self@.valid()
    }

    /// Builds the axis `index` of a described parameter.
    ///
    /// The axis is refused as `Invalid` where it has no breakpoints, where the
    /// first breakpoint is not `0.0` or the last is not `1.0`, where the
    /// breakpoints do not ascend, or where the minimum is above the maximum.
    pub fn lower(param: &Param, index: usize) -> (r: Result<ParamAxis, Error>)
        requires
            index < 2,
        ensures
            match r {
                Ok(axis) => axis@ == axis_described(param@, index as int) && axis@.valid(),
                Err(e) => e.spec_kind() == ErrorKind::Invalid && !axis_described(
                    param@,
                    index as int,
                ).valid(),
            },
    {
        let described = param.axis_points();
        if index >= described.len() {
            let what = String::from_str("parameter '").concat(param.name()).concat(
                "' is invalid: no axis points",
            );
            return Err(Error::invalid(what.as_str()));
        }
        let source = &described[index];
        assert(source@ == described.deep_view()[index as int]);
        let n: usize = source.len();
        if n == 0 {
            let what = String::from_str("parameter '").concat(param.name()).concat(
                "' is invalid: no axis points",
            );
            return Err(Error::invalid(what.as_str()));
        }
        if !bits_eq(source[0], ZERO) || !bits_eq(source[n - 1], ONE) {
            let what = String::from_str("parameter '").concat(param.name()).concat(
                "' is invalid: invalid axis points, first must be 0.0, last must be 1.0",
            );
            return Err(Error::invalid(what.as_str()));
        }
        let mut axis_points: Vec<u32> = Vec::with_capacity(n);
        let mut wrapped: Vec<TotalF32> = Vec::with_capacity(n);
        let mut i: usize = 0;
        while i < n
            invariant
                i <= n,
                n == source@.len(),
                axis_points@ == source@.take(i as int),
                wrapped@.len() == i,
                forall|k: int| 0 <= k < i ==> (#[trigger] wrapped@[k]).0 == source@[k],
            decreases n - i,
        {
            axis_points.push(source[i]);
            wrapped.push(TotalF32(source[i]));
            i += 1;
            assert(axis_points@ =~= source@.take(i as int));
        }
        assert(axis_points@ =~= source@);
        if !is_sorted(wrapped.as_slice()) {
            proof {
                lemma_descent_breaks(source@, wrapped@);
            }
            let what = String::from_str("axis points of parameter '").concat(param.name()).concat(
                "' are not in sorted order",
            );
            return Err(Error::invalid(what.as_str()));
        }
        proof {
            lemma_steps_ascend(source@, wrapped@);
        }
        let min: u32 = param.min()[index];
        let max: u32 = param.max()[index];
        if bits_gt(min, max) {
            let what = String::from_str("parameter '").concat(param.name()).concat(
                "' is invalid: minimum is greater than the maximum",
            );
            return Err(Error::invalid(what.as_str()));
        }
        Ok(ParamAxis { min, max, axis_points })
    }

    /// The smallest value of the axis.
    pub fn min(&self) -> (min: u32)
        ensures
            min == self@.min,
    {
        self.min
    }

    /// The largest value of the axis.
    pub fn max(&self) -> (max: u32)
        ensures
            max == self@.max,
    {
        self.max
    }

    /// The breakpoints of the axis. They meet what [`ParamAxisView::valid`]
    /// asks, as every axis does.
    pub fn axis_points(&self) -> (points: &[u32])
        ensures
            points@ == self@.axis_points,
            self@.valid(),
    {
        proof {
            use_type_invariant(self);
        }
        self.axis_points.as_slice()
    }

    /// Brings a raw value into the range of the axis: a value below the
    /// minimum becomes the minimum, one above the maximum becomes the maximum.
    pub fn clamp(&self, value: u32) -> (r: u32)
        ensures
            r == self@.clamp(value),
    {
        bits_max(bits_min(value, self.max), self.min)
    }

    /// Finds the bucket of a value that was mapped into `0.0..=1.0`.
    ///
    /// The upper end of the bucket is the first breakpoint above the value,
    /// or the last breakpoint where none is above it. The lower end is the
    /// breakpoint before the upper end, or the upper end itself where that is
    /// the first breakpoint. A breakpoint always follows the lower end.
    pub fn locate(&self, normalized: u32) -> (r: (usize, usize))
        ensures
            self@.is_upper(normalized, r.1 as int),
            r.0 == if r.1 == 0 {
                0
            } else {
                r.1 - 1
            },
            r.1 < self@.axis_points.len(),
            r.0 + 1 < self@.axis_points.len(),
    {
        proof {
            use_type_invariant(self);
            assert(self@.axis_points.len() >= 2) by {
                if self@.axis_points.len() == 1 {
                    assert(self@.axis_points[0] == self@.axis_points.last());
                }
            }
        }
        let n: usize = self.axis_points.len();
        let mut upper: usize = 0;
        while upper < n && !bits_gt(self.axis_points[upper], normalized)
            invariant
                upper <= n,
                n == self.axis_points@.len(),
                forall|k: int| 0 <= k < upper ==> !lt(normalized, #[trigger] self.axis_points@[k]),
            decreases n - upper,
        {
            upper += 1;
        }
        if upper == n {
            upper = n - 1;
        }
        let lower: usize = if upper == 0 {
            0
        } else {
            upper - 1
        };
        (lower, upper)
    }
}

/// A value that is no NaN stays within the range of the axis when it is
/// clamped: one below the minimum becomes the minimum, one above the maximum
/// becomes the maximum, and one in between stays as it is. So every value
/// below the minimum is treated as the minimum is, and every value above the
/// maximum as the maximum is.
pub proof fn lemma_clamp_saturates(axis: ParamAxisView, value: u32)
    requires
        axis.valid(),
        !is_nan(axis.min),
        !is_nan(axis.max),
        !is_nan(value),
    ensures
        lt(value, axis.min) ==> axis.clamp(value) == axis.min,
        lt(axis.max, value) ==> axis.clamp(value) == axis.max,
        !lt(value, axis.min) && !lt(axis.max, value) ==> axis.clamp(value) == value,
        axis.clamp(axis.min) == axis.min,
        axis.clamp(axis.max) == axis.max,
        !lt(axis.clamp(value), axis.min),
        !lt(axis.max, axis.clamp(value)),
{
}

/// Clamping keeps the order of values: of two values that are no NaN, the one
/// that is not larger is not larger after clamping.
pub proof fn lemma_clamp_monotone(axis: ParamAxisView, a: u32, b: u32)
    requires
        axis.valid(),
        !is_nan(axis.min),
        !is_nan(axis.max),
        !is_nan(a),
        !is_nan(b),
        !lt(b, a),
    ensures
        !lt(axis.clamp(b), axis.clamp(a)),
{
}

/// Every value has exactly one upper bucket.
pub proof fn lemma_upper_unique(axis: ParamAxisView, normalized: u32, a: int, b: int)
    requires
        axis.is_upper(normalized, a),
        axis.is_upper(normalized, b),
    ensures
        a == b,
{
}

/// The bucket search keeps the order of values: of two values that are no
/// NaN, the one that is not larger has no later bucket.
pub proof fn lemma_locate_monotone(axis: ParamAxisView, a: u32, b: u32, upper_a: int, upper_b: int)
    requires
        axis.valid(),
        !is_nan(a),
        !is_nan(b),
        !lt(b, a),
        axis.is_upper(a, upper_a),
        axis.is_upper(b, upper_b),
    ensures
        upper_a <= upper_b,
{
    if axis.first_above(b, upper_b) {
        // the breakpoint above `b` is above `a` too
        assert(lt(a, axis.axis_points[upper_b]));
    }
}

/// The ends of a valid axis: there are at least two breakpoints; a value of
/// zero lies in the first bucket where the second breakpoint is above zero;
/// and a value of one or more lies in the last bucket.
pub proof fn lemma_locate_ends(axis: ParamAxisView, normalized: u32, upper: int)
    requires
        axis.valid(),
        axis.is_upper(normalized, upper),
    ensures
        axis.axis_points.len() >= 2,
        eq(normalized, ZERO) && lt(ZERO, axis.axis_points[1]) ==> upper == 1,
        !is_nan(normalized) && !lt(normalized, ONE) ==> upper == axis.axis_points.len() - 1,
        is_nan(normalized) ==> upper == axis.axis_points.len() - 1,
{
    let points = axis.axis_points;
    let last = points.len() - 1;
    assert(points.len() >= 2) by {
        if points.len() == 1 {
            assert(points[0] == points.last());
        }
    }
    if eq(normalized, ZERO) && lt(ZERO, points[1]) {
        assert(!lt(normalized, points[0]));
        assert(lt(normalized, points[1]));
        assert(axis.first_above(normalized, 1));
    }
    if !is_nan(normalized) && !lt(normalized, ONE) {
        assert forall|k: int| 0 <= k < points.len() implies !lt(normalized, #[trigger] points[k]) by {
            assert(total_key(points[k]) <= total_key(points[last]));
        }
    }
}

/// No breakpoint of a valid axis is a NaN, and each lies between zero and
/// one.
pub proof fn lemma_points_in_unit_range(axis: ParamAxisView, k: int)
    requires
        axis.valid(),
        0 <= k < axis.axis_points.len(),
    ensures
        !is_nan(axis.axis_points[k]),
        !lt(axis.axis_points[k], ZERO),
        !lt(ONE, axis.axis_points[k]),
{
    let points = axis.axis_points;
    assert(total_key(points[0]) <= total_key(points[k]));
    assert(total_key(points[k]) <= total_key(points[points.len() - 1]));
}

/// Where a value lies between two neighbouring breakpoints.
#[derive(Debug, Clone, Copy, PartialEq, Eq, Structural)]
pub struct Interp {
    /// The index of the breakpoint at which the bucket starts.
    pub start_index: usize,
    /// How far into the bucket the value lies, from `0.0` at its start to
    /// `1.0` at its end.
    pub dist: u32,
}

impl Interp {
    /// Whether the distance is above zero, so that the end of the bucket
    /// enters the result.
    pub open spec fn blends(&self) -> bool {
        lt(ZERO, self.dist)
    }

    /// The place in the first bucket at distance zero.
    pub fn origin() -> (r: Interp)
        ensures
            r == (Interp { start_index: 0, dist: ZERO }),
    {
        Interp { start_index: 0, dist: ZERO }
    }

    /// Whether the distance is above zero.
    pub fn is_blend(&self) -> (r: bool)
        ensures
            r == self.blends(),
    {
        bits_gt(self.dist, ZERO)
    }

    /// Reads from `values` what the place lies between: the cell at the start
    /// of the bucket and, where the distance is above zero, the cell after it.
    /// At distance zero the second cell is not read.
    pub fn cells(&self, values: &[u32]) -> (r: (u32, Option<u32>))
        requires
            self.start_index < values@.len(),
            self.blends() ==> self.start_index + 1 < values@.len(),
        ensures
            r.0 == values@[self.start_index as int],
            r.1 == if self.blends() {
                Some(values@[self.start_index + 1])
            } else {
                None
            },
    {
        let start: u32 = values[self.start_index];
        if self.is_blend() {
            (start, Some(values[self.start_index + 1]))
        } else {
            (start, None)
        }
    }
}

/// A parameter with one axis: the axis and the current value.
#[derive(Debug)]
pub struct Param1D {
    axis: ParamAxis,
    value: AtomicF32,
}

/// A parameter with two axes: the axes and the current pair of values.
#[derive(Debug)]
pub struct Param2D {
    x: ParamAxis,
    y: ParamAxis,
    value: AtomicF32x2,
}

/// Makes another handle to the value that `rc` points to.
///
/// This is `Arc::clone`: the new pointer leads to the same allocation, so it
/// shows the same value.
#[verifier::external_body]
fn share<T>(rc: &Arc<T>) -> (r: Arc<T>)
    ensures
        r == *rc,
{
    Arc::clone(rc)
}

/// The shared current value of a parameter with one axis.
#[derive(Debug)]
pub struct ParamHandle1D {
    rc: Arc<Param1D>,
}

impl ParamHandle1D {
    /// The axis of the parameter.
    pub closed spec fn spec_axis(&self) -> ParamAxisView {
        self.rc.axis@
    }

    /// A handle to a new parameter that starts at `value`.
    pub fn new(axis: ParamAxis, value: u32) -> (r: ParamHandle1D)
        ensures
            r.spec_axis() == axis@,
    {
        ParamHandle1D { rc: Arc::new(Param1D { axis, value: AtomicF32::new(value) }) }
    }

    /// Another handle to the same parameter.
    pub fn duplicate(&self) -> (r: ParamHandle1D)
        ensures
            r.spec_axis() == self.spec_axis(),
    {
        ParamHandle1D { rc: share(&self.rc) }
    }

    /// The axis of the parameter.
    pub fn axis(&self) -> (axis: &ParamAxis)
        ensures
            axis@ == self.spec_axis(),
    {
        &self.rc.axis
    }

    /// Writes the value of the parameter. Any thread may do so at any time.
    pub fn set(&self, value: u32) {
        self.rc.value.store(value, Ordering::Relaxed);
    }

    /// Reads the value of the parameter as it is now.
    pub fn get(&self) -> u32 {
        self.rc.value.load(Ordering::Relaxed)
    }
}

/// The shared current value of a parameter with two axes.
#[derive(Debug)]
pub struct ParamHandle2D {
    rc: Arc<Param2D>,
}

impl ParamHandle2D {
    /// The X axis of the parameter.
    pub closed spec fn spec_x(&self) -> ParamAxisView {
        self.rc.x@
    }

    /// The Y axis of the parameter.
    pub closed spec fn spec_y(&self) -> ParamAxisView {
        self.rc.y@
    }

    /// A handle to a new parameter that starts at `(x0, y0)`.
    pub fn new(x: ParamAxis, y: ParamAxis, x0: u32, y0: u32) -> (r: ParamHandle2D)
        ensures
            r.spec_x() == x@,
            r.spec_y() == y@,
    {
        ParamHandle2D { rc: Arc::new(Param2D { x, y, value: AtomicF32x2::new(x0, y0) }) }
    }

    /// Another handle to the same parameter.
    pub fn duplicate(&self) -> (r: ParamHandle2D)
        ensures
            r.spec_x() == self.spec_x(),
            r.spec_y() == self.spec_y(),
    {
        ParamHandle2D { rc: share(&self.rc) }
    }

    /// The X axis of the parameter.
    pub fn x_axis(&self) -> (axis: &ParamAxis)
        ensures
            axis@ == self.spec_x(),
    {
        &self.rc.x
    }

    /// The Y axis of the parameter.
    pub fn y_axis(&self) -> (axis: &ParamAxis)
        ensures
            axis@ == self.spec_y(),
    {
        &self.rc.y
    }

    /// Writes both values of the parameter as one unit. Any thread may do so
    /// at any time.
    pub fn set(&self, x: u32, y: u32) {
        self.rc.value.store(x, y, Ordering::Relaxed);
    }

    /// Reads both values of the parameter as they are now: a pair that one
    /// writer stored together.
    pub fn get(&self) -> [u32; 2] {
        self.rc.value.load(Ordering::Relaxed)
    }
}

/// A handle to a parameter of either kind.
#[derive(Debug)]
pub enum ParamHandle {
    Param1D(ParamHandle1D),
    Param2D(ParamHandle2D),
}

impl View for ParamHandle {
    /// The axes of the parameter: one or two.
    type V = Seq<ParamAxisView>;

    open spec fn view(&self) -> Seq<ParamAxisView> {
        match self {
            ParamHandle::Param1D(p) => seq![p.spec_axis()],
            ParamHandle::Param2D(p) => seq![p.spec_x(), p.spec_y()],
        }
    }
}

impl ParamHandle {
    /// Another handle to the same parameter.
    pub fn duplicate(&self) -> (r: ParamHandle)
        ensures
            r@ == self@,
    {
        match self {
            ParamHandle::Param1D(p) => ParamHandle::Param1D(p.duplicate()),
            ParamHandle::Param2D(p) => ParamHandle::Param2D(p.duplicate()),
        }
    }
}

/// What a [`ParamBinding`] is.
pub struct BindingView {
    /// The axes of the parameter.
    pub axes: Seq<ParamAxisView>,
    /// The property that the binding acts on.
    pub target: ParamTarget,
    /// The grid of values: rows along the Y axis, columns along the X axis.
    pub values: Seq<Seq<u32>>,
}

/// Describes to a node how a parameter affects one of its properties.
#[derive(Debug)]
pub struct ParamBinding {
    param: ParamHandle,
    target: ParamTarget,
    values: Vec<Vec<u32>>,
}

impl View for ParamBinding {
    type V = BindingView;

    closed spec fn view(&self) -> BindingView {
        BindingView { axes: self.param@, target: self.target, values: self.values.deep_view() }
    }
}

impl DeepView for ParamBinding {
    type V = BindingView;

    open spec fn deep_view(&self) -> BindingView {
        self@
    }
}

impl ParamBinding {
    /// Binds `target` to the parameter behind `param` through the grid
    /// `values`.
    pub fn new(param: ParamHandle, target: ParamTarget, values: Vec<Vec<u32>>) -> (r: ParamBinding)
        ensures
            r@ == (BindingView { axes: param@, target, values: values.deep_view() }),
    {
        ParamBinding { param, target, values }
    }

    /// The property that the binding acts on.
    pub fn target(&self) -> (target: ParamTarget)
        ensures
            target == self@.target,
    {
        self.target
    }

    /// The parameter that drives the binding.
    pub fn param(&self) -> (param: &ParamHandle)
        ensures
            param@ == self@.axes,
    {
        &self.param
    }

    /// The grid of the binding.
    pub fn values(&self) -> (values: &[Vec<u32>])
        ensures
            values.deep_view() == self@.values,
    {
        self.values.as_slice()
    }

    /// Where a binding to a parameter with one axis stands on the second
    /// axis: in the first bucket at distance zero, so that the first row of
    /// the grid alone is read. A binding to a parameter with two axes has no
    /// such fixed place.
    pub fn fixed_second_place(&self) -> (r: Option<Interp>)
        ensures
            r == if self@.axes.len() == 1 {
                Some(Interp { start_index: 0, dist: ZERO })
            } else {
                None
            },
    {
        match &self.param {
            ParamHandle::Param1D(_) => Some(Interp::origin()),
            ParamHandle::Param2D(_) => None,
        }
    }

    /// The rows that a place on the Y axis lies between: the row at the start
    /// of its bucket and, where its distance is above zero, the row after it,
    /// which is the last row where the bucket starts there.
    pub fn rows(&self, y: &Interp) -> (r: (&[u32], Option<&[u32]>))
        requires
            y.start_index < self@.values.len(),
        ensures
            r.0@ == self@.values[y.start_index as int],
            match r.1 {
                Some(row) => y.blends() && row@ == self@.values[if y.start_index + 1
                    < self@.values.len() {
                    y.start_index + 1
                } else {
                    self@.values.len() - 1
                }],
                None => !y.blends(),
            },
    {
        let n: usize = self.values.len();
        let start = self.values[y.start_index].as_slice();
        assert(self.values@[y.start_index as int]@ == self.values.deep_view()[y.start_index as int]);
        if y.is_blend() {
            let next: usize = if y.start_index + 1 < n {
                y.start_index + 1
            } else {
                n - 1
            };
            assert(self.values@[next as int]@ == self.values.deep_view()[next as int]);
            (start, Some(self.values[next].as_slice()))
        } else {
            (start, None)
        }
    }
}

/// Whether every cell of the grid is a scalar.
pub open spec fn all_scalar(values: Seq<Seq<ParamValueView>>) -> bool {
    forall|row: int, col: int|
        0 <= row < values.len() && 0 <= col < values[row].len() ==> (#[trigger] values[row][col])
            is Scalar
}

/// The grid of scalars that a grid of values holds.
pub open spec fn scalars(values: Seq<Seq<ParamValueView>>) -> Seq<Seq<u32>> {
    Seq::new(
        values.len(),
        |row: int| Seq::new(values[row].len(), |col: int| values[row][col]->Scalar_0),
    )
}

/// The axes that a description gives to a parameter: two where it is a
/// vector, else one.
pub open spec fn axes_described(param: ParamView) -> Seq<ParamAxisView> {
    if param.is_vec2 {
        seq![axis_described(param, 0), axis_described(param, 1)]
    } else {
        seq![axis_described(param, 0)]
    }
}

/// Why a described binding cannot be built, if it cannot: its interpolation
/// is not linear, its property has no known name or its grid holds a
/// deformation. Each of these is `Unsupported`. The size of the grid is no
/// fault.
pub open spec fn binding_fault(binding: crate::io::param::ParamBindingView) -> Option<ErrorKind> {
    if binding.interpolate_mode != InterpolateMode::Linear {
        Some(ErrorKind::Unsupported)
    } else if target_named(binding.param_name) is None {
        Some(ErrorKind::Unsupported)
    } else if !all_scalar(binding.values) {
        Some(ErrorKind::Unsupported)
    } else {
        None
    }
}

/// The fault of the first binding that has one.
pub open spec fn bindings_fault(bindings: Seq<crate::io::param::ParamBindingView>) -> Option<
    ErrorKind,
>
    decreases bindings.len(),
{
    if bindings.len() == 0 {
        None
    } else {
        match binding_fault(bindings[0]) {
            Some(kind) => Some(kind),
            None => bindings_fault(bindings.skip(1)),
        }
    }
}

/// Why a described parameter cannot be built, if it cannot: one of its axes
/// is not valid (`Invalid`), or one of its bindings has a fault.
pub open spec fn param_fault(param: ParamView) -> Option<ErrorKind> {
    if !axis_described(param, 0).valid() {
        Some(ErrorKind::Invalid)
    } else if param.is_vec2 && !axis_described(param, 1).valid() {
        Some(ErrorKind::Invalid)
    } else {
        bindings_fault(param.bindings)
    }
}

/// The fault of the first parameter that has one.
pub open spec fn first_fault(params: Seq<ParamView>) -> Option<ErrorKind>
    decreases params.len(),
{
    if params.len() == 0 {
        None
    } else {
        match param_fault(params[0]) {
            Some(kind) => Some(kind),
            None => first_fault(params.skip(1)),
        }
    }
}

/// The binding that the engine builds from a described one.
pub open spec fn lowered(
    axes: Seq<ParamAxisView>,
    binding: crate::io::param::ParamBindingView,
) -> BindingView {
    BindingView {
        axes,
        target: target_named(binding.param_name).unwrap(),
        values: scalars(binding.values),
    }
}

/// Those of the bindings that act on `node`, as the engine builds them, in
/// the order in which they are described.
pub open spec fn affecting_among(
    axes: Seq<ParamAxisView>,
    bindings: Seq<crate::io::param::ParamBindingView>,
    node: u64,
) -> Seq<BindingView>
    decreases bindings.len(),
{
    if bindings.len() == 0 {
        Seq::empty()
    } else {
        let before = affecting_among(axes, bindings.drop_last(), node);
        if bindings.last().node == node {
            before.push(lowered(axes, bindings.last()))
        } else {
            before
        }
    }
}

/// The bindings of all the parameters that act on `node`, as the engine
/// builds them: parameter by parameter, each in the order of its bindings.
pub open spec fn affecting(params: Seq<ParamView>, node: u64) -> Seq<BindingView>
    decreases params.len(),
{
    if params.len() == 0 {
        Seq::empty()
    } else {
        affecting(params.drop_last(), node) + affecting_among(
            axes_described(params.last()),
            params.last().bindings,
            node,
        )
    }
}

/// Takes the scalars out of a described grid; `None` where a cell is a
/// deformation.
fn scalar_grid(values: &[Vec<ParamValue>]) -> (r: Option<Vec<Vec<u32>>>)
    ensures
        match r {
            Some(grid) => all_scalar(values.deep_view()) && grid.deep_view() == scalars(
                values.deep_view(),
            ),
            None => !all_scalar(values.deep_view()),
        },
{
    let ghost described = values.deep_view();
    let mut grid: Vec<Vec<u32>> = Vec::with_capacity(values.len());
    let mut row: usize = 0;
    while row < values.len()
        invariant
            row <= values@.len(),
            described == values.deep_view(),
            grid@.len() == row,
            forall|r: int, c: int|
                0 <= r < row && 0 <= c < described[r].len() ==> (#[trigger] described[r][c])
                    is Scalar,
            forall|r: int| 0 <= r < row ==> (#[trigger] grid@[r])@ == scalars(described)[r],
        decreases values@.len() - row,
    {
        let source = &values[row];
        assert(source.deep_view() == described[row as int]);
        let mut cells: Vec<u32> = Vec::with_capacity(source.len());
        let mut col: usize = 0;
        while col < source.len()
            invariant
                col <= source@.len(),
                row < values@.len(),
                described == values.deep_view(),
                source.deep_view() == described[row as int],
                cells@.len() == col,
                forall|c: int| 0 <= c < col ==> (#[trigger] described[row as int][c]) is Scalar,
                forall|c: int|
                    0 <= c < col ==> #[trigger] cells@[c] == described[row as int][c]->Scalar_0,
            decreases source@.len() - col,
        {
            assert(source@[col as int]@ == source.deep_view()[col as int]);
            match &source[col] {
                ParamValue::Scalar(bits) => {
                    cells.push(*bits);
                },
                ParamValue::Deformation(_) => {
                    assert(!(described[row as int][col as int] is Scalar));
                    return None;
                },
            }
            col += 1;
        }
        assert(cells@ =~= scalars(described)[row as int]);
        grid.push(cells);
        row += 1;
    }
    assert forall|r: int| 0 <= r < grid@.len() implies #[trigger] grid.deep_view()[r] == scalars(
        described,
    )[r] by {
        assert(grid@[r].deep_view() =~= grid@[r]@);
    }
    assert(grid.deep_view() =~= scalars(described));
    Some(grid)
}

/// The bindings of a puppet, grouped by the node that they act on.
pub struct ParamMap {
    map: HashMap<u64, Vec<ParamBinding>>,
}

impl ParamMap {
    /// The bindings that the table holds for `node`, in their order; none
    /// where it holds none.
    pub closed spec fn bindings(&self, node: u64) -> Seq<BindingView> {
        if self.map@.contains_key(node) {
            self.map@[node].deep_view()
        } else {
            Seq::empty()
        }
    }

    /// The table as a map from every node ID to the bindings held for it.
    pub open spec fn table(&self) -> Map<u64, Seq<BindingView>> {
        Map::new(|id: u64| true, |id: u64| self.bindings(id))
    }

    /// Builds the table of a described puppet.
    ///
    /// Each parameter gets one handle, which starts at the described
    /// defaults and is shared by all its bindings. The first parameter or
    /// binding that cannot be built ends the construction with its fault, see
    /// [`param_fault`] and [`binding_fault`].
    pub fn lower(io: &[Param]) -> (r: Result<ParamMap, Error>)
        ensures
            match r {
                Ok(table) => first_fault(io.deep_view()) is None && forall|node: u64|
                    #[trigger] table.bindings(node) == affecting(io.deep_view(), node),
                Err(e) => first_fault(io.deep_view()) == Some(e.spec_kind()),
            },
    {
        broadcast use vstd::std_specs::hash::group_hash_axioms;

        let ghost params = io.deep_view();
        let mut table = ParamMap { map: HashMap::new() };
        let mut i: usize = 0;
        assert(params.skip(0) =~= params);
        assert(params.take(0) =~= Seq::empty());
        while i < io.len()
            invariant
                i <= io@.len(),
                params == io.deep_view(),
                first_fault(params) == first_fault(params.skip(i as int)),
                forall|node: u64|
                    #[trigger] table.bindings(node) == affecting(params.take(i as int), node),
            decreases io@.len() - i,
        {
            let param = &io[i];
            assert(param@ == params[i as int]);
            assert(params.skip(i as int)[0] == params[i as int]);
            assert(params.skip(i as int).skip(1) =~= params.skip(i + 1));
            let ghost rest = first_fault(params.skip(i + 1));
            assert(first_fault(params) == match param_fault(params[i as int]) {
                Some(kind) => Some(kind),
                None => rest,
            });
            let handle = match Self::handle_of(param) {
                Ok(handle) => handle,
                Err(e) => {
                    return Err(e);
                },
            };
            let bindings = param.bindings();
            let ghost described = bindings.deep_view();
            let ghost axes = axes_described(param@);
            let mut j: usize = 0;
            assert(described.take(0) =~= Seq::empty());
            assert(described.skip(0) =~= described);
            assert(param_fault(params[i as int]) == bindings_fault(described));
            assert(forall|node: u64|
                affecting(params.take(i as int), node) + Seq::<BindingView>::empty() =~= affecting(
                    params.take(i as int),
                    node,
                ));
            while j < bindings.len()
                invariant
                    j <= bindings@.len(),
                    i < io@.len(),
                    params == io.deep_view(),
                    described == bindings.deep_view(),
                    described == params[i as int].bindings,
                    axes == axes_described(params[i as int]),
                    handle@ == axes,
                    rest == first_fault(params.skip(i + 1)),
                    first_fault(params) == match bindings_fault(described) {
                        Some(kind) => Some(kind),
                        None => rest,
                    },
                    bindings_fault(described) == bindings_fault(described.skip(j as int)),
                    forall|node: u64|
                        #[trigger] table.bindings(node) == affecting(params.take(i as int), node)
                            + affecting_among(axes, described.take(j as int), node),
                decreases bindings@.len() - j,
            {
                let binding = &bindings[j];
                assert(binding@ == described[j as int]);
                assert(described.skip(j as int)[0] == described[j as int]);
                assert(described.skip(j as int).skip(1) =~= described.skip(j + 1));
                assert(described.take(j + 1).drop_last() =~= described.take(j as int));
                assert(described.take(j + 1).last() == described[j as int]);
                let lowered = match Self::bind(&handle, binding) {
                    Ok(lowered) => lowered,
                    Err(e) => {
                        return Err(e);
                    },
                };
                let node: u64 = binding.node().raw();
                let ghost before = table;
                let mut list: Vec<ParamBinding> = match table.map.remove(&node) {
                    Some(list) => list,
                    None => Vec::new(),
                };
                assert(list.deep_view() =~= before.bindings(node));
                let ghost held = list.deep_view();
                list.push(lowered);
                assert(list.deep_view() =~= held.push(lowered@));
                table.map.insert(node, list);
                assert forall|other: u64| #[trigger]
                    table.bindings(other) == affecting(params.take(i as int), other)
                        + affecting_among(axes, described.take(j + 1), other) by {
                    if other == node {
                        assert(table.bindings(other) == before.bindings(other).push(lowered@));
                        assert(affecting_among(axes, described.take(j + 1), other)
                            == affecting_among(axes, described.take(j as int), other).push(
                            lowered@,
                        ));
                        assert(before.bindings(other).push(lowered@) =~= affecting(
                            params.take(i as int),
                            other,
                        ) + affecting_among(axes, described.take(j as int), other).push(lowered@));
                    } else {
                        assert(table.bindings(other) == before.bindings(other));
                    }
                }
                j += 1;
            }
            assert(described.take(j as int) =~= described);
            assert(params.take(i + 1).drop_last() =~= params.take(i as int));
            assert(params.take(i + 1).last() == params[i as int]);
            i += 1;
        }
        assert(params.take(i as int) =~= params);
        Ok(table)
    }

    /// Builds the handle of a described parameter from its axes and defaults.
    fn handle_of(param: &Param) -> (r: Result<ParamHandle, Error>)
        ensures
            match r {
                Ok(handle) => handle@ == axes_described(param@) && axis_described(param@, 0).valid()
                    && (param@.is_vec2 ==> axis_described(param@, 1).valid()),
                Err(e) => e.spec_kind() == ErrorKind::Invalid && param_fault(param@) == Some(
                    ErrorKind::Invalid,
                ),
            },
    {
        let defaults = param.defaults();
        let x = match ParamAxis::lower(param, 0) {
            Ok(axis) => axis,
            Err(e) => {
                return Err(e);
            },
        };
        if param.is_vec2() {
            let y = match ParamAxis::lower(param, 1) {
                Ok(axis) => axis,
                Err(e) => {
                    return Err(e);
                },
            };
            let handle = ParamHandle::Param2D(ParamHandle2D::new(x, y, defaults[0], defaults[1]));
            assert(handle@ =~= axes_described(param@));
            Ok(handle)
        } else {
            let handle = ParamHandle::Param1D(ParamHandle1D::new(x, defaults[0]));
            assert(handle@ =~= axes_described(param@));
            Ok(handle)
        }
    }

    /// Builds one binding of the parameter behind `handle`.
    fn bind(handle: &ParamHandle, binding: &crate::io::param::ParamBinding) -> (r: Result<
        ParamBinding,
        Error,
    >)
        ensures
            match r {
                Ok(bound) => binding_fault(binding@) is None && bound@ == lowered(
                    handle@,
                    binding@,
                ),
                Err(e) => binding_fault(binding@) == Some(e.spec_kind()),
            },
    {
        match binding.interpolate_mode() {
            InterpolateMode::Linear => {},
            InterpolateMode::Nearest => {
                return Err(Error::unsupported("parameter binding interpolation mode 'Nearest'"));
            },
        }
        let target = match ParamTarget::from_str(binding.param_name()) {
            Ok(target) => target,
            Err(e) => {
                return Err(e);
            },
        };
        let grid = match scalar_grid(binding.values()) {
            Some(grid) => grid,
            None => {
                return Err(Error::unsupported("mesh deformation"));
            },
        };
        Ok(ParamBinding::new(handle.duplicate(), target, grid))
    }

    /// Removes the bindings that act on `node` from the table and returns
    /// them. The bindings of every other node stay in the table.
    pub fn take_params_affecting_node(&mut self, node: Uuid) -> (r: Vec<ParamBinding>)
        ensures
            r.deep_view() == old(self).bindings(node@),
            final(self).bindings(node@) == Seq::<BindingView>::empty(),
            forall|other: u64|
                other != node@ ==> #[trigger] final(self).bindings(other) == old(self).bindings(
                    other,
                ),
    {
        broadcast use vstd::std_specs::hash::group_hash_axioms;

        match self.map.remove(&node.raw()) {
            Some(list) => list,
            None => {
                let list: Vec<ParamBinding> = Vec::new();
                assert(list.deep_view() =~= Seq::empty());
                list
            },
        }
    }
}

} // verus!
