//! Parameters and the bindings through which they act on nodes.

use crate::io::Uuid;
use crate::io::Vec2;
use vstd::prelude::*;

verus! {

/// What a [`Param`] is.
pub struct ParamView {
    pub uuid: u64,
    pub name: Seq<char>,
    /// Whether the parameter has two axes.
    pub is_vec2: bool,
    /// The smallest value of each axis.
    pub min: Seq<u32>,
    /// The largest value of each axis.
    pub max: Seq<u32>,
    /// The value that each axis starts with.
    pub defaults: Seq<u32>,
    /// The breakpoints of each axis.
    pub axis_points: Seq<Seq<u32>>,
    pub bindings: Seq<ParamBindingView>,
}

/// A named control value with one or two axes.
#[derive(Debug)]
pub struct Param {
    uuid: Uuid,
    name: String,
    is_vec2: bool,
    min: Vec2,
    max: Vec2,
    defaults: Vec2,
    axis_points: Vec<Vec<u32>>,
    bindings: Vec<ParamBinding>,
}

impl View for Param {
    type V = ParamView;

    closed spec fn view(&self) -> ParamView {
        ParamView {
            uuid: self.uuid@,
            name: self.name@,
            is_vec2: self.is_vec2,
            min: self.min@,
            max: self.max@,
            defaults: self.defaults@,
            axis_points: self.axis_points.deep_view(),
            bindings: self.bindings.deep_view(),
        }
    }
}

impl DeepView for Param {
    type V = ParamView;

    open spec fn deep_view(&self) -> ParamView {
        self@
    }
}

impl Param {
    /// A parameter without bindings.
    pub fn new(
        uuid: Uuid,
        name: String,
        is_vec2: bool,
        min: Vec2,
        max: Vec2,
        defaults: Vec2,
        axis_points: Vec<Vec<u32>>,
    ) -> (p: Param)
        ensures
            p@ == (ParamView {
                uuid: uuid@,
                name: name@,
                is_vec2,
                min: min@,
                max: max@,
                defaults: defaults@,
                axis_points: axis_points.deep_view(),
                bindings: Seq::empty(),
            }),
    {
        let p = Param {
            uuid,
            name,
            is_vec2,
            min,
            max,
            defaults,
            axis_points,
            bindings: Vec::new(),
        };
        assert(p.bindings.deep_view() =~= Seq::empty());
        p
    }

    pub fn uuid(&self) -> (id: Uuid)
        ensures
            id@ == self@.uuid,
    {
        self.uuid
    }

    pub fn set_uuid(&mut self, uuid: Uuid)
        ensures
            final(self)@ == (ParamView { uuid: uuid@, ..old(self)@ }),
    {
        self.uuid = uuid;
    }

    pub fn name(&self) -> (name: &str)
        ensures
            name@ == self@.name,
    {
        self.name.as_str()
    }

    pub fn set_name(&mut self, name: String)
        ensures
            final(self)@ == (ParamView { name: name@, ..old(self)@ }),
    {
        self.name = name;
    }

    pub fn is_vec2(&self) -> (r: bool)
        ensures
            r == self@.is_vec2,
    {
        self.is_vec2
    }

    pub fn set_vec2(&mut self, is_vec2: bool)
        ensures
            final(self)@ == (ParamView { is_vec2, ..old(self)@ }),
    {
        self.is_vec2 = is_vec2;
    }

    /// Returns the minimum value of the parameter.
    ///
    /// For 1-dimensional parameters, the second value should be ignored.
    pub fn min(&self) -> (min: Vec2)
        ensures
            min@ == self@.min,
    {
        self.min
    }

    pub fn set_min(&mut self, min: Vec2)
        ensures
            final(self)@ == (ParamView { min: min@, ..old(self)@ }),
    {
        self.min = min;
    }

    pub fn max(&self) -> (max: Vec2)
        ensures
            max@ == self@.max,
    {
        self.max
    }

    pub fn set_max(&mut self, max: Vec2)
        ensures
            final(self)@ == (ParamView { max: max@, ..old(self)@ }),
    {
        self.max = max;
    }

    pub fn defaults(&self) -> (defaults: Vec2)
        ensures
            defaults@ == self@.defaults,
    {
        self.defaults
    }

    pub fn set_defaults(&mut self, defaults: Vec2)
        ensures
            final(self)@ == (ParamView { defaults: defaults@, ..old(self)@ }),
    {
        self.defaults = defaults;
    }

    /// Returns the axis points for each parameter axis.
    ///
    /// Axis points are always in range `0.0` to `1.0`. The first axis point
    /// must always be `0.0`, the last must always be `1.0`, and all axis points
    /// must be in ascending order.
    ///
    /// For 1-dimensional parameters, the second list will still be present, but
    /// only contain `[0.0]`.
    pub fn axis_points(&self) -> (points: &[Vec<u32>])
        ensures
            points.deep_view() == self@.axis_points,
    {
        self.axis_points.as_slice()
    }

    pub fn set_axis_points(&mut self, axis_points: Vec<Vec<u32>>)
        ensures
            final(self)@ == (ParamView { axis_points: axis_points.deep_view(), ..old(self)@ }),
    {
        self.axis_points = axis_points;
    }

    pub fn bindings(&self) -> (bindings: &[ParamBinding])
        ensures
            bindings.deep_view() == self@.bindings,
    {
        self.bindings.as_slice()
    }

    pub fn set_bindings(&mut self, bindings: Vec<ParamBinding>)
        ensures
            final(self)@ == (ParamView { bindings: bindings.deep_view(), ..old(self)@ }),
    {
        self.bindings = bindings;
    }

    pub fn push_binding(&mut self, binding: ParamBinding)
        ensures
            final(self)@ == (ParamView {
                bindings: old(self)@.bindings.push(binding@),
                ..old(self)@
            }),
    {
        self.bindings.push(binding);
        assert(self.bindings.deep_view() =~= old(self).bindings.deep_view().push(binding@));
    }

    pub fn clear_bindings(&mut self)
        ensures
            final(self)@ == (ParamView { bindings: Seq::empty(), ..old(self)@ }),
    {
        self.bindings.clear();
        assert(self.bindings.deep_view() =~= Seq::empty());
    }
}

/// Describes how to interpolate between parameter values in a [`ParamBinding`].
#[derive(Debug, Clone, Copy, PartialEq, Eq, Structural)]
#[non_exhaustive]
pub enum InterpolateMode {
    /// Choose the nearest parameter value.
    Nearest,
    /// Linearly interpolate between the nearest parameter values.
    Linear,
}

/// A value on the grid of a [`Param`].
#[derive(Debug)]
pub enum ParamValue {
    /// One single-precision value, by its bit pattern.
    Scalar(u32),
    /// One offset per vertex of a mesh.
    Deformation(Vec<Vec2>),
}

/// What a [`ParamValue`] is.
pub enum ParamValueView {
    Scalar(u32),
    Deformation(Seq<Vec2>),
}

impl View for ParamValue {
    type V = ParamValueView;

    open spec fn view(&self) -> ParamValueView {
        match self {
            ParamValue::Scalar(s) => ParamValueView::Scalar(*s),
            ParamValue::Deformation(d) => ParamValueView::Deformation(d@),
        }
    }
}

/// What a [`ParamBinding`] is.
pub struct ParamBindingView {
    /// The ID of the node whose property is affected.
    pub node: u64,
    /// The name of the affected node property.
    pub param_name: Seq<char>,
    /// The grid of values: rows along the Y axis, columns along the X axis.
    pub values: Seq<Seq<ParamValueView>>,
    /// Which cells of the grid were set by the rigger.
    pub is_set: Seq<Seq<bool>>,
    /// How to interpolate between cells.
    pub interpolate_mode: InterpolateMode,
}

/// Describes a model property affected by a [`Param`]s value.
///
/// A binding either affects a single scalar (a single axis of some property),
/// or it is of `deform` type and affects all vertices of a mesh.
///
/// Every node has the following properties that can be bound:
/// - `zSort`: the node's Z-Sort value
/// - `transform.t.x`, `transform.t.y`, `transform.t.z`: translation
/// - `transform.r.x`, `transform.r.y`, `transform.r.z`: rotation
/// - `transform.s.x`, `transform.s.y`: scale
/// - `deform`: mesh deformation
#[derive(Debug)]
pub struct ParamBinding {
    node: Uuid,
    param_name: String,
    values: Vec<Vec<ParamValue>>,
    is_set: Vec<Vec<bool>>,
    interpolate_mode: InterpolateMode,
}

impl View for ParamBinding {
    type V = ParamBindingView;

    closed spec fn view(&self) -> ParamBindingView {
        ParamBindingView {
            node: self.node@,
            param_name: self.param_name@,
            values: self.values.deep_view(),
            is_set: self.is_set.deep_view(),
            interpolate_mode: self.interpolate_mode,
        }
    }
}

impl DeepView for ParamBinding {
    type V = ParamBindingView;

    open spec fn deep_view(&self) -> ParamBindingView {
        self@
    }
}

impl DeepView for ParamValue {
    type V = ParamValueView;

    open spec fn deep_view(&self) -> ParamValueView {
        self@
    }
}

impl ParamBinding {
    /// A binding of the property `param_name` of `node` to the grid `values`.
    pub fn new(
        node: Uuid,
        param_name: String,
        values: Vec<Vec<ParamValue>>,
        is_set: Vec<Vec<bool>>,
        interpolate_mode: InterpolateMode,
    ) -> (b: ParamBinding)
        ensures
            b@ == (ParamBindingView {
                node: node@,
                param_name: param_name@,
                values: values.deep_view(),
                is_set: is_set.deep_view(),
                interpolate_mode,
            }),
    {
        ParamBinding { node, param_name, values, is_set, interpolate_mode }
    }

    /// The ID of the node whose property is affected.
    pub fn node(&self) -> (id: Uuid)
        ensures
            id@ == self@.node,
    {
        self.node
    }

    pub fn set_node(&mut self, node: Uuid)
        ensures
            final(self)@ == (ParamBindingView { node: node@, ..old(self)@ }),
    {
        self.node = node;
    }

    /// The name of the affected node property.
    pub fn param_name(&self) -> (name: &str)
        ensures
            name@ == self@.param_name,
    {
        self.param_name.as_str()
    }

    pub fn set_param_name(&mut self, param_name: String)
        ensures
            final(self)@ == (ParamBindingView { param_name: param_name@, ..old(self)@ }),
    {
        self.param_name = param_name;
    }

    pub fn interpolate_mode(&self) -> (mode: InterpolateMode)
        ensures
            mode == self@.interpolate_mode,
    {
        self.interpolate_mode
    }

    pub fn set_interpolate_mode(&mut self, mode: InterpolateMode)
        ensures
            final(self)@ == (ParamBindingView { interpolate_mode: mode, ..old(self)@ }),
    {
        self.interpolate_mode = mode;
    }

    /// Returns the values of the bound node property for each axis point.
    ///
    /// This is a 2D array. The first axis is the index of the axis point in Y
    /// direction, the second is the index of the axis point in X direction.
    pub fn values(&self) -> (values: &[Vec<ParamValue>])
        ensures
            values.deep_view() == self@.values,
    {
        self.values.as_slice()
    }

    pub fn set_values(&mut self, values: Vec<Vec<ParamValue>>)
        ensures
            final(self)@ == (ParamBindingView { values: values.deep_view(), ..old(self)@ }),
    {
        self.values = values;
    }

    pub fn is_set(&self) -> (is_set: &[Vec<bool>])
        ensures
            is_set.deep_view() == self@.is_set,
    {
        self.is_set.as_slice()
    }
}

} // verus!
