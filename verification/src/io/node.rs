//! Model node definitions.
//!
//! A puppet has a root node, and each node can have an arbitrary number of
//! child nodes, forming a tree. A node's position, rotation, and scale is
//! relative to its parent.
//!
//! A node's position in the tree does not affect its visibility, masking, or
//! draw order relative to other nodes.

use crate::float::ONE;
use crate::float::ZERO;
use crate::io::Uuid;
use crate::io::Vec2;
use crate::io::Vec3;
use vstd::prelude::*;

verus! {

/// What a [`Transform`] is.
pub struct TransformView {
    pub trans: Seq<u32>,
    pub rot: Seq<u32>,
    pub scale: Seq<u32>,
}

/// The transform that changes nothing: no translation, no rotation, scale one.
pub open spec fn identity_transform() -> TransformView {
    TransformView { trans: seq![ZERO, ZERO, ZERO], rot: seq![ZERO, ZERO, ZERO], scale: seq![ONE, ONE] }
}

/// An affine transformation.
///
/// Scale is applied first, then rotation, then translation.
///
/// Y points down, X to the right, Z points into the scene.
#[derive(Debug, Clone, Copy)]
pub struct Transform {
    trans: Vec3,
    rot: Vec3,
    scale: Vec2,
}

impl View for Transform {
    type V = TransformView;

    closed spec fn view(&self) -> TransformView {
        TransformView { trans: self.trans@, rot: self.rot@, scale: self.scale@ }
    }
}

impl Transform {
    /// Creates an identity transform.
    pub fn new() -> (t: Transform)
        ensures
            t@ == identity_transform(),
    {
        let t = Transform { trans: [ZERO, ZERO, ZERO], rot: [ZERO, ZERO, ZERO], scale: [ONE, ONE] };
        assert(t.trans@ =~= seq![ZERO, ZERO, ZERO]);
        assert(t.rot@ =~= seq![ZERO, ZERO, ZERO]);
        assert(t.scale@ =~= seq![ONE, ONE]);
        t
    }

    pub fn translation(&self) -> (trans: Vec3)
        ensures
            trans@ == self@.trans,
    {
        self.trans
    }

    /// Sets the transform's translation.
    ///
    /// Note that translation allows for 3 dimensions, but translation in Z
    /// direction does *not* affect the Z-Sort order.
    pub fn set_translation(&mut self, translation: Vec3)
        ensures
            final(self)@ == (TransformView { trans: translation@, ..old(self)@ }),
    {
        self.trans = translation;
    }

    pub fn translation_mut(&mut self) -> (trans: &mut Vec3)
        ensures
            trans@ == old(self)@.trans,
            final(self)@ == (TransformView { trans: final(trans)@, ..old(self)@ }),
    {
        &mut self.trans
    }

    pub fn rotation(&self) -> (rot: Vec3)
        ensures
            rot@ == self@.rot,
    {
        self.rot
    }

    pub fn rotation_mut(&mut self) -> (rot: &mut Vec3)
        ensures
            rot@ == old(self)@.rot,
            final(self)@ == (TransformView { rot: final(rot)@, ..old(self)@ }),
    {
        &mut self.rot
    }

    pub fn set_rotation(&mut self, rotation: Vec3)
        ensures
            final(self)@ == (TransformView { rot: rotation@, ..old(self)@ }),
    {
        self.rot = rotation;
    }

    pub fn scale(&self) -> (scale: Vec2)
        ensures
            scale@ == self@.scale,
    {
        self.scale
    }

    pub fn scale_mut(&mut self) -> (scale: &mut Vec2)
        ensures
            scale@ == old(self)@.scale,
            final(self)@ == (TransformView { scale: final(scale)@, ..old(self)@ }),
    {
        &mut self.scale
    }

    pub fn set_scale(&mut self, scale: Vec2)
        ensures
            final(self)@ == (TransformView { scale: scale@, ..old(self)@ }),
    {
        self.scale = scale;
    }
}

/// Describes how to blend a node onto the pixels below it.
#[derive(Debug, Clone, Copy, PartialEq, Eq, Structural)]
#[non_exhaustive]
pub enum BlendMode {
    /// Perform standard alpha blending.
    Normal,
    Multiply,
    ColorDodge,
    LinearDodge,
    Screen,
    ClipToLower,
    SliceFromLower,
}

/// Specifies how mask sources affect the [`Part`] they are applied to.
#[derive(Debug, Clone, Copy, PartialEq, Eq, Structural)]
#[non_exhaustive]
pub enum MaskMode {
    /// The part's pixels are restricted to areas where the mask layer is also
    /// present.
    Mask,
    /// The part's pixels are restricted to areas where the mask layer is *not*
    /// present.
    Dodge,
}

#[derive(Debug, PartialEq, Eq, Clone, Copy, Structural)]
pub enum PhysicsModel {
    Pendulum,
    SpringPendulum,
}

#[derive(Debug, PartialEq, Eq, Clone, Copy, Structural)]
pub enum ParamMapMode {
    AngleLength,
    XY,
}

/// Which of the node types a node has.
#[derive(Debug, Clone, Copy, PartialEq, Eq, Structural)]
pub enum NodeKind {
    Node,
    Drawable,
    PathDeform,
    Part,
    Mask,
    Composite,
    SimplePhysics,
}

/// What every node is, whatever its type.
pub struct NodeBaseView {
    pub uuid: u64,
    pub name: Seq<char>,
    pub enabled: bool,
    pub zsort: u32,
    pub transform: TransformView,
    pub lock_to_root: bool,
    /// The children in their order; none where the description names none.
    pub children: Seq<NodeView>,
    /// Whether the description holds a list of children, be it empty.
    pub lists_children: bool,
}

/// What a [`Node`] is to the engine: its type and what every node has.
pub struct NodeView {
    pub kind: NodeKind,
    pub base: NodeBaseView,
}

/// The cells of a list that may be absent.
pub open spec fn cells_of(cells: Option<Vec<u32>>) -> Option<Seq<u32>> {
    match cells {
        Some(cells) => Some(cells@),
        None => None,
    }
}

/// The numbers of a list of IDs that may be absent.
pub open spec fn ids_of(ids: Option<Vec<Uuid>>) -> Option<Seq<u64>> {
    match ids {
        Some(ids) => Some(ids.deep_view()),
        None => None,
    }
}

/// The points that a flat list of coordinates holds: X and Y of the first,
/// then of the second, and so on.
pub open spec fn pairs(flat: Seq<u32>) -> Seq<Vec2> {
    Seq::new(flat.len() / 2, |i: int| [flat[2 * i], flat[2 * i + 1]])
}

/// Reads a flat list of coordinates two by two.
fn pair_up(flat: &[u32]) -> (r: Vec<Vec2>)
    requires
        flat@.len() % 2 == 0,
    ensures
        r@ == pairs(flat@),
{
    let n: usize = flat.len() / 2;
    let mut points: Vec<Vec2> = Vec::with_capacity(n);
    let mut i: usize = 0;
    while i < n
        invariant
            i <= n,
            n == flat@.len() / 2,
            flat@.len() % 2 == 0,
            flat@.len() <= usize::MAX,
            points@.len() == i,
            forall|k: int| 0 <= k < i ==> #[trigger] points@[k] == pairs(flat@)[k],
        decreases n - i,
    {
        assert(2 * i + 1 < flat@.len());
        let point: Vec2 = [flat[2 * i], flat[2 * i + 1]];
        points.push(point);
        i += 1;
    }
    assert(points@ =~= pairs(flat@));
    points
}

/// Base type shared by all nodes.
#[derive(Debug)]
pub struct NodeBase {
    uuid: Uuid,
    name: String,
    enabled: bool,
    zsort: u32,
    transform: Transform,
    lock_to_root: bool,
    children: Option<Vec<Node>>,
}

impl View for NodeBase {
    type V = NodeBaseView;

    closed spec fn view(&self) -> NodeBaseView {
        base_view(*self)
    }
}

impl NodeBase {
    /// An enabled node without children, at Z-Sort zero, with the identity
    /// transform.
    pub fn new(uuid: Uuid, name: String) -> (r: NodeBase)
        ensures
            r@ == (NodeBaseView {
                uuid: uuid@,
                name: name@,
                enabled: true,
                zsort: ZERO,
                transform: identity_transform(),
                lock_to_root: false,
                children: Seq::empty(),
                lists_children: false,
            }),
    {
        NodeBase {
            uuid,
            name,
            enabled: true,
            zsort: ZERO,
            transform: Transform::new(),
            lock_to_root: false,
            children: None,
        }
    }

    pub fn uuid(&self) -> (r: Uuid)
        ensures
            r@ == self@.uuid,
    {
        self.uuid
    }

    pub fn set_uuid(&mut self, uuid: Uuid)
        ensures
            final(self)@ == (NodeBaseView { uuid: uuid@, ..old(self)@ }),
    {
        self.uuid = uuid;
    }

    pub fn name(&self) -> (r: &str)
        ensures
            r@ == self@.name,
    {
        self.name.as_str()
    }

    pub fn set_name(&mut self, name: String)
        ensures
            final(self)@ == (NodeBaseView { name: name@, ..old(self)@ }),
    {
        self.name = name;
    }

    pub fn enabled(&self) -> (r: bool)
        ensures
            r == self@.enabled,
    {
        self.enabled
    }

    pub fn set_enabled(&mut self, enabled: bool)
        ensures
            final(self)@ == (NodeBaseView { enabled, ..old(self)@ }),
    {
        self.enabled = enabled;
    }

    /// Returns the node's Z-Sort value.
    ///
    /// The Z-Axis points into the scene, so nodes with a *lower* Z-Sort value
    /// are in front of nodes with a higher Z-Sort value.
    pub fn zsort(&self) -> (r: u32)
        ensures
            r == self@.zsort,
    {
        self.zsort
    }

    pub fn set_zsort(&mut self, zsort: u32)
        ensures
            final(self)@ == (NodeBaseView { zsort, ..old(self)@ }),
    {
        self.zsort = zsort;
    }

    /// Returns the node's transformation relative to its parent.
    pub fn transform(&self) -> (r: &Transform)
        ensures
            r@ == self@.transform,
    {
        &self.transform
    }

    pub fn set_transform(&mut self, transform: Transform)
        ensures
            final(self)@ == (NodeBaseView { transform: transform@, ..old(self)@ }),
    {
        self.transform = transform;
    }

    pub fn lock_to_root(&self) -> (r: bool)
        ensures
            r == self@.lock_to_root,
    {
        self.lock_to_root
    }

    pub fn set_lock_to_root(&mut self, lock_to_root: bool)
        ensures
            final(self)@ == (NodeBaseView { lock_to_root, ..old(self)@ }),
    {
        self.lock_to_root = lock_to_root;
    }

    pub fn children(&self) -> (r: &[Node])
        ensures
            r.deep_view() == self@.children,
    {
        match &self.children {
            Some(children) => {
                let r = children.as_slice();
                assert(r.deep_view() =~= views_of(children@));
                r
            },
            None => {
                let none: &[Node] = &[];
                assert(none.deep_view() =~= Seq::empty());
                none
            },
        }
    }

    pub fn children_mut(&mut self) -> (r: &mut [Node])
        ensures
            r.deep_view() == old(self)@.children,
            final(self)@ == (NodeBaseView { children: final(r).deep_view(), ..old(self)@ }),
    {
        match &mut self.children {
            Some(children) => {
                let r = children.as_mut_slice();
                assert(r.deep_view() =~= views_of(r@));
                assert(final(r).deep_view() =~= views_of(final(r)@));
                r
            },
            None => {
                let none: &mut [Node] = &mut [];
                assert(none.deep_view() =~= Seq::empty());
                assert(final(none).deep_view() =~= Seq::empty());
                none
            },
        }
    }

    /// The list of children as the description holds it: none where it holds
    /// no list.
    pub fn children_list(&self) -> (r: Option<&[Node]>)
        ensures
            match r {
                Some(children) => self@.lists_children && children.deep_view() == self@.children,
                None => !self@.lists_children,
            },
    {
        match &self.children {
            Some(children) => {
                let r = children.as_slice();
                assert(r.deep_view() =~= views_of(children@));
                Some(r)
            },
            None => None,
        }
    }

    /// Replaces the list of children.
    pub fn set_children(&mut self, children: Option<Vec<Node>>)
        ensures
            final(self)@ == (NodeBaseView {
                children: match children {
                    Some(children) => children.deep_view(),
                    None => Seq::empty(),
                },
                lists_children: children is Some,
                ..old(self)@
            }),
    {
        proof {
            if children is Some {
                assert(children->Some_0.deep_view() =~= views_of(children->Some_0@));
            }
        }
        self.children = children;
    }

    pub fn push_child(&mut self, node: Node)
        ensures
            final(self)@ == (NodeBaseView {
                children: old(self)@.children.push(node@),
                lists_children: true,
                ..old(self)@
            }),
    {
        let mut children: Vec<Node> = match self.children.take() {
            Some(children) => children,
            None => Vec::new(),
        };
        let ghost before = children@;
        children.push(node);
        assert(views_of(children@) =~= views_of(before).push(node@));
        assert(views_of(Seq::<Node>::empty()) =~= Seq::empty());
        self.children = Some(children);
    }
}

/// What a [`Composite`] is.
pub struct CompositeView {
    pub node: NodeBaseView,
    pub blend_mode: BlendMode,
    pub tint: Seq<u32>,
    pub mask_threshold: u32,
    pub opacity: u32,
}

/// A node that draws its children into one layer and blends that layer as a
/// whole.
#[derive(Debug)]
pub struct Composite {
    node: NodeBase,
    blend_mode: BlendMode,
    tint: Vec3,
    mask_threshold: u32,
    opacity: u32,
}

impl View for Composite {
    type V = CompositeView;

    closed spec fn view(&self) -> CompositeView {
        CompositeView {
            node: self.node@,
            blend_mode: self.blend_mode,
            tint: self.tint@,
            mask_threshold: self.mask_threshold,
            opacity: self.opacity,
        }
    }
}

impl Composite {
    pub fn new(
        node: NodeBase,
        blend_mode: BlendMode,
        tint: Vec3,
        mask_threshold: u32,
        opacity: u32,
    ) -> (r: Composite)
        ensures
            r@ == (CompositeView {
                node: node@,
                blend_mode,
                tint: tint@,
                mask_threshold,
                opacity,
            }),
    {
        let r = Composite {
            node,
            blend_mode,
            tint,
            mask_threshold,
            opacity,
        };
        r
    }

    /// What this node shares with every node.
    pub fn base(&self) -> (r: &NodeBase)
        ensures
            r@ == self@.node,
    {
        &self.node
    }

    /// What this node shares with every node, for changing it.
    pub fn base_mut(&mut self) -> (r: &mut NodeBase)
        ensures
            r@ == old(self)@.node,
            final(self)@ == (CompositeView { node: final(r)@, ..old(self)@ }),
    {
        &mut self.node
    }

    pub fn blend_mode(&self) -> (r: BlendMode)
        ensures
            r == self@.blend_mode,
    {
        self.blend_mode
    }

    pub fn set_blend_mode(&mut self, mode: BlendMode)
        ensures
            final(self)@ == (CompositeView { blend_mode: mode, ..old(self)@ }),
    {
        self.blend_mode = mode;
    }

    pub fn tint(&self) -> (r: Vec3)
        ensures
            r@ == self@.tint,
    {
        self.tint
    }

    pub fn set_tint(&mut self, tint: Vec3)
        ensures
            final(self)@ == (CompositeView { tint: tint@, ..old(self)@ }),
    {
        self.tint = tint;
    }

    pub fn mask_threshold(&self) -> (r: u32)
        ensures
            r == self@.mask_threshold,
    {
        self.mask_threshold
    }

    pub fn set_mask_threshold(&mut self, mask_threshold: u32)
        ensures
            final(self)@ == (CompositeView { mask_threshold, ..old(self)@ }),
    {
        self.mask_threshold = mask_threshold;
    }

    pub fn opacity(&self) -> (r: u32)
        ensures
            r == self@.opacity,
    {
        self.opacity
    }

    pub fn set_opacity(&mut self, opacity: u32)
        ensures
            final(self)@ == (CompositeView { opacity, ..old(self)@ }),
    {
        self.opacity = opacity;
    }
}

/// What a [`JointBindingData`] is.
pub struct JointBindingDataView {
    pub bound_to: u64,
    pub bind_data: Seq<Seq<usize>>,
}

/// Describes how a [`Drawable`] is affected by a list of joints.
///
/// There is one [`JointBindingData`] object per [`Drawable`] affected by a
/// [`PathDeform`].
#[derive(Debug)]
pub struct JointBindingData {
    bound_to: Uuid,
    bind_data: Vec<Vec<usize>>,
}

impl View for JointBindingData {
    type V = JointBindingDataView;

    closed spec fn view(&self) -> JointBindingDataView {
        JointBindingDataView {
            bound_to: self.bound_to@,
            bind_data: self.bind_data.deep_view(),
        }
    }
}

impl JointBindingData {
    pub fn new(bound_to: Uuid, bind_data: Vec<Vec<usize>>) -> (r: JointBindingData)
        ensures
            r@ == (JointBindingDataView {
                bound_to: bound_to@,
                bind_data: bind_data.deep_view(),
            }),
    {
        let r = JointBindingData {
            bound_to,
            bind_data,
        };
        r
    }

    /// Returns the ID of the [`Drawable`] this binding data attaches joints to.
    pub fn bound_to(&self) -> (r: Uuid)
        ensures
            r@ == self@.bound_to,
    {
        self.bound_to
    }

    pub fn set_bound_to(&mut self, bound_to: Uuid)
        ensures
            final(self)@ == (JointBindingDataView { bound_to: bound_to@, ..old(self)@ }),
    {
        self.bound_to = bound_to;
    }

    /// Returns the binding data for the attached [`Drawable`].
    ///
    /// Every entry in the returned slice corresponds to one joint. Every entry
    /// in the contained `Vec<usize>` is a vertex index that should be affected
    /// by the joint.
    pub fn bind_data(&self) -> (r: &[Vec<usize>])
        ensures
            r.deep_view() == self@.bind_data,
    {
        self.bind_data.as_slice()
    }
}

impl DeepView for JointBindingData {
    type V = JointBindingDataView;

    open spec fn deep_view(&self) -> JointBindingDataView {
        self@
    }
}

/// What a [`PathDeform`] is.
pub struct PathDeformView {
    pub node: NodeBaseView,
    pub joints: Seq<Vec2>,
    pub bindings: Seq<JointBindingDataView>,
}

/// A node that deforms the drawables bound to it along a path of joints.
#[derive(Debug)]
pub struct PathDeform {
    node: NodeBase,
    joints: Vec<Vec2>,
    bindings: Vec<JointBindingData>,
}

impl View for PathDeform {
    type V = PathDeformView;

    closed spec fn view(&self) -> PathDeformView {
        PathDeformView {
            node: self.node@,
            joints: self.joints@,
            bindings: self.bindings.deep_view(),
        }
    }
}

impl PathDeform {
    pub fn new(
        node: NodeBase,
        joints: Vec<Vec2>,
        bindings: Vec<JointBindingData>,
    ) -> (r: PathDeform)
        ensures
            r@ == (PathDeformView {
                node: node@,
                joints: joints@,
                bindings: bindings.deep_view(),
            }),
    {
        let r = PathDeform {
            node,
            joints,
            bindings,
        };
        r
    }

    /// What this node shares with every node.
    pub fn base(&self) -> (r: &NodeBase)
        ensures
            r@ == self@.node,
    {
        &self.node
    }

    /// What this node shares with every node, for changing it.
    pub fn base_mut(&mut self) -> (r: &mut NodeBase)
        ensures
            r@ == old(self)@.node,
            final(self)@ == (PathDeformView { node: final(r)@, ..old(self)@ }),
    {
        &mut self.node
    }

    pub fn joint_origins(&self) -> (r: &[Vec2])
        ensures
            r@ == self@.joints,
    {
        self.joints.as_slice()
    }

    pub fn set_joint_origins(&mut self, joints: Vec<Vec2>)
        ensures
            final(self)@ == (PathDeformView { joints: joints@, ..old(self)@ }),
    {
        self.joints = joints;
    }

    pub fn bindings(&self) -> (r: &[JointBindingData])
        ensures
            r.deep_view() == self@.bindings,
    {
        self.bindings.as_slice()
    }

    pub fn bindings_mut(&mut self) -> (r: &mut [JointBindingData])
        ensures
            r.deep_view() == old(self)@.bindings,
            final(self)@ == (PathDeformView { bindings: final(r).deep_view(), ..old(self)@ }),
    {
        self.bindings.as_mut_slice()
    }

    pub fn set_bindings(&mut self, bindings: Vec<JointBindingData>)
        ensures
            final(self)@ == (PathDeformView { bindings: bindings.deep_view(), ..old(self)@ }),
    {
        self.bindings = bindings;
    }

    pub fn push_joint(&mut self, origin: Vec2)
        ensures
            final(self)@ == (PathDeformView { joints: old(self)@.joints.push(origin), ..old(self)@ }),
    {
        self.joints.push(origin);
    }

    pub fn push_binding(&mut self, binding: JointBindingData)
        ensures
            final(self)@ == (PathDeformView {
                bindings: old(self)@.bindings.push(binding@),
                ..old(self)@
            }),
    {
        self.bindings.push(binding);
        assert(self.bindings.deep_view() =~= old(self).bindings.deep_view().push(binding@));
    }
}

/// What a [`MeshData`] is.
pub struct MeshDataView {
    /// The coordinates of the vertices: X and Y of the first, then of the
    /// second, and so on.
    pub verts: Seq<u32>,
    /// The texture coordinates of the vertices, laid out like `verts`.
    pub uvs: Option<Seq<u32>>,
    pub indices: Seq<u16>,
    pub origin: Seq<u32>,
}

/// Triangle mesh data underlying all [`Drawable`] nodes.
#[derive(Debug)]
pub struct MeshData {
    verts: Vec<u32>,
    uvs: Option<Vec<u32>>,
    indices: Vec<u16>,
    origin: Vec2,
}

impl View for MeshData {
    type V = MeshDataView;

    closed spec fn view(&self) -> MeshDataView {
        MeshDataView {
            verts: self.verts@,
            uvs: cells_of(self.uvs),
            indices: self.indices@,
            origin: self.origin@,
        }
    }
}

impl MeshData {
    pub fn new(
        verts: Vec<u32>,
        uvs: Option<Vec<u32>>,
        indices: Vec<u16>,
        origin: Vec2,
    ) -> (r: MeshData)
        ensures
            r@ == (MeshDataView {
                verts: verts@,
                uvs: cells_of(uvs),
                indices: indices@,
                origin: origin@,
            }),
    {
        let r = MeshData {
            verts,
            uvs,
            indices,
            origin,
        };
        r
    }

    pub fn indices(&self) -> (r: &[u16])
        ensures
            r@ == self@.indices,
    {
        self.indices.as_slice()
    }

    pub fn origin(&self) -> (r: Vec2)
        ensures
            r@ == self@.origin,
    {
        self.origin
    }

    pub fn set_origin(&mut self, origin: Vec2)
        ensures
            final(self)@ == (MeshDataView { origin: origin@, ..old(self)@ }),
    {
        self.origin = origin;
    }

    /// The coordinates of the vertices as one flat list.
    pub fn flat_verts(&self) -> (r: &[u32])
        ensures
            r@ == self@.verts,
    {
        self.verts.as_slice()
    }

    /// The texture coordinates of the vertices as one flat list, where the
    /// mesh has any.
    pub fn flat_uvs(&self) -> (r: Option<&[u32]>)
        ensures
            match r {
                Some(r) => self@.uvs == Some(r@),
                None => self@.uvs is None,
            },
    {
        match &self.uvs {
            Some(uvs) => Some(uvs.as_slice()),
            None => None,
        }
    }

    /// The vertices of the mesh, each with its X and its Y coordinate.
    pub fn verts(&self) -> (r: Vec<Vec2>)
        requires
            self@.verts.len() % 2 == 0,
        ensures
            r@ == pairs(self@.verts),
    {
        pair_up(self.verts.as_slice())
    }

    /// The texture coordinates of the vertices, where the mesh has any.
    pub fn uvs(&self) -> (r: Option<Vec<Vec2>>)
        requires
            self@.uvs matches Some(uvs) ==> uvs.len() % 2 == 0,
        ensures
            match r {
                Some(r) => self@.uvs matches Some(uvs) && r@ == pairs(uvs),
                None => self@.uvs is None,
            },
    {
        match &self.uvs {
            Some(uvs) => Some(pair_up(uvs.as_slice())),
            None => None,
        }
    }

    pub fn vertex_count(&self) -> (r: usize)
        ensures
            r == self@.verts.len() / 2,
    {
        self.verts.len() / 2
    }
}

/// What a [`Drawable`] is.
pub struct DrawableView {
    pub node: NodeBaseView,
    pub mesh: MeshDataView,
}

/// A node with associated mesh data.
#[derive(Debug)]
pub struct Drawable {
    node: NodeBase,
    mesh: MeshData,
}

impl View for Drawable {
    type V = DrawableView;

    closed spec fn view(&self) -> DrawableView {
        DrawableView {
            node: self.node@,
            mesh: self.mesh@,
        }
    }
}

impl Drawable {
    pub fn new(node: NodeBase, mesh: MeshData) -> (r: Drawable)
        ensures
            r@ == (DrawableView {
                node: node@,
                mesh: mesh@,
            }),
    {
        let r = Drawable {
            node,
            mesh,
        };
        r
    }

    /// What this node shares with every node.
    pub fn base(&self) -> (r: &NodeBase)
        ensures
            r@ == self@.node,
    {
        &self.node
    }

    /// What this node shares with every node, for changing it.
    pub fn base_mut(&mut self) -> (r: &mut NodeBase)
        ensures
            r@ == old(self)@.node,
            final(self)@ == (DrawableView { node: final(r)@, ..old(self)@ }),
    {
        &mut self.node
    }

    pub fn mesh_data(&self) -> (r: &MeshData)
        ensures
            r@ == self@.mesh,
    {
        &self.mesh
    }

    pub fn mesh_data_mut(&mut self) -> (r: &mut MeshData)
        ensures
            r@ == old(self)@.mesh,
            final(self)@ == (DrawableView { mesh: final(r)@, ..old(self)@ }),
    {
        &mut self.mesh
    }

    pub fn set_mesh_data(&mut self, mesh_data: MeshData)
        ensures
            final(self)@ == (DrawableView { mesh: mesh_data@, ..old(self)@ }),
    {
        self.mesh = mesh_data;
    }
}

/// What a [`Part`] is.
pub struct PartView {
    pub drawable: DrawableView,
    pub textures: Seq<u32>,
    pub opacity: u32,
    pub mask_threshold: u32,
    pub tint: Seq<u32>,
    pub blend_mode: BlendMode,
    pub mask_mode: Option<MaskMode>,
    /// The IDs of the drawables that mask this part, where any were given.
    pub masked_by: Option<Seq<u64>>,
}

/// A rendered "part" of the model.
///
/// This node type is typically used for all visual components of the model.
#[derive(Debug)]
pub struct Part {
    drawable: Drawable,
    textures: Vec<u32>,
    opacity: u32,
    mask_threshold: u32,
    tint: Vec3,
    blend_mode: BlendMode,
    mask_mode: Option<MaskMode>,
    masked_by: Option<Vec<Uuid>>,
}

impl View for Part {
    type V = PartView;

    closed spec fn view(&self) -> PartView {
        PartView {
            drawable: self.drawable@,
            textures: self.textures@,
            opacity: self.opacity,
            mask_threshold: self.mask_threshold,
            tint: self.tint@,
            blend_mode: self.blend_mode,
            mask_mode: self.mask_mode,
            masked_by: ids_of(self.masked_by),
        }
    }
}

impl Part {
    pub fn new(
        drawable: Drawable,
        textures: Vec<u32>,
        opacity: u32,
        mask_threshold: u32,
        tint: Vec3,
        blend_mode: BlendMode,
        mask_mode: Option<MaskMode>,
        masked_by: Option<Vec<Uuid>>,
    ) -> (r: Part)
        ensures
            r@ == (PartView {
                drawable: drawable@,
                textures: textures@,
                opacity,
                mask_threshold,
                tint: tint@,
                blend_mode,
                mask_mode,
                masked_by: ids_of(masked_by),
            }),
    {
        let r = Part {
            drawable,
            textures,
            opacity,
            mask_threshold,
            tint,
            blend_mode,
            mask_mode,
            masked_by,
        };
        r
    }

    /// The drawable that this part is.
    pub fn drawable(&self) -> (r: &Drawable)
        ensures
            r@ == self@.drawable,
    {
        &self.drawable
    }

    /// The drawable that this part is, for changing it.
    pub fn drawable_mut(&mut self) -> (r: &mut Drawable)
        ensures
            r@ == old(self)@.drawable,
            final(self)@ == (PartView { drawable: final(r)@, ..old(self)@ }),
    {
        &mut self.drawable
    }

    /// Returns the texture indices used by this [`Part`].
    ///
    /// Texture indices index into the textures of the puppet. Currently, parts
    /// can only use a single texture.
    pub fn textures(&self) -> (r: &[u32])
        ensures
            r@ == self@.textures,
    {
        self.textures.as_slice()
    }

    pub fn set_textures(&mut self, textures: Vec<u32>)
        ensures
            final(self)@ == (PartView { textures: textures@, ..old(self)@ }),
    {
        self.textures = textures;
    }

    pub fn opacity(&self) -> (r: u32)
        ensures
            r == self@.opacity,
    {
        self.opacity
    }

    pub fn set_opacity(&mut self, opacity: u32)
        ensures
            final(self)@ == (PartView { opacity, ..old(self)@ }),
    {
        self.opacity = opacity;
    }

    pub fn mask_threshold(&self) -> (r: u32)
        ensures
            r == self@.mask_threshold,
    {
        self.mask_threshold
    }

    pub fn set_mask_threshold(&mut self, thresh: u32)
        ensures
            final(self)@ == (PartView { mask_threshold: thresh, ..old(self)@ }),
    {
        self.mask_threshold = thresh;
    }

    pub fn tint(&self) -> (r: Vec3)
        ensures
            r@ == self@.tint,
    {
        self.tint
    }

    pub fn set_tint(&mut self, tint: Vec3)
        ensures
            final(self)@ == (PartView { tint: tint@, ..old(self)@ }),
    {
        self.tint = tint;
    }

    pub fn blend_mode(&self) -> (r: BlendMode)
        ensures
            r == self@.blend_mode,
    {
        self.blend_mode
    }

    pub fn set_blend_mode(&mut self, mode: BlendMode)
        ensures
            final(self)@ == (PartView { blend_mode: mode, ..old(self)@ }),
    {
        self.blend_mode = mode;
    }

    pub fn mask_mode(&self) -> (r: Option<MaskMode>)
        ensures
            r == self@.mask_mode,
    {
        self.mask_mode
    }

    pub fn set_mask_mode(&mut self, mode: Option<MaskMode>)
        ensures
            final(self)@ == (PartView { mask_mode: mode, ..old(self)@ }),
    {
        self.mask_mode = mode;
    }

    pub fn push_texture(&mut self, texture: u32)
        ensures
            final(self)@ == (PartView { textures: old(self)@.textures.push(texture), ..old(self)@ }),
    {
        self.textures.push(texture);
    }

    /// The IDs of the drawables that mask this part as the description holds
    /// them: none where it holds no list.
    pub fn masked_by_list(&self) -> (r: Option<&[Uuid]>)
        ensures
            match r {
                Some(ids) => self@.masked_by == Some(ids.deep_view()),
                None => self@.masked_by is None,
            },
    {
        match &self.masked_by {
            Some(ids) => Some(ids.as_slice()),
            None => None,
        }
    }

    /// Returns the IDs of the [`Drawable`]s that mask `self`.
    pub fn masked_by(&self) -> (r: &[Uuid])
        ensures
            r.deep_view() == match self@.masked_by {
                Some(ids) => ids,
                None => Seq::empty(),
            },
    {
        match &self.masked_by {
            Some(ids) => ids.as_slice(),
            None => {
                let none: &[Uuid] = &[];
                assert(none.deep_view() =~= Seq::empty());
                none
            },
        }
    }

    pub fn set_masked_by(&mut self, masked_by: Option<Vec<Uuid>>)
        ensures
            final(self)@ == (PartView { masked_by: ids_of(masked_by), ..old(self)@ }),
    {
        self.masked_by = masked_by;
    }
}

/// What a [`Mask`] is.
pub struct MaskView {
    pub drawable: DrawableView,
}

/// A drawable that only serves to mask parts.
#[derive(Debug)]
pub struct Mask {
    drawable: Drawable,
}

impl View for Mask {
    type V = MaskView;

    closed spec fn view(&self) -> MaskView {
        MaskView {
            drawable: self.drawable@,
        }
    }
}

impl Mask {
    pub fn new(drawable: Drawable) -> (r: Mask)
        ensures
            r@ == (MaskView {
                drawable: drawable@,
            }),
    {
        let r = Mask {
            drawable,
        };
        r
    }

    /// The drawable that this mask is.
    pub fn drawable(&self) -> (r: &Drawable)
        ensures
            r@ == self@.drawable,
    {
        &self.drawable
    }

    /// The drawable that this mask is, for changing it.
    pub fn drawable_mut(&mut self) -> (r: &mut Drawable)
        ensures
            r@ == old(self)@.drawable,
            final(self)@ == (MaskView { drawable: final(r)@, ..old(self)@ }),
    {
        &mut self.drawable
    }
}

/// What a [`SimplePhysics`] is.
pub struct SimplePhysicsView {
    pub node: NodeBaseView,
    pub param: u64,
    pub model_type: PhysicsModel,
    pub map_mode: ParamMapMode,
    pub gravity: u32,
    pub length: u32,
    pub frequency: u32,
    pub angle_damping: u32,
    pub length_damping: u32,
    pub output_scale: Seq<u32>,
}

/// A node that drives a parameter by a simulated pendulum.
#[derive(Debug)]
pub struct SimplePhysics {
    node: NodeBase,
    param: Uuid,
    model_type: PhysicsModel,
    map_mode: ParamMapMode,
    gravity: u32,
    length: u32,
    frequency: u32,
    angle_damping: u32,
    length_damping: u32,
    output_scale: Vec2,
}

impl View for SimplePhysics {
    type V = SimplePhysicsView;

    closed spec fn view(&self) -> SimplePhysicsView {
        SimplePhysicsView {
            node: self.node@,
            param: self.param@,
            model_type: self.model_type,
            map_mode: self.map_mode,
            gravity: self.gravity,
            length: self.length,
            frequency: self.frequency,
            angle_damping: self.angle_damping,
            length_damping: self.length_damping,
            output_scale: self.output_scale@,
        }
    }
}

impl SimplePhysics {
    pub fn new(
        node: NodeBase,
        param: Uuid,
        model_type: PhysicsModel,
        map_mode: ParamMapMode,
        gravity: u32,
        length: u32,
        frequency: u32,
        angle_damping: u32,
        length_damping: u32,
        output_scale: Vec2,
    ) -> (r: SimplePhysics)
        ensures
            r@ == (SimplePhysicsView {
                node: node@,
                param: param@,
                model_type,
                map_mode,
                gravity,
                length,
                frequency,
                angle_damping,
                length_damping,
                output_scale: output_scale@,
            }),
    {
        let r = SimplePhysics {
            node,
            param,
            model_type,
            map_mode,
            gravity,
            length,
            frequency,
            angle_damping,
            length_damping,
            output_scale,
        };
        r
    }

    /// What this node shares with every node.
    pub fn base(&self) -> (r: &NodeBase)
        ensures
            r@ == self@.node,
    {
        &self.node
    }

    /// What this node shares with every node, for changing it.
    pub fn base_mut(&mut self) -> (r: &mut NodeBase)
        ensures
            r@ == old(self)@.node,
            final(self)@ == (SimplePhysicsView { node: final(r)@, ..old(self)@ }),
    {
        &mut self.node
    }

    /// Returns the parameter ID this physics object is bound to.
    ///
    /// If not bound, an ID of `-1` is used.
    pub fn param(&self) -> (r: Uuid)
        ensures
            r@ == self@.param,
    {
        self.param
    }

    pub fn set_param(&mut self, param: Uuid)
        ensures
            final(self)@ == (SimplePhysicsView { param: param@, ..old(self)@ }),
    {
        self.param = param;
    }

    pub fn model_type(&self) -> (r: PhysicsModel)
        ensures
            r == self@.model_type,
    {
        self.model_type
    }

    pub fn set_model_type(&mut self, model_type: PhysicsModel)
        ensures
            final(self)@ == (SimplePhysicsView { model_type, ..old(self)@ }),
    {
        self.model_type = model_type;
    }

    pub fn map_mode(&self) -> (r: ParamMapMode)
        ensures
            r == self@.map_mode,
    {
        self.map_mode
    }

    pub fn set_map_mode(&mut self, map_mode: ParamMapMode)
        ensures
            final(self)@ == (SimplePhysicsView { map_mode, ..old(self)@ }),
    {
        self.map_mode = map_mode;
    }

    pub fn gravity(&self) -> (r: u32)
        ensures
            r == self@.gravity,
    {
        self.gravity
    }

    pub fn set_gravity(&mut self, gravity: u32)
        ensures
            final(self)@ == (SimplePhysicsView { gravity, ..old(self)@ }),
    {
        self.gravity = gravity;
    }

    pub fn length(&self) -> (r: u32)
        ensures
            r == self@.length,
    {
        self.length
    }

    pub fn set_length(&mut self, length: u32)
        ensures
            final(self)@ == (SimplePhysicsView { length, ..old(self)@ }),
    {
        self.length = length;
    }

    pub fn frequency(&self) -> (r: u32)
        ensures
            r == self@.frequency,
    {
        self.frequency
    }

    pub fn set_frequency(&mut self, frequency: u32)
        ensures
            final(self)@ == (SimplePhysicsView { frequency, ..old(self)@ }),
    {
        self.frequency = frequency;
    }

    pub fn angle_damping(&self) -> (r: u32)
        ensures
            r == self@.angle_damping,
    {
        self.angle_damping
    }

    pub fn set_angle_damping(&mut self, angle_damping: u32)
        ensures
            final(self)@ == (SimplePhysicsView { angle_damping, ..old(self)@ }),
    {
        self.angle_damping = angle_damping;
    }

    pub fn length_damping(&self) -> (r: u32)
        ensures
            r == self@.length_damping,
    {
        self.length_damping
    }

    pub fn set_length_damping(&mut self, length_damping: u32)
        ensures
            final(self)@ == (SimplePhysicsView { length_damping, ..old(self)@ }),
    {
        self.length_damping = length_damping;
    }

    pub fn output_scale(&self) -> (r: Vec2)
        ensures
            r@ == self@.output_scale,
    {
        self.output_scale
    }

    pub fn set_output_scale(&mut self, output_scale: Vec2)
        ensures
            final(self)@ == (SimplePhysicsView { output_scale: output_scale@, ..old(self)@ }),
    {
        self.output_scale = output_scale;
    }
}

impl core::ops::Deref for Composite {
    type Target = NodeBase;

    fn deref(&self) -> (r: &NodeBase)
        ensures
            r@ == self@.node,
    {
        self.base()
    }
}

impl core::ops::DerefMut for Composite {
    fn deref_mut(&mut self) -> (r: &mut NodeBase)
        ensures
            r@ == old(self)@.node,
            final(self)@ == (CompositeView { node: final(r)@, ..old(self)@ }),
    {
        self.base_mut()
    }
}

impl core::ops::Deref for PathDeform {
    type Target = NodeBase;

    fn deref(&self) -> (r: &NodeBase)
        ensures
            r@ == self@.node,
    {
        self.base()
    }
}

impl core::ops::DerefMut for PathDeform {
    fn deref_mut(&mut self) -> (r: &mut NodeBase)
        ensures
            r@ == old(self)@.node,
            final(self)@ == (PathDeformView { node: final(r)@, ..old(self)@ }),
    {
        self.base_mut()
    }
}

impl core::ops::Deref for Drawable {
    type Target = NodeBase;

    fn deref(&self) -> (r: &NodeBase)
        ensures
            r@ == self@.node,
    {
        self.base()
    }
}

impl core::ops::DerefMut for Drawable {
    fn deref_mut(&mut self) -> (r: &mut NodeBase)
        ensures
            r@ == old(self)@.node,
            final(self)@ == (DrawableView { node: final(r)@, ..old(self)@ }),
    {
        self.base_mut()
    }
}

impl core::ops::Deref for Part {
    type Target = Drawable;

    fn deref(&self) -> (r: &Drawable)
        ensures
            r@ == self@.drawable,
    {
        self.drawable()
    }
}

impl core::ops::DerefMut for Part {
    fn deref_mut(&mut self) -> (r: &mut Drawable)
        ensures
            r@ == old(self)@.drawable,
            final(self)@ == (PartView { drawable: final(r)@, ..old(self)@ }),
    {
        self.drawable_mut()
    }
}

impl core::ops::Deref for Mask {
    type Target = Drawable;

    fn deref(&self) -> (r: &Drawable)
        ensures
            r@ == self@.drawable,
    {
        self.drawable()
    }
}

impl core::ops::DerefMut for Mask {
    fn deref_mut(&mut self) -> (r: &mut Drawable)
        ensures
            r@ == old(self)@.drawable,
            final(self)@ == (MaskView { drawable: final(r)@, ..old(self)@ }),
    {
        self.drawable_mut()
    }
}

impl core::ops::Deref for SimplePhysics {
    type Target = NodeBase;

    fn deref(&self) -> (r: &NodeBase)
        ensures
            r@ == self@.node,
    {
        self.base()
    }
}

impl core::ops::DerefMut for SimplePhysics {
    fn deref_mut(&mut self) -> (r: &mut NodeBase)
        ensures
            r@ == old(self)@.node,
            final(self)@ == (SimplePhysicsView { node: final(r)@, ..old(self)@ }),
    {
        self.base_mut()
    }
}

/// Enumeration of all supported node types.
#[derive(Debug)]
pub enum Node {
    Node(NodeBase),
    Drawable(Drawable),
    PathDeform(PathDeform),
    Part(Part),
    Mask(Mask),
    Composite(Composite),
    SimplePhysics(SimplePhysics),
}

/// The views of the nodes of a list, in order.
pub closed spec fn views_of(nodes: Seq<Node>) -> Seq<NodeView>
    decreases nodes,
{
    Seq::new(
        nodes.len(),
        |i: int|
            if 0 <= i < nodes.len() {
                node_view(nodes[i])
            } else {
                arbitrary()
            },
    )
}

/// The view of a node base.
pub closed spec fn base_view(base: NodeBase) -> NodeBaseView
    decreases base,
{
    NodeBaseView {
        uuid: base.uuid@,
        name: base.name@,
        enabled: base.enabled,
        zsort: base.zsort,
        transform: base.transform@,
        lock_to_root: base.lock_to_root,
        children: match base.children {
            Some(children) => views_of(children@),
            None => Seq::empty(),
        },
        lists_children: base.children is Some,
    }
}

/// The view of a node.
pub closed spec fn node_view(node: Node) -> NodeView
    decreases node,
{
    match node {
        Node::Node(n) => NodeView { kind: NodeKind::Node, base: base_view(n) },
        Node::Drawable(n) => NodeView { kind: NodeKind::Drawable, base: base_view(n.node) },
        Node::PathDeform(n) => NodeView { kind: NodeKind::PathDeform, base: base_view(n.node) },
        Node::Part(n) => NodeView { kind: NodeKind::Part, base: base_view(n.drawable.node) },
        Node::Mask(n) => NodeView { kind: NodeKind::Mask, base: base_view(n.drawable.node) },
        Node::Composite(n) => NodeView { kind: NodeKind::Composite, base: base_view(n.node) },
        Node::SimplePhysics(n) => NodeView {
            kind: NodeKind::SimplePhysics,
            base: base_view(n.node),
        },
    }
}

impl View for Node {
    type V = NodeView;

    closed spec fn view(&self) -> NodeView {
        node_view(*self)
    }
}

impl DeepView for Node {
    type V = NodeView;

    open spec fn deep_view(&self) -> NodeView {
        self@
    }
}

impl Node {
    /// Which of the node types this node has.
    pub fn kind(&self) -> (r: NodeKind)
        ensures
            r == self@.kind,
    {
        match self {
            Node::Node(_) => NodeKind::Node,
            Node::Drawable(_) => NodeKind::Drawable,
            Node::PathDeform(_) => NodeKind::PathDeform,
            Node::Part(_) => NodeKind::Part,
            Node::Mask(_) => NodeKind::Mask,
            Node::Composite(_) => NodeKind::Composite,
            Node::SimplePhysics(_) => NodeKind::SimplePhysics,
        }
    }

    /// The name of the node type, as the description spells it.
    pub fn kind_name(&self) -> (r: &str)
        ensures
            r@ == name_of_kind(self@.kind),
    {
        match self {
            Node::Node(_) => "Node",
            Node::Drawable(_) => "Drawable",
            Node::PathDeform(_) => "PathDeform",
            Node::Part(_) => "Part",
            Node::Mask(_) => "Mask",
            Node::Composite(_) => "Composite",
            Node::SimplePhysics(_) => "SimplePhysics",
        }
    }

    /// What this node shares with every node.
    pub fn base(&self) -> (r: &NodeBase)
        ensures
            r@ == self@.base,
    {
        match self {
            Node::Node(n) => n,
            Node::Drawable(n) => &n.node,
            Node::PathDeform(n) => &n.node,
            Node::Part(n) => &n.drawable.node,
            Node::Mask(n) => &n.drawable.node,
            Node::Composite(n) => &n.node,
            Node::SimplePhysics(n) => &n.node,
        }
    }

    /// What this node shares with every node, for changing it.
    pub fn base_mut(&mut self) -> (r: &mut NodeBase)
        ensures
            r@ == old(self)@.base,
            final(self)@ == (NodeView { kind: old(self)@.kind, base: final(r)@ }),
    {
        match self {
            Node::Node(n) => n,
            Node::Drawable(n) => &mut n.node,
            Node::PathDeform(n) => &mut n.node,
            Node::Part(n) => &mut n.drawable.node,
            Node::Mask(n) => &mut n.drawable.node,
            Node::Composite(n) => &mut n.node,
            Node::SimplePhysics(n) => &mut n.node,
        }
    }
}

impl core::ops::Deref for Node {
    type Target = NodeBase;

    fn deref(&self) -> (r: &NodeBase)
        ensures
            r@ == self@.base,
    {
        self.base()
    }
}

impl core::ops::DerefMut for Node {
    fn deref_mut(&mut self) -> (r: &mut NodeBase)
        ensures
            r@ == old(self)@.base,
            final(self)@ == (NodeView { kind: old(self)@.kind, base: final(r)@ }),
    {
        self.base_mut()
    }
}

/// The name of a node type, as the description spells it.
pub open spec fn name_of_kind(kind: NodeKind) -> Seq<char> {
    match kind {
        NodeKind::Node => "Node"@,
        NodeKind::Drawable => "Drawable"@,
        NodeKind::PathDeform => "PathDeform"@,
        NodeKind::Part => "Part"@,
        NodeKind::Mask => "Mask"@,
        NodeKind::Composite => "Composite"@,
        NodeKind::SimplePhysics => "SimplePhysics"@,
    }
}

} // verus!
