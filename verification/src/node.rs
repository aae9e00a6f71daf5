//! Node representation for the puppeteering engine.

use crate::engine::RenderBuffer;
use crate::engine::RenderCommand;
use crate::engine::RenderCommandView;
use crate::error::Error;
use crate::error::ErrorKind;
use crate::float::ONE;
use crate::float::ZERO;
use crate::io::node::NodeKind;
use crate::io::node::TransformView;
use crate::io::Uuid;
use crate::param::BindingView;
use crate::param::ParamBinding;
use crate::param::ParamMap;
use crate::param::ParamTarget;
use core::time::Duration;
use vstd::prelude::*;
use vstd::string::StringExecFns;

verus! {

/// The matrix that changes nothing, in column-major order.
pub open spec fn identity_matrix() -> Seq<u32> {
    seq![
        ONE, ZERO, ZERO, ZERO,
        ZERO, ONE, ZERO, ZERO,
        ZERO, ZERO, ONE, ZERO,
        ZERO, ZERO, ZERO, ONE,
    ]
}

/// An affine transformation, represented as a 4x4 matrix of single-precision
/// values, each by its bit pattern.
#[derive(Debug, Clone, Copy)]
pub struct Transform {
    mat: [u32; 16],
}

impl View for Transform {
    /// The sixteen cells of the matrix in column-major order.
    type V = Seq<u32>;

    closed spec fn view(&self) -> Seq<u32> {
        self.mat@
    }
}

impl Transform {
    /// The transformation that changes nothing.
    pub fn identity() -> (t: Transform)
        ensures
            t@ == identity_matrix(),
    {
        let t = Transform {
            mat: [
                ONE, ZERO, ZERO, ZERO,
                ZERO, ONE, ZERO, ZERO,
                ZERO, ZERO, ONE, ZERO,
                ZERO, ZERO, ZERO, ONE,
            ],
        };
        assert(t.mat@ =~= identity_matrix());
        t
    }

    /// The transformation with the given cells, in column-major order.
    pub fn from_column_major_data(mat: [u32; 16]) -> (t: Transform)
        ensures
            t@ == mat@,
    {
        Transform { mat }
    }

    /// Returns the raw matrix data, in column-major order.
    pub fn as_column_major_data(&self) -> (data: &[u32])
        ensures
            data@ == self@,
            data@.len() == 16,
    {
        self.mat.as_slice()
    }
}

/// What a [`NodeBase`] is.
pub struct NodeBaseView {
    pub uuid: u64,
    pub children: Seq<NodeView>,
    /// The bindings that act on this node.
    pub params: Seq<BindingView>,
    /// The transform that the model gives the node, relative to its parent,
    /// without any parameter offsets applied.
    pub base_transform: TransformView,
    /// The Z-Sort value that the model gives the node.
    pub base_zsort: u32,
    /// The global transform as the last update left it.
    pub global_transform: Seq<u32>,
    /// The Z-Sort value as the last update left it.
    pub zsort: u32,
    /// Whether the node ignores the transform of its parent.
    pub lock_to_root: bool,
}

/// What a [`Node`] is.
pub struct NodeView {
    /// Whether the node is drawn.
    pub drawable: bool,
    pub base: NodeBaseView,
}

/// What all nodes of the engine share.
pub struct NodeBase {
    uuid: Uuid,
    children: Vec<Node>,
    params: Vec<ParamBinding>,
    base_transform: crate::io::node::Transform,
    base_zsort: u32,
    global_transform: Transform,
    zsort: u32,
    lock_to_root: bool,
}

/// A node that is drawn.
pub struct Drawable {
    node: NodeBase,
}

/// A node of the engine's tree.
pub enum Node {
    /// Hierarchy-only node that isn't visible.
    Node(NodeBase),
    Drawable(Drawable),
}

/// The views of the nodes of a list, in order.
pub closed spec fn views_of(nodes: Seq<Node>) -> Seq<NodeView>
    decreases nodes,
{
    Seq::new(
        nodes.len(),
        |i: int|
            if 0 <= i < nodes.len() {
                node_view(nodes[i])
            } else {
                arbitrary()
            },
    )
}

/// The view of a node base.
pub closed spec fn base_view(base: NodeBase) -> NodeBaseView
    decreases base,
{
    NodeBaseView {
        uuid: base.uuid@,
        children: views_of(base.children@),
        params: base.params.deep_view(),
        base_transform: base.base_transform@,
        base_zsort: base.base_zsort,
        global_transform: base.global_transform@,
        zsort: base.zsort,
        lock_to_root: base.lock_to_root,
    }
}

/// The view of a node.
pub closed spec fn node_view(node: Node) -> NodeView
    decreases node,
{
    match node {
        Node::Node(n) => NodeView { drawable: false, base: base_view(n) },
        Node::Drawable(n) => NodeView { drawable: true, base: base_view(n.node) },
    }
}

impl View for NodeBase {
    type V = NodeBaseView;

    closed spec fn view(&self) -> NodeBaseView {
        base_view(*self)
    }
}

impl DeepView for NodeBase {
    type V = NodeBaseView;

    open spec fn deep_view(&self) -> NodeBaseView {
        self@
    }
}

impl View for Drawable {
    type V = NodeBaseView;

    closed spec fn view(&self) -> NodeBaseView {
        base_view(self.node)
    }
}

impl View for Node {
    type V = NodeView;

    closed spec fn view(&self) -> NodeView {
        node_view(*self)
    }
}

impl DeepView for Node {
    type V = NodeView;

    open spec fn deep_view(&self) -> NodeView {
        self@
    }
}

/// Whether the engine builds nodes of this type: plain nodes, drawables and
/// parts.
pub open spec fn supported(kind: NodeKind) -> bool {
    kind == NodeKind::Node || kind == NodeKind::Drawable || kind == NodeKind::Part
}

/// Whether the engine builds every node of the tree.
pub open spec fn tree_supported(io: crate::io::node::NodeView) -> bool
    decreases io,
{
    &&& supported(io.kind)
    &&& forall|i: int|
        0 <= i < io.base.children.len() ==> tree_supported(#[trigger] io.base.children[i])
}

/// The IDs of the nodes of a tree.
pub open spec fn ids(io: crate::io::node::NodeView) -> Set<u64>
    decreases io, 0nat,
{
    ids_before(io.base.children, io.base.children.len()).insert(io.base.uuid)
}

/// The IDs of the nodes of the first `count` trees of a list.
pub open spec fn ids_before(trees: Seq<crate::io::node::NodeView>, count: nat) -> Set<u64>
    decreases trees, count,
{
    if count == 0 || count > trees.len() {
        Set::empty()
    } else {
        ids_before(trees, (count - 1) as nat) + ids(trees[count - 1])
    }
}

/// The bindings that are left for `id` in `table` once the bindings of the
/// IDs in `taken` have been handed out.
pub open spec fn remaining(table: Map<u64, Seq<BindingView>>, taken: Set<u64>, id: u64) -> Seq<
    BindingView,
> {
    if taken.contains(id) || !table.contains_key(id) {
        Seq::empty()
    } else {
        table[id]
    }
}

/// What the engine builds from the base of a described node, see
/// [`lowered_node`].
pub open spec fn lowered_base(
    table: Map<u64, Seq<BindingView>>,
    io: crate::io::node::NodeBaseView,
    taken: Set<u64>,
) -> NodeBaseView
    decreases io,
{
    NodeBaseView {
        uuid: io.uuid,
        children: Seq::new(
            io.children.len(),
            |i: int|
                if 0 <= i < io.children.len() {
                    lowered_node(table, io.children[i], taken + ids_before(io.children, i as nat))
                } else {
                    arbitrary()
                },
        ),
        params: remaining(table, taken + ids_before(io.children, io.children.len()), io.uuid),
        base_transform: io.transform,
        base_zsort: io.zsort,
        global_transform: identity_matrix(),
        zsort: io.zsort,
        lock_to_root: io.lock_to_root,
    }
}

/// What the engine builds from a described tree, given the table of bindings
/// and the IDs whose bindings were handed out before.
///
/// The tree keeps its shape. The children of a node are built before the
/// node, from first to last, and each node takes the bindings of its ID out
/// of the table: where two nodes have the same ID, the one that is built
/// first gets the bindings. A plain node stays one; any other node is drawn.
pub open spec fn lowered_node(
    table: Map<u64, Seq<BindingView>>,
    io: crate::io::node::NodeView,
    taken: Set<u64>,
) -> NodeView
    decreases io,
{
    NodeView { drawable: io.kind != NodeKind::Node, base: lowered_base(table, io.base, taken) }
}

/// The bindings that the nodes with the ID `id` hold, in the order in which
/// the nodes are built: the children's trees from first to last, then the
/// node itself.
pub open spec fn held(node: NodeView, id: u64) -> Seq<BindingView>
    decreases node, 0nat,
{
    held_among(node.base.children, node.base.children.len(), id) + if node.base.uuid == id {
        node.base.params
    } else {
        Seq::empty()
    }
}

/// The bindings that the nodes with the ID `id` hold in the first `n` trees
/// of a list.
pub open spec fn held_among(trees: Seq<NodeView>, n: nat, id: u64) -> Seq<BindingView>
    decreases trees, n,
{
    if n == 0 || n > trees.len() {
        Seq::empty()
    } else {
        held_among(trees, (n - 1) as nat, id) + held(trees[n - 1], id)
    }
}

/// Every binding is handed out once: the nodes of a built tree that have
/// the ID `id` hold, taken together, exactly the bindings that were left for
/// `id` in the table, and no node holds a binding where the tree has no node
/// with that ID.
pub proof fn lemma_bindings_handed_out_once(
    table: Map<u64, Seq<BindingView>>,
    io: crate::io::node::NodeView,
    taken: Set<u64>,
    id: u64,
)
    ensures
        held(lowered_node(table, io, taken), id) == if ids(io).contains(id) {
            remaining(table, taken, id)
        } else {
            Seq::empty()
        },
    decreases io, 1nat,
{
    let children = io.base.children;
    let built = lowered_node(table, io, taken);
    lemma_handed_out_among(table, io, taken, id, children.len());
    let before = held_among(built.base.children, children.len(), id);
    let own = if built.base.uuid == id {
        built.base.params
    } else {
        Seq::empty()
    };
    assert(before + Seq::<BindingView>::empty() =~= before);
    assert(Seq::<BindingView>::empty() + own =~= own);
}

/// What [`lemma_bindings_handed_out_once`] says, of the first `n` children of
/// a node.
pub proof fn lemma_handed_out_among(
    table: Map<u64, Seq<BindingView>>,
    io: crate::io::node::NodeView,
    taken: Set<u64>,
    id: u64,
    n: nat,
)
    requires
        n <= io.base.children.len(),
    ensures
        held_among(lowered_node(table, io, taken).base.children, n, id) == if ids_before(
            io.base.children,
            n,
        ).contains(id) {
            remaining(table, taken, id)
        } else {
            Seq::empty()
        },
    decreases io, 0nat, n,
{
    let children = io.base.children;
    let built = lowered_node(table, io, taken).base.children;
    if n > 0 {
        let m = (n - 1) as nat;
        lemma_handed_out_among(table, io, taken, id, m);
        let reached = taken + ids_before(children, m);
        lemma_bindings_handed_out_once(table, children[n - 1], reached, id);
        assert(built[n - 1] == lowered_node(table, children[n - 1], reached));
        let before = held_among(built, m, id);
        let next = held(built[n - 1], id);
        assert(before + Seq::<BindingView>::empty() =~= before);
        assert(Seq::<BindingView>::empty() + next =~= next);
    }
}

impl Node {
    /// Builds the engine's tree from a described tree, taking the bindings of
    /// each node out of `params`.
    ///
    /// The construction fails as `Unsupported` exactly if the tree holds a
    /// node that is neither a plain node nor a drawable nor a part.
    pub fn from_io(params: &mut ParamMap, io: &crate::io::node::Node) -> (r: Result<Node, Error>)
        ensures
            match r {
                Ok(node) => {
                    &&& tree_supported(io@)
                    &&& node@ == lowered_node(old(params).table(), io@, Set::empty())
                    &&& forall|id: u64| #[trigger]
                        final(params).bindings(id) == remaining(old(params).table(), ids(io@), id)
                },
                Err(e) => !tree_supported(io@) && e.spec_kind() == ErrorKind::Unsupported,
            },
    {
        let ghost table = params.table();
        assert(Set::<u64>::empty() + ids(io@) =~= ids(io@));
        Self::lower(params, io, Ghost(table), Ghost(Set::empty()))
    }

    fn lower(
        params: &mut ParamMap,
        io: &crate::io::node::Node,
        Ghost(table): Ghost<Map<u64, Seq<BindingView>>>,
        Ghost(taken): Ghost<Set<u64>>,
    ) -> (r: Result<Node, Error>)
        requires
            forall|id: u64| #[trigger] old(params).bindings(id) == remaining(table, taken, id),
        ensures
            match r {
                Ok(node) => {
                    &&& tree_supported(io@)
                    &&& node@ == lowered_node(table, io@, taken)
                    &&& forall|id: u64| #[trigger]
                        final(params).bindings(id) == remaining(table, taken + ids(io@), id)
                },
                Err(e) => !tree_supported(io@) && e.spec_kind() == ErrorKind::Unsupported,
            },
        decreases io@, 1nat,
    {
        match io.kind() {
            NodeKind::Node => {
                match NodeBase::from_io(params, io.base(), Ghost(table), Ghost(taken)) {
                    Ok(node) => Ok(Node::Node(node)),
                    Err(e) => Err(e),
                }
            },
            NodeKind::Drawable | NodeKind::Part => {
                match Drawable::from_io(params, io.base(), Ghost(table), Ghost(taken)) {
                    Ok(node) => Ok(Node::Drawable(node)),
                    Err(e) => Err(e),
                }
            },
            _ => {
                let what = String::from_str("node '").concat(io.base().name()).concat(
                    "' has unimplemented node type '",
                ).concat(io.kind_name()).concat("'");
                Err(Error::unsupported(what.as_str()))
            },
        }
    }

    /// Whether the node is drawn.
    pub fn is_drawable(&self) -> (r: bool)
        ensures
            r == self@.drawable,
    {
        match self {
            Node::Node(_) => false,
            Node::Drawable(_) => true,
        }
    }

    /// What this node shares with every node.
    pub fn base(&self) -> (r: &NodeBase)
        ensures
            r@ == self@.base,
    {
        match self {
            Node::Node(node) => node,
            Node::Drawable(node) => &node.node,
        }
    }
}

impl Drawable {
    fn from_io(
        params: &mut ParamMap,
        io: &crate::io::node::NodeBase,
        Ghost(table): Ghost<Map<u64, Seq<BindingView>>>,
        Ghost(taken): Ghost<Set<u64>>,
    ) -> (r: Result<Drawable, Error>)
        requires
            forall|id: u64| #[trigger] old(params).bindings(id) == remaining(table, taken, id),
        ensures
            match r {
                Ok(node) => {
                    &&& children_supported(io@)
                    &&& node@ == lowered_base(table, io@, taken)
                    &&& forall|id: u64| #[trigger]
                        final(params).bindings(id) == remaining(
                            table,
                            taken + ids_before(io@.children, io@.children.len()).insert(io@.uuid),
                            id,
                        )
                },
                Err(e) => !children_supported(io@) && e.spec_kind() == ErrorKind::Unsupported,
            },
        decreases io@, 1nat,
    {
        match NodeBase::from_io(params, io, Ghost(table), Ghost(taken)) {
            Ok(node) => Ok(Drawable { node }),
            Err(e) => Err(e),
        }
    }

    /// What this node shares with every node.
    pub fn base(&self) -> (r: &NodeBase)
        ensures
            r@ == self@,
    {
        &self.node
    }
}

/// Whether the engine builds every tree below a node.
pub open spec fn children_supported(io: crate::io::node::NodeBaseView) -> bool {
    forall|i: int| 0 <= i < io.children.len() ==> tree_supported(#[trigger] io.children[i])
}

impl NodeBase {
    fn from_io(
        params: &mut ParamMap,
        io: &crate::io::node::NodeBase,
        Ghost(table): Ghost<Map<u64, Seq<BindingView>>>,
        Ghost(taken): Ghost<Set<u64>>,
    ) -> (r: Result<NodeBase, Error>)
        requires
            forall|id: u64| #[trigger] old(params).bindings(id) == remaining(table, taken, id),
        ensures
            match r {
                Ok(node) => {
                    &&& children_supported(io@)
                    &&& node@ == lowered_base(table, io@, taken)
                    &&& forall|id: u64| #[trigger]
                        final(params).bindings(id) == remaining(
                            table,
                            taken + ids_before(io@.children, io@.children.len()).insert(io@.uuid),
                            id,
                        )
                },
                Err(e) => !children_supported(io@) && e.spec_kind() == ErrorKind::Unsupported,
            },
        decreases io@, 0nat,
    {
        let described = io.children();
        let ghost trees = io@.children;
        let mut children: Vec<Node> = Vec::with_capacity(described.len());
        let mut i: usize = 0;
        assert(taken + ids_before(trees, 0) =~= taken);
        while i < described.len()
            invariant
                i <= described@.len(),
                trees == io@.children,
                trees == described.deep_view(),
                children@.len() == i,
                forall|k: int| 0 <= k < i ==> tree_supported(#[trigger] trees[k]),
                forall|k: int|
                    0 <= k < i ==> (#[trigger] children@[k])@ == lowered_node(
                        table,
                        trees[k],
                        taken + ids_before(trees, k as nat),
                    ),
                forall|id: u64| #[trigger]
                    params.bindings(id) == remaining(table, taken + ids_before(trees, i as nat), id),
            decreases described@.len() - i,
        {
            let child = &described[i];
            assert(child@ == trees[i as int]);
            let ghost before = taken + ids_before(trees, i as nat);
            match Node::lower(params, child, Ghost(table), Ghost(before)) {
                Ok(node) => {
                    children.push(node);
                },
                Err(e) => {
                    return Err(e);
                },
            }
            assert(before + ids(trees[i as int]) =~= taken + ids_before(trees, (i + 1) as nat));
            i += 1;
        }
        let ghost handed = taken + ids_before(trees, trees.len());
        let uuid = io.uuid();
        let bound = params.take_params_affecting_node(uuid);
        assert forall|id: u64| #[trigger]
            params.bindings(id) == remaining(table, handed.insert(io@.uuid), id) by {}
        assert(handed.insert(io@.uuid) =~= taken + ids_before(trees, trees.len()).insert(
            io@.uuid,
        ));
        let node = NodeBase {
            uuid,
            children,
            params: bound,
            base_transform: *io.transform(),
            base_zsort: io.zsort(),
            global_transform: Transform::identity(),
            zsort: io.zsort(),
            lock_to_root: io.lock_to_root(),
        };
        assert(node@.children =~= lowered_base(table, io@, taken).children);
        Ok(node)
    }

    /// The ID of the node.
    pub fn uuid(&self) -> (r: Uuid)
        ensures
            r@ == self@.uuid,
    {
        self.uuid
    }

    /// The children of the node, in their order.
    pub fn children(&self) -> (r: &[Node])
        ensures
            r.deep_view() == self@.children,
    {
        let r = self.children.as_slice();
        assert(r.deep_view() =~= views_of(self.children@));
        r
    }

    /// The bindings that act on this node.
    pub fn params(&self) -> (r: &[ParamBinding])
        ensures
            r.deep_view() == self@.params,
    {
        self.params.as_slice()
    }

    /// The transform that the model gives the node, relative to its parent.
    pub fn base_transform(&self) -> (r: &crate::io::node::Transform)
        ensures
            r@ == self@.base_transform,
    {
        &self.base_transform
    }

    /// The Z-Sort value that the model gives the node.
    pub fn base_zsort(&self) -> (r: u32)
        ensures
            r == self@.base_zsort,
    {
        self.base_zsort
    }

    /// The global transform as the last update left it.
    pub fn global_transform(&self) -> (r: Transform)
        ensures
            r@ == self@.global_transform,
    {
        self.global_transform
    }

    /// The Z-Sort value as the last update left it.
    pub fn zsort(&self) -> (r: u32)
        ensures
            r == self@.zsort,
    {
        self.zsort
    }

    /// Whether the node ignores the transform of its parent.
    pub fn lock_to_root(&self) -> (r: bool)
        ensures
            r == self@.lock_to_root,
    {
        self.lock_to_root
    }
}

/// What a [`Pose`] is.
pub struct PoseView {
    pub zsort: u32,
    pub transform: Seq<u32>,
}

/// What one frame resolves for one node: its Z-Sort value and its global
/// transform.
#[derive(Debug, Clone, Copy)]
pub struct Pose {
    zsort: u32,
    transform: Transform,
}

impl View for Pose {
    type V = PoseView;

    closed spec fn view(&self) -> PoseView {
        PoseView { zsort: self.zsort, transform: self.transform@ }
    }
}

impl DeepView for Pose {
    type V = PoseView;

    open spec fn deep_view(&self) -> PoseView {
        self@
    }
}

impl Pose {
    pub fn new(zsort: u32, transform: Transform) -> (r: Pose)
        ensures
            r@ == (PoseView { zsort, transform: transform@ }),
    {
        Pose { zsort, transform }
    }

    pub fn zsort(&self) -> (r: u32)
        ensures
            r == self@.zsort,
    {
        self.zsort
    }

    pub fn transform(&self) -> (r: Transform)
        ensures
            r@ == self@.transform,
    {
        self.transform
    }
}

/// What the [`Offsets`] of a node are.
pub struct OffsetsView {
    pub zsort: u32,
    pub transform: TransformView,
}

impl OffsetsView {
    /// The value that bindings to `target` act on.
    pub open spec fn component(&self, target: ParamTarget) -> u32 {
        match target {
            ParamTarget::ZSort => self.zsort,
            ParamTarget::TranslationX => self.transform.trans[0],
            ParamTarget::TranslationY => self.transform.trans[1],
            ParamTarget::TranslationZ => self.transform.trans[2],
            ParamTarget::RotationX => self.transform.rot[0],
            ParamTarget::RotationY => self.transform.rot[1],
            ParamTarget::RotationZ => self.transform.rot[2],
            ParamTarget::ScaleX => self.transform.scale[0],
            ParamTarget::ScaleY => self.transform.scale[1],
        }
    }

    /// These offsets with the value for `target` replaced.
    pub open spec fn with(&self, target: ParamTarget, value: u32) -> OffsetsView {
        let t = self.transform;
        match target {
            ParamTarget::ZSort => OffsetsView { zsort: value, ..*self },
            ParamTarget::TranslationX => OffsetsView {
                transform: TransformView { trans: t.trans.update(0, value), ..t },
                ..*self
            },
            ParamTarget::TranslationY => OffsetsView {
                transform: TransformView { trans: t.trans.update(1, value), ..t },
                ..*self
            },
            ParamTarget::TranslationZ => OffsetsView {
                transform: TransformView { trans: t.trans.update(2, value), ..t },
                ..*self
            },
            ParamTarget::RotationX => OffsetsView {
                transform: TransformView { rot: t.rot.update(0, value), ..t },
                ..*self
            },
            ParamTarget::RotationY => OffsetsView {
                transform: TransformView { rot: t.rot.update(1, value), ..t },
                ..*self
            },
            ParamTarget::RotationZ => OffsetsView {
                transform: TransformView { rot: t.rot.update(2, value), ..t },
                ..*self
            },
            ParamTarget::ScaleX => OffsetsView {
                transform: TransformView { scale: t.scale.update(0, value), ..t },
                ..*self
            },
            ParamTarget::ScaleY => OffsetsView {
                transform: TransformView { scale: t.scale.update(1, value), ..t },
                ..*self
            },
        }
    }
}

/// What the bindings of one node add up to during one frame: the Z-Sort
/// value, which starts at the value that the model gives the node, and the
/// offset transform, which starts as the identity.
#[derive(Debug, Clone, Copy)]
pub struct Offsets {
    zsort: u32,
    transform: crate::io::node::Transform,
}

impl View for Offsets {
    type V = OffsetsView;

    closed spec fn view(&self) -> OffsetsView {
        OffsetsView { zsort: self.zsort, transform: self.transform@ }
    }
}

impl Offsets {
    /// The offsets of a node that no binding has acted on yet.
    pub fn new(base_zsort: u32) -> (r: Offsets)
        ensures
            r@ == (OffsetsView {
                zsort: base_zsort,
                transform: crate::io::node::identity_transform(),
            }),
    {
        Offsets { zsort: base_zsort, transform: crate::io::node::Transform::new() }
    }

    /// The Z-Sort value.
    pub fn zsort(&self) -> (r: u32)
        ensures
            r == self@.zsort,
    {
        self.zsort
    }

    /// The offset transform.
    pub fn transform(&self) -> (r: &crate::io::node::Transform)
        ensures
            r@ == self@.transform,
    {
        &self.transform
    }

    /// The value that bindings to `target` act on.
    pub fn get(&self, target: ParamTarget) -> (r: u32)
        ensures
            r == self@.component(target),
    {
        let trans = self.transform.translation();
        let rot = self.transform.rotation();
        let scale = self.transform.scale();
        match target {
            ParamTarget::ZSort => self.zsort,
            ParamTarget::TranslationX => trans[0],
            ParamTarget::TranslationY => trans[1],
            ParamTarget::TranslationZ => trans[2],
            ParamTarget::RotationX => rot[0],
            ParamTarget::RotationY => rot[1],
            ParamTarget::RotationZ => rot[2],
            ParamTarget::ScaleX => scale[0],
            ParamTarget::ScaleY => scale[1],
        }
    }

    /// Replaces the value that bindings to `target` act on, and no other.
    pub fn set(&mut self, target: ParamTarget, value: u32)
        ensures
            final(self)@ == old(self)@.with(target, value),
            final(self)@.component(target) == value,
            forall|other: ParamTarget|
                other != target ==> final(self)@.component(other) == old(self)@.component(other),
    {
        let mut trans = self.transform.translation();
        let mut rot = self.transform.rotation();
        let mut scale = self.transform.scale();
        match target {
            ParamTarget::ZSort => {
                self.zsort = value;
            },
            ParamTarget::TranslationX => {
                trans[0] = value;
            },
            ParamTarget::TranslationY => {
                trans[1] = value;
            },
            ParamTarget::TranslationZ => {
                trans[2] = value;
            },
            ParamTarget::RotationX => {
                rot[0] = value;
            },
            ParamTarget::RotationY => {
                rot[1] = value;
            },
            ParamTarget::RotationZ => {
                rot[2] = value;
            },
            ParamTarget::ScaleX => {
                scale[0] = value;
            },
            ParamTarget::ScaleY => {
                scale[1] = value;
            },
        }
        self.transform.set_translation(trans);
        self.transform.set_rotation(rot);
        self.transform.set_scale(scale);
        assert(self@.transform.trans =~= old(self)@.with(target, value).transform.trans);
        assert(self@.transform.rot =~= old(self)@.with(target, value).transform.rot);
        assert(self@.transform.scale =~= old(self)@.with(target, value).transform.scale);
    }
}

/// The command that an update records for a node with the given pose.
pub open spec fn command(node: NodeBaseView, pose: PoseView) -> RenderCommandView {
    RenderCommandView {
        node: node.uuid,
        zsort: pose.zsort,
        transform: pose.transform,
        deform: None,
    }
}

/// The number of nodes in a tree.
pub open spec fn count(node: NodeView) -> nat
    decreases node, 0nat,
{
    1 + count_among(node.base.children, node.base.children.len())
}

/// The number of nodes in the first `n` trees of a list.
pub open spec fn count_among(trees: Seq<NodeView>, n: nat) -> nat
    decreases trees, n,
{
    if n == 0 || n > trees.len() {
        0
    } else {
        count_among(trees, (n - 1) as nat) + count(trees[n - 1])
    }
}

/// The commands that an update of a tree records: that of the node itself,
/// then those of its children's trees, from first to last. The poses are
/// those of the nodes in that same order.
pub open spec fn emitted(node: NodeView, poses: Seq<PoseView>) -> Seq<RenderCommandView>
    decreases node, 0nat,
{
    seq![command(node.base, poses[0])] + emitted_among(
        node.base.children,
        node.base.children.len(),
        poses.skip(1),
    )
}

/// The commands that an update of the first `n` trees of a list records.
pub open spec fn emitted_among(trees: Seq<NodeView>, n: nat, poses: Seq<PoseView>) -> Seq<
    RenderCommandView,
>
    decreases trees, n,
{
    if n == 0 || n > trees.len() {
        Seq::empty()
    } else {
        emitted_among(trees, (n - 1) as nat, poses) + emitted(
            trees[n - 1],
            poses.skip(count_among(trees, (n - 1) as nat) as int),
        )
    }
}

/// The tree after an update: each node keeps what the model gives it and
/// holds the Z-Sort value and the global transform of its pose.
pub open spec fn posed(node: NodeView, poses: Seq<PoseView>) -> NodeView
    decreases node,
{
    NodeView {
        drawable: node.drawable,
        base: NodeBaseView {
            zsort: poses[0].zsort,
            global_transform: poses[0].transform,
            children: Seq::new(
                node.base.children.len(),
                |i: int|
                    if 0 <= i < node.base.children.len() {
                        posed(
                            node.base.children[i],
                            poses.skip(1 + count_among(node.base.children, i as nat) as int),
                        )
                    } else {
                        arbitrary()
                    },
            ),
            ..node.base
        },
    }
}

/// The nodes of a tree in the order of the walk that an update makes: a
/// node, then its children's trees, from first to last.
pub open spec fn walked(node: NodeView) -> Seq<NodeView>
    decreases node, 0nat,
{
    seq![node] + walked_among(node.base.children, node.base.children.len())
}

/// The nodes of the first `n` trees of a list in the order of the walk.
pub open spec fn walked_among(trees: Seq<NodeView>, n: nat) -> Seq<NodeView>
    decreases trees, n,
{
    if n == 0 || n > trees.len() {
        Seq::empty()
    } else {
        walked_among(trees, (n - 1) as nat) + walked(trees[n - 1])
    }
}

/// For each node of a tree, in the order of the walk, the place of its parent
/// in the walk, where the root of the tree stands at `at` in the walk and has
/// its own parent at `parent`.
pub open spec fn parents_from(node: NodeView, parent: Option<usize>, at: int) -> Seq<Option<usize>>
    decreases node, 0nat,
{
    seq![parent] + parents_among(
        node.base.children,
        node.base.children.len(),
        Some(at as usize),
        at + 1,
    )
}

/// What [`parents_from`] gives for the first `n` trees of a list, which have
/// one parent and of which the first starts at `at` in the walk.
pub open spec fn parents_among(trees: Seq<NodeView>, n: nat, parent: Option<usize>, at: int) -> Seq<
    Option<usize>,
>
    decreases trees, n,
{
    if n == 0 || n > trees.len() {
        Seq::empty()
    } else {
        parents_among(trees, (n - 1) as nat, parent, at) + parents_from(
            trees[n - 1],
            parent,
            at + count_among(trees, (n - 1) as nat),
        )
    }
}

/// What each node of a list shares with every node.
pub open spec fn bases(nodes: Seq<NodeView>) -> Seq<NodeBaseView> {
    Seq::new(nodes.len(), |i: int| nodes[i].base)
}

/// The place in the walk of the parent of the node that stands at `i` in the
/// walk of a tree; none for the root, which stands at 0.
pub open spec fn parent_in_walk(node: NodeView, i: int) -> Option<usize> {
    parents_from(node, None, 0)[i]
}

impl NodeBase {
    /// The frame that the node stands in: the global transform of its
    /// parent, or none where the node is locked to the root and ignores its
    /// parent.
    pub fn frame<'a>(&self, parent: &'a Transform) -> (r: Option<&'a Transform>)
        ensures
            r == if self@.lock_to_root {
                None
            } else {
                Some(parent)
            },
    {
        if self.lock_to_root {
            None
        } else {
            Some(parent)
        }
    }

    /// Stores what the frame resolved for this node and records its command.
    fn update_self(&mut self, rbuf: &mut RenderBuffer, pose: &Pose)
        ensures
            final(self)@ == (NodeBaseView {
                zsort: pose@.zsort,
                global_transform: pose@.transform,
                ..old(self)@
            }),
            final(rbuf)@ == old(rbuf)@.push(command(old(self)@, pose@)),
    {
        self.zsort = pose.zsort();
        self.global_transform = pose.transform();
        rbuf.push(RenderCommand::new(self.uuid, pose.zsort(), pose.transform()));
    }
}

impl Node {
    /// For each node of the tree, in the order of the walk, the place of its
    /// parent in the walk; none for the root. The global transform of a node
    /// is the frame of its children, so the pose of the node at `i` is
    /// resolved against the pose of the node at the place given for `i`.
    pub fn parents(&self) -> (r: Vec<Option<usize>>)
        ensures
            r@.len() == count(self@),
            forall|i: int| 0 <= i < r@.len() ==> r@[i] == parent_in_walk(self@, i),
    {
        let mut out: Vec<Option<usize>> = Vec::new();
        self.collect_parents(None, &mut out);
        proof {
            lemma_parents_len(self@, None, 0);
            assert(out@ =~= parents_from(self@, None, 0));
        }
        out
    }

    fn collect_parents(&self, parent: Option<usize>, out: &mut Vec<Option<usize>>)
        ensures
            final(out)@ == old(out)@ + parents_from(self@, parent, old(out)@.len() as int),
        decreases self@,
    {
        let at: usize = out.len();
        out.push(parent);
        let children = self.base().children();
        let ghost trees = self@.base.children;
        let mut i: usize = 0;
        assert(out@ =~= old(out)@ + seq![parent] + parents_among(trees, 0, Some(at), at + 1));
        while i < children.len()
            invariant
                i <= children@.len(),
                trees == self@.base.children,
                trees == children.deep_view(),
                at == old(out)@.len(),
                out@ == old(out)@ + seq![parent] + parents_among(
                    trees,
                    i as nat,
                    Some(at),
                    at + 1,
                ),
            decreases children@.len() - i,
        {
            assert(children@[i as int]@ == trees[i as int]);
            assert(decreases_to!(self@ => self@.base.children[i as int]));
            let ghost before = out@;
            proof {
                lemma_parents_among_len(trees, i as nat, Some(at), at + 1);
            }
            children[i].collect_parents(Some(at), out);
            assert(out@ =~= old(out)@ + seq![parent] + parents_among(
                trees,
                (i + 1) as nat,
                Some(at),
                at + 1,
            ));
            i += 1;
        }
        assert(out@ =~= old(out)@ + parents_from(self@, parent, at as int));
    }

    /// What the nodes of the tree share with every node, in the order of the
    /// walk.
    pub fn walk(&self) -> (r: Vec<&NodeBase>)
        ensures
            r@.len() == count(self@),
            r.deep_view() == bases(walked(self@)),
    {
        let mut out: Vec<&NodeBase> = Vec::new();
        assert(out.deep_view() =~= Seq::empty());
        self.collect_walk(&mut out);
        proof {
            lemma_walked_len(self@);
            assert(out.deep_view() =~= bases(walked(self@)));
        }
        out
    }

    fn collect_walk<'a>(&'a self, out: &mut Vec<&'a NodeBase>)
        ensures
            final(out).deep_view() == old(out).deep_view() + bases(walked(self@)),
        decreases self@,
    {
        let base = self.base();
        out.push(base);
        let children = base.children();
        let ghost trees = self@.base.children;
        let ghost head = old(out).deep_view() + bases(seq![self@]);
        let mut i: usize = 0;
        assert(out.deep_view() =~= head + bases(walked_among(trees, 0)));
        while i < children.len()
            invariant
                i <= children@.len(),
                trees == self@.base.children,
                trees == children.deep_view(),
                head == old(out).deep_view() + bases(seq![self@]),
                out.deep_view() == head + bases(walked_among(trees, i as nat)),
            decreases children@.len() - i,
        {
            assert(children@[i as int]@ == trees[i as int]);
            assert(decreases_to!(self@ => self@.base.children[i as int]));
            children[i].collect_walk(out);
            proof {
                let done = walked_among(trees, i as nat);
                let next = walked(trees[i as int]);
                assert(walked_among(trees, (i + 1) as nat) == done + next);
                assert(bases(done + next) =~= bases(done) + bases(next));
                assert(out.deep_view() =~= head + bases(done + next));
            }
            i += 1;
        }
        proof {
            let below = walked_among(trees, trees.len());
            assert(bases(seq![self@] + below) =~= bases(seq![self@]) + bases(below));
            assert(out.deep_view() =~= old(out).deep_view() + bases(walked(self@)));
        }
    }

    /// The number of nodes in the tree, or none where it does not fit the
    /// machine's word.
    pub fn node_count(&self) -> (r: Option<usize>)
        ensures
            match r {
                Some(n) => n == count(self@),
                None => count(self@) > usize::MAX,
            },
        decreases self@,
    {
        let base = self.base();
        let children = base.children();
        let ghost trees = self@.base.children;
        let mut total: usize = 1;
        let mut i: usize = 0;
        while i < children.len()
            invariant
                i <= children@.len(),
                trees == self@.base.children,
                trees == children.deep_view(),
                total == 1 + count_among(trees, i as nat),
            decreases children@.len() - i,
        {
            assert(children@[i as int]@ == trees[i as int]);
            assert(decreases_to!(self@ => self@.base.children[i as int]));
            proof {
                lemma_count_among_grows(trees, (i + 1) as nat, trees.len());
            }
            let below: usize = match children[i].node_count() {
                Some(below) => below,
                None => {
                    return None;
                },
            };
            total = match total.checked_add(below) {
                Some(total) => total,
                None => {
                    return None;
                },
            };
            i += 1;
        }
        Some(total)
    }

    /// Stores what one frame resolved for the nodes of the tree and records
    /// their commands in `rbuf`, after those that are there.
    ///
    /// `poses` holds one pose for each node: that of the node itself, then
    /// those of its children's trees, from first to last. `delta` is the time
    /// since the last frame; nothing depends on it yet.
    pub fn update(&mut self, delta: Duration, rbuf: &mut RenderBuffer, poses: &[Pose])
        requires
            poses@.len() == count(old(self)@),
        ensures
            final(rbuf)@ == old(rbuf)@ + emitted(old(self)@, poses.deep_view()),
            final(self)@ == posed(old(self)@, poses.deep_view()),
    {
        assert(poses.deep_view().skip(0) =~= poses.deep_view());
        self.update_recursive(delta, rbuf, poses, 0);
    }

    fn update_recursive(
        &mut self,
        delta: Duration,
        rbuf: &mut RenderBuffer,
        poses: &[Pose],
        start: usize,
    ) -> (next: usize)
        requires
            start + count(old(self)@) <= poses@.len(),
        ensures
            next == start + count(old(self)@),
            final(rbuf)@ == old(rbuf)@ + emitted(old(self)@, poses.deep_view().skip(start as int)),
            final(self)@ == posed(old(self)@, poses.deep_view().skip(start as int)),
        decreases old(self)@,
    {
        let ghost before = self@;
        let ghost all = poses.deep_view().skip(start as int);
        let ghost trees = before.base.children;
        let base: &mut NodeBase = match self {
            Node::Node(node) => node,
            Node::Drawable(node) => &mut node.node,
        };
        assert(poses[start as int]@ == all[0]);
        base.update_self(rbuf, &poses[start]);
        let mut next: usize = start + 1;
        let n: usize = base.children.len();
        let mut i: usize = 0;
        while i < n
            invariant
                i <= n,
                n == trees.len(),
                n == base.children@.len(),
                all == poses.deep_view().skip(start as int),
                start + count(before) <= poses@.len(),
                count(before) == 1 + count_among(trees, n as nat),
                next == start + 1 + count_among(trees, i as nat),
                rbuf@ == old(rbuf)@.push(command(before.base, all[0])) + emitted_among(
                    trees,
                    i as nat,
                    all.skip(1),
                ),
                forall|k: int|
                    0 <= k < i ==> (#[trigger] base.children@[k])@ == posed(
                        trees[k],
                        all.skip(1 + count_among(trees, k as nat) as int),
                    ),
                forall|k: int| i <= k < n ==> (#[trigger] base.children@[k])@ == trees[k],
                trees == before.base.children,
                before == old(self)@,
                (NodeBaseView { children: Seq::empty(), ..base_view(*base) }) == (NodeBaseView {
                    children: Seq::empty(),
                    ..posed(before, all).base
                }),
            decreases n - i,
        {
            assert(count_among(trees, (i + 1) as nat) == count_among(trees, i as nat) + count(
                trees[i as int],
            ));
            proof {
                lemma_count_among_grows(trees, (i + 1) as nat, n as nat);
            }
            let ghost at = next;
            assert(base.children@[i as int]@ == trees[i as int]);
            assert(decreases_to!(before => before.base.children[i as int]));
            next = base.children[i].update_recursive(delta, rbuf, poses, next);
            assert(poses.deep_view().skip(at as int) =~= all.skip(1).skip(
                count_among(trees, i as nat) as int,
            ));
            assert(poses.deep_view().skip(at as int) =~= all.skip(
                1 + count_among(trees, i as nat) as int,
            ));
            i += 1;
        }
        proof {
            let goal = posed(before, all);
            assert(views_of(base.children@) =~= goal.base.children);
            assert(base_view(*base) == goal.base);
        }
        next
    }
}

/// An update changes neither the shape of a tree nor the IDs of its nodes:
/// the updated tree has as many nodes, and a further update with any poses
/// records the commands that it would have recorded before.
pub proof fn lemma_posed_keeps_commands(node: NodeView, first: Seq<PoseView>, poses: Seq<PoseView>)
    ensures
        count(posed(node, first)) == count(node),
        emitted(posed(node, first), poses) == emitted(node, poses),
    decreases node, 1nat,
{
    lemma_posed_keeps_among(node, first, node.base.children.len(), poses.skip(1));
}

/// What [`lemma_posed_keeps_commands`] says, of the first `n` children of a
/// node.
pub proof fn lemma_posed_keeps_among(
    node: NodeView,
    first: Seq<PoseView>,
    n: nat,
    poses: Seq<PoseView>,
)
    requires
        n <= node.base.children.len(),
    ensures
        count_among(posed(node, first).base.children, n) == count_among(node.base.children, n),
        emitted_among(posed(node, first).base.children, n, poses) == emitted_among(
            node.base.children,
            n,
            poses,
        ),
    decreases node, 0nat, n,
{
    let trees = node.base.children;
    let after = posed(node, first).base.children;
    if n > 0 {
        lemma_posed_keeps_among(node, first, (n - 1) as nat, poses);
        let at = count_among(trees, (n - 1) as nat) as int;
        lemma_posed_keeps_commands(trees[n - 1], first.skip(1 + at), poses.skip(at));
        assert(after[n - 1] == posed(trees[n - 1], first.skip(1 + at)));
    }
}

/// The walk visits every node of the tree once.
pub proof fn lemma_walked_len(node: NodeView)
    ensures
        walked(node).len() == count(node),
    decreases node, 0nat,
{
    lemma_walked_among_len(node.base.children, node.base.children.len());
}

/// The walk visits every node of the first `n` trees once.
pub proof fn lemma_walked_among_len(trees: Seq<NodeView>, n: nat)
    ensures
        walked_among(trees, n).len() == count_among(trees, n),
    decreases trees, n,
{
    if n == 0 || n > trees.len() {
    } else {
        lemma_walked_among_len(trees, (n - 1) as nat);
        lemma_walked_len(trees[n - 1]);
    }
}

/// There is one place of a parent for each node of the tree.
pub proof fn lemma_parents_len(node: NodeView, parent: Option<usize>, at: int)
    ensures
        parents_from(node, parent, at).len() == count(node),
    decreases node, 0nat,
{
    lemma_parents_among_len(
        node.base.children,
        node.base.children.len(),
        Some(at as usize),
        at + 1,
    );
}

/// There is one place of a parent for each node of the first `n` trees.
pub proof fn lemma_parents_among_len(
    trees: Seq<NodeView>,
    n: nat,
    parent: Option<usize>,
    at: int,
)
    ensures
        parents_among(trees, n, parent, at).len() == count_among(trees, n),
    decreases trees, n,
{
    if n == 0 || n > trees.len() {
    } else {
        lemma_parents_among_len(trees, (n - 1) as nat, parent, at);
        lemma_parents_len(trees[n - 1], parent, at + count_among(trees, (n - 1) as nat));
    }
}

/// Whether `entry` names the parent of the node at `i` in a walk whose first
/// node stands at `at`: a place before that of the node, at which a node
/// stands that has the node at `i` among its children.
pub open spec fn names_parent(walk: Seq<NodeView>, entry: Option<usize>, at: int, i: int) -> bool {
    match entry {
        Some(place) => at <= place < at + i && walk[place - at].base.children.contains(walk[i]),
        None => false,
    }
}

/// What [`lemma_parent_in_walk`] says, of a tree that stands anywhere in a
/// walk.
proof fn lemma_parents_from(node: NodeView, parent: Option<usize>, at: int, i: int)
    requires
        0 <= at,
        at + count(node) <= usize::MAX,
        0 <= i < count(node),
    ensures
        i == 0 ==> parents_from(node, parent, at)[0] == parent && walked(node)[0] == node,
        i > 0 ==> names_parent(walked(node), parents_from(node, parent, at)[i], at, i),
    decreases node, 0nat,
{
    let trees = node.base.children;
    let own = Some(at as usize);
    let below = walked_among(trees, trees.len());
    let places = parents_among(trees, trees.len(), own, at + 1);
    lemma_walked_among_len(trees, trees.len());
    lemma_parents_among_len(trees, trees.len(), own, at + 1);
    if i > 0 {
        let j = i - 1;
        lemma_parents_among(trees, trees.len(), own, at + 1, j);
        assert(walked(node)[i] == below[j]);
        assert(parents_from(node, parent, at)[i] == places[j]);
        if places[j] == own && exists|k: int| 0 <= k < trees.len() && trees[k] == below[j] {
            let k = choose|k: int| 0 <= k < trees.len() && trees[k] == below[j];
            assert(trees[k] == walked(node)[i]);
            assert(walked(node)[0] == node);
        } else {
            let place = places[j]->Some_0;
            assert(walked(node)[place - at] == below[place - (at + 1)]);
        }
    }
}

/// What [`lemma_parents_from`] says, of the first `n` trees of a list: each
/// node is either the root of one of the trees, with the parent of the list
/// as its parent, or has its parent named within the walk.
proof fn lemma_parents_among(trees: Seq<NodeView>, n: nat, parent: Option<usize>, at: int, j: int)
    requires
        n <= trees.len(),
        0 <= at,
        at + count_among(trees, n) <= usize::MAX,
        0 <= j < count_among(trees, n),
    ensures
        ({
            let places = parents_among(trees, n, parent, at);
            let walk = walked_among(trees, n);
            ||| (places[j] == parent && exists|k: int| 0 <= k < n && trees[k] == walk[j])
            ||| names_parent(walk, places[j], at, j)
        }),
    decreases trees, n,
{
    if n > 0 {
        let m = (n - 1) as nat;
        let c = count_among(trees, m) as int;
        let child = trees[n - 1];
        let before_walk = walked_among(trees, m);
        let before_places = parents_among(trees, m, parent, at);
        lemma_walked_among_len(trees, m);
        lemma_parents_among_len(trees, m, parent, at);
        lemma_walked_len(child);
        lemma_parents_len(child, parent, at + c);
        let places = parents_among(trees, n, parent, at);
        let walk = walked_among(trees, n);
        if j < c {
            lemma_parents_among(trees, m, parent, at, j);
            assert(places[j] == before_places[j]);
            assert(walk[j] == before_walk[j]);
            if before_places[j] == parent && exists|k: int|
                0 <= k < m && trees[k] == before_walk[j] {
                let k = choose|k: int| 0 <= k < m && trees[k] == before_walk[j];
                assert(0 <= k < n && trees[k] == walk[j]);
            } else {
                let place = before_places[j]->Some_0;
                assert(walk[place - at] == before_walk[place - at]);
            }
        } else {
            let i = j - c;
            lemma_parents_from(child, parent, at + c, i);
            assert(places[j] == parents_from(child, parent, at + c)[i]);
            assert(walk[j] == walked(child)[i]);
            if i == 0 {
                assert(trees[n - 1] == walk[j]);
            } else {
                let place = places[j]->Some_0;
                assert(walk[place - at] == walked(child)[place - (at + c)]);
            }
        }
    }
}

/// The places that [`parent_in_walk`] gives are those of the parents: the
/// root has none, and every other node has its parent before it in the walk,
/// as a node that has it among its children.
pub proof fn lemma_parent_in_walk(node: NodeView, i: int)
    requires
        count(node) <= usize::MAX,
        0 <= i < count(node),
    ensures
        i == 0 ==> parent_in_walk(node, i) is None,
        i > 0 ==> names_parent(walked(node), parent_in_walk(node, i), 0, i),
{
    lemma_parents_from(node, None, 0, i);
}

/// The commands of an update follow the walk: the command at `i` is that of
/// the node at `i` in the walk with the pose at `i`.
pub proof fn lemma_emitted_follows_walk(node: NodeView, poses: Seq<PoseView>, i: int)
    requires
        count(node) <= poses.len(),
        0 <= i < count(node),
    ensures
        emitted(node, poses)[i] == command(walked(node)[i].base, poses[i]),
    decreases node, 0nat,
{
    let trees = node.base.children;
    lemma_walked_among_len(trees, trees.len());
    lemma_emitted_among_len(trees, trees.len(), poses.skip(1));
    if i > 0 {
        lemma_emitted_among_follows_walk(trees, trees.len(), poses.skip(1), i - 1);
    }
}

/// What [`lemma_emitted_follows_walk`] says, of the first `n` trees of a
/// list.
pub proof fn lemma_emitted_among_follows_walk(
    trees: Seq<NodeView>,
    n: nat,
    poses: Seq<PoseView>,
    j: int,
)
    requires
        n <= trees.len(),
        count_among(trees, n) <= poses.len(),
        0 <= j < count_among(trees, n),
    ensures
        emitted_among(trees, n, poses)[j] == command(walked_among(trees, n)[j].base, poses[j]),
    decreases trees, n,
{
    if n > 0 {
        let m = (n - 1) as nat;
        let c = count_among(trees, m) as int;
        lemma_walked_among_len(trees, m);
        lemma_emitted_among_len(trees, m, poses);
        lemma_walked_len(trees[n - 1]);
        lemma_emitted_len(trees[n - 1], poses.skip(c));
        if j < c {
            lemma_emitted_among_follows_walk(trees, m, poses, j);
        } else {
            lemma_emitted_follows_walk(trees[n - 1], poses.skip(c), j - c);
        }
    }
}

/// An update records one command for each node of the tree.
pub proof fn lemma_emitted_len(node: NodeView, poses: Seq<PoseView>)
    ensures
        emitted(node, poses).len() == count(node),
    decreases node, 0nat,
{
    lemma_emitted_among_len(node.base.children, node.base.children.len(), poses.skip(1));
}

/// An update records one command for each node of the first `n` trees.
pub proof fn lemma_emitted_among_len(trees: Seq<NodeView>, n: nat, poses: Seq<PoseView>)
    ensures
        emitted_among(trees, n, poses).len() == count_among(trees, n),
    decreases trees, n,
{
    if n == 0 || n > trees.len() {
    } else {
        lemma_emitted_among_len(trees, (n - 1) as nat, poses);
        lemma_emitted_len(trees[n - 1], poses.skip(count_among(trees, (n - 1) as nat) as int));
    }
}

/// The first trees of a list hold no more nodes than more of its trees.
pub proof fn lemma_count_among_grows(trees: Seq<NodeView>, m: nat, n: nat)
    requires
        m <= n <= trees.len(),
    ensures
        count_among(trees, m) <= count_among(trees, n),
    decreases n,
{
    if m < n {
        lemma_count_among_grows(trees, m, (n - 1) as nat);
    }
}

impl core::ops::Deref for Node {
    type Target = NodeBase;

    fn deref(&self) -> (r: &NodeBase)
        ensures
            r@ == self@.base,
    {
        self.base()
    }
}

impl core::ops::Deref for Drawable {
    type Target = NodeBase;

    fn deref(&self) -> (r: &NodeBase)
        ensures
            r@ == self@,
    {
        &self.node
    }
}

impl core::ops::DerefMut for Node {
    fn deref_mut(&mut self) -> (r: &mut NodeBase)
        ensures
            r@ == old(self)@.base,
            final(self)@ == (NodeView { drawable: old(self)@.drawable, base: final(r)@ }),
    {
        match self {
            Node::Node(node) => node,
            Node::Drawable(node) => &mut node.node,
        }
    }
}

impl core::ops::DerefMut for Drawable {
    fn deref_mut(&mut self) -> (r: &mut NodeBase)
        ensures
            r@ == old(self)@,
            final(self)@ == final(r)@,
    {
        &mut self.node
    }
}

} // verus!
