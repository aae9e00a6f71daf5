//! The engine: one puppet, and the draw commands of its current frame.

use crate::error::Error;
use crate::error::ErrorKind;
use crate::float::bits_neg;
use crate::float::bits_total_key;
use crate::float::negated;
use crate::float::total_key;
use crate::io::InochiPuppet;
use crate::io::InochiPuppetView;
use crate::io::Uuid;
use crate::io::Vec2;
use crate::node::count;
use crate::node::emitted;
use crate::node::lowered_node;
use crate::node::posed;
use crate::node::tree_supported;
use crate::node::Node;
use crate::node::NodeView;
use crate::node::Pose;
use crate::node::Transform;
use crate::param::affecting;
use crate::param::first_fault;
use crate::param::BindingView;
use crate::param::ParamMap;
use crate::io::param::ParamView;
use crate::stable::lemma_with_key_absent;
use crate::stable::lemma_with_key_concat;
use crate::stable::ordered;
use crate::stable::stably_sorted;
use crate::stable::with_key;
use core::time::Duration;
use vstd::prelude::*;

verus! {

/// What a [`RenderCommand`] is.
pub struct RenderCommandView {
    /// The ID of the node to render.
    pub node: u64,
    /// The node's computed Z-Sort value.
    pub zsort: u32,
    /// The node's computed global transform, in column-major order.
    pub transform: Seq<u32>,
    /// The node's vertex deformations, if there are any.
    pub deform: Option<Seq<Vec2>>,
}

/// The resolved draw state of one node for the current frame.
pub struct RenderCommand {
    node: Uuid,
    zsort: u32,
    transform: Transform,
    deform: Option<Vec<Vec2>>,
}

impl View for RenderCommand {
    type V = RenderCommandView;

    closed spec fn view(&self) -> RenderCommandView {
        RenderCommandView {
            node: self.node@,
            zsort: self.zsort,
            transform: self.transform@,
            deform: match self.deform {
                Some(deform) => Some(deform@),
                None => None,
            },
        }
    }
}

impl DeepView for RenderCommand {
    type V = RenderCommandView;

    open spec fn deep_view(&self) -> RenderCommandView {
        self@
    }
}

impl RenderCommand {
    /// The command to draw `node` at `zsort` under `transform`, without
    /// deformation.
    pub fn new(node: Uuid, zsort: u32, transform: Transform) -> (r: RenderCommand)
        ensures
            r@ == (RenderCommandView { node: node@, zsort, transform: transform@, deform: None }),
    {
        RenderCommand { node, zsort, transform, deform: None }
    }

    /// Returns the ID of the node to render.
    pub fn node(&self) -> (r: Uuid)
        ensures
            r@ == self@.node,
    {
        self.node
    }

    /// Returns the node's computed Z-Sort value.
    pub fn zsort(&self) -> (r: u32)
        ensures
            r == self@.zsort,
    {
        self.zsort
    }

    /// Returns the node's computed global transform.
    pub fn transform(&self) -> (r: Transform)
        ensures
            r@ == self@.transform,
    {
        self.transform
    }

    /// Returns the node's vertex deformations, if there is any.
    ///
    /// If this returns `Some`, the number of entries in the slice will match
    /// the number of vertices of the node's mesh.
    pub fn deform(&self) -> (r: Option<&[Vec2]>)
        ensures
            match r {
                Some(deform) => self@.deform == Some(deform@),
                None => self@.deform is None,
            },
    {
        match &self.deform {
            Some(deform) => Some(deform.as_slice()),
            None => None,
        }
    }
}

/// The place of a command in the draw order: commands are drawn from the
/// largest Z-Sort value to the smallest, so the key is that of the negated
/// value in the total order.
pub open spec fn depth_key(command: RenderCommandView) -> int {
    total_key(negated(command.zsort))
}

/// Whether the commands stand back to front: no command has a larger Z-Sort
/// value, by the total order, than the one before it.
pub open spec fn back_to_front(commands: Seq<RenderCommandView>) -> bool {
    forall|i: int, j: int|
        0 <= i <= j < commands.len() ==> total_key((#[trigger] commands[i]).zsort) >= total_key(
            (#[trigger] commands[j]).zsort,
        )
}

/// Commands that are ordered by their depth key stand back to front.
pub proof fn lemma_ordered_is_back_to_front(commands: Seq<RenderCommandView>)
    requires
        ordered(commands, |c: RenderCommandView| depth_key(c)),
    ensures
        back_to_front(commands),
{
    assert forall|i: int, j: int| 0 <= i <= j < commands.len() implies total_key(
        (#[trigger] commands[i]).zsort,
    ) >= total_key((#[trigger] commands[j]).zsort) by {
        let key = |c: RenderCommandView| depth_key(c);
        assert(key(commands[i]) <= key(commands[j]));
    }
}

/// Records rendering commands while nodes are being updated.
pub struct RenderBuffer {
    commands: Vec<RenderCommand>,
}

impl View for RenderBuffer {
    /// The recorded commands, in their order.
    type V = Seq<RenderCommandView>;

    closed spec fn view(&self) -> Seq<RenderCommandView> {
        self.commands.deep_view()
    }
}

impl RenderBuffer {
    /// A buffer without commands.
    pub fn new() -> (r: RenderBuffer)
        ensures
            r@ == Seq::<RenderCommandView>::empty(),
    {
        let r = RenderBuffer { commands: Vec::new() };
        assert(r.commands.deep_view() =~= Seq::empty());
        r
    }

    /// Forgets the recorded commands.
    pub fn clear(&mut self)
        ensures
            final(self)@ == Seq::<RenderCommandView>::empty(),
    {
        self.commands.clear();
        assert(self.commands.deep_view() =~= Seq::empty());
    }

    /// Records a command after those that are there.
    pub fn push(&mut self, cmd: RenderCommand)
        ensures
            final(self)@ == old(self)@.push(cmd@),
    {
        self.commands.push(cmd);
        assert(self.commands.deep_view() =~= old(self).commands.deep_view().push(cmd@));
    }

    /// The recorded commands, in their order.
    pub fn commands(&self) -> (r: &[RenderCommand])
        ensures
            r.deep_view() == self@,
    {
        self.commands.as_slice()
    }

    /// Sorts the commands by Z-Sort value, descending, so that the back-most
    /// node comes first. Commands with the same value keep their order.
    pub fn finish(&mut self)
        ensures
            stably_sorted(final(self)@, old(self)@, |c: RenderCommandView| depth_key(c)),
            back_to_front(final(self)@),
            final(self)@.len() == old(self)@.len(),
    {
        let ghost key = |c: RenderCommandView| depth_key(c);
        let ghost start = self@;
        let n: usize = self.commands.len();
        let mut i: usize = 0;
        assert(self@.take(0) =~= Seq::empty());
        while i < n
            invariant
                i <= n,
                n == self.commands@.len(),
                n == start.len(),
                key == (|c: RenderCommandView| depth_key(c)),
                ordered(self@.take(i as int), key),
                self@.skip(i as int) == start.skip(i as int),
                forall|k: int| #[trigger]
                    with_key(self@.take(i as int), key, k) == with_key(start.take(i as int), key, k),
            decreases n - i,
        {
            let ghost before = self@;
            let moved: i64 = bits_total_key(bits_neg(self.commands[i].zsort));
            assert(self.commands@[i as int]@ == before[i as int]);
            assert(moved == key(before[i as int]));
            let mut p: usize = i;
            while p > 0 && bits_total_key(bits_neg(self.commands[p - 1].zsort)) > moved
                invariant
                    p <= i < n,
                    n == self.commands@.len(),
                    before == self@,
                    key == (|c: RenderCommandView| depth_key(c)),
                    forall|k: int| p <= k < i ==> key(#[trigger] before[k]) > moved,
                decreases p,
            {
                assert(self.commands@[p - 1]@ == before[p - 1]);
                p -= 1;
            }
            assert(p > 0 ==> self.commands@[p - 1]@ == before[p - 1]);
            let command = self.commands.remove(i);
            self.commands.insert(p, command);
            proof {
                let x = before[i as int];
                let head = before.take(p as int);
                let mid = before.subrange(p as int, i as int);
                let after = self@;
                assert(after =~= before.remove(i as int).insert(p as int, x));
                assert(after.take(i + 1) =~= head.push(x) + mid);
                assert(before.take(i as int) =~= head + mid);
                assert(after.skip(i + 1) =~= before.skip(i + 1));
                assert(start.skip(i + 1) =~= start.skip(i as int).skip(1));
                assert(before.skip(i + 1) =~= before.skip(i as int).skip(1));
                assert(start.skip(i as int)[0] == before.skip(i as int)[0]);
                assert(start[i as int] == x);
                // the keys before the place do not exceed the moved key
                assert forall|a: int, b: int| 0 <= a <= b < i + 1 implies key(
                    #[trigger] after.take(i + 1)[a],
                ) <= key(#[trigger] after.take(i + 1)[b]) by {
                    let t = after.take(i + 1);
                    let old_take = before.take(i as int);
                    if p > 0 {
                        assert(key(old_take[p - 1]) <= moved);
                    }
                    if a < p {
                        assert(t[a] == old_take[a]);
                        assert(p > 0);
                        assert(key(old_take[a]) <= key(old_take[p - 1]));
                    } else if a > p {
                        assert(t[a] == old_take[a - 1]);
                    }
                    if b < p {
                        assert(t[b] == old_take[b]);
                    } else if b > p {
                        assert(t[b] == old_take[b - 1]);
                        assert(key(before[b - 1]) > moved);
                    }
                    if a > p && b > p {
                        assert(key(old_take[a - 1]) <= key(old_take[b - 1]));
                    }
                    if a < p && b < p {
                        assert(key(old_take[a]) <= key(old_take[b]));
                    }
                }
                assert forall|k: int| #[trigger]
                    with_key(after.take(i + 1), key, k) == with_key(start.take(i + 1), key, k) by {
                    lemma_with_key_concat(head.push(x), mid, key, k);
                    lemma_with_key_concat(head, mid, key, k);
                    assert(head.push(x).drop_last() =~= head);
                    assert(start.take(i + 1).drop_last() =~= start.take(i as int));
                    assert(start.take(i + 1).last() == x);
                    assert(with_key(before.take(i as int), key, k) == with_key(
                        start.take(i as int),
                        key,
                        k,
                    ));
                    if k == moved {
                        assert forall|m: int| 0 <= m < mid.len() implies key(#[trigger] mid[m])
                            != k by {
                            assert(mid[m] == before[p + m]);
                        }
                        lemma_with_key_absent(mid, key, k);
                        assert(with_key(head, key, k) + Seq::<RenderCommandView>::empty()
                            =~= with_key(head, key, k));
                        assert(with_key(head, key, k).push(x) + Seq::<RenderCommandView>::empty()
                            =~= with_key(head, key, k).push(x));
                    }
                }
            }
            i += 1;
        }
        proof {
            assert(self@.take(n as int) =~= self@);
            assert(start.take(n as int) =~= start);
            lemma_ordered_is_back_to_front(self@);
        }
    }
}

/// The table of bindings that a list of described parameters gives: for
/// every node ID the bindings that act on that node.
pub open spec fn table_of(params: Seq<ParamView>) -> Map<u64, Seq<BindingView>> {
    Map::new(|id: u64| true, |id: u64| affecting(params, id))
}

/// Why no engine can be built for a described puppet, if none can: the fault
/// of its parameters, or else `Unsupported` where its tree holds a node that
/// the engine does not build.
pub open spec fn construction_fault(puppet: InochiPuppetView) -> Option<ErrorKind> {
    match first_fault(puppet.param) {
        Some(kind) => Some(kind),
        None => if tree_supported(puppet.nodes) {
            None
        } else {
            Some(ErrorKind::Unsupported)
        },
    }
}

/// What a [`PuppetEngine`] is.
pub struct PuppetEngineView {
    /// The tree of the puppet.
    pub root: NodeView,
    /// The commands of the last frame, back to front.
    pub commands: Seq<RenderCommandView>,
}

/// Owns the tree of one puppet and the draw commands of its current frame.
pub struct PuppetEngine {
    root_node: Node,
    render_buffer: RenderBuffer,
}

impl View for PuppetEngine {
    type V = PuppetEngineView;

    closed spec fn view(&self) -> PuppetEngineView {
        PuppetEngineView { root: self.root_node@, commands: self.render_buffer@ }
    }
}

impl PuppetEngine {
    /// Builds the engine of a described puppet: the table of its bindings,
    /// then its tree, which takes the bindings out of the table.
    ///
    /// The construction fails with the fault that [`construction_fault`]
    /// names, and succeeds where it names none. A new engine holds no
    /// commands.
    pub fn new(puppet: &InochiPuppet) -> (r: Result<PuppetEngine, Error>)
        ensures
            match r {
                Ok(engine) => {
                    &&& construction_fault(puppet@) is None
                    &&& engine@.root == lowered_node(
                        table_of(puppet@.param),
                        puppet@.nodes,
                        Set::empty(),
                    )
                    &&& engine@.commands == Seq::<RenderCommandView>::empty()
                },
                Err(e) => construction_fault(puppet@) == Some(e.spec_kind()),
            },
    {
        let mut param_map = match ParamMap::lower(puppet.params()) {
            Ok(table) => table,
            Err(e) => {
                return Err(e);
            },
        };
        assert(param_map.table() =~= table_of(puppet@.param));
        match Node::from_io(&mut param_map, puppet.root_node()) {
            Ok(root_node) => Ok(PuppetEngine { root_node, render_buffer: RenderBuffer::new() }),
            Err(e) => Err(e),
        }
    }

    /// The tree of the puppet.
    pub fn root_node(&self) -> (r: &Node)
        ensures
            r@ == self@.root,
    {
        &self.root_node
    }

    /// The commands of the last frame, back to front.
    pub fn commands(&self) -> (r: &[RenderCommand])
        ensures
            r.deep_view() == self@.commands,
    {
        self.render_buffer.commands()
    }

    /// Runs one frame: stores what the frame resolved for each node, records
    /// one command for each node and sorts the commands back to front.
    ///
    /// `poses` holds one pose for each node of the tree, in the order in which
    /// [`emitted`] reads them. The commands of the frame before are dropped.
    /// `delta` is the time since the last frame; nothing depends on it yet.
    pub fn update(&mut self, delta: Duration, poses: &[Pose]) -> (r: &[RenderCommand])
        requires
            poses@.len() == count(old(self)@.root),
        ensures
            r.deep_view() == final(self)@.commands,
            final(self)@.root == posed(old(self)@.root, poses.deep_view()),
            stably_sorted(
                final(self)@.commands,
                emitted(old(self)@.root, poses.deep_view()),
                |c: RenderCommandView| depth_key(c),
            ),
            back_to_front(final(self)@.commands),
            final(self)@.commands.len() == count(old(self)@.root),
    {
        self.render_buffer.clear();
        self.root_node.update(delta, &mut self.render_buffer, poses);
        assert(self.render_buffer@ =~= emitted(old(self)@.root, poses.deep_view()));
        proof {
            crate::node::lemma_emitted_len(old(self)@.root, poses.deep_view());
        }
        self.render_buffer.finish();
        self.render_buffer.commands()
    }
}

/// Updating twice with the same poses gives the same commands: where
/// `first` is what an update of `root` leaves as commands and `second` is
/// what an update of the updated tree leaves, the two are the same sequence.
pub proof fn lemma_update_idempotent(
    root: NodeView,
    poses: Seq<crate::node::PoseView>,
    first: Seq<RenderCommandView>,
    second: Seq<RenderCommandView>,
)
    requires
        stably_sorted(first, emitted(root, poses), |c: RenderCommandView| depth_key(c)),
        stably_sorted(
            second,
            emitted(posed(root, poses), poses),
            |c: RenderCommandView| depth_key(c),
        ),
    ensures
        first == second,
        count(posed(root, poses)) == count(root),
{
    crate::node::lemma_posed_keeps_commands(root, poses, poses);
    crate::stable::lemma_stably_sorted_unique(
        first,
        second,
        emitted(root, poses),
        |c: RenderCommandView| depth_key(c),
    );
}

} // verus!
