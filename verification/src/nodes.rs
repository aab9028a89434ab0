//! Scene tree held in an arena: nodes refer to their children by index.
//!
//! Nodes are only ever appended, so every child index is strictly greater
//! than its parent's index; that order is the well-formedness invariant and
//! the reason traversal terminates.  Flattening walks the tree in preorder,
//! descending only into opened nodes.

use vstd::prelude::*;

verus! {

/// One tree node: a display name, its parent and children by index, a
/// deleted flag reserved for slot reuse, and whether its subtree is shown.
pub struct Node {
    pub name: String,
    pub parent: Option<usize>,
    pub children: Vec<usize>,
    pub deleted: bool,
    pub opened: bool,
}

/// One row of the flattened tree: which node, how deep, its name, and
/// whether it is opened.
pub struct DrawNode {
    pub id: usize,
    pub depth: usize,
    pub name: String,
    pub opened: bool,
}

/// Every child index points past its parent and into the arena, and no slot
/// is deleted.  The strict child-after-parent order rules out cycles.
pub open spec fn tree_wf(nodes: Seq<Node>) -> bool {
    &&& nodes.len() >= 1
    &&& forall|i: int, k: int|
        #![trigger nodes[i].children@[k]]
        0 <= i < nodes.len() && 0 <= k < nodes[i].children@.len() ==> i < nodes[i].children@[k]
            && nodes[i].children@[k] < nodes.len()
    &&& forall|i: int| 0 <= i < nodes.len() ==> !(#[trigger] nodes[i]).deleted
}

/// A flattened row reduced to its plain values: id, depth, name, opened.
pub open spec fn draw_entries(s: Seq<DrawNode>) -> Seq<(int, int, Seq<char>, bool)> {
    s.map_values(|d: DrawNode| (d.id as int, d.depth as int, d.name@, d.opened))
}

/// Preorder flattening of the subtree at `id`, shown at `depth`: the node's
/// own row, then its children's subtrees in order if the node is opened.
pub open spec fn draw_spec(nodes: Seq<Node>, depth: int, id: int) -> Seq<
    (int, int, Seq<char>, bool),
>
    decreases nodes.len() - id, nodes[id].children@.len() + 1,
        when tree_wf(nodes) && 0 <= id < nodes.len()
{
    seq![(id, depth, nodes[id].name@, nodes[id].opened)] + (if nodes[id].opened {
        draw_children_spec(nodes, depth + 1, id, 0)
    } else {
        Seq::empty()
    })
}

/// Flattening of the subtrees of `parent`'s children from the `k`th on.
pub open spec fn draw_children_spec(nodes: Seq<Node>, depth: int, parent: int, k: int) -> Seq<
    (int, int, Seq<char>, bool),
>
    decreases nodes.len() - parent, nodes[parent].children@.len() - k,
        when tree_wf(nodes) && 0 <= parent < nodes.len() && 0 <= k
{
    if k >= nodes[parent].children@.len() {
        Seq::empty()
    } else {
        draw_spec(nodes, depth, nodes[parent].children@[k] as int) + draw_children_spec(
            nodes,
            depth,
            parent,
            k + 1,
        )
    }
}

/// The arena of nodes; index 0 is the root.
pub struct Nodes {
    nodes: Vec<Node>,
}

impl Nodes {
    /// The arena contents.
    pub closed spec fn nodes_seq(&self) -> Seq<Node> {
        self.nodes@
    }

    /// The arena satisfies the tree invariant.
    pub open spec fn wf(&self) -> bool {
        tree_wf(self.nodes_seq())
    }

    /// A tree holding only an opened root named "root".
    pub fn new() -> (r: Nodes)
        ensures
            r.wf(),
            r.nodes_seq().len() == 1,
            r.nodes_seq()[0].name@ == "root"@,
            r.nodes_seq()[0].parent is None,
            r.nodes_seq()[0].children@ == Seq::<usize>::empty(),
            r.nodes_seq()[0].opened,
    {
        let root = Node {
            name: "root".to_string(),
            parent: None,
            children: Vec::new(),
            deleted: false,
            opened: true,
        };
        let mut nodes: Vec<Node> = Vec::new();
        nodes.push(root);
        let r = Nodes { nodes };
        proof {
            assert(r.nodes_seq()[0].children@ =~= Seq::<usize>::empty());
        }
        r
    }

    /// Store a fresh leaf in the arena, reusing a deleted slot if one exists;
    /// as no slot is ever deleted, the node lands at the end.
    fn add_node_to_nodes(&mut self, node: Node) -> (id: usize)
        requires
            old(self).wf(),
        ensures
            id == old(self).nodes_seq().len(),
            final(self).nodes_seq() == old(self).nodes_seq().push(node),
    {
        let n = self.nodes.len();
        let mut i: usize = 1;
        while i < n
            invariant
                self.wf(),
                self == old(self),
                n == self.nodes_seq().len(),
            decreases n - i,
        {
            if self.nodes[i].deleted {
                proof {
                    assert(false);
                }
                self.nodes[i] = node;
                return i;
            }
            i = i + 1;
        }
        let id = self.nodes.len();
        self.nodes.push(node);
        id
    }

    /// Append a new opened leaf under `parent` and hand back its index.
    pub fn add_node(&mut self, parent: usize, name: &str) -> (id: usize)
        requires
            old(self).wf(),
            parent < old(self).nodes_seq().len(),
        ensures
            final(self).wf(),
            id == old(self).nodes_seq().len(),
            final(self).nodes_seq().len() == old(self).nodes_seq().len() + 1,
            final(self).nodes_seq()[id as int].name@ == name@,
            final(self).nodes_seq()[id as int].parent == Some(parent),
            final(self).nodes_seq()[id as int].children@ == Seq::<usize>::empty(),
            final(self).nodes_seq()[id as int].opened,
            final(self).nodes_seq()[parent as int].children@ == old(self).nodes_seq()[
                parent as int
            ].children@.push(id),
            final(self).nodes_seq()[parent as int].name == old(self).nodes_seq()[
                parent as int
            ].name,
            final(self).nodes_seq()[parent as int].parent == old(self).nodes_seq()[
                parent as int
            ].parent,
            final(self).nodes_seq()[parent as int].opened == old(self).nodes_seq()[
                parent as int
            ].opened,
            forall|i: int|
                0 <= i < old(self).nodes_seq().len() && i != parent ==> final(self).nodes_seq()[i]
                    == old(self).nodes_seq()[i],
    {
        let node = Node {
            name: name.to_string(),
            parent: Some(parent),
            children: Vec::new(),
            deleted: false,
            opened: true,
        };
        proof {
            assert(node.children@ =~= Seq::<usize>::empty());
        }
        let id = self.add_node_to_nodes(node);
        self.nodes[parent].children.push(id);
        proof {
            let s = self.nodes_seq();
            assert forall|i: int, k: int|
                0 <= i < s.len() && 0 <= k < s[i].children@.len() implies i < #[trigger] s[i].children@[k]
                && s[i].children@[k] < s.len() by {
                if i == parent {
                    if k < s[i].children@.len() - 1 {
                        assert(s[i].children@[k] == old(self).nodes_seq()[i].children@[k]);
                    }
                }
            }
        }
        id
    }

    /// Toggle whether the subtree of `id` is shown.
    pub fn switch_opened(&mut self, id: usize)
        requires
            old(self).wf(),
            id < old(self).nodes_seq().len(),
        ensures
            final(self).wf(),
            final(self).nodes_seq().len() == old(self).nodes_seq().len(),
            final(self).nodes_seq()[id as int].opened == !old(self).nodes_seq()[
                id as int
            ].opened,
            final(self).nodes_seq()[id as int].name == old(self).nodes_seq()[id as int].name,
            final(self).nodes_seq()[id as int].parent == old(self).nodes_seq()[id as int].parent,
            final(self).nodes_seq()[id as int].children == old(self).nodes_seq()[
                id as int
            ].children,
            forall|i: int|
                0 <= i < old(self).nodes_seq().len() && i != id ==> final(self).nodes_seq()[i]
                    == old(self).nodes_seq()[i],
    {
        let flipped = !self.nodes[id].opened;
        self.nodes[id].opened = flipped;
        proof {
            let s = self.nodes_seq();
            assert forall|i: int, k: int|
                0 <= i < s.len() && 0 <= k < s[i].children@.len() implies i < #[trigger] s[i].children@[k]
                && s[i].children@[k] < s.len() by {
                assert(s[i].children@ == old(self).nodes_seq()[i].children@);
            }
        }
    }

    /// Emit the row of `id` at `depth`, then, if it is opened, the rows of
    /// its subtree.
    fn draw_tree_node(&self, depth: usize, id: usize, draw_nodes: &mut Vec<DrawNode>)
        requires
            self.wf(),
            id < self.nodes_seq().len(),
            depth <= id,
        ensures
            draw_entries(final(draw_nodes)@) == draw_entries(old(draw_nodes)@) + draw_spec(
                self.nodes_seq(),
                depth as int,
                id as int,
            ),
        decreases self.nodes_seq().len() - id,
    {
        let opened = self.nodes[id].opened;
        let name = self.nodes[id].name.as_str().to_string();
        draw_nodes.push(DrawNode { id, depth, name, opened });
        let ghost after_row = draw_nodes@;
        proof {
            assert(draw_entries(after_row) =~= draw_entries(old(draw_nodes)@) + seq![
                (id as int, depth as int, self.nodes_seq()[id as int].name@, opened),
            ]);
        }
        if opened {
            let n = self.nodes[id].children.len();
            let mut j: usize = 0;
            while j < n
                invariant
                    self.wf(),
                    id < self.nodes_seq().len(),
                    depth <= id,
                    n == self.nodes_seq()[id as int].children@.len(),
                    j <= n,
                    self.nodes_seq()[id as int].opened,
                    draw_entries(draw_nodes@) + draw_children_spec(
                        self.nodes_seq(),
                        depth + 1,
                        id as int,
                        j as int,
                    ) == draw_entries(old(draw_nodes)@) + draw_spec(
                        self.nodes_seq(),
                        depth as int,
                        id as int,
                    ),
                decreases n - j,
            {
                let c = self.nodes[id].children[j];
                self.draw_tree_node(depth + 1, c, draw_nodes);
                proof {
                    assert(draw_entries(draw_nodes@) + draw_children_spec(
                        self.nodes_seq(),
                        depth + 1,
                        id as int,
                        j as int + 1,
                    ) =~= draw_entries(old(draw_nodes)@) + draw_spec(
                        self.nodes_seq(),
                        depth as int,
                        id as int,
                    ));
                }
                j = j + 1;
            }
            proof {
                assert(draw_entries(draw_nodes@) =~= draw_entries(old(draw_nodes)@) + draw_spec(
                    self.nodes_seq(),
                    depth as int,
                    id as int,
                ));
            }
        } else {
            proof {
                assert(draw_entries(draw_nodes@) =~= draw_entries(old(draw_nodes)@) + draw_spec(
                    self.nodes_seq(),
                    depth as int,
                    id as int,
                ));
            }
        }
    }

    /// Flatten the whole tree in preorder from the root, skipping the
    /// subtrees of closed nodes.
    pub fn draw_tree(&self) -> (r: Vec<DrawNode>)
        requires
            self.wf(),
        ensures
            draw_entries(r@) == draw_spec(self.nodes_seq(), 0, 0),
    {
        let mut draw_nodes: Vec<DrawNode> = Vec::new();
        self.draw_tree_node(0, 0, &mut draw_nodes);
        proof {
            assert(draw_entries(draw_nodes@) =~= draw_spec(self.nodes_seq(), 0, 0));
        }
        draw_nodes
    }
}

} // verus!
