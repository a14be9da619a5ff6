//! The concrete syntax tree.
//!
//! A tree is kept as the list of its nodes in document order: a node comes
//! before its children, and the nodes below it follow it without a gap. Each
//! node records where the nodes below it end, so that its first child is the
//! node after it and its next sibling is the node at that end.

use super::parser::{read_source, utf8};
use crate::language::Cool;
use crate::util::span::Span;
use vstd::prelude::*;
use vstd::slice::slice_subrange;
use vstd::utf8::{decode_utf8, valid_utf8};

verus! {

/// What the parser says of one node: its kind, whether it stands for a token
/// that the parser made up to recover from an error, and the text it covers,
/// as a range of bytes and as rows and columns counted from zero.
#[derive(Clone, Copy, Debug, PartialEq, Eq)]
pub struct NodeInfo {
    pub kind: u16,
    pub missing: bool,
    pub start_byte: usize,
    pub end_byte: usize,
    pub start_row: usize,
    pub start_column: usize,
    pub end_row: usize,
    pub end_column: usize,
}

/// One node as the tree keeps it: what the parser says of it, the index of
/// its parent (of itself, for the root) and the index just after the last
/// node below it.
#[derive(Clone, Copy, Debug, PartialEq, Eq)]
pub struct NodeData {
    pub info: NodeInfo,
    pub parent: usize,
    pub end: usize,
}

/// Rows and columns can be counted from one without overflow.
pub open spec fn positions_fit(info: NodeInfo) -> bool {
    &&& info.start_row < usize::MAX
    &&& info.start_column < usize::MAX
    &&& info.end_row < usize::MAX
    &&& info.end_column < usize::MAX
}

/// Node `n` of the list `nodes` fits into a tree in document order: the
/// nodes below it follow it, its positions fit, it lies below its parent, and
/// the node after it and the node at its end, when they lie below the same
/// parent, name that parent.
pub open spec fn node_ok(nodes: Seq<NodeData>, n: int) -> bool {
    &&& n < nodes[n].end <= nodes.len()
    &&& positions_fit(nodes[n].info)
    &&& n >= 1 ==> nodes[n].parent < n && nodes[n].end <= nodes[nodes[n].parent as int].end
    &&& n + 1 < nodes[n].end ==> nodes[n + 1].parent == n
    &&& n >= 1 && nodes[n].end < nodes[nodes[n].parent as int].end ==> nodes[nodes[n].end as int].parent
        == nodes[n].parent
}

/// The list `nodes` is a tree in document order with its root first.
pub open spec fn well_formed(nodes: Seq<NodeData>) -> bool {
    &&& nodes.len() >= 1
    &&& nodes[0].end == nodes.len()
    &&& forall|n: int| 0 <= n < nodes.len() ==> #[trigger] node_ok(nodes, n)
}

/// The first child of node `n`, if it has children.
pub open spec fn first_child(nodes: Seq<NodeData>, n: int) -> Option<int> {
    if n + 1 < nodes[n].end {
        Some(n + 1)
    } else {
        None
    }
}

/// The sibling that follows node `n`, if there is one.
pub open spec fn next_sibling(nodes: Seq<NodeData>, n: int) -> Option<int> {
    if n >= 1 && nodes[n].end < nodes[nodes[n].parent as int].end {
        Some(nodes[n].end as int)
    } else {
        None
    }
}

/// The child of node `n` at position `pos`, counted from zero.
pub open spec fn nth_child(nodes: Seq<NodeData>, n: int, pos: nat) -> Option<int>
    decreases pos,
{
    if pos == 0 {
        first_child(nodes, n)
    } else {
        match nth_child(nodes, n, (pos - 1) as nat) {
            Some(c) => next_sibling(nodes, c),
            None => None,
        }
    }
}

/// The siblings from node `c` on, in order; none when `c` is no node.
pub open spec fn siblings_from(nodes: Seq<NodeData>, c: Option<int>) -> Seq<int>
    decreases
        (match c {
            Some(c) => nodes.len() - c,
            None => 0,
        }),
{
    match c {
        Some(c) => if 0 <= c < nodes.len() && c < nodes[c].end <= nodes.len() {
            seq![c] + siblings_from(nodes, next_sibling(nodes, c))
        } else {
            Seq::empty()
        },
        None => Seq::empty(),
    }
}

/// The children of node `n`, in order.
pub open spec fn children_of(nodes: Seq<NodeData>, n: int) -> Seq<int> {
    siblings_from(nodes, first_child(nodes, n))
}

/// The node `level` steps above node `n`, if the tree reaches that high.
pub open spec fn ancestor(nodes: Seq<NodeData>, n: int, level: nat) -> Option<int>
    decreases level,
{
    if level == 0 {
        Some(n)
    } else if n >= 1 {
        ancestor(nodes, nodes[n].parent as int, (level - 1) as nat)
    } else {
        None
    }
}

/// The region of text of a node, with rows and columns counted from one.
pub open spec fn span_of(info: NodeInfo) -> Span {
    (
        (info.start_row + 1) as usize,
        (info.start_column + 1) as usize,
        (info.end_row + 1) as usize,
        (info.end_column + 1) as usize,
    )
}

/// The text that a node covers in the source `src`: the bytes of its range,
/// read as UTF-8. There is none when the range does not lie in the source or
/// its bytes are not UTF-8.
pub open spec fn text_of(src: Seq<u8>, info: NodeInfo) -> Option<Seq<char>> {
    if info.start_byte <= info.end_byte <= src.len() && valid_utf8(
        src.subrange(info.start_byte as int, info.end_byte as int),
    ) {
        Some(decode_utf8(src.subrange(info.start_byte as int, info.end_byte as int)))
    } else {
        None
    }
}

/// A concrete syntax tree.
#[derive(Debug)]
pub struct Tree {
    nodes: Vec<NodeData>,
}

impl View for Tree {
    type V = Seq<NodeData>;

    closed spec fn view(&self) -> Seq<NodeData> {
        self.nodes@
    }
}

/// A node of a tree.
#[derive(Clone, Copy, Debug)]
pub struct Node<'a> {
    tree: &'a Tree,
    idx: usize,
}

/// A position in a tree that can be moved from node to node, below the node
/// that it was last reset to.
#[derive(Clone, Copy, Debug)]
pub struct Cursor<'a> {
    root: usize,
    at: Node<'a>,
}

impl Tree {
    #[verifier::type_invariant]
    spec fn inv(&self) -> bool {
        well_formed(self.nodes@)
    }

    /// The tree that the parser of the Cool grammar builds for `code`. There
    /// is none when the parser does not take the grammar or gives no tree,
    /// or when its tree cannot be copied.
    pub fn new(code: &[u8]) -> (tree: Option<Tree>)
        ensures
            tree matches Some(t) ==> well_formed(t@),
    {
        read_source(code)
    }

    /// The root of the tree.
    pub fn get_root(&self) -> (root: Node<'_>)
        ensures
            well_formed(self@),
            root.nodes() == self@,
            root.index() == 0,
    {
        proof {
            use_type_invariant(self);
        }
        Node { tree: self, idx: 0 }
    }

    /// The number of nodes of the tree.
    pub fn len(&self) -> (n: usize)
        ensures
            n == self@.len(),
    {
        self.nodes.len()
    }
}

impl<'a> Node<'a> {
    #[verifier::type_invariant]
    spec fn inv(&self) -> bool {
        self.idx < self.tree.nodes@.len()
    }

    /// The nodes of the tree that this node belongs to.
    pub closed spec fn nodes(&self) -> Seq<NodeData> {
        self.tree.nodes@
    }

    /// The place of this node among the nodes of its tree.
    pub closed spec fn index(&self) -> int {
        self.idx as int
    }

    /// What the tree keeps of this node.
    pub fn data(&self) -> (data: NodeData)
        ensures
            well_formed(self.nodes()),
            0 <= self.index() < self.nodes().len(),
            data == self.nodes()[self.index()],
    {
        proof {
            use_type_invariant(self);
            use_type_invariant(self.tree);
        }
        self.tree.nodes[self.idx]
    }

    /// Whether the parser made this node up to recover from an error.
    pub fn is_missing(&self) -> (missing: bool)
        ensures
            missing == self.nodes()[self.index()].info.missing,
    {
        self.data().info.missing
    }

    /// The number of nodes at and below this node.
    pub fn descendant_count(&self) -> (count: usize)
        ensures
            count == self.nodes()[self.index()].end - self.index(),
    {
        let data = self.data();
        assert(node_ok(self.nodes(), self.index()));
        data.end - self.idx
    }

    /// The place of this node in its tree, which no other node has.
    pub fn id(&self) -> (id: usize)
        ensures
            id == self.index(),
    {
        self.idx
    }

    /// The byte of the source at which this node starts.
    pub fn start_byte(&self) -> (at: usize)
        ensures
            at == self.nodes()[self.index()].info.start_byte,
    {
        self.data().info.start_byte
    }

    /// The byte of the source before which this node ends.
    pub fn end_byte(&self) -> (at: usize)
        ensures
            at == self.nodes()[self.index()].info.end_byte,
    {
        self.data().info.end_byte
    }

    /// The row and the column at which this node starts, counted from zero.
    pub fn start_position(&self) -> (at: (usize, usize))
        ensures
            at == (
                self.nodes()[self.index()].info.start_row,
                self.nodes()[self.index()].info.start_column,
            ),
    {
        let info = self.data().info;
        (info.start_row, info.start_column)
    }

    /// The row and the column before which this node ends, counted from
    /// zero.
    pub fn end_position(&self) -> (at: (usize, usize))
        ensures
            at == (
                self.nodes()[self.index()].info.end_row,
                self.nodes()[self.index()].info.end_column,
            ),
    {
        let info = self.data().info;
        (info.end_row, info.end_column)
    }

    /// The row at which this node starts, counted from zero.
    pub fn start_row(&self) -> (row: usize)
        ensures
            row == self.nodes()[self.index()].info.start_row,
    {
        self.data().info.start_row
    }

    /// The row at which this node ends, counted from zero.
    pub fn end_row(&self) -> (row: usize)
        ensures
            row == self.nodes()[self.index()].info.end_row,
    {
        self.data().info.end_row
    }

    /// The kind of this node.
    pub fn rule(&self) -> (kind: Cool)
        ensures
            kind == Cool::of_code(self.nodes()[self.index()].info.kind as int),
    {
        Cool::from(self.data().info.kind)
    }

    /// The region of text of this node, rows and columns counted from one.
    pub fn span(&self) -> (span: Span)
        ensures
            span == span_of(self.nodes()[self.index()].info),
    {
        let info = self.data().info;
        assert(node_ok(self.nodes(), self.index()));
        (info.start_row + 1, info.start_column + 1, info.end_row + 1, info.end_column + 1)
    }

    /// The text that this node covers in `data`.
    pub fn utf8_text(&self, data: &'a [u8]) -> (text: Option<&'a str>)
        ensures
            (match text {
                Some(t) => text_of(data@, self.nodes()[self.index()].info) == Some(t@),
                None => text_of(data@, self.nodes()[self.index()].info) is None,
            }),
    {
        let info = self.data().info;
        if info.start_byte <= info.end_byte && info.end_byte <= data.len() {
            let text = utf8(slice_subrange(data, info.start_byte, info.end_byte));
            proof {
                if let Some(t) = text {
                    vstd::utf8::encode_utf8_decode_utf8(t@);
                }
            }
            text
        } else {
            None
        }
    }

    /// The parent of this node; the root has none.
    pub fn parent(&self) -> (parent: Option<Node<'a>>)
        ensures
            (match parent {
                Some(p) => self.index() >= 1 && p.nodes() == self.nodes() && p.index()
                    == self.nodes()[self.index()].parent,
                None => self.index() == 0,
            }),
    {
        let data = self.data();
        if self.idx == 0 {
            None
        } else {
            assert(node_ok(self.nodes(), self.index()));
            Some(Node { tree: self.tree, idx: data.parent })
        }
    }

    /// The first child of this node, if it has children.
    pub fn first_child(&self) -> (child: Option<Node<'a>>)
        ensures
            (match child {
                Some(c) => c.nodes() == self.nodes() && first_child(self.nodes(), self.index())
                    == Some(c.index()),
                None => first_child(self.nodes(), self.index()) is None,
            }),
    {
        let data = self.data();
        assert(node_ok(self.nodes(), self.index()));
        if self.idx + 1 < data.end {
            Some(Node { tree: self.tree, idx: self.idx + 1 })
        } else {
            None
        }
    }

    /// The sibling that follows this node, if there is one.
    pub fn next_sibling(&self) -> (sibling: Option<Node<'a>>)
        ensures
            (match sibling {
                Some(s) => s.nodes() == self.nodes() && next_sibling(self.nodes(), self.index())
                    == Some(s.index()),
                None => next_sibling(self.nodes(), self.index()) is None,
            }),
    {
        let data = self.data();
        if self.idx == 0 {
            return None;
        }
        assert(node_ok(self.nodes(), self.index()));
        assert(node_ok(self.nodes(), data.parent as int));
        let above = self.tree.nodes[data.parent];
        if data.end < above.end {
            Some(Node { tree: self.tree, idx: data.end })
        } else {
            None
        }
    }

    /// The child of this node at position `pos`, counted from zero.
    pub fn child(&self, pos: usize) -> (child: Option<Node<'a>>)
        ensures
            (match child {
                Some(c) => c.nodes() == self.nodes() && nth_child(
                    self.nodes(),
                    self.index(),
                    pos as nat,
                ) == Some(c.index()),
                None => nth_child(self.nodes(), self.index(), pos as nat) is None,
            }),
    {
        let mut at = self.first_child();
        let mut i: usize = 0;
        while i < pos
            invariant
                i <= pos,
                (match at {
                    Some(c) => c.nodes() == self.nodes() && nth_child(
                        self.nodes(),
                        self.index(),
                        i as nat,
                    ) == Some(c.index()),
                    None => nth_child(self.nodes(), self.index(), i as nat) is None,
                }),
            decreases pos - i,
        {
            at =
            match at {
                Some(c) => c.next_sibling(),
                None => None,
            };
            i = i + 1;
        }
        at
    }

    /// The children of this node, in order.
    pub fn children(&self) -> (children: Vec<Node<'a>>)
        ensures
            children@.len() == children_of(self.nodes(), self.index()).len(),
            forall|i: int|
                0 <= i < children@.len() ==> (#[trigger] children@[i]).nodes() == self.nodes()
                    && children@[i].index() == children_of(self.nodes(), self.index())[i],
    {
        let data = self.data();
        let ghost nodes = self.nodes();
        let ghost all = children_of(nodes, self.index());
        let mut children: Vec<Node<'a>> = Vec::new();
        let mut at = self.first_child();
        let ghost mut rest = all;
        loop
            invariant
                well_formed(nodes),
                nodes == self.nodes(),
                all == children_of(nodes, self.index()),
                children@.len() + rest.len() == all.len(),
                rest == all.skip(children@.len() as int),
                forall|i: int|
                    0 <= i < children@.len() ==> (#[trigger] children@[i]).nodes() == nodes
                        && children@[i].index() == all[i],
                (match at {
                    Some(c) => c.nodes() == nodes && rest == siblings_from(nodes, Some(c.index())),
                    None => rest.len() == 0,
                }),
            decreases rest.len(),
        {
            match at {
                None => {
                    return children;
                },
                Some(child) => {
                    let entry = child.data();
                    proof {
                        assert(node_ok(nodes, child.index()));
                        assert(rest == seq![child.index()] + siblings_from(
                            nodes,
                            next_sibling(nodes, child.index()),
                        ));
                        assert(rest[0] == child.index());
                    }
                    at = child.next_sibling();
                    children.push(child);
                    proof {
                        rest = rest.skip(1);
                    }
                },
            }
        }
    }

    /// The number of children of this node.
    pub fn child_count(&self) -> (count: usize)
        ensures
            count == children_of(self.nodes(), self.index()).len(),
    {
        self.children().len()
    }

    /// Whether a child of this node is of the kind that the grammar
    /// numbers `id`.
    pub fn is_child(&self, id: u16) -> (found: bool)
        ensures
            found == exists|i: int|
                0 <= i < children_of(self.nodes(), self.index()).len() && self.nodes()[(
                #[trigger] children_of(self.nodes(), self.index())[i])].info.kind == id,
    {
        let children = self.children();
        let ghost all = children_of(self.nodes(), self.index());
        let mut i: usize = 0;
        while i < children.len()
            invariant
                i <= children.len(),
                children@.len() == all.len(),
                all == children_of(self.nodes(), self.index()),
                forall|j: int|
                    0 <= j < children@.len() ==> (#[trigger] children@[j]).nodes() == self.nodes()
                        && children@[j].index() == all[j],
                forall|j: int| 0 <= j < i ==> self.nodes()[#[trigger] all[j]].info.kind != id,
            decreases children.len() - i,
        {
            let child = children[i];
            if child.data().info.kind == id {
                return true;
            }
            i = i + 1;
        }
        false
    }

    /// Whether this node has a parent, and a child of the kind that the
    /// grammar numbers `id`.
    pub fn has_sibling(&self, id: u16) -> (found: bool)
        ensures
            found == (self.index() >= 1 && exists|i: int|
                0 <= i < children_of(self.nodes(), self.index()).len() && self.nodes()[(
                #[trigger] children_of(self.nodes(), self.index())[i])].info.kind == id),
    {
        match self.parent() {
            Some(_) => self.is_child(id),
            None => false,
        }
    }

    /// The node `level` steps above this node, if the tree reaches that
    /// high.
    pub fn get_parent(&self, level: usize) -> (above: Option<Node<'a>>)
        ensures
            (match above {
                Some(node) => node.nodes() == self.nodes() && ancestor(
                    self.nodes(),
                    self.index(),
                    level as nat,
                ) == Some(node.index()),
                None => ancestor(self.nodes(), self.index(), level as nat) is None,
            }),
    {
        let mut left = level;
        let mut node = *self;
        while left != 0
            invariant
                node.nodes() == self.nodes(),
                ancestor(self.nodes(), self.index(), level as nat) == ancestor(
                    self.nodes(),
                    node.index(),
                    left as nat,
                ),
            decreases left,
        {
            match node.parent() {
                Some(parent) => {
                    node = parent;
                },
                None => {
                    return None;
                },
            }
            left = left - 1;
        }
        Some(node)
    }

    /// A cursor at this node.
    pub fn cursor(&self) -> (cursor: Cursor<'a>)
        ensures
            cursor.position() == *self,
            cursor.root() == self.index(),
    {
        Cursor { root: self.idx, at: *self }
    }
}

/// The node that `goto_next_sibling` moves `cursor` to: the next sibling of
/// the node it is at, unless it is at the node it was reset to.
pub open spec fn cursor_sibling(cursor: Cursor) -> Option<int> {
    if cursor.position().index() != cursor.root() {
        next_sibling(cursor.position().nodes(), cursor.position().index())
    } else {
        None
    }
}

impl<'a> Cursor<'a> {
    /// The node that the cursor is at.
    pub closed spec fn position(&self) -> Node<'a> {
        self.at
    }

    /// The node that the cursor was last reset to, below which it moves.
    pub closed spec fn root(&self) -> int {
        self.root as int
    }

    /// Puts the cursor at `node`.
    pub fn reset(&mut self, node: &Node<'a>)
        ensures
            final(self).position() == *node,
            final(self).root() == node.index(),
    {
        self.root = node.idx;
        self.at = *node;
    }

    /// Moves the cursor to the first child of the node it is at. Returns
    /// whether it moved: it stays where it is when the node has no child.
    pub fn goto_first_child(&mut self) -> (moved: bool)
        ensures
            final(self).root() == old(self).root(),
            final(self).position().nodes() == old(self).position().nodes(),
            (match first_child(old(self).position().nodes(), old(self).position().index()) {
                Some(c) => moved && final(self).position().index() == c,
                None => !moved && final(self).position() == old(self).position(),
            }),
    {
        match self.at.first_child() {
            Some(child) => {
                self.at = child;
                true
            },
            None => false,
        }
    }

    /// Moves the cursor to the sibling that follows the node it is at.
    /// Returns whether it moved: it stays where it is when there is no such
    /// sibling, and at the node it was reset to.
    pub fn goto_next_sibling(&mut self) -> (moved: bool)
        ensures
            final(self).root() == old(self).root(),
            final(self).position().nodes() == old(self).position().nodes(),
            (match cursor_sibling(*old(self)) {
                Some(s) => moved && final(self).position().index() == s,
                None => !moved && final(self).position() == old(self).position(),
            }),
    {
        if self.at.idx == self.root {
            return false;
        }
        match self.at.next_sibling() {
            Some(sibling) => {
                self.at = sibling;
                true
            },
            None => false,
        }
    }

    /// The node that the cursor is at.
    pub fn node(&self) -> (node: Node<'a>)
        ensures
            node == self.position(),
    {
        self.at
    }
}

/// Builds a tree node by node, in document order: `open` starts a node below
/// the one that is open, `close` ends the node that is open.
pub struct TreeBuilder {
    nodes: Vec<NodeData>,
    current: Option<usize>,
}

/// The nodes given so far, each node that is still open taken to end where
/// the list ends. The end of a node is recorded as zero while it is open.
pub open spec fn settled(nodes: Seq<NodeData>) -> Seq<NodeData> {
    Seq::new(
        nodes.len(),
        |n: int|
            if nodes[n].end == 0 {
                NodeData { end: nodes.len() as usize, ..nodes[n] }
            } else {
                nodes[n]
            },
    )
}

/// Of two open nodes, the first lies at or above the parent of the second.
pub open spec fn nested(nodes: Seq<NodeData>, n: int, m: int) -> bool {
    nodes[n].end == 0 && nodes[m].end == 0 && n < m ==> n <= nodes[m].parent
}

/// What the builder keeps of node `n` agrees with `current`, the innermost
/// open node.
pub open spec fn entry_ok(nodes: Seq<NodeData>, current: Option<usize>, n: int) -> bool {
    &&& node_ok(settled(nodes), n)
    &&& nodes[n].end == 0 ==> current is Some && n <= current->0
    &&& n >= 1 && nodes[n].end == 0 ==> nodes[nodes[n].parent as int].end == 0
    &&& n >= 1 && nodes[n].end == nodes.len() && nodes[nodes[n].parent as int].end == 0
        ==> current == Some(nodes[n].parent)
}

/// The list `nodes` is the beginning of a tree of which `current` is the
/// innermost open node.
pub open spec fn partial(nodes: Seq<NodeData>, current: Option<usize>) -> bool {
    &&& current matches Some(t) ==> t < nodes.len() && nodes[t as int].end == 0
    &&& nodes.len() <= usize::MAX
    &&& current is Some ==> nodes[0].end == 0
    &&& current is None && nodes.len() > 0 ==> nodes[0].end == nodes.len()
    &&& forall|n: int| 0 <= n < nodes.len() ==> #[trigger] entry_ok(nodes, current, n)
    &&& forall|n: int, m: int| 0 <= n < m < nodes.len() ==> #[trigger] nested(nodes, n, m)
}

/// The list after `open` has taken a node.
pub open spec fn opened(nodes: Seq<NodeData>, current: Option<usize>, info: NodeInfo) -> Seq<NodeData> {
    nodes.push(
        NodeData {
            info,
            parent: match current {
                Some(t) => t,
                None => 0,
            },
            end: 0,
        },
    )
}

/// The list after `close` has ended node `t`.
pub open spec fn closed(nodes: Seq<NodeData>, t: int) -> Seq<NodeData> {
    nodes.update(t, NodeData { end: nodes.len() as usize, ..nodes[t] })
}

/// The innermost open node after `close` has ended node `t`.
pub open spec fn enclosing(nodes: Seq<NodeData>, t: int) -> Option<usize> {
    if t == 0 {
        None
    } else {
        Some(nodes[t].parent)
    }
}

proof fn lemma_open(nodes: Seq<NodeData>, current: Option<usize>, info: NodeInfo)
    requires
        partial(nodes, current),
        positions_fit(info),
        nodes.len() == 0 || current is Some,
        nodes.len() < usize::MAX,
    ensures
        partial(opened(nodes, current, info), Some(nodes.len() as usize)),
{
    let after = opened(nodes, current, info);
    let index = nodes.len() as int;
    let now = Some(index as usize);
    let old_s = settled(nodes);
    let new_s = settled(after);
    assert forall|n: int| 0 <= n < after.len() implies #[trigger] entry_ok(after, now, n) by {
        if n < index {
            assert(entry_ok(nodes, current, n));
            let p = nodes[n].parent as int;
            if n >= 1 {
                assert(entry_ok(nodes, current, p));
            }
            if n + 1 < index {
            }
            if nodes[n].end != 0 && nodes[n].end < index {
            }
        } else {
            if index > 0 {
            }
        }
    }
    assert forall|n: int, m: int| 0 <= n < m < after.len() implies #[trigger] nested(
        after,
        n,
        m,
    ) by {
        if m < index {
            assert(nested(nodes, n, m));
        } else {
            assert(entry_ok(nodes, current, n));
        }
    }
}

proof fn lemma_close(nodes: Seq<NodeData>, t: usize)
    requires
        partial(nodes, Some(t)),
    ensures
        partial(closed(nodes, t as int), enclosing(nodes, t as int)),
{
    let after = closed(nodes, t as int);
    let now = enclosing(nodes, t as int);
    let len = nodes.len();
    assert(entry_ok(nodes, Some(t), t as int));
    assert forall|n: int| 0 <= n < len implies settled(after)[n] == settled(nodes)[n] by {}
    assert(settled(after) =~= settled(nodes));
    assert forall|n: int| 0 <= n < after.len() implies #[trigger] entry_ok(after, now, n) by {
        assert(entry_ok(nodes, Some(t), n));
        if n >= 1 {
        }
        if n != t && nodes[n].end == 0 {
            assert(nested(nodes, n, t as int));
        }
    }
    assert forall|n: int, m: int| 0 <= n < m < after.len() implies #[trigger] nested(
        after,
        n,
        m,
    ) by {
        assert(nested(nodes, n, m));
    }
    if t >= 1 {
    }
}

proof fn lemma_finished(nodes: Seq<NodeData>)
    requires
        partial(nodes, None),
        nodes.len() > 0,
    ensures
        well_formed(nodes),
{
    assert forall|n: int| 0 <= n < nodes.len() implies nodes[n].end != 0 by {
        assert(entry_ok(nodes, None, n));
    }
    assert(settled(nodes) =~= nodes);
    assert forall|n: int| 0 <= n < nodes.len() implies #[trigger] node_ok(nodes, n) by {
        assert(entry_ok(nodes, None, n));
    }
}

impl TreeBuilder {
    /// The nodes given so far. The end of a node is recorded as zero while
    /// the node is open.
    pub closed spec fn entries(&self) -> Seq<NodeData> {
        self.nodes@
    }

    /// The innermost open node, if a node is open.
    pub closed spec fn current(&self) -> Option<usize> {
        self.current
    }

    /// What has been built so far is the beginning of a tree.
    pub closed spec fn wf(&self) -> bool {
        partial(self.nodes@, self.current)
    }

    /// A builder that holds no node yet.
    pub fn new() -> (builder: TreeBuilder)
        ensures
            builder.wf(),
            builder.entries().len() == 0,
            builder.current() is None,
    {
        TreeBuilder { nodes: Vec::new(), current: None }
    }

    /// Whether `open` accepts a node now: its positions must fit, and a tree
    /// has one root only.
    pub open spec fn accepts(&self, info: NodeInfo) -> bool {
        &&& positions_fit(info)
        &&& self.entries().len() == 0 || self.current() is Some
        &&& self.entries().len() < usize::MAX
    }

    /// Starts a node below the node that is open, after the children that
    /// node already has; the first node is the root. Returns whether the
    /// node was accepted; when it was not, nothing changes.
    pub fn open(&mut self, info: NodeInfo) -> (accepted: bool)
        requires
            old(self).wf(),
        ensures
            final(self).wf(),
            accepted == old(self).accepts(info),
            accepted ==> final(self).entries() == opened(
                old(self).entries(),
                old(self).current(),
                info,
            ),
            accepted ==> final(self).current() == Some(old(self).entries().len() as usize),
            !accepted ==> final(self).entries() == old(self).entries(),
            !accepted ==> final(self).current() == old(self).current(),
    {
        let fits = info.start_row < usize::MAX && info.start_column < usize::MAX && info.end_row
            < usize::MAX && info.end_column < usize::MAX;
        let index = self.nodes.len();
        if !fits || (index > 0 && self.current.is_none()) || index == usize::MAX {
            return false;
        }
        let parent = match self.current {
            Some(t) => t,
            None => 0,
        };
        proof {
            lemma_open(self.nodes@, self.current, info);
        }
        self.nodes.push(NodeData { info, parent, end: 0 });
        self.current = Some(index);
        true
    }

    /// Ends the node that is open: the nodes given since it was opened are
    /// the nodes below it. Returns whether a node was open; when none was,
    /// nothing changes.
    pub fn close(&mut self) -> (done: bool)
        requires
            old(self).wf(),
        ensures
            final(self).wf(),
            done == old(self).current() is Some,
            done ==> final(self).entries() == closed(
                old(self).entries(),
                old(self).current()->0 as int,
            ),
            done ==> final(self).current() == enclosing(
                old(self).entries(),
                old(self).current()->0 as int,
            ),
            !done ==> final(self).entries() == old(self).entries(),
            !done ==> final(self).current() == old(self).current(),
    {
        match self.current {
            None => false,
            Some(t) => {
                proof {
                    lemma_close(self.nodes@, t);
                }
                let len = self.nodes.len();
                let entry = self.nodes[t];
                self.nodes.set(t, NodeData { info: entry.info, parent: entry.parent, end: len });
                self.current = if t == 0 {
                    None
                } else {
                    Some(entry.parent)
                };
                true
            },
        }
    }

    /// The tree that was built, when its root has been opened and every
    /// node has been closed.
    pub fn finish(self) -> (tree: Option<Tree>)
        requires
            self.wf(),
        ensures
            tree is Some <==> self.entries().len() > 0 && self.current() is None,
            tree matches Some(t) ==> t@ == self.entries() && well_formed(t@),
    {
        if self.nodes.len() == 0 || self.current.is_some() {
            return None;
        }
        proof {
            lemma_finished(self.nodes@);
        }
        Some(Tree { nodes: self.nodes })
    }
}

} // verus!
