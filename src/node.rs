use vstd::prelude::*;

verus! {

/// A handle to a node. `Dir(i)` is the i-th directory of this filesystem;
/// `Ext(h)` is a node owned elsewhere (a device node or a node of the host's
/// namespace), named by a handle that its owner chose.
#[derive(Clone, Copy, Debug, PartialEq, Eq, Structural)]
pub enum NodeRef {
    Dir(usize),
    Ext(u64),
}

/// What a directory holds: a back-reference to its parent and its children by name.
pub struct DirModel {
    pub parent: Option<NodeRef>,
    pub children: Map<Seq<char>, NodeRef>,
}

/// The children that a list of (name, node) entries stands for: a later entry
/// replaces an earlier one of the same name.
pub open spec fn entries_map(s: Seq<(String, NodeRef)>) -> Map<Seq<char>, NodeRef>
    decreases s.len(),
{
    if s.len() == 0 {
        Map::empty()
    } else {
        entries_map(s.drop_last()).insert(s.last().0@, s.last().1)
    }
}

pub open spec fn map_get<K, V>(m: Map<K, V>, k: K) -> Option<V> {
    if m.contains_key(k) {
        Some(m[k])
    } else {
        None
    }
}

/// A directory node: its parent, and its entries in the order they were added.
pub struct DirNode {
    parent: Option<NodeRef>,
    entries: Vec<(String, NodeRef)>,
}

impl View for DirNode {
    type V = DirModel;

    closed spec fn view(&self) -> DirModel {
        DirModel { parent: self.parent, children: entries_map(self.entries@) }
    }
}

impl DirNode {
    /// An empty directory under `parent`.
    pub fn new(parent: Option<NodeRef>) -> (r: DirNode)
        ensures
            r@ == (DirModel { parent, children: Map::empty() }),
    {
        DirNode { parent, entries: Vec::new() }
    }

    pub fn parent(&self) -> (r: Option<NodeRef>)
        ensures
            r == self@.parent,
    {
        self.parent
    }

    /// Replaces the back-reference to the parent.
    pub fn set_parent(&mut self, parent: Option<NodeRef>)
        ensures
            final(self)@ == (DirModel { parent, children: old(self)@.children }),
    {
        self.parent = parent;
    }

    /// Inserts `node` under `name`, replacing any child of that name.
    pub fn add(&mut self, name: &str, node: NodeRef)
        ensures
            final(self)@ == (DirModel {
                parent: old(self)@.parent,
                children: old(self)@.children.insert(name@, node),
            }),
    {
        let ghost before = self.entries@;
        self.entries.push((name.to_owned(), node));
        assert(self.entries@.drop_last() =~= before);
    }

    /// The child named `name`, if any.
    pub fn lookup(&self, name: &str) -> (r: Option<NodeRef>)
        ensures
            r == map_get(self@.children, name@),
    {
        let key = name.to_owned();
        let mut i: usize = self.entries.len();
        assert(self.entries@.take(i as int) =~= self.entries@);
        while i > 0
            invariant
                i <= self.entries@.len(),
                key@ == name@,
                map_get(entries_map(self.entries@.take(i as int)), name@) == map_get(
                    self@.children,
                    name@,
                ),
            decreases i,
        {
            let prefix = Ghost(self.entries@.take(i as int));
            assert(prefix@.drop_last() =~= self.entries@.take(i - 1));
            if self.entries[i - 1].0 == key {
                return Some(self.entries[i - 1].1);
            }
            i = i - 1;
        }
        assert(self.entries@.take(0) =~= Seq::<(String, NodeRef)>::empty());
        None
    }
}

} // verus!
