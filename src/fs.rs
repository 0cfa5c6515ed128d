use std::collections::BTreeMap;
use vstd::prelude::*;
use vstd::pervasive::VecAdditionalExecFns;

use crate::devid::{dev_id, lemma_dev_id_injective, make_dev};
use crate::node::{map_get, DirModel, DirNode, NodeRef};

verus! {

broadcast use vstd::laws_cmp::group_laws_cmp, vstd::std_specs::btree::group_btree_axioms;

/// The state of a device filesystem: the parent adopted at the first mount,
/// its directories (the root is the first), and the device registry.
pub struct FsModel {
    pub mounted_parent: Option<NodeRef>,
    pub dirs: Seq<DirModel>,
    pub devices: Map<u64, NodeRef>,
}

impl FsModel {
    /// A fresh filesystem: an empty root, no parent, no devices.
    pub open spec fn empty() -> FsModel {
        FsModel {
            mounted_parent: None,
            dirs: seq![DirModel { parent: None, children: Map::empty() }],
            devices: Map::empty(),
        }
    }

    pub open spec fn wf(self) -> bool {
        self.dirs.len() >= 1
    }

    pub open spec fn root() -> NodeRef {
        NodeRef::Dir(0)
    }

    pub open spec fn is_dir(self, n: NodeRef) -> bool {
        match n {
            NodeRef::Dir(i) => i < self.dirs.len(),
            NodeRef::Ext(_) => false,
        }
    }

    pub open spec fn dir_index(n: NodeRef) -> int {
        match n {
            NodeRef::Dir(i) => i as int,
            NodeRef::Ext(_) => -1,
        }
    }

    /// The child named `name` of the directory `dir`.
    pub open spec fn child(self, dir: NodeRef, name: Seq<char>) -> Option<NodeRef> {
        if self.is_dir(dir) {
            map_get(self.dirs[Self::dir_index(dir)].children, name)
        } else {
            None
        }
    }

    pub open spec fn root_parent(self) -> Option<NodeRef> {
        self.dirs[0].parent
    }

    /// The node registered under (major, minor).
    pub open spec fn device(self, major: u32, minor: u32) -> Option<NodeRef> {
        map_get(self.devices, dev_id(major, minor))
    }

    /// Registering `node` under (major, minor), replacing any earlier one.
    pub open spec fn register(self, major: u32, minor: u32, node: NodeRef) -> FsModel {
        FsModel { devices: self.devices.insert(dev_id(major, minor), node), ..self }
    }

    /// Inserting `node` as the child `name` of the directory `dir`.
    pub open spec fn add(self, dir: NodeRef, name: Seq<char>, node: NodeRef) -> FsModel {
        let i = Self::dir_index(dir);
        FsModel {
            dirs: self.dirs.update(
                i,
                DirModel {
                    parent: self.dirs[i].parent,
                    children: self.dirs[i].children.insert(name, node),
                },
            ),
            ..self
        }
    }

    /// The handle that the next directory created will have.
    pub open spec fn next_dir(self) -> NodeRef {
        NodeRef::Dir(self.dirs.len() as usize)
    }

    /// Creating an empty directory under `dir` as its child `name`.
    pub open spec fn mkdir(self, dir: NodeRef, name: Seq<char>) -> FsModel {
        let added = self.add(dir, name, self.next_dir());
        FsModel {
            dirs: added.dirs.push(DirModel { parent: Some(dir), children: Map::empty() }),
            ..added
        }
    }

    /// Mounting under a mount point whose parent is `mp_parent`: the root takes
    /// that parent, except that the parent seen at the first mount is kept for good.
    pub open spec fn mount(self, mp_parent: Option<NodeRef>) -> FsModel {
        match mp_parent {
            None => FsModel {
                dirs: self.dirs.update(0, DirModel { parent: None, children: self.dirs[0].children }),
                ..self
            },
            Some(p) => {
                let kept = match self.mounted_parent {
                    Some(q) => q,
                    None => p,
                };
                FsModel {
                    mounted_parent: Some(kept),
                    dirs: self.dirs.update(
                        0,
                        DirModel { parent: Some(kept), children: self.dirs[0].children },
                    ),
                    ..self
                }
            },
        }
    }
}

/// Registering a node and then looking up the same (major, minor) pair gives
/// back that node.
pub proof fn lemma_register_then_get(m: FsModel, major: u32, minor: u32, node: NodeRef)
    ensures
        m.register(major, minor, node).device(major, minor) == Some(node),
{
}

/// A fresh filesystem has no device under any (major, minor) pair.
pub proof fn lemma_fresh_has_no_device(major: u32, minor: u32)
    ensures
        FsModel::empty().device(major, minor) is None,
{
}

/// Registering under one pair leaves what every other pair resolves to as it
/// was; so a pair under which nothing was registered resolves to nothing.
pub proof fn lemma_register_keeps_other_pairs(
    m: FsModel,
    major: u32,
    minor: u32,
    node: NodeRef,
    other_major: u32,
    other_minor: u32,
)
    requires
        major != other_major || minor != other_minor,
    ensures
        m.register(major, minor, node).device(other_major, other_minor) == m.device(
            other_major,
            other_minor,
        ),
{
    if dev_id(major, minor) == dev_id(other_major, other_minor) {
        lemma_dev_id_injective(major, minor, other_major, other_minor);
    }
}

/// A second registration under the same pair replaces the first.
pub proof fn lemma_register_replaces(
    m: FsModel,
    major: u32,
    minor: u32,
    first: NodeRef,
    second: NodeRef,
)
    ensures
        m.register(major, minor, first).register(major, minor, second).device(major, minor)
            == Some(second),
{
}

/// A node added under a subdirectory made at the root is reached from the root
/// through that subdirectory, and the device registry is left as it was: the
/// tree and the registry are independent.
pub proof fn lemma_tree_and_registry_independent(
    m: FsModel,
    dir_name: Seq<char>,
    name: Seq<char>,
    node: NodeRef,
)
    requires
        m.wf(),
        m.dirs.len() < usize::MAX,
    ensures
        ({
            let d = m.next_dir();
            let after = m.mkdir(FsModel::root(), dir_name).add(d, name, node);
            &&& after.child(FsModel::root(), dir_name) == Some(d)
            &&& after.child(d, name) == Some(node)
            &&& after.devices == m.devices
        }),
{
    let d = m.next_dir();
    let m1 = m.mkdir(FsModel::root(), dir_name);
    assert(m1.dirs.len() == m.dirs.len() + 1);
    assert(m1.is_dir(d));
    assert(FsModel::dir_index(d) == m.dirs.len());
}

/// Mounting under a mount point that has no parent leaves the root with no parent.
pub proof fn lemma_mount_without_parent(m: FsModel)
    requires
        m.wf(),
    ensures
        m.mount(None).root_parent() is None,
{
}

/// The first mount under a mount point that has a parent gives the root that
/// same parent.
pub proof fn lemma_first_mount_adopts_parent(m: FsModel, parent: NodeRef)
    requires
        m.wf(),
        m.mounted_parent is None,
    ensures
        m.mount(Some(parent)).root_parent() == Some(parent),
{
}

/// A device filesystem: a root directory with subdirectories, and a registry
/// of devices by (major, minor) number.
pub struct DeviceFileSystem {
    parent: Option<NodeRef>,
    dirs: Vec<DirNode>,
    dev_map: BTreeMap<u64, NodeRef>,
}

impl View for DeviceFileSystem {
    type V = FsModel;

    closed spec fn view(&self) -> FsModel {
        FsModel {
            mounted_parent: self.parent,
            dirs: self.dirs@.map_values(|d: DirNode| d@),
            devices: self.dev_map@,
        }
    }
}

impl DeviceFileSystem {
    /// Creates a filesystem with an empty root directory and no devices.
    pub fn new() -> (r: DeviceFileSystem)
        ensures
            r@ == FsModel::empty(),
            r@.wf(),
    {
        let mut dirs: Vec<DirNode> = Vec::new();
        dirs.push(DirNode::new(None));
        let r = DeviceFileSystem { parent: None, dirs, dev_map: BTreeMap::new() };
        assert(r@.dirs =~= FsModel::empty().dirs);
        assert(r@.devices =~= FsModel::empty().devices);
        r
    }

    /// The root directory.
    pub fn root_dir(&self) -> (r: NodeRef)
        ensures
            r == FsModel::root(),
    {
        NodeRef::Dir(0)
    }

    /// Whether `n` is a directory of this filesystem.
    pub fn is_dir(&self, n: NodeRef) -> (r: bool)
        ensures
            r == self@.is_dir(n),
    {
        match n {
            NodeRef::Dir(i) => i < self.dirs.len(),
            NodeRef::Ext(_) => false,
        }
    }

    /// Inserts `node` under `name` in the directory `dir`, replacing any child
    /// of that name.
    pub fn add_to(&mut self, dir: NodeRef, name: &str, node: NodeRef)
        requires
            old(self)@.wf(),
            old(self)@.is_dir(dir),
        ensures
            final(self)@ == old(self)@.add(dir, name@, node),
            final(self)@.wf(),
    {
        let i = match dir {
            NodeRef::Dir(i) => i,
            NodeRef::Ext(_) => 0,
        };
        let mut d = DirNode::new(None);
        self.dirs.set_and_swap(i, &mut d);
        d.add(name, node);
        self.dirs.set_and_swap(i, &mut d);
        assert(self@.dirs =~= old(self)@.add(dir, name@, node).dirs);
    }

    /// Adds a node to the root directory.
    pub fn add(&mut self, name: &str, node: NodeRef)
        requires
            old(self)@.wf(),
        ensures
            final(self)@ == old(self)@.add(FsModel::root(), name@, node),
            final(self)@.wf(),
    {
        self.add_to(NodeRef::Dir(0), name, node);
    }

    /// Creates an empty subdirectory `name` of the directory `dir` and returns it.
    pub fn mkdir_in(&mut self, dir: NodeRef, name: &str) -> (r: NodeRef)
        requires
            old(self)@.wf(),
            old(self)@.is_dir(dir),
            old(self)@.dirs.len() < usize::MAX,
        ensures
            r == old(self)@.next_dir(),
            final(self)@ == old(self)@.mkdir(dir, name@),
            final(self)@.wf(),
    {
        let r = NodeRef::Dir(self.dirs.len());
        self.add_to(dir, name, r);
        self.dirs.push(DirNode::new(Some(dir)));
        assert(self@.dirs =~= old(self)@.mkdir(dir, name@).dirs);
        r
    }

    /// Creates an empty subdirectory `name` of the root directory and returns it.
    pub fn mkdir(&mut self, name: &str) -> (r: NodeRef)
        requires
            old(self)@.wf(),
            old(self)@.dirs.len() < usize::MAX,
        ensures
            r == old(self)@.next_dir(),
            final(self)@ == old(self)@.mkdir(FsModel::root(), name@),
            final(self)@.wf(),
    {
        self.mkdir_in(NodeRef::Dir(0), name)
    }

    /// The child named `name` of the directory `dir`.
    pub fn lookup(&self, dir: NodeRef, name: &str) -> (r: Option<NodeRef>)
        ensures
            r == self@.child(dir, name@),
    {
        match dir {
            NodeRef::Dir(i) => {
                if i < self.dirs.len() {
                    self.dirs[i].lookup(name)
                } else {
                    None
                }
            },
            NodeRef::Ext(_) => None,
        }
    }

    /// Registers `node` under (major, minor), replacing any earlier registration.
    pub fn register_device(&mut self, major: u32, minor: u32, node: NodeRef)
        ensures
            final(self)@ == old(self)@.register(major, minor, node),
    {
        let dev = make_dev(major, minor);
        self.dev_map.insert(dev, node);
    }

    /// The node registered under (major, minor), if any.
    pub fn get_device(&self, major: u32, minor: u32) -> (r: Option<NodeRef>)
        ensures
            r == self@.device(major, minor),
    {
        let dev = make_dev(major, minor);
        match self.dev_map.get(&dev) {
            Some(n) => Some(*n),
            None => None,
        }
    }

    /// Links the root under the parent of the mount point, or unlinks it where
    /// the mount point has none.
    pub fn mount(&mut self, mount_point_parent: Option<NodeRef>)
        requires
            old(self)@.wf(),
        ensures
            final(self)@ == old(self)@.mount(mount_point_parent),
            final(self)@.wf(),
    {
        let mut root = DirNode::new(None);
        self.dirs.set_and_swap(0, &mut root);
        match mount_point_parent {
            Some(p) => {
                if self.parent.is_none() {
                    self.parent = Some(p);
                }
                root.set_parent(self.parent);
            },
            None => {
                root.set_parent(None);
            },
        }
        self.dirs.set_and_swap(0, &mut root);
        assert(self@.dirs =~= old(self)@.mount(mount_point_parent).dirs);
    }

    /// The parent of the directory `dir`; nothing where `dir` is no directory here.
    pub fn parent_of(&self, dir: NodeRef) -> (r: Option<NodeRef>)
        ensures
            r == (if self@.is_dir(dir) {
                self@.dirs[FsModel::dir_index(dir)].parent
            } else {
                None
            }),
    {
        match dir {
            NodeRef::Dir(i) => {
                if i < self.dirs.len() {
                    self.dirs[i].parent()
                } else {
                    None
                }
            },
            NodeRef::Ext(_) => None,
        }
    }

    /// The parent that the root directory reports.
    pub fn root_parent(&self) -> (r: Option<NodeRef>)
        requires
            self@.wf(),
        ensures
            r == self@.root_parent(),
    {
        self.dirs[0].parent()
    }
}

impl Default for DeviceFileSystem {
    fn default() -> (r: DeviceFileSystem)
        ensures
            r@ == FsModel::empty(),
    {
        DeviceFileSystem::new()
    }
}

} // verus!
