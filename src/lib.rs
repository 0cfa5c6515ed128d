//! Device filesystem: a tree of directories holding device nodes, plus a
//! registry that resolves devices by their (major, minor) numbers.

mod devid;
mod node;
mod fs;
mod urandom;
mod dev;

pub use devid::{dev_id, lemma_dev_id_injective, make_dev};
pub use node::{entries_map, map_get, DirModel, DirNode, NodeRef};
pub use fs::{
    lemma_first_mount_adopts_parent, lemma_fresh_has_no_device, lemma_mount_without_parent,
    lemma_register_keeps_other_pairs, lemma_register_replaces, lemma_register_then_get,
    lemma_tree_and_registry_independent, DeviceFileSystem, FsModel,
};
pub use urandom::{
    fill_random, lcg_next, lemma_lcg_next_flips_parity, next_seed, rand, random, INITIAL_SEED,
    LCG_MUL,
};
pub use dev::{
    char_device_attr, char_device_attr_spec, NodeAttr, NodeKind, NullDev, URandomDev, ZeroDev,
    DEFAULT_FILE_MODE,
};
