use axfs_devfs::{
    char_device_attr, fill_random, make_dev, next_seed, rand, random, DeviceFileSystem, NodeAttr,
    NodeKind, NodeRef, NullDev, URandomDev, ZeroDev, DEFAULT_FILE_MODE, INITIAL_SEED, LCG_MUL,
};

#[test]
fn make_dev_packs_major_high_minor_low() {
    assert_eq!(make_dev(0, 0), 0);
    assert_eq!(make_dev(1, 3), (1u64 << 32) | 3);
    assert_eq!(make_dev(0, 5), 5);
    assert_eq!(make_dev(u32::MAX, u32::MAX), u64::MAX);
    assert_ne!(make_dev(1, 0), make_dev(0, 1));
}

#[test]
fn register_then_get_returns_node() {
    let mut fs = DeviceFileSystem::new();
    fs.register_device(1, 3, NodeRef::Ext(7));
    assert_eq!(fs.get_device(1, 3), Some(NodeRef::Ext(7)));
}

#[test]
fn get_unregistered_is_none() {
    let mut fs = DeviceFileSystem::new();
    assert_eq!(fs.get_device(0, 0), None);
    fs.register_device(1, 3, NodeRef::Ext(7));
    assert_eq!(fs.get_device(3, 1), None);
    assert_eq!(fs.get_device(1, 4), None);
}

#[test]
fn second_registration_replaces_first() {
    let mut fs = DeviceFileSystem::default();
    fs.register_device(1, 5, NodeRef::Ext(1));
    fs.register_device(1, 5, NodeRef::Ext(2));
    assert_eq!(fs.get_device(1, 5), Some(NodeRef::Ext(2)));
}

#[test]
fn node_under_subdirectory_is_in_tree_not_registry() {
    let mut fs = DeviceFileSystem::new();
    let root = fs.root_dir();
    let a = fs.mkdir("a");
    assert!(fs.is_dir(a));
    fs.add_to(a, "b", NodeRef::Ext(9));
    assert_eq!(fs.lookup(root, "a"), Some(a));
    assert_eq!(fs.lookup(a, "b"), Some(NodeRef::Ext(9)));
    assert_eq!(fs.lookup(root, "b"), None);
    assert_eq!(fs.get_device(0, 0), None);
}

#[test]
fn nested_mkdir_and_root_add() {
    let mut fs = DeviceFileSystem::new();
    let root = fs.root_dir();
    let a = fs.mkdir("a");
    let c = fs.mkdir_in(a, "c");
    assert_ne!(a, c);
    assert_eq!(fs.lookup(a, "c"), Some(c));
    fs.add("null", NodeRef::Ext(1));
    fs.add("null", NodeRef::Ext(2));
    assert_eq!(fs.lookup(root, "null"), Some(NodeRef::Ext(2)));
    assert_eq!(fs.lookup(NodeRef::Ext(2), "x"), None);
    assert!(!fs.is_dir(NodeRef::Ext(2)));
}

#[test]
fn mount_without_parent_leaves_root_unlinked() {
    let mut fs = DeviceFileSystem::new();
    fs.mount(None);
    assert_eq!(fs.root_parent(), None);
}

#[test]
fn mount_with_parent_links_root() {
    let mut fs = DeviceFileSystem::new();
    assert_eq!(fs.root_parent(), None);
    fs.mount(Some(NodeRef::Ext(42)));
    assert_eq!(fs.root_parent(), Some(NodeRef::Ext(42)));
}

#[test]
fn later_mount_keeps_first_parent() {
    let mut fs = DeviceFileSystem::new();
    fs.mount(Some(NodeRef::Ext(42)));
    fs.mount(Some(NodeRef::Ext(43)));
    assert_eq!(fs.root_parent(), Some(NodeRef::Ext(42)));
    fs.mount(None);
    assert_eq!(fs.root_parent(), None);
}

#[test]
fn zero_read_fills_zeroes() {
    let dev = ZeroDev;
    for n in [0usize, 1, 4096] {
        let mut buf = vec![0xabu8; n];
        assert_eq!(dev.read_at(12345, &mut buf), n);
        assert!(buf.iter().all(|b| *b == 0));
    }
}

#[test]
fn zero_write_discards_and_read_unaffected() {
    let dev = ZeroDev;
    assert_eq!(dev.write_at(7, &[1, 2, 3]), 3);
    assert_eq!(dev.write_at(0, &[]), 0);
    let mut buf = [9u8; 16];
    assert_eq!(dev.read_at(0, &mut buf), 16);
    assert_eq!(buf, [0u8; 16]);
}

#[test]
fn null_reads_nothing_and_accepts_writes() {
    let dev = NullDev;
    let mut buf = [5u8; 4];
    assert_eq!(dev.read_at(0, &mut buf), 0);
    assert_eq!(buf, [5u8; 4]);
    assert_eq!(dev.write_at(3, &[1, 2]), 2);
}

#[test]
fn urandom_consecutive_reads_differ() {
    let mut dev = URandomDev::new();
    let mut a = [0u8; 8];
    let mut b = [0u8; 8];
    assert_eq!(dev.read_at(0, &mut a), 8);
    assert_eq!(dev.read_at(0, &mut b), 8);
    assert_ne!(a, b);
}

#[test]
fn urandom_write_returns_length_and_read_fills() {
    let mut dev = URandomDev::new();
    assert_eq!(dev.write_at(100, &[0xff; 32]), 32);
    let mut buf = [0u8; 64];
    assert_eq!(dev.read_at(5, &mut buf), 64);
    assert!(buf.iter().any(|b| *b != 0));
}

#[test]
fn generator_steps() {
    assert_eq!(next_seed(0), 1);
    assert_eq!(next_seed(1), LCG_MUL + 1);
    assert_eq!(next_seed(INITIAL_SEED), 0x156161b10afcd037);
    assert_eq!(next_seed(0x156161b10afcd037), 0x2b2f7932ddbee2ac);
}

#[test]
fn rand_and_random_draw_from_state() {
    let mut s = INITIAL_SEED;
    assert_eq!(rand(&mut s), 179351768);
    assert_eq!(s, 0x156161b10afcd037);
    let mut t = INITIAL_SEED;
    assert_eq!(random(&mut t), 1540619960558866487);
    assert_eq!(random(&mut t), 0x2b2f7932ddbee2ac_u64 as i64);
}

#[test]
fn fill_random_overwrites_buffer() {
    let mut s = INITIAL_SEED;
    let mut buf = vec![0u8; 64];
    assert_eq!(fill_random(&mut s, &mut buf), 64);
    assert_eq!(s, 0x156161b10afcd037);
    assert!(buf.iter().any(|b| *b != 0));
    let mut empty: [u8; 0] = [];
    assert_eq!(fill_random(&mut s, &mut empty), 0);
}

#[test]
fn device_attributes() {
    let expected = NodeAttr { kind: NodeKind::CharDevice, mode: DEFAULT_FILE_MODE, size: 0, blocks: 0 };
    assert_eq!(char_device_attr(), expected);
    assert_eq!(ZeroDev.get_attr(), expected);
    assert_eq!(NullDev.get_attr(), expected);
    assert_eq!(URandomDev::new().get_attr(), expected);
    assert_eq!(DEFAULT_FILE_MODE, 0o666);
}
