use vstd::prelude::*;

use crate::urandom::{fill_random, lcg_next, INITIAL_SEED};

verus! {

/// The type of a node, as its attributes report it.
#[derive(Clone, Copy, Debug, PartialEq, Eq, Structural)]
pub enum NodeKind {
    Dir,
    CharDevice,
}

/// The attributes of a node: type, permission bits, size in bytes and in blocks.
#[derive(Clone, Copy, Debug, PartialEq, Eq, Structural)]
pub struct NodeAttr {
    pub kind: NodeKind,
    pub mode: u16,
    pub size: u64,
    pub blocks: u64,
}

/// Default permission bits of a file: read and write for everyone.
pub const DEFAULT_FILE_MODE: u16 = 0o666;

/// The attributes every device node here reports: a character device of
/// default file permissions and no size.
pub open spec fn char_device_attr_spec() -> NodeAttr {
    NodeAttr { kind: NodeKind::CharDevice, mode: DEFAULT_FILE_MODE, size: 0, blocks: 0 }
}

pub fn char_device_attr() -> (r: NodeAttr)
    ensures
        r == char_device_attr_spec(),
{
    NodeAttr { kind: NodeKind::CharDevice, mode: DEFAULT_FILE_MODE, size: 0, blocks: 0 }
}

/// A device that reads as an endless run of zero bytes and discards writes,
/// like `/dev/zero`.
pub struct ZeroDev;

impl ZeroDev {
    pub fn get_attr(&self) -> (r: NodeAttr)
        ensures
            r == char_device_attr_spec(),
    {
        char_device_attr()
    }

    /// Fills `buf` with zero bytes, whatever the offset, and returns its length.
    pub fn read_at(&self, offset: u64, buf: &mut [u8]) -> (r: usize)
        ensures
            r == old(buf)@.len(),
            final(buf)@ == Seq::new(old(buf)@.len(), |i: int| 0u8),
    {
        let n = buf.len();
        let mut i: usize = 0;
        while i < n
            invariant
                n == buf@.len(),
                n == old(buf)@.len(),
                i <= n,
                forall|j: int| 0 <= j < i ==> buf@[j] == 0u8,
            decreases n - i,
        {
            buf[i] = 0u8;
            i = i + 1;
        }
        assert(buf@ =~= Seq::new(n as nat, |i: int| 0u8));
        n
    }

    /// Discards `buf` and reports it as written in full.
    pub fn write_at(&self, offset: u64, buf: &[u8]) -> (r: usize)
        ensures
            r == buf@.len(),
    {
        buf.len()
    }
}

/// A device that reads as empty and discards writes, like `/dev/null`.
pub struct NullDev;

impl NullDev {
    pub fn get_attr(&self) -> (r: NodeAttr)
        ensures
            r == char_device_attr_spec(),
    {
        char_device_attr()
    }

    /// Reads nothing: the buffer is left as it was.
    pub fn read_at(&self, offset: u64, buf: &mut [u8]) -> (r: usize)
        ensures
            r == 0,
            final(buf)@ == old(buf)@,
    {
        0
    }

    /// Discards `buf` and reports it as written in full.
    pub fn write_at(&self, offset: u64, buf: &[u8]) -> (r: usize)
        ensures
            r == buf@.len(),
    {
        buf.len()
    }
}

/// A device that reads as pseudo-random bytes and discards writes, like
/// `/dev/urandom`. It owns the state of its generator.
pub struct URandomDev {
    seed: u64,
}

impl URandomDev {
    /// A device whose generator starts from `INITIAL_SEED`.
    pub fn new() -> (r: URandomDev)
        ensures
            r.seed() == INITIAL_SEED,
    {
        URandomDev { seed: INITIAL_SEED }
    }

    pub closed spec fn seed(&self) -> u64 {
        self.seed
    }

    pub fn get_attr(&self) -> (r: NodeAttr)
        ensures
            r == char_device_attr_spec(),
    {
        char_device_attr()
    }

    /// Fills `buf` with pseudo-random bytes, whatever the offset, advancing the
    /// generator by one step, and returns the length of `buf`.
    pub fn read_at(&mut self, offset: u64, buf: &mut [u8]) -> (r: usize)
        ensures
            r == old(buf)@.len(),
            final(buf)@.len() == old(buf)@.len(),
            final(self).seed() == lcg_next(old(self).seed()),
    {
        fill_random(&mut self.seed, buf)
    }

    /// Discards `buf` and reports it as written in full; the generator is untouched.
    pub fn write_at(&self, offset: u64, buf: &[u8]) -> (r: usize)
        ensures
            r == buf@.len(),
    {
        buf.len()
    }
}

} // verus!
