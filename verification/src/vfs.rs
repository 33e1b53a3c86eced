//! Node attributes, node types, permissions, directory entries, and the
//! inode-number table of the virtual filesystem layer.

use vstd::prelude::*;

verus! {

use vstd::string::StringSliceAdditionalSpecFns;

/// Filesystem attributes.
///
/// Currently not used.
#[non_exhaustive]
pub struct FileSystemInfo;

/// Bits of the owner/group/other permission mask.
pub const PERM_OWNER_READ: u16 = 0o400;

/// Owner write bit.
pub const PERM_OWNER_WRITE: u16 = 0o200;

/// Owner execute bit.
pub const PERM_OWNER_EXEC: u16 = 0o100;

/// Group read bit.
pub const PERM_GROUP_READ: u16 = 0o40;

/// Group write bit.
pub const PERM_GROUP_WRITE: u16 = 0o20;

/// Group execute bit.
pub const PERM_GROUP_EXEC: u16 = 0o10;

/// Other read bit.
pub const PERM_OTHER_READ: u16 = 0o4;

/// Other write bit.
pub const PERM_OTHER_WRITE: u16 = 0o2;

/// Other execute bit.
pub const PERM_OTHER_EXEC: u16 = 0o1;

/// All defined permission bits.
pub const PERM_ALL: u16 = 0o777;

/// ASCII `r`.
pub const CH_READ: u8 = 114;

/// ASCII `w`.
pub const CH_WRITE: u8 = 119;

/// ASCII `x`.
pub const CH_EXEC: u8 = 120;

/// ASCII `-`.
pub const CH_NONE: u8 = 45;

/// Node (file/directory) permission mode.
#[derive(Debug, Clone, Copy)]
pub struct VfsNodePerm {
    bits: u16,
}

impl VfsNodePerm {
    /// The raw permission bits.
    pub closed spec fn spec_bits(&self) -> u16 {
        self.bits
    }

    /// Builds a permission mode from raw bits, dropping undefined bits.
    pub fn from_bits_truncate(bits: u16) -> (r: Self)
        ensures
            r.spec_bits() == bits & PERM_ALL,
    {
        VfsNodePerm { bits: bits & PERM_ALL }
    }

    /// The raw permission bits.
    pub fn bits(&self) -> (r: u16)
        ensures
            r == self.spec_bits(),
    {
        self.bits
    }

    /// Returns the default permission for a file.
    ///
    /// The default permission is `0o666` (owner/group/others can read and
    /// write).
    pub fn default_file() -> (r: Self)
        ensures
            r.spec_bits() == 0o666,
    {
        proof {
            assert(0o666u16 & 0o777u16 == 0o666u16) by (bit_vector);
        }
        Self::from_bits_truncate(0o666)
    }

    /// Returns the default permission for a directory.
    ///
    /// The default permission is `0o755` (owner can read, write and execute,
    /// group/others can read and execute).
    pub fn default_dir() -> (r: Self)
        ensures
            r.spec_bits() == 0o755,
    {
        proof {
            assert(0o755u16 & 0o777u16 == 0o755u16) by (bit_vector);
        }
        Self::from_bits_truncate(0o755)
    }

    /// Returns the underlying raw `st_mode` bits that contain the standard
    /// Unix permissions for this file.
    pub fn mode(&self) -> (r: u32)
        ensures
            r == self.spec_bits() as u32,
    {
        self.bits as u32
    }

    /// Returns a 9-byte string representation of the permission.
    ///
    /// For example, `0o755` is represented as `rwxr-xr-x`.
    pub fn rwx_buf(&self) -> (r: [u8; 9])
        ensures
            r@ == self.spec_rwx(),
    {
        let mut perm: [u8; 9] = [CH_NONE; 9];
        if self.bits & PERM_OWNER_READ != 0 {
            perm[0] = CH_READ;
        }
        if self.bits & PERM_OWNER_WRITE != 0 {
            perm[1] = CH_WRITE;
        }
        if self.bits & PERM_OWNER_EXEC != 0 {
            perm[2] = CH_EXEC;
        }
        if self.bits & PERM_GROUP_READ != 0 {
            perm[3] = CH_READ;
        }
        if self.bits & PERM_GROUP_WRITE != 0 {
            perm[4] = CH_WRITE;
        }
        if self.bits & PERM_GROUP_EXEC != 0 {
            perm[5] = CH_EXEC;
        }
        if self.bits & PERM_OTHER_READ != 0 {
            perm[6] = CH_READ;
        }
        if self.bits & PERM_OTHER_WRITE != 0 {
            perm[7] = CH_WRITE;
        }
        if self.bits & PERM_OTHER_EXEC != 0 {
            perm[8] = CH_EXEC;
        }
        proof {
            assert(perm@ =~= self.spec_rwx());
        }
        perm
    }

    /// The nine permission characters, `rwx` per class with `-` for a bit
    /// that is clear.
    pub open spec fn spec_rwx(&self) -> Seq<u8> {
        seq![
            if self.spec_bits() & PERM_OWNER_READ != 0 { CH_READ } else { CH_NONE },
            if self.spec_bits() & PERM_OWNER_WRITE != 0 { CH_WRITE } else { CH_NONE },
            if self.spec_bits() & PERM_OWNER_EXEC != 0 { CH_EXEC } else { CH_NONE },
            if self.spec_bits() & PERM_GROUP_READ != 0 { CH_READ } else { CH_NONE },
            if self.spec_bits() & PERM_GROUP_WRITE != 0 { CH_WRITE } else { CH_NONE },
            if self.spec_bits() & PERM_GROUP_EXEC != 0 { CH_EXEC } else { CH_NONE },
            if self.spec_bits() & PERM_OTHER_READ != 0 { CH_READ } else { CH_NONE },
            if self.spec_bits() & PERM_OTHER_WRITE != 0 { CH_WRITE } else { CH_NONE },
            if self.spec_bits() & PERM_OTHER_EXEC != 0 { CH_EXEC } else { CH_NONE },
        ]
    }

    /// Whether the owner has read permission.
    pub fn owner_readable(&self) -> (r: bool)
        ensures
            r == (self.spec_bits() & PERM_OWNER_READ != 0),
    {
        self.bits & PERM_OWNER_READ != 0
    }

    /// Whether the owner has write permission.
    pub fn owner_writable(&self) -> (r: bool)
        ensures
            r == (self.spec_bits() & PERM_OWNER_WRITE != 0),
    {
        self.bits & PERM_OWNER_WRITE != 0
    }

    /// Whether the owner has execute permission.
    pub fn owner_executable(&self) -> (r: bool)
        ensures
            r == (self.spec_bits() & PERM_OWNER_EXEC != 0),
    {
        self.bits & PERM_OWNER_EXEC != 0
    }
}

/// Node (file/directory) type.
#[derive(Debug, Clone, Copy, Eq, PartialEq, Structural)]
pub enum VfsNodeType {
    /// FIFO (named pipe)
    Fifo,
    /// Character device
    CharDevice,
    /// Directory
    Dir,
    /// Block device
    BlockDevice,
    /// Regular file
    File,
    /// Symbolic link
    SymLink,
    /// Socket
    Socket,
}

impl VfsNodeType {
    /// Tests whether this node type represents a regular file.
    pub fn is_file(self) -> (r: bool)
        ensures
            r == (self is File),
    {
        matches!(self, Self::File)
    }

    /// Tests whether this node type represents a directory.
    pub fn is_dir(self) -> (r: bool)
        ensures
            r == (self is Dir),
    {
        matches!(self, Self::Dir)
    }

    /// Tests whether this node type represents a symbolic link.
    pub fn is_symlink(self) -> (r: bool)
        ensures
            r == (self is SymLink),
    {
        matches!(self, Self::SymLink)
    }

    /// Returns `true` if this node type is a block device.
    pub fn is_block_device(self) -> (r: bool)
        ensures
            r == (self is BlockDevice),
    {
        matches!(self, Self::BlockDevice)
    }

    /// Returns `true` if this node type is a char device.
    pub fn is_char_device(self) -> (r: bool)
        ensures
            r == (self is CharDevice),
    {
        matches!(self, Self::CharDevice)
    }

    /// Returns `true` if this node type is a fifo.
    pub fn is_fifo(self) -> (r: bool)
        ensures
            r == (self is Fifo),
    {
        matches!(self, Self::Fifo)
    }

    /// Returns `true` if this node type is a socket.
    pub fn is_socket(self) -> (r: bool)
        ensures
            r == (self is Socket),
    {
        matches!(self, Self::Socket)
    }

    /// Returns a character representation of the node type.
    ///
    /// For example, `d` for directory, `-` for regular file, etc.
    pub fn as_char(self) -> (r: char)
        ensures
            r == self.spec_char(),
    {
        match self {
            Self::Fifo => 'p',
            Self::CharDevice => 'c',
            Self::Dir => 'd',
            Self::BlockDevice => 'b',
            Self::File => '-',
            Self::SymLink => 'l',
            Self::Socket => 's',
        }
    }

    /// The character each node type is shown as.
    pub open spec fn spec_char(self) -> char {
        match self {
            Self::Fifo => 'p',
            Self::CharDevice => 'c',
            Self::Dir => 'd',
            Self::BlockDevice => 'b',
            Self::File => '-',
            Self::SymLink => 'l',
            Self::Socket => 's',
        }
    }
}

/// The allocation table of inode numbers: every number handed out so far,
/// plus the next candidate for callers that do not ask for a specific number.
pub struct InodeTable {
    used: Vec<u64>,
    next: u64,
}

/// Relates an inode table before and after one allocation: `r` is the
/// smallest number not yet in use that is at least the requested number (or
/// at least the table's running counter when none was requested), it is
/// recorded as used, and the running counter advances past it only for
/// unrequested allocations.
pub open spec fn iunique_post(pre: InodeTable, post: InodeTable, ino: Option<u64>, r: u64) -> bool {
    let start = if ino is Some {
        ino->Some_0
    } else {
        pre.spec_next()
    };
    &&& !pre.spec_used().contains(r)
    &&& post.spec_used() == pre.spec_used().push(r)
    &&& r >= start
    &&& forall|k: u64| start <= k < r ==> pre.spec_used().contains(k)
    &&& (ino is Some ==> post.spec_next() == pre.spec_next())
    &&& (ino is None ==> post.spec_next() == r + 1)
}

impl InodeTable {
    /// The inode numbers handed out so far.
    pub closed spec fn spec_used(&self) -> Seq<u64> {
        self.used@
    }

    /// The next candidate number for unrequested allocations.
    pub closed spec fn spec_next(&self) -> u64 {
        self.next
    }

    /// The initial table: the well-known inode numbers 1, 2 and 3 are taken,
    /// unrequested allocation starts at 4.
    pub fn new() -> (r: Self)
        ensures
            r.spec_used() == seq![1u64, 2u64, 3u64],
            r.spec_next() == 4,
    {
        let mut used: Vec<u64> = Vec::new();
        used.push(1);
        used.push(2);
        used.push(3);
        proof {
            assert(used@ =~= seq![1u64, 2u64, 3u64]);
        }
        InodeTable { used, next: 4 }
    }

    /// Allocates a unique inode number: the requested number if it is free,
    /// otherwise the next free number above it; with no request, the next
    /// free number from the running counter, which then advances.
    pub fn iunique(&mut self, ino: Option<u64>) -> (r: u64)
        requires
            ({
                let start = if ino is Some {
                    ino->Some_0
                } else {
                    old(self).spec_next()
                };
                start + old(self).spec_used().len() < u64::MAX
            }),
        ensures
            iunique_post(*old(self), *final(self), ino, r),
    {
        let start: u64 = match ino {
            Option::Some(i) => i,
            Option::None => self.next,
        };
        let ghost orig = *self;
        let mut candidate: u64 = start;
        loop
            invariant
                *self == orig,
                start <= candidate,
                start + self.spec_used().len() < u64::MAX,
                candidate <= start + self.spec_used().len(),
                forall|k: u64| start <= k < candidate ==> self.spec_used().contains(k),
            ensures
                *self == orig,
                start <= candidate,
                candidate <= start + self.spec_used().len(),
                !self.spec_used().contains(candidate),
                forall|k: u64| start <= k < candidate ==> self.spec_used().contains(k),
            decreases start + self.spec_used().len() - candidate,
        {
            if !vec_contains(&self.used, candidate) {
                break;
            }
            proof {
                lemma_range_in_seq_len(self.spec_used(), start, (candidate + 1) as u64);
            }
            candidate = candidate + 1;
        }
        self.used.push(candidate);
        match ino {
            Option::Some(_) => {},
            Option::None => {
                self.next = candidate + 1;
            },
        }
        candidate
    }
}

/// Whether `v` holds `x`.
fn vec_contains(v: &Vec<u64>, x: u64) -> (r: bool)
    ensures
        r == v@.contains(x),
{
    let n = v.len();
    let mut i: usize = 0;
    while i < n
        invariant
            n == v@.len(),
            i <= n,
            forall|j: int| 0 <= j < i ==> v@[j] != x,
        decreases n - i,
    {
        if v[i] == x {
            return true;
        }
        i = i + 1;
    }
    false
}

/// A sequence that holds every value of `[a, b)` has at least `b - a`
/// elements: distinct values need distinct positions.
proof fn lemma_range_in_seq_len(s: Seq<u64>, a: u64, b: u64)
    requires
        a <= b,
        forall|k: u64| a <= k < b ==> s.contains(k),
    ensures
        b - a <= s.len(),
    decreases b - a,
{
    if a < b {
        let last = (b - 1) as u64;
        assert(s.contains(last));
        let i = choose|i: int| 0 <= i < s.len() && s[i] == last;
        let s2 = s.remove(i);
        s.remove_ensures(i);
        assert forall|k: u64| a <= k < last implies s2.contains(k) by {
            assert(s.contains(k));
            let j = choose|j: int| 0 <= j < s.len() && s[j] == k;
            if j < i {
                assert(s2[j] == k);
            } else {
                assert(j != i);
                assert(s2[j - 1] == s[j]);
            }
        }
        lemma_range_in_seq_len(s2, a, last);
    }
}

/// Node (file/directory) attributes.
#[derive(Debug, Clone, Copy)]
pub struct VfsNodeAttr {
    /// File permission mode.
    mode: VfsNodePerm,
    /// File type.
    ty: VfsNodeType,
    /// Total size, in bytes.
    size: u64,
    /// Number of 512B blocks allocated.
    blocks: u64,
    /// inode number
    ino: u64,
}

impl VfsNodeAttr {
    /// The permission mode.
    pub closed spec fn spec_perm(&self) -> VfsNodePerm {
        self.mode
    }

    /// The node type.
    pub closed spec fn spec_file_type(&self) -> VfsNodeType {
        self.ty
    }

    /// The size in bytes.
    pub closed spec fn spec_size(&self) -> u64 {
        self.size
    }

    /// The number of 512-byte blocks.
    pub closed spec fn spec_blocks(&self) -> u64 {
        self.blocks
    }

    /// The inode number.
    pub closed spec fn spec_ino(&self) -> u64 {
        self.ino
    }

    /// Creates a new `VfsNodeAttr` with the given permission mode, type, size
    /// and number of blocks. A requested inode number is honoured when free;
    /// with none requested the filesystem has no inode of its own and the
    /// table allocates one (see [`InodeTable::iunique`]).
    pub fn new(
        table: &mut InodeTable,
        mode: VfsNodePerm,
        ty: VfsNodeType,
        size: u64,
        blocks: u64,
        ino: Option<u64>,
    ) -> (r: Self)
        requires
            ({
                let start = if ino is Some {
                    ino->Some_0
                } else {
                    old(table).spec_next()
                };
                start + old(table).spec_used().len() < u64::MAX
            }),
        ensures
            r.spec_perm() == mode,
            r.spec_file_type() == ty,
            r.spec_size() == size,
            r.spec_blocks() == blocks,
            iunique_post(*old(table), *final(table), ino, r.spec_ino()),
    {
        let allocated = table.iunique(ino);
        Self { mode, ty, size, blocks, ino: allocated }
    }

    /// Creates a new `VfsNodeAttr` for a file, with the default file
    /// permission.
    pub fn new_file(table: &mut InodeTable, size: u64, blocks: u64, ino: Option<u64>) -> (r: Self)
        requires
            ({
                let start = if ino is Some {
                    ino->Some_0
                } else {
                    old(table).spec_next()
                };
                start + old(table).spec_used().len() < u64::MAX
            }),
        ensures
            r.spec_perm().spec_bits() == 0o666,
            r.spec_file_type() is File,
            r.spec_size() == size,
            r.spec_blocks() == blocks,
            iunique_post(*old(table), *final(table), ino, r.spec_ino()),
    {
        let allocated = table.iunique(ino);
        Self {
            mode: VfsNodePerm::default_file(),
            ty: VfsNodeType::File,
            size,
            blocks,
            ino: allocated,
        }
    }

    /// Creates a new `VfsNodeAttr` for a directory, with the default
    /// directory permission.
    pub fn new_dir(table: &mut InodeTable, size: u64, blocks: u64, ino: Option<u64>) -> (r: Self)
        requires
            ({
                let start = if ino is Some {
                    ino->Some_0
                } else {
                    old(table).spec_next()
                };
                start + old(table).spec_used().len() < u64::MAX
            }),
        ensures
            r.spec_perm().spec_bits() == 0o755,
            r.spec_file_type() is Dir,
            r.spec_size() == size,
            r.spec_blocks() == blocks,
            iunique_post(*old(table), *final(table), ino, r.spec_ino()),
    {
        let allocated = table.iunique(ino);
        Self {
            mode: VfsNodePerm::default_dir(),
            ty: VfsNodeType::Dir,
            size,
            blocks,
            ino: allocated,
        }
    }

    /// Returns the size of the node.
    pub fn size(&self) -> (r: u64)
        ensures
            r == self.spec_size(),
    {
        self.size
    }

    /// Returns the number of blocks the node occupies on the disk.
    pub fn blocks(&self) -> (r: u64)
        ensures
            r == self.spec_blocks(),
    {
        self.blocks
    }

    /// Returns the permission of the node.
    pub fn perm(&self) -> (r: VfsNodePerm)
        ensures
            r == self.spec_perm(),
    {
        self.mode
    }

    /// Sets the permission of the node.
    pub fn set_perm(&mut self, perm: VfsNodePerm)
        ensures
            final(self).spec_perm() == perm,
            final(self).spec_file_type() == old(self).spec_file_type(),
            final(self).spec_size() == old(self).spec_size(),
            final(self).spec_blocks() == old(self).spec_blocks(),
            final(self).spec_ino() == old(self).spec_ino(),
    {
        self.mode = perm;
    }

    /// Returns the type of the node.
    pub fn file_type(&self) -> (r: VfsNodeType)
        ensures
            r == self.spec_file_type(),
    {
        self.ty
    }

    /// Whether the node is a file.
    pub fn is_file(&self) -> (r: bool)
        ensures
            r == (self.spec_file_type() is File),
    {
        self.ty.is_file()
    }

    /// Whether the node is a directory.
    pub fn is_dir(&self) -> (r: bool)
        ensures
            r == (self.spec_file_type() is Dir),
    {
        self.ty.is_dir()
    }

    /// inode number of the file or directory
    pub fn ino(&self) -> (r: u64)
        ensures
            r == self.spec_ino(),
    {
        self.ino
    }
}

/// Length of a directory entry's name field.
pub const DIR_ENTRY_NAME_LEN: usize = 63;

/// Directory entry.
pub struct VfsDirEntry {
    d_type: VfsNodeType,
    d_name: Vec<u8>,
}

/// The name bytes padded with zeroes to the fixed field length.
pub open spec fn padded_name(name: Seq<u8>) -> Seq<u8> {
    name + Seq::new((DIR_ENTRY_NAME_LEN - name.len()) as nat, |i: int| 0u8)
}

impl VfsDirEntry {
    /// The stored name field, padding included.
    pub closed spec fn spec_name_buf(&self) -> Seq<u8> {
        self.d_name@
    }

    /// The entry's node type.
    pub closed spec fn spec_entry_type(&self) -> VfsNodeType {
        self.d_type
    }

    /// The name field always has the fixed length.
    pub open spec fn wf(&self) -> bool {
        self.spec_name_buf().len() == DIR_ENTRY_NAME_LEN
    }

    /// Creates an empty `VfsDirEntry`.
    pub fn default() -> (r: Self)
        ensures
            r.wf(),
            r.spec_entry_type() is File,
            r.spec_name_buf() == padded_name(Seq::<u8>::empty()),
    {
        let mut d_name: Vec<u8> = Vec::new();
        let mut i: usize = 0;
        while i < DIR_ENTRY_NAME_LEN
            invariant
                i <= DIR_ENTRY_NAME_LEN,
                d_name@.len() == i,
                forall|j: int| 0 <= j < i ==> d_name@[j] == 0u8,
            decreases DIR_ENTRY_NAME_LEN - i,
        {
            d_name.push(0);
            i = i + 1;
        }
        proof {
            assert(d_name@ =~= padded_name(Seq::<u8>::empty()));
        }
        VfsDirEntry { d_type: VfsNodeType::File, d_name }
    }

    /// Creates a new `VfsDirEntry` with the given name and type. The name
    /// must fit the fixed-length name field.
    pub fn new(name: &str, ty: VfsNodeType) -> (r: Self)
        requires
            name.spec_bytes().len() <= DIR_ENTRY_NAME_LEN,
        ensures
            r.wf(),
            r.spec_entry_type() == ty,
            r.spec_name_buf() == padded_name(name.spec_bytes()),
    {
        let bytes: &[u8] = name.as_bytes();
        let n = bytes.len();
        let mut d_name: Vec<u8> = Vec::new();
        let mut i: usize = 0;
        while i < n
            invariant
                n == bytes@.len(),
                i <= n,
                d_name@ == bytes@.take(i as int),
            decreases n - i,
        {
            let b = bytes[i];
            d_name.push(b);
            i = i + 1;
            proof {
                assert(d_name@ =~= bytes@.take(i as int));
            }
        }
        proof {
            assert(d_name@ =~= bytes@);
        }
        while i < DIR_ENTRY_NAME_LEN
            invariant
                n <= i <= DIR_ENTRY_NAME_LEN,
                n == bytes@.len(),
                d_name@.len() == i,
                d_name@.take(n as int) == bytes@,
                forall|j: int| n <= j < i ==> d_name@[j] == 0u8,
            decreases DIR_ENTRY_NAME_LEN - i,
        {
            d_name.push(0);
            i = i + 1;
        }
        proof {
            assert(d_name@ =~= padded_name(bytes@));
        }
        VfsDirEntry { d_type: ty, d_name }
    }

    /// Returns the type of the entry.
    pub fn entry_type(&self) -> (r: VfsNodeType)
        ensures
            r == self.spec_entry_type(),
    {
        self.d_type
    }

    /// Converts the name of the entry to a byte slice: the stored bytes up
    /// to, and not including, the first zero.
    pub fn name_as_bytes(&self) -> (r: &[u8])
        requires
            self.wf(),
        ensures
            r@.len() <= DIR_ENTRY_NAME_LEN,
            r@ == self.spec_name_buf().take(r@.len() as int),
            forall|j: int| 0 <= j < r@.len() ==> self.spec_name_buf()[j] != 0u8,
            r@.len() < DIR_ENTRY_NAME_LEN ==> self.spec_name_buf()[r@.len() as int] == 0u8,
    {
        let mut len: usize = 0;
        loop
            invariant
                self.wf(),
                len <= DIR_ENTRY_NAME_LEN,
                forall|j: int| 0 <= j < len ==> self.spec_name_buf()[j] != 0u8,
            ensures
                len <= DIR_ENTRY_NAME_LEN,
                forall|j: int| 0 <= j < len ==> self.spec_name_buf()[j] != 0u8,
                len < DIR_ENTRY_NAME_LEN ==> self.spec_name_buf()[len as int] == 0u8,
            decreases DIR_ENTRY_NAME_LEN - len,
        {
            if len >= DIR_ENTRY_NAME_LEN {
                break;
            }
            if self.d_name[len] == 0 {
                break;
            }
            len = len + 1;
        }
        vstd::slice::slice_subrange(self.d_name.as_slice(), 0, len)
    }
}

} // verus!
