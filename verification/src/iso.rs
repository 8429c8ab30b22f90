use crate::mmu::be32_of;
use vstd::prelude::*;

verus! {

/// Where the parts of a disc image lie: the disc header, the header
/// information block and the apploader header.
pub const DVD_HEADER_OFFSET: usize = 0;
pub const DVD_HEADER_SIZE: usize = 0x440;
pub const DVD_HEADER_INFO_OFFSET: usize = 0x440;
pub const DVD_HEADER_INFO_SIZE: usize = 0x2000;
pub const DVD_APPLOADER_OFFSET: usize = 0x2440;
pub const DVD_APPLOADER_SIZE: usize = 0x20;

/// Magic words of GameCube and Wii discs.
pub const GC_MAGIC: u32 = 0xC233_9F3D;
pub const WII_MAGIC: u32 = 0x5D1C_9EA3;

/// Size of one file-system entry.
pub const FST_ENTRY_SIZE: usize = 12;

/// The big-endian word at `off` of `d`.
pub open spec fn be32_at(d: Seq<u8>, off: int) -> u32 {
    be32_of(d[off], d[off + 1], d[off + 2], d[off + 3])
}

/// The big-endian word at `off` of `d`.
pub fn read_be32(d: &[u8], off: usize) -> (r: u32)
    requires
        off + 4 <= d@.len(),
    ensures
        r == be32_at(d@, off as int),
{
    let b0 = d[off] as u32;
    let b1 = d[off + 1] as u32;
    let b2 = d[off + 2] as u32;
    let b3 = d[off + 3] as u32;
    b0 * 0x100_0000 + b1 * 0x1_0000 + b2 * 0x100 + b3
}

/// The disc header fields the loader uses: the two magic words, where the
/// main executable lies, and where and how large the file system is.
#[derive(Clone, Copy)]
pub struct Header {
    pub wii_magic: u32,
    pub gc_magic: u32,
    pub dol_offset: u32,
    pub offset_filesystem: u32,
    pub filesystem_size: u32,
    pub max_filesystem_size: u32,
}

/// The header read from the header bytes `h`.
pub open spec fn header_of(h: Seq<u8>) -> Header {
    Header {
        wii_magic: be32_at(h, 0x18),
        gc_magic: be32_at(h, 0x1C),
        dol_offset: be32_at(h, 0x420),
        offset_filesystem: be32_at(h, 0x424),
        filesystem_size: be32_at(h, 0x428),
        max_filesystem_size: be32_at(h, 0x42C),
    }
}

impl Header {
    /// Reads the header from its `DVD_HEADER_SIZE` bytes.
    pub fn read_from_bytes(h: &[u8]) -> (r: Header)
        requires
            h@.len() >= DVD_HEADER_SIZE,
        ensures
            r == header_of(h@),
    {
        Header {
            wii_magic: read_be32(h, 0x18),
            gc_magic: read_be32(h, 0x1C),
            dol_offset: read_be32(h, 0x420),
            offset_filesystem: read_be32(h, 0x424),
            filesystem_size: read_be32(h, 0x428),
            max_filesystem_size: read_be32(h, 0x42C),
        }
    }

    /// Whether the disc is a Wii disc.
    pub fn is_wii(&self) -> (r: bool)
        ensures
            r == (self.wii_magic == WII_MAGIC),
    {
        self.wii_magic == WII_MAGIC
    }
}

/// The apploader header: its entry point, its size and its trailer's.
#[derive(Clone, Copy)]
pub struct Apploader {
    pub entry_point: u32,
    pub size: u32,
    pub trailer_size: u32,
}

/// The apploader header read from its bytes `a`.
pub open spec fn apploader_of(a: Seq<u8>) -> Apploader {
    Apploader { entry_point: be32_at(a, 0x10), size: be32_at(a, 0x14), trailer_size: be32_at(a, 0x18) }
}

impl Apploader {
    /// Reads the apploader header from its `DVD_APPLOADER_SIZE` bytes.
    pub fn read_from_bytes(a: &[u8]) -> (r: Apploader)
        requires
            a@.len() >= DVD_APPLOADER_SIZE,
        ensures
            r == apploader_of(a@),
    {
        Apploader { entry_point: read_be32(a, 0x10), size: read_be32(a, 0x14), trailer_size: read_be32(a, 0x18) }
    }
}

/// One file-system entry: a directory or a file, the offset of its name
/// in the name table, and for a file its offset on the disc (scaled by the
/// disc's shift) and length, for a directory its parent and the index
/// after its last child.
#[derive(Clone, Copy)]
pub struct FstEntry {
    pub is_dir: bool,
    pub name_offset: u32,
    pub offset: u64,
    pub length: u32,
}

/// Entry `i` of the file system `fst`, file offsets shifted left by
/// `shift`.
pub open spec fn fst_entry_of(fst: Seq<u8>, i: int, shift: u32) -> FstEntry {
    let w0 = be32_at(fst, 12 * i);
    let off = be32_at(fst, 12 * i + 4);
    let is_dir = w0 / 0x100_0000 != 0;
    FstEntry {
        is_dir,
        name_offset: w0 % 0x100_0000,
        offset: if is_dir {
            off as u64
        } else {
            ((off as u64) << shift) as u64
        },
        length: be32_at(fst, 12 * i + 8),
    }
}

/// Number of entries of the file system `fst`: as many as its root entry
/// counts, as far as the bytes go.
pub open spec fn fst_count(fst: Seq<u8>) -> int {
    if fst.len() < 12 {
        0
    } else {
        let n = be32_at(fst, 8) as int;
        let fit = (fst.len() / 12) as int;
        if n <= fit {
            n
        } else {
            fit
        }
    }
}

/// The file system: its entries in order (the root first), then the name
/// table after them.
pub struct FstNode {
    pub entries: Vec<FstEntry>,
    pub names: Vec<u8>,
}

impl FstNode {
    /// Parses the file-system bytes `fst`; file offsets are shifted left
    /// by `file_offset_shift` (2 on Wii discs, which store them divided by
    /// four).
    pub fn parse(fst: &[u8], file_offset_shift: u32) -> (r: FstNode)
        requires
            file_offset_shift < 32,
        ensures
            r.entries@.len() == fst_count(fst@),
            forall|i: int|
                0 <= i < r.entries@.len() ==> #[trigger] r.entries@[i] == fst_entry_of(fst@, i, file_offset_shift),
            r.names@ == fst@.subrange(12 * fst_count(fst@), fst@.len() as int),
    {
        let mut count: usize = 0;
        if fst.len() >= FST_ENTRY_SIZE {
            let n = read_be32(fst, 8) as usize;
            let fit = fst.len() / FST_ENTRY_SIZE;
            count = if n <= fit {
                n
            } else {
                fit
            };
        }
        assert(count == fst_count(fst@));
        assert(12 * count <= fst@.len()) by (nonlinear_arith)
            requires
                count <= fst@.len() / 12,
        {
        }
        let len = fst.len();
        let mut entries: Vec<FstEntry> = Vec::new();
        let mut i: usize = 0;
        while i < count
            invariant
                len == fst@.len(),
                count == fst_count(fst@),
                12 * count <= fst@.len(),
                file_offset_shift < 32,
                i <= count,
                entries@.len() == i,
                forall|j: int| 0 <= j < i ==> #[trigger] entries@[j] == fst_entry_of(fst@, j, file_offset_shift),
            decreases count - i,
        {
            assert(12 * i + 12 <= 12 * count) by (nonlinear_arith)
                requires
                    i < count,
            {
            }
            let base = FST_ENTRY_SIZE * i;
            let w0 = read_be32(fst, base);
            let off = read_be32(fst, base + 4);
            let length = read_be32(fst, base + 8);
            let is_dir = w0 / 0x100_0000 != 0;
            let offset: u64 = if is_dir {
                off as u64
            } else {
                (off as u64) << file_offset_shift
            };
            entries.push(FstEntry { is_dir, name_offset: w0 % 0x100_0000, offset, length });
            i = i + 1;
        }
        let mut names: Vec<u8> = Vec::new();
        let mut k: usize = FST_ENTRY_SIZE * count;
        while k < fst.len()
            invariant
                12 * count <= k <= fst@.len(),
                names@ == fst@.subrange(12 * count as int, k as int),
            decreases fst@.len() - k,
        {
            names.push(fst[k]);
            assert(fst@.subrange(12 * count as int, k + 1) =~= fst@.subrange(12 * count as int, k as int).push(
                fst@[k as int],
            ));
            k = k + 1;
        }
        FstNode { entries, names }
    }
}

/// The shift of file offsets on a disc with header `h`: none on a
/// GameCube disc, two bits otherwise.
pub open spec fn file_offset_shift_of(h: Header) -> u32 {
    if h.gc_magic == GC_MAGIC {
        0
    } else {
        2
    }
}

/// The shift of file offsets on a disc with header `h`.
pub fn file_offset_shift_for(h: &Header) -> (r: u32)
    ensures
        r == file_offset_shift_of(*h),
{
    if h.gc_magic == GC_MAGIC {
        0
    } else {
        2
    }
}

/// Whether `data` holds a disc image's header, header information and
/// apploader header, and the file system the header names.
pub open spec fn image_ok(data: Seq<u8>) -> bool {
    &&& data.len() >= DVD_APPLOADER_OFFSET + DVD_APPLOADER_SIZE
    &&& {
        let h = header_of(data.subrange(0, DVD_HEADER_SIZE as int));
        h.offset_filesystem + h.filesystem_size <= data.len()
    }
}

/// A whole disc image in memory, with its parsed header, header
/// information, apploader header and file system.
pub struct Iso {
    pub header: Header,
    pub header_info: Vec<u8>,
    pub apploader: Apploader,
    pub filesystem: FstNode,
    pub data: Vec<u8>,
}

fn copy_range(d: &[u8], start: usize, end: usize) -> (r: Vec<u8>)
    requires
        start <= end <= d@.len(),
    ensures
        r@ == d@.subrange(start as int, end as int),
{
    let mut out: Vec<u8> = Vec::new();
    let mut k = start;
    while k < end
        invariant
            start <= k <= end <= d@.len(),
            out@ == d@.subrange(start as int, k as int),
        decreases end - k,
    {
        out.push(d[k]);
        assert(d@.subrange(start as int, k + 1) =~= d@.subrange(start as int, k as int).push(d@[k as int]));
        k = k + 1;
    }
    out
}

impl Iso {
    /// The image's bytes.
    pub open spec fn bytes(&self) -> Seq<u8> {
        self.data@
    }

    /// Parses the disc image `data`: the header, the header information,
    /// the apploader header, and the file system the header points at,
    /// file offsets scaled as the disc's magic asks.
    pub fn parse(data: Vec<u8>) -> (r: Iso)
        requires
            image_ok(data@),
        ensures
            r.bytes() == data@,
            r.header == header_of(data@.subrange(0, DVD_HEADER_SIZE as int)),
            r.header_info@ == data@.subrange(DVD_HEADER_INFO_OFFSET as int, (DVD_HEADER_INFO_OFFSET + DVD_HEADER_INFO_SIZE) as int),
            r.apploader == apploader_of(
                data@.subrange(DVD_APPLOADER_OFFSET as int, (DVD_APPLOADER_OFFSET + DVD_APPLOADER_SIZE) as int),
            ),
            ({
                let fst = data@.subrange(
                    r.header.offset_filesystem as int,
                    r.header.offset_filesystem + r.header.filesystem_size,
                );
                let shift = file_offset_shift_of(r.header);
                &&& r.filesystem.entries@.len() == fst_count(fst)
                &&& forall|i: int|
                    0 <= i < r.filesystem.entries@.len() ==> #[trigger] r.filesystem.entries@[i] == fst_entry_of(
                        fst,
                        i,
                        shift,
                    )
                &&& r.filesystem.names@ == fst.subrange(12 * fst_count(fst), fst.len() as int)
            }),
    {
        let header_bytes = copy_range(data.as_slice(), DVD_HEADER_OFFSET, DVD_HEADER_OFFSET + DVD_HEADER_SIZE);
        let header = Header::read_from_bytes(header_bytes.as_slice());
        let header_info = copy_range(
            data.as_slice(),
            DVD_HEADER_INFO_OFFSET,
            DVD_HEADER_INFO_OFFSET + DVD_HEADER_INFO_SIZE,
        );
        let apploader_bytes = copy_range(
            data.as_slice(),
            DVD_APPLOADER_OFFSET,
            DVD_APPLOADER_OFFSET + DVD_APPLOADER_SIZE,
        );
        let apploader = Apploader::read_from_bytes(apploader_bytes.as_slice());
        let data_len = data.len();
        assert(header.offset_filesystem + header.filesystem_size <= data_len);
        let fst_start = header.offset_filesystem as usize;
        let fst_end = fst_start + header.filesystem_size as usize;
        let file_offset_shift = file_offset_shift_for(&header);
        let fst_bytes = copy_range(data.as_slice(), fst_start, fst_end);
        let filesystem = FstNode::parse(fst_bytes.as_slice(), file_offset_shift);
        Iso { header, header_info, apploader, filesystem, data }
    }

    /// The image's bytes.
    pub fn data(&self) -> (r: &[u8])
        ensures
            r@ == self.bytes(),
    {
        self.data.as_slice()
    }

    /// Where the data partition starts: past the Wii partition tables on a
    /// Wii disc, at 0 otherwise.
    pub fn data_partition_offset(&self) -> (r: u64)
        ensures
            r == if self.header.wii_magic == WII_MAGIC {
                0xF80_0000u64
            } else {
                0
            },
    {
        if self.header.is_wii() {
            0xF80_0000
        } else {
            0
        }
    }
}

} // verus!
