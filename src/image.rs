//! Checks on signed artifacts, and the search for an image header in a
//! flash image.

use vstd::prelude::*;

verus! {

/// Size of a flash page of the LPC55S69.
pub const LPC55S69_FLASH_PAGE_SIZE: usize = 512;

/// Smallest acceptable stage0 image.
pub const LPC55S69_MIN_SIZE: usize = 8 * 512;

/// Bound (exclusive) on the size of a stage0 image.
pub const LPC55S69_MAX_SIZE: usize = 2000 * 512;

/// Marks the start of an image header.
pub const HEADER_MAGIC: u32 = 0x1535_6637;

/// Number of SAU entries in an image header.
pub const SAU_ENTRY_COUNT: usize = 8;

/// Size in bytes of an image header as laid out in flash.
pub const IMAGE_HEADER_SIZE: usize = 80;

/// Kinds of artifact that can be checked before signing.
#[derive(Clone, Copy, Debug, PartialEq, Eq, Structural)]
pub enum Artifact {
    Nonce64,
    _GimletletRotLpc55S69HubrisA,
    _GimletletRotLpc55S69HubrisB,
    GimletletRotLpc55S69Stage0,
    _GimletRotLpc55S69HubrisA,
    _GimletRotLpc55S69HubrisB,
    _GimletRotLpc55S69Stage0,
    _GimletSpStm32H53Hubris,
    _PscRotLpc55S69HubrisA,
    _PscRotLpc55S69HubrisB,
    _PscRotLpc55S69Stage0,
    _PscSpStm32H53Hubris,
    _SidecarRotLpc55S69HubrisA,
    _SidecarRotLpc55S69HubrisB,
    _SidecarRotLpc55S69Stage0,
    _SidecarSpStm32H53Hubris,
}

/// One SAU region setting of an image header.
#[derive(Clone, Copy, Debug, PartialEq, Eq, Structural)]
pub struct SAUEntry {
    pub rbar: u32,
    pub rlar: u32,
}

/// Header of a firmware image: little-endian words, in this order.
#[derive(Clone, Copy, Debug, PartialEq, Eq)]
pub struct ImageHeader {
    pub magic: u32,
    pub total_image_len: u32,
    pub sau_entries: [SAUEntry; SAU_ENTRY_COUNT],
    pub version: u32,
    pub epoch: u32,
}

/// What went wrong checking an artifact.
#[derive(Clone, Copy, Debug, PartialEq, Eq, Structural)]
pub enum ArtifactError {
    NotImplemented,
    Failed,
}

/// The little-endian word in the four bytes at `i`.
pub open spec fn le_u32(b: Seq<u8>, i: int) -> u32 {
    (b[i] as int + b[i + 1] as int * 0x100 + b[i + 2] as int * 0x1_0000 + b[i + 3] as int
        * 0x100_0000) as u32
}

/// Reads the little-endian word at `offset`.
pub fn read_u32_le(buf: &[u8], offset: usize) -> (r: u32)
    requires
        offset + 4 <= buf@.len(),
    ensures
        r == le_u32(buf@, offset as int),
{
    let b0 = buf[offset] as u32;
    let b1 = buf[offset + 1] as u32;
    let b2 = buf[offset + 2] as u32;
    let b3 = buf[offset + 3] as u32;
    let r = b0 | b1 << 8u32 | b2 << 16u32 | b3 << 24u32;
    assert(r == b0 + b1 * 0x100 + b2 * 0x1_0000 + b3 * 0x100_0000) by (bit_vector)
        requires
            b0 < 0x100,
            b1 < 0x100,
            b2 < 0x100,
            b3 < 0x100,
            r == b0 | b1 << 8u32 | b2 << 16u32 | b3 << 24u32,
    ;
    r
}

/// A word-aligned word equal to `magic` lies wholly in `b` at `i`.
pub open spec fn magic_at(b: Seq<u8>, i: int, magic: u32) -> bool {
    &&& 0 <= i
    &&& i % 4 == 0
    &&& i + 4 <= b.len()
    &&& le_u32(b, i) == magic
}

/// Finds the first word-aligned offset in `buf` that holds `magic` as a
/// little-endian word.
pub fn find_le_magic(buf: &[u8], magic: u32) -> (r: Option<usize>)
    ensures
        match r {
            Some(i) => magic_at(buf@, i as int, magic) && forall|j: int|
                0 <= j < i ==> !#[trigger] magic_at(buf@, j, magic),
            None => forall|j: int| !#[trigger] magic_at(buf@, j, magic),
        },
{
    let mut index: usize = 0;
    while index < buf.len()
        invariant
            index % 4 == 0,
            forall|j: int| 0 <= j < index ==> !#[trigger] magic_at(buf@, j, magic),
        decreases buf@.len() - index,
    {
        if buf.len() - index < 4 {
            proof {
                assert forall|j: int| !#[trigger] magic_at(buf@, j, magic) by {
                    if j >= index {
                    }
                }
            }
            return None;
        }
        if magic == read_u32_le(buf, index) {
            return Some(index);
        }
        proof {
            assert forall|j: int| 0 <= j < index + 4 implies !#[trigger] magic_at(buf@, j, magic) by {
                if j > index && j < index + 4 {
                    assert(j % 4 != 0);
                }
            }
        }
        if buf.len() - index == 4 {
            return None;
        }
        index = index + 4;
    }
    None
}

/// `h` is the header laid out in `b` at `off`.
pub open spec fn header_matches(h: ImageHeader, b: Seq<u8>, off: int) -> bool {
    &&& h.magic == le_u32(b, off)
    &&& h.total_image_len == le_u32(b, off + 4)
    &&& forall|k: int|
        0 <= k < SAU_ENTRY_COUNT ==> (#[trigger] h.sau_entries@[k]).rbar == le_u32(b, off + 8 + 8 * k)
            && h.sau_entries@[k].rlar == le_u32(b, off + 12 + 8 * k)
    &&& h.version == le_u32(b, off + 72)
    &&& h.epoch == le_u32(b, off + 76)
}

/// Reads the header laid out at `off`, if it fits in `buf`.
pub fn read_header(buf: &[u8], off: usize) -> (r: Option<ImageHeader>)
    ensures
        match r {
            Some(h) => off + IMAGE_HEADER_SIZE <= buf@.len() && header_matches(h, buf@, off as int),
            None => off + IMAGE_HEADER_SIZE > buf@.len(),
        },
{
    if off > buf.len() || buf.len() - off < IMAGE_HEADER_SIZE {
        return None;
    }
    let mut sau_entries = [SAUEntry { rbar: 0, rlar: 0 }; SAU_ENTRY_COUNT];
    let mut k: usize = 0;
    while k < SAU_ENTRY_COUNT
        invariant
            off + IMAGE_HEADER_SIZE <= buf.len(),
            k <= SAU_ENTRY_COUNT,
            forall|q: int|
                0 <= q < k ==> (#[trigger] sau_entries@[q]).rbar == le_u32(buf@, off + 8 + 8 * q)
                    && sau_entries@[q].rlar == le_u32(buf@, off + 12 + 8 * q),
        decreases SAU_ENTRY_COUNT - k,
    {
        let rbar = read_u32_le(buf, off + 8 + 8 * k);
        let rlar = read_u32_le(buf, off + 12 + 8 * k);
        sau_entries[k] = SAUEntry { rbar, rlar };
        k = k + 1;
    }
    Some(
        ImageHeader {
            magic: read_u32_le(buf, off),
            total_image_len: read_u32_le(buf, off + 4),
            sau_entries,
            version: read_u32_le(buf, off + 72),
            epoch: read_u32_le(buf, off + 76),
        },
    )
}

/// Finds the first image header in `buf`: its offset and contents. None when
/// no word-aligned header magic is found, or the header it starts does not
/// fit.
pub fn header(buf: &[u8]) -> (r: Option<(usize, ImageHeader)>)
    ensures
        match r {
            Some((off, h)) => {
                &&& magic_at(buf@, off as int, HEADER_MAGIC)
                &&& forall|j: int| 0 <= j < off ==> !#[trigger] magic_at(buf@, j, HEADER_MAGIC)
                &&& off + IMAGE_HEADER_SIZE <= buf@.len()
                &&& header_matches(h, buf@, off as int)
            },
            None => forall|off: int|
                #[trigger] magic_at(buf@, off, HEADER_MAGIC) ==> (exists|j: int|
                    0 <= j < off && #[trigger] magic_at(buf@, j, HEADER_MAGIC)) || off
                    + IMAGE_HEADER_SIZE > buf@.len(),
        },
{
    match find_le_magic(buf, HEADER_MAGIC) {
        Some(offset) => {
            match read_header(buf, offset) {
                Some(h) => Some((offset, h)),
                None => None,
            }
        },
        None => None,
    }
}

/// Every byte of `b` equals `v`.
fn all_bytes_are(b: &[u8], v: u8) -> (r: bool)
    ensures
        r == forall|i: int| 0 <= i < b@.len() ==> b@[i] == v,
{
    let mut i: usize = 0;
    while i < b.len()
        invariant
            forall|j: int| 0 <= j < i ==> b@[j] == v,
        decreases b@.len() - i,
    {
        if b[i] != v {
            return false;
        }
        i = i + 1;
    }
    true
}

/// A 64-bit nonce: eight bytes, neither all zeros nor all ones.
pub open spec fn nonce_acceptable(b: Seq<u8>) -> bool {
    &&& b.len() == 8
    &&& !(forall|i: int| 0 <= i < b.len() ==> b[i] == 0)
    &&& !(forall|i: int| 0 <= i < b.len() ==> b[i] == 0xff)
}

/// `m` is where the stage0 header starts: the first word-aligned magic of
/// the first flash page past the two vector words.
pub open spec fn stage0_header_offset(b: Seq<u8>, m: int) -> bool {
    &&& 8 <= m < LPC55S69_FLASH_PAGE_SIZE
    &&& magic_at(b, m, HEADER_MAGIC)
    &&& forall|j: int| 8 <= j < m ==> !#[trigger] magic_at(b, j, HEADER_MAGIC)
}

/// The header found in a stage0 image is sound: it carries the magic, its
/// length fits the image, no SAU entry is set, and version and epoch are
/// non-zero.
pub open spec fn stage0_header_sound(b: Seq<u8>, m: int) -> bool {
    &&& m + IMAGE_HEADER_SIZE <= b.len()
    &&& le_u32(b, m) == HEADER_MAGIC
    &&& le_u32(b, m + 4) <= b.len()
    &&& forall|k: int| 0 <= k < 2 * SAU_ENTRY_COUNT ==> #[trigger] le_u32(b, m + 8 + 4 * k) == 0
    &&& le_u32(b, m + 72) != 0
    &&& le_u32(b, m + 76) != 0
}

/// A stage0 image: whole flash pages, a size in range, non-zero initial
/// stack pointer and reset vector, and a sound header in its first page.
pub open spec fn stage0_acceptable(b: Seq<u8>) -> bool {
    &&& b.len() % (LPC55S69_FLASH_PAGE_SIZE as nat) == 0
    &&& LPC55S69_MIN_SIZE <= b.len() < LPC55S69_MAX_SIZE
    &&& le_u32(b, 0) != 0
    &&& le_u32(b, 4) != 0
    &&& exists|m: int| #[trigger] stage0_header_offset(b, m) && stage0_header_sound(b, m)
}

/// The first stage0 header offset, scanning the first flash page from
/// offset 8.
fn stage0_magic(content: &[u8]) -> (r: Option<usize>)
    requires
        LPC55S69_FLASH_PAGE_SIZE <= content@.len(),
    ensures
        match r {
            Some(m) => stage0_header_offset(content@, m as int),
            None => forall|m: int| !#[trigger] stage0_header_offset(content@, m),
        },
{
    let mut offset: usize = 8;
    while offset < LPC55S69_FLASH_PAGE_SIZE
        invariant
            LPC55S69_FLASH_PAGE_SIZE <= content@.len(),
            8 <= offset <= LPC55S69_FLASH_PAGE_SIZE,
            offset % 4 == 0,
            forall|j: int| 8 <= j < offset ==> !#[trigger] magic_at(content@, j, HEADER_MAGIC),
        decreases LPC55S69_FLASH_PAGE_SIZE - offset,
    {
        if read_u32_le(content, offset) == HEADER_MAGIC {
            return Some(offset);
        }
        proof {
            assert forall|j: int| 8 <= j < offset + 4 implies !#[trigger] magic_at(
                content@,
                j,
                HEADER_MAGIC,
            ) by {
                if j > offset && j < offset + 4 {
                    assert(j % 4 != 0);
                }
            }
        }
        offset = offset + 4;
    }
    None
}

/// Checks the stage0 header at `m`.
fn stage0_header_ok(content: &[u8], m: usize) -> (r: bool)
    ensures
        r == stage0_header_sound(content@, m as int),
{
    match read_header(content, m) {
        None => false,
        Some(h) => {
            if h.magic != HEADER_MAGIC || h.total_image_len as usize > content.len() {
                return false;
            }
            let mut k: usize = 0;
            while k < SAU_ENTRY_COUNT
                invariant
                    k <= SAU_ENTRY_COUNT,
                    header_matches(h, content@, m as int),
                    forall|q: int|
                        0 <= q < 2 * k ==> #[trigger] le_u32(content@, m + 8 + 4 * q) == 0,
                decreases SAU_ENTRY_COUNT - k,
            {
                let e = h.sau_entries[k];
                if e.rbar != 0 || e.rlar != 0 {
                    assert(le_u32(content@, m + 8 + 4 * (2 * k)) == e.rbar);
                    assert(le_u32(content@, m + 8 + 4 * (2 * k + 1)) == e.rlar);
                    return false;
                }
                proof {
                    assert(le_u32(content@, m + 8 + 4 * (2 * k)) == e.rbar);
                    assert(le_u32(content@, m + 8 + 4 * (2 * k + 1)) == e.rlar);
                }
                k = k + 1;
            }
            h.version != 0 && h.epoch != 0
        },
    }
}

/// Checks that `content` is an acceptable artifact of the given kind. Kinds
/// without a check give `NotImplemented`; content that fails its check gives
/// `Failed`.
pub fn check_artifact(artifact: Artifact, content: &[u8]) -> (r: Result<(), ArtifactError>)
    ensures
        r == (match artifact {
            Artifact::Nonce64 => if nonce_acceptable(content@) {
                Ok::<(), ArtifactError>(())
            } else {
                Err(ArtifactError::Failed)
            },
            Artifact::GimletletRotLpc55S69Stage0 => if stage0_acceptable(content@) {
                Ok(())
            } else {
                Err(ArtifactError::Failed)
            },
            _ => Err(ArtifactError::NotImplemented),
        }),
{
    match artifact {
        Artifact::Nonce64 => {
            let mut passed: usize = 0;
            if content.len() == 8 {
                passed = passed + 1;
            }
            // All zeros is not a nonce.
            if !all_bytes_are(content, 0) {
                passed = passed + 1;
            }
            // All ones is not a nonce.
            if !all_bytes_are(content, 0xff) {
                passed = passed + 1;
            }
            if passed == 3 {
                Ok(())
            } else {
                Err(ArtifactError::Failed)
            }
        },
        Artifact::GimletletRotLpc55S69Stage0 => {
            let len = content.len();
            if len % LPC55S69_FLASH_PAGE_SIZE != 0 || len < LPC55S69_MIN_SIZE || len
                >= LPC55S69_MAX_SIZE {
                return Err(ArtifactError::Failed);
            }
            let sp = read_u32_le(content, 0);
            let pc = read_u32_le(content, 4);
            if sp == 0 || pc == 0 {
                return Err(ArtifactError::Failed);
            }
            match stage0_magic(content) {
                None => Err(ArtifactError::Failed),
                Some(m) => {
                    if stage0_header_ok(content, m) {
                        Ok(())
                    } else {
                        proof {
                            assert forall|m2: int| #[trigger]
                                stage0_header_offset(content@, m2) implies !stage0_header_sound(
                                content@,
                                m2,
                            ) by {
                                if m2 < m {
                                    assert(!magic_at(content@, m2, HEADER_MAGIC));
                                } else if m < m2 {
                                    assert(!magic_at(content@, m as int, HEADER_MAGIC));
                                }
                            }
                        }
                        Err(ArtifactError::Failed)
                    }
                },
            }
        },
        _ => Err(ArtifactError::NotImplemented),
    }
}

} // verus!
