//! Firmware images held in flash by the root of trust: validation against
//! the flash programming state, bounds, version and digest.

use sha3::{Digest, Sha3_256};
use vstd::prelude::*;

use crate::image::{ImageHeader, HEADER_MAGIC};

verus! {

/// Flash page size of the LPC55.
pub const PAGE_SIZE: u32 = 512;

/// The MPU needs image sizes in multiples of this many bytes.
pub const IMAGE_ALIGN: u64 = 32;

/// The SHA3-256 digest of `data`.
pub uninterp spec fn sha3_256_of(data: Seq<u8>) -> Seq<u8>;

/// Relies on sha3's `Sha3_256::digest`: the 32-byte SHA3-256 digest of the
/// bytes, which depends on them alone.
#[verifier::external_body]
fn sha3_256(data: &[u8]) -> (r: [u8; 32])
    ensures
        r@ == sha3_256_of(data@),
{
    Sha3_256::digest(data).into()
}

/// Version of an image, from its header.
#[derive(Clone, Copy, Debug, PartialEq, Eq, Structural)]
pub struct ImageVersion {
    pub epoch: u32,
    pub version: u32,
}

/// What is handed on about a booted image.
#[derive(Clone, Copy, Debug, PartialEq, Eq)]
pub struct RotImageDetails {
    pub digest: [u8; 32],
    pub version: ImageVersion,
}

/// A firmware image in flash: the address of its vector table, the size of
/// that table (the header follows it), and the header itself.
#[derive(Clone, Copy, Debug, PartialEq, Eq)]
pub struct Image {
    pub start: u32,
    pub vector_size: u32,
    pub header: ImageHeader,
}

/// `n` rounded up to a multiple of `align`.
pub open spec fn round_up(n: int, align: int) -> int {
    if n % align == 0 {
        n
    } else {
        n - n % align + align
    }
}

impl Image {
    pub open spec fn spec_header_address(&self) -> int {
        self.start + self.vector_size
    }

    /// Bytes of whole flash pages the image occupies.
    pub open spec fn spec_programmed_size(&self) -> int {
        round_up(self.header.total_image_len as int, PAGE_SIZE as int)
    }

    /// Size of the image padded to the MPU's alignment.
    pub open spec fn spec_padded_size(&self) -> int {
        round_up(self.header.total_image_len as int, IMAGE_ALIGN as int)
    }

    pub fn get_img_start(&self) -> (r: u32)
        ensures
            r == self.start,
    {
        self.start
    }

    /// The image length the header records.
    pub fn get_img_size(&self) -> (r: Option<usize>)
        ensures
            r == Some(self.header.total_image_len as usize),
    {
        Some(self.header.total_image_len as usize)
    }

    /// Address of the header: just past the vector table.
    pub fn get_header(&self) -> (r: u32)
        requires
            self.spec_header_address() <= u32::MAX,
        ensures
            r == self.spec_header_address(),
    {
        self.start + self.vector_size
    }

    /// Size of the image padded to the MPU's alignment: the length the
    /// header records does not count that padding.
    pub fn padded_size(&self) -> (r: u64)
        ensures
            r == self.spec_padded_size(),
    {
        let len = self.header.total_image_len as u64;
        let sum: u64 = len + 31;
        let r = sum & !31u64;
        assert(r == round_up(len as int, 32)) by (bit_vector)
            requires
                len <= 0xFFFF_FFFF,
                sum == len + 31,
                r == sum & !31u64,
        ;
        r
    }

    /// The flash pages that must be programmed for the whole image, in bytes.
    pub fn programmed_size(&self) -> (r: u32)
        requires
            self.header.total_image_len + PAGE_SIZE - 1 <= u32::MAX,
        ensures
            r == self.spec_programmed_size(),
    {
        let len = self.header.total_image_len;
        let sum: u32 = len + (PAGE_SIZE - 1);
        let r = sum & !(PAGE_SIZE - 1);
        assert(r == round_up(len as int, 512)) by (bit_vector)
            requires
                len + 511 <= 0xFFFF_FFFF,
                sum == len + 511,
                r == sum & !511u32,
        ;
        r
    }

    /// Checks that the image is programmed and looks like an image: the page
    /// of the vector table, the page of the header and every page of the
    /// image must be programmed, as `programmed(address, length)` reports,
    /// and the header must carry the magic.
    pub fn validate<F: Fn(u32, u32) -> bool>(&self, programmed: F) -> (r: bool)
        requires
            self.spec_header_address() <= u32::MAX,
            self.header.total_image_len + PAGE_SIZE - 1 <= u32::MAX,
            forall|a: u32, l: u32| programmed.requires((a, l)),
        ensures
            r ==> {
                &&& programmed.ensures((self.start, PAGE_SIZE), true)
                &&& programmed.ensures((self.spec_header_address() as u32, PAGE_SIZE), true)
                &&& programmed.ensures((self.start, self.spec_programmed_size() as u32), true)
                &&& self.header.magic == HEADER_MAGIC
            },
            !r ==> {
                ||| programmed.ensures((self.start, PAGE_SIZE), false)
                ||| programmed.ensures((self.spec_header_address() as u32, PAGE_SIZE), false)
                ||| programmed.ensures((self.start, self.spec_programmed_size() as u32), false)
                ||| self.header.magic != HEADER_MAGIC
            },
    {
        let img_start = self.get_img_start();
        // The page of the vector table.
        if !programmed(img_start, PAGE_SIZE) {
            return false;
        }
        // The page of the header.
        let header_address = self.get_header();
        if !programmed(header_address, PAGE_SIZE) {
            return false;
        }
        // Every page the image occupies.
        let size = self.programmed_size();
        if !programmed(img_start, size) {
            return false;
        }
        self.header.magic == HEADER_MAGIC
    }

    /// The SHA3-256 digest of the image: `image` holds the flash contents
    /// from the image start, padded size long.
    pub fn get_hash(&self, image: &[u8]) -> (r: [u8; 32])
        requires
            image@.len() == self.spec_padded_size(),
        ensures
            r@ == sha3_256_of(image@),
    {
        sha3_256(image)
    }

    /// The version the header records.
    pub fn get_image_version(&self) -> (r: ImageVersion)
        ensures
            r == (ImageVersion { epoch: self.header.epoch, version: self.header.version }),
    {
        ImageVersion { epoch: self.header.epoch, version: self.header.version }
    }

    /// The addresses the image occupies, padding included: `start..end`.
    pub fn pointer_range(&self) -> (r: core::ops::Range<u64>)
        ensures
            r.start == self.start,
            r.end == self.start + self.spec_padded_size(),
    {
        let size = self.padded_size();
        (self.start as u64)..(self.start as u64 + size)
    }

    /// The address lies within the image, padding included.
    pub fn contains(&self, address: u64) -> (r: bool)
        ensures
            r == (self.start <= address < self.start + self.spec_padded_size()),
    {
        let range = self.pointer_range();
        range.start <= address && address < range.end
    }
}

/// Digest and version of an image, for the next boot stage; `image` holds
/// its flash contents, padded size long.
pub fn image_details(img: Image, image: &[u8]) -> (r: RotImageDetails)
    requires
        image@.len() == img.spec_padded_size(),
    ensures
        r.digest@ == sha3_256_of(image@),
        r.version == (ImageVersion { epoch: img.header.epoch, version: img.header.version }),
{
    RotImageDetails { digest: img.get_hash(image), version: img.get_image_version() }
}

} // verus!
