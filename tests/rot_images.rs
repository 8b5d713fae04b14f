use kern::image::{ImageHeader, SAUEntry, HEADER_MAGIC};
use kern::rot_images::{image_details, Image, ImageVersion, PAGE_SIZE};
use sha3::{Digest, Sha3_256};

fn image(len: u32, magic: u32) -> Image {
    Image {
        start: 0x1_0000,
        vector_size: 0x130,
        header: ImageHeader {
            magic,
            total_image_len: len,
            sau_entries: [SAUEntry { rbar: 0, rlar: 0 }; 8],
            version: 7,
            epoch: 2,
        },
    }
}

#[test]
fn sizes_and_bounds() {
    let img = image(0x1001, HEADER_MAGIC);
    assert_eq!(img.get_img_start(), 0x1_0000);
    assert_eq!(img.get_img_size(), Some(0x1001));
    assert_eq!(img.get_header(), 0x1_0130);
    assert_eq!(img.padded_size(), 0x1020);
    assert_eq!(img.programmed_size(), 0x1200);
    assert_eq!(image(0x1000, HEADER_MAGIC).padded_size(), 0x1000);
    assert_eq!(img.pointer_range(), 0x1_0000..0x1_1020);
    assert!(img.contains(0x1_0000));
    assert!(img.contains(0x1_101F));
    assert!(!img.contains(0x1_1020));
    assert!(!img.contains(0xFFFF));
    assert_eq!(img.get_image_version(), ImageVersion { epoch: 2, version: 7 });
}

#[test]
fn validate_follows_flash_state() {
    let img = image(0x1001, HEADER_MAGIC);
    assert!(img.validate(|_a: u32, _l: u32| true));
    assert!(!img.validate(|_a: u32, l: u32| l == PAGE_SIZE));
    assert!(!img.validate(|a: u32, _l: u32| a != 0x1_0130));
    assert!(!image(0x1001, 0).validate(|_a: u32, _l: u32| true));
}

#[test]
fn image_digest() {
    let empty = image(0, HEADER_MAGIC);
    let d = empty.get_hash(&[]);
    assert_eq!(d[..4], [0xa7, 0xff, 0xc6, 0xf8]);
    assert_eq!(d[28..], [0x80, 0xf8, 0x43, 0x4a]);

    let img = image(30, HEADER_MAGIC);
    let bytes: Vec<u8> = (0..32u8).collect();
    let details = image_details(img, &bytes);
    let expected: [u8; 32] = Sha3_256::digest(&bytes).into();
    assert_eq!(details.digest, expected);
    assert_ne!(details.digest.to_vec(), bytes);
    assert_eq!(details.version, ImageVersion { epoch: 2, version: 7 });
}
