use kern::add;
use kern::image::{check_artifact, find_le_magic, header, Artifact, ArtifactError, SAUEntry, HEADER_MAGIC};

#[test]
fn it_works() {
    let result = add(2, 2);
    assert_eq!(result, 4);
}

fn put(buf: &mut [u8], at: usize, word: u32) {
    buf[at..at + 4].copy_from_slice(&word.to_le_bytes());
}

fn stage0_image() -> Vec<u8> {
    let mut img = vec![0u8; 8 * 512];
    put(&mut img, 0, 0x2000_8000);
    put(&mut img, 4, 0x1000_0101);
    put(&mut img, 0x40, HEADER_MAGIC);
    put(&mut img, 0x44, 0x800);
    put(&mut img, 0x40 + 72, 3);
    put(&mut img, 0x40 + 76, 1);
    img
}

#[test]
fn nonce_checks() {
    assert_eq!(check_artifact(Artifact::Nonce64, &[1, 2, 3, 4, 5, 6, 7, 8]), Ok(()));
    assert_eq!(check_artifact(Artifact::Nonce64, &[0; 8]), Err(ArtifactError::Failed));
    assert_eq!(check_artifact(Artifact::Nonce64, &[0xff; 8]), Err(ArtifactError::Failed));
    assert_eq!(check_artifact(Artifact::Nonce64, &[1, 2, 3]), Err(ArtifactError::Failed));
}

#[test]
fn unchecked_artifact_kind() {
    assert_eq!(
        check_artifact(Artifact::_PscSpStm32H53Hubris, &[1, 2, 3]),
        Err(ArtifactError::NotImplemented)
    );
}

#[test]
fn stage0_checks() {
    let img = stage0_image();
    assert_eq!(check_artifact(Artifact::GimletletRotLpc55S69Stage0, &img), Ok(()));

    let mut bad = img.clone();
    put(&mut bad, 0x40 + 76, 0);
    assert_eq!(check_artifact(Artifact::GimletletRotLpc55S69Stage0, &bad), Err(ArtifactError::Failed));

    let mut bad = img.clone();
    put(&mut bad, 0x40 + 8, 1);
    assert_eq!(check_artifact(Artifact::GimletletRotLpc55S69Stage0, &bad), Err(ArtifactError::Failed));

    let mut bad = img.clone();
    put(&mut bad, 0x44, 0x10000);
    assert_eq!(check_artifact(Artifact::GimletletRotLpc55S69Stage0, &bad), Err(ArtifactError::Failed));

    let mut bad = img.clone();
    put(&mut bad, 0, 0);
    assert_eq!(check_artifact(Artifact::GimletletRotLpc55S69Stage0, &bad), Err(ArtifactError::Failed));

    let short = img[..512].to_vec();
    assert_eq!(check_artifact(Artifact::GimletletRotLpc55S69Stage0, &short), Err(ArtifactError::Failed));

    let ragged = img[..4000].to_vec();
    assert_eq!(check_artifact(Artifact::GimletletRotLpc55S69Stage0, &ragged), Err(ArtifactError::Failed));

    let mut no_magic = img.clone();
    put(&mut no_magic, 0x40, 0);
    assert_eq!(check_artifact(Artifact::GimletletRotLpc55S69Stage0, &no_magic), Err(ArtifactError::Failed));
}

#[test]
fn find_magic_word() {
    let mut buf = vec![0u8; 32];
    put(&mut buf, 12, 0xAABB_CCDD);
    put(&mut buf, 20, 0xAABB_CCDD);
    assert_eq!(find_le_magic(&buf, 0xAABB_CCDD), Some(12));
    assert_eq!(find_le_magic(&buf, 0x1234_5678), None);
    assert_eq!(find_le_magic(&buf[..14], 0xAABB_CCDD), None);
    assert_eq!(find_le_magic(&[], 0), None);
    let mut unaligned = vec![0u8; 16];
    put(&mut unaligned, 6, 0xAABB_CCDD);
    assert_eq!(find_le_magic(&unaligned, 0xAABB_CCDD), None);
}

#[test]
fn read_image_header() {
    let img = stage0_image();
    let (offset, h) = header(&img).unwrap();
    assert_eq!(offset, 0x40);
    assert_eq!(h.magic, HEADER_MAGIC);
    assert_eq!(h.total_image_len, 0x800);
    assert_eq!(h.sau_entries, [SAUEntry { rbar: 0, rlar: 0 }; 8]);
    assert_eq!(h.version, 3);
    assert_eq!(h.epoch, 1);
    assert!(header(&img[..0x40 + 79]).is_none());
    assert!(header(&[0u8; 100]).is_none());
}
