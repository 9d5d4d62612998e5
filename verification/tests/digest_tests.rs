use seer_updater::digest::{digest_hex, Md5Stream, Sha256Stream};

#[test]
fn hex_of_bytes() {
    assert_eq!(digest_hex(&[1, 2, 3, 15, 16]), "0102030f10");
    assert_eq!(digest_hex(&[0xde, 0xad, 0xbe, 0xef]), "deadbeef");
    assert_eq!(digest_hex(&[]), "");
}

#[test]
fn md5_of_nothing() {
    assert_eq!(Md5Stream::new().finish_hex(), "d41d8cd98f00b204e9800998ecf8427e");
}

#[test]
fn md5_of_hello_in_chunks() {
    let mut s = Md5Stream::new();
    s.update(b"he");
    s.update(b"");
    s.update(b"llo");
    assert_eq!(s.finish_hex(), "5d41402abc4b2a76b9719d911017c592");
}

#[test]
fn sha256_of_abc() {
    let mut s = Sha256Stream::new();
    s.update(b"abc");
    assert_eq!(
        s.finish_hex(),
        "ba7816bf8f01cfea414140de5dae2223b00361a396177a9cb410ff61f20015ad"
    );
}

#[test]
fn sha256_chunking_does_not_matter() {
    let data: Vec<u8> = (0..200_000u32).map(|i| (i % 251) as u8).collect();
    let mut whole = Sha256Stream::new();
    whole.update(&data);
    let mut parts = Sha256Stream::new();
    for chunk in data.chunks(64 * 1024) {
        parts.update(chunk);
    }
    assert_eq!(whole.finish_hex(), parts.finish_hex());
}

#[test]
fn md5_chunking_does_not_matter() {
    let data: Vec<u8> = (0..100_000u32).map(|i| (i % 13) as u8).collect();
    let mut whole = Md5Stream::new();
    whole.update(&data);
    let mut parts = Md5Stream::new();
    for chunk in data.chunks(7) {
        parts.update(chunk);
    }
    assert_eq!(whole.finish_hex(), parts.finish_hex());
}

#[test]
fn digest_lengths() {
    let mut m = Md5Stream::new();
    m.update(b"seer");
    assert_eq!(m.finish_hex().len(), 32);
    let mut s = Sha256Stream::new();
    s.update(b"seer");
    let h = s.finish_hex();
    assert_eq!(h.len(), 64);
    assert_eq!(h.to_lowercase(), h);
}
