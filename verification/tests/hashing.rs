use filecoin_signer::utils::{blake2b_256, cid_bytes, get_digest, get_digest_voucher};

fn hex(bytes: &[u8]) -> String {
    let mut out = String::new();
    for b in bytes {
        out.push_str(&format!("{:02x}", b));
    }
    out
}

#[test]
fn blake2b_256_of_empty_input() {
    assert_eq!(
        hex(&blake2b_256(b"")),
        "0e5751c026e543b2e8ab2eb06099daa1d1e5df47778f7787faab45cdf12fe3a8"
    );
}

#[test]
fn blake2b_256_of_abc() {
    assert_eq!(
        hex(&blake2b_256(b"abc")),
        "bddd813c634239723171ef3fee98579b94964e3bb1cb3e427262c8c068d52319"
    );
}

#[test]
fn cid_bytes_start_with_the_fixed_head() {
    let bytes = cid_bytes(b"abc");
    assert_eq!(bytes.len(), 38);
    assert_eq!(&bytes[..6], &[0x01, 0x71, 0xa0, 0xe4, 0x02, 0x20]);
    assert_eq!(&bytes[6..], &blake2b_256(b"abc")[..]);
}

#[test]
fn message_digest_hashes_the_content_identifier() {
    let cid = cid_bytes(b"abc");
    assert_eq!(get_digest(b"abc"), blake2b_256(&cid));
    assert_ne!(get_digest(b"abc"), blake2b_256(b"abc"));
}

#[test]
fn voucher_digest_is_the_plain_hash() {
    assert_eq!(get_digest_voucher(b"abc"), blake2b_256(b"abc"));
}
