use simpleai::digest::{
    digest, digest_streamed, file_hash_size, sha256, Digester, CHUNK_BYTES, DIGEST_CHARS,
};
use simpleai::error::{Error, TunnelFailure};
use simpleai::sha256::{calc_sha256, Sha256};

fn hex(bytes: &[u8]) -> String {
    let mut text = String::new();
    for byte in bytes {
        text.push_str(&format!("{:02x}", byte));
    }
    text
}

fn pattern(len: usize) -> Vec<u8> {
    let mut bytes = Vec::with_capacity(len);
    for i in 0..len {
        bytes.push(((i * 7 + 3) % 251) as u8);
    }
    bytes
}

#[test]
fn raw_hash_of_nothing() {
    assert_eq!(
        hex(&calc_sha256(b"")),
        "e3b0c44298fc1c149afbf4c8996fb92427ae41e4649b934ca495991b7852b855"
    );
}

#[test]
fn raw_hash_of_abc() {
    assert_eq!(
        hex(&calc_sha256(b"abc")),
        "ba7816bf8f01cfea414140de5dae2223b00361a396177a9cb410ff61f20015ad"
    );
}

#[test]
fn raw_hash_of_two_blocks() {
    assert_eq!(
        hex(&calc_sha256(b"abcdbcdecdefdefgefghfghighijhijkijkljklmklmnlmnomnopnopq")),
        "248d6a61d20638b8e5c026930c3e6039a33ce45964ff2167f6ecedd419db06c1"
    );
}

#[test]
fn raw_hash_around_the_padding_boundaries() {
    assert_eq!(
        hex(&calc_sha256(&[b'a'; 55])),
        "9f4390f8d30c2dd92ec9f095b65e2b9ae9b0a925a5258e241c9f1e910f734318"
    );
    assert_eq!(
        hex(&calc_sha256(&[b'a'; 56])),
        "b35439a4ac6f0948b6d6f9e3c6af0f5f590ce20f1bde7090ef7970686ec6738a"
    );
    assert_eq!(
        hex(&calc_sha256(&[b'a'; 63])),
        "7d3e74a05d7db15bce4ad9ec0658ea98e3f06eeecf16b4c6fff2da457ddc2f34"
    );
    assert_eq!(
        hex(&calc_sha256(&[b'a'; 64])),
        "ffe054fe7ae0cb6dc65c3af9b61d5209f439851db43d0ba5997337df154668eb"
    );
    assert_eq!(
        hex(&calc_sha256(&[b'a'; 65])),
        "635361c48bb9eab14198e76ea8ab7f1a41685d6ad62aa9146d301d4f17eb0ae0"
    );
}

#[test]
fn raw_hash_of_a_million_bytes() {
    let bytes = vec![b'a'; 1_000_000];
    assert_eq!(
        hex(&calc_sha256(&bytes)),
        "cdc76e5c9914fb9281a1c7e284d73e67f1809a48a497200e046d39ccc7112cd0"
    );
}

#[test]
fn hasher_fed_in_pieces_matches_whole() {
    let bytes = pattern(1000);
    let mut hasher = Sha256::new();
    hasher.update(&bytes[..1]);
    hasher.update(&bytes[1..64]);
    hasher.update(&bytes[64..64]);
    hasher.update(&bytes[64..500]);
    hasher.update(&bytes[500..]);
    assert_eq!(hasher.finalize(), calc_sha256(&bytes));
}

#[test]
fn digest_text_of_nothing() {
    assert_eq!(sha256(b""), "47DEQpj8HBSa-_TImW-5JCeuQeRkm5NMpJWZG3hSuFU");
}

#[test]
fn digest_text_of_abc() {
    assert_eq!(sha256(b"abc"), "ungWv48Bz-pBQUDeXa4iI7ADYaOWF3qctBD_YfIAFa0");
}

#[test]
fn digest_text_uses_the_url_safe_alphabet() {
    // Both '-' and '_' occur in this digest, and neither '+', '/' nor '='.
    let text = sha256(&[b'a'; 63]);
    assert_eq!(text, "fT50oF19sVvOStnsBljqmOPwbu7PFrTG__LaRX3cLzQ");
    let text = sha256(&[b'a'; 1_000_000]);
    assert_eq!(text, "zcduXJkU-5KBocfihNc-Z_GAmkiklyAOBG05zMcRLNA");
}

#[test]
fn digest_reports_the_length() {
    let (text, size) = digest(b"abc");
    assert_eq!(text, "ungWv48Bz-pBQUDeXa4iI7ADYaOWF3qctBD_YfIAFa0");
    assert_eq!(size, 3);
    let (text, size) = digest(b"");
    assert_eq!(text.len(), DIGEST_CHARS);
    assert_eq!(size, 0);
}

#[test]
fn equal_buffers_have_equal_digests() {
    let first = pattern(300);
    let second = pattern(300);
    assert_eq!(digest(&first), digest(&second));
}

#[test]
fn different_buffers_have_different_digests() {
    let first = pattern(300);
    let mut second = pattern(300);
    second[299] ^= 1;
    assert_ne!(digest(&first).0, digest(&second).0);
}

#[test]
fn streamed_digest_one_byte_under_the_chunk_size() {
    let bytes = pattern(CHUNK_BYTES - 1);
    let streamed = digest_streamed(&bytes, CHUNK_BYTES);
    assert_eq!(streamed.0, "6PPY1co7u8NDUzeqvZ0pm57U6_VtE64WdQMlnqJMHB4");
    assert_eq!(streamed, digest(&bytes));
}

#[test]
fn streamed_digest_at_the_chunk_size() {
    let bytes = pattern(CHUNK_BYTES);
    let streamed = digest_streamed(&bytes, CHUNK_BYTES);
    assert_eq!(streamed.0, "k9GllbtYKMCI6ZxT343KVRFWe3ckvCMlzz5U1yX6Bps");
    assert_eq!(streamed, digest(&bytes));
}

#[test]
fn streamed_digest_one_byte_over_the_chunk_size() {
    let bytes = pattern(CHUNK_BYTES + 1);
    let streamed = digest_streamed(&bytes, CHUNK_BYTES);
    assert_eq!(streamed.0, "H5dTRgC8EQvGHj1Rgp3q3vih7CTgC7K-zD-fdblSfnk");
    assert_eq!(streamed.1, 65537);
    assert_eq!(streamed, digest(&bytes));
}

#[test]
fn streamed_digest_with_small_chunks() {
    let bytes = pattern(1000);
    for chunk in [0usize, 1, 3, 63, 64, 65, 999, 1000, 1001] {
        assert_eq!(digest_streamed(&bytes, chunk), digest(&bytes));
    }
}

#[test]
fn digester_counts_what_it_took_in() {
    let mut digester = Digester::new();
    assert_eq!(digester.size(), 0);
    digester.update(b"ab");
    digester.update(b"");
    digester.update(b"c");
    assert_eq!(digester.size(), 3);
    assert_eq!(digester.finish(), digest(b"abc"));
}

#[test]
fn best_effort_passes_a_digest_through() {
    let found = digest(b"abc");
    assert_eq!(file_hash_size(Ok(found.clone())), found);
}

#[test]
fn best_effort_gives_the_empty_sentinel_on_failure() {
    assert_eq!(file_hash_size(Err(Error::Io)), (String::new(), 0));
}

#[test]
fn empty_file_differs_from_read_failure() {
    let empty_file = file_hash_size(Ok(digest(b"")));
    let unreadable = file_hash_size(Err(Error::Io));
    assert_eq!(empty_file.1, unreadable.1);
    assert_ne!(empty_file.0, unreadable.0);
}

#[test]
fn every_error_has_a_message() {
    let all = [
        Error::Io,
        Error::NoRoute,
        Error::Unreachable,
        Error::Probe,
        Error::Signing,
        Error::Tunnel(TunnelFailure::Transport),
        Error::Tunnel(TunnelFailure::Rejected),
    ];
    for error in all {
        assert!(!error.message().is_empty());
    }
}
