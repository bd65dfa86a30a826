use royalty_settlement::encoding::{allocate_buffer, EncodingError};
use royalty_settlement::identity::PackageHash;
use royalty_settlement::token::{TokenIdentifier, TokenIndex};

fn package(byte: u8) -> PackageHash {
    PackageHash::new([byte; 32])
}

fn ordinal(value: u64) -> TokenIdentifier {
    TokenIdentifier { index: TokenIndex::Ordinal(value), package: package(9) }
}

fn hashed(value: &str) -> TokenIdentifier {
    TokenIdentifier { index: TokenIndex::Hash(value.to_string()), package: package(9) }
}

#[test]
fn ordinal_index_is_a_zero_tag_and_eight_little_endian_bytes() {
    let bytes = TokenIndex::Ordinal(0x0102_0304_0506_0708).to_bytes().unwrap();
    assert_eq!(bytes, vec![0, 8, 7, 6, 5, 4, 3, 2, 1]);
    assert_eq!(TokenIndex::Ordinal(0).to_bytes().unwrap(), vec![0; 9]);
    assert_eq!(TokenIndex::Ordinal(7).serialized_length(), 9);
}

#[test]
fn hash_index_is_a_one_tag_a_length_and_the_utf8_bytes() {
    let bytes = TokenIndex::Hash("ab".to_string()).to_bytes().unwrap();
    assert_eq!(bytes, vec![1, 2, 0, 0, 0, b'a', b'b']);
    assert_eq!(TokenIndex::Hash(String::new()).to_bytes().unwrap(), vec![1, 0, 0, 0, 0]);
    // The length counts bytes, not characters.
    let bytes = TokenIndex::Hash("é".to_string()).to_bytes().unwrap();
    assert_eq!(bytes, vec![1, 2, 0, 0, 0, 0xc3, 0xa9]);
    assert_eq!(TokenIndex::Hash("é".to_string()).serialized_length(), 7);
}

#[test]
fn token_is_its_index_and_then_its_collection() {
    let mut expected = vec![0, 5, 0, 0, 0, 0, 0, 0, 0];
    expected.extend_from_slice(&[9; 32]);
    assert_eq!(ordinal(5).to_bytes().unwrap(), expected);
    assert_eq!(ordinal(5).serialized_length(), 41);
    let mut expected = vec![1, 3, 0, 0, 0, b'x', b'y', b'z'];
    expected.extend_from_slice(&[9; 32]);
    assert_eq!(hashed("xyz").to_bytes().unwrap(), expected);
    assert_eq!(hashed("xyz").serialized_length(), 40);
}

#[test]
fn reading_gives_back_what_was_written() {
    for token in [ordinal(0), ordinal(u64::MAX), hashed(""), hashed("token-17"), hashed("çà et là")] {
        let mut bytes = token.to_bytes().unwrap();
        bytes.extend_from_slice(&[0xaa, 0xbb]);
        let (read, rest) = TokenIdentifier::from_bytes(&bytes).unwrap();
        assert_eq!(read, token);
        assert_eq!(rest, &[0xaa, 0xbb]);
    }
}

#[test]
fn reading_an_index_hands_back_the_rest() {
    let bytes = [0, 1, 0, 0, 0, 0, 0, 0, 0, 42, 43];
    let (index, rest) = TokenIndex::from_bytes(&bytes).unwrap();
    assert_eq!(index, TokenIndex::Ordinal(1));
    assert_eq!(rest, &[42, 43]);
    let bytes = [1, 1, 0, 0, 0, b'q', 42];
    let (index, rest) = TokenIndex::from_bytes(&bytes).unwrap();
    assert_eq!(index, TokenIndex::Hash("q".to_string()));
    assert_eq!(rest, &[42]);
}

#[test]
fn reading_from_too_few_bytes_is_an_early_end() {
    assert_eq!(TokenIndex::from_bytes(&[]), Err(EncodingError::EarlyEndOfStream));
    assert_eq!(TokenIndex::from_bytes(&[0, 1, 2, 3]), Err(EncodingError::EarlyEndOfStream));
    assert_eq!(TokenIndex::from_bytes(&[1, 1, 0]), Err(EncodingError::EarlyEndOfStream));
    assert_eq!(TokenIndex::from_bytes(&[1, 3, 0, 0, 0, b'a', b'b']), Err(EncodingError::EarlyEndOfStream));
    // The index is whole but the collection is cut short.
    let mut bytes = ordinal(5).to_bytes().unwrap();
    bytes.pop();
    assert_eq!(TokenIdentifier::from_bytes(&bytes), Err(EncodingError::EarlyEndOfStream));
}

#[test]
fn reading_an_unknown_tag_is_a_formatting_error() {
    let bytes = [2, 0, 0, 0, 0, 0, 0, 0, 0];
    assert_eq!(TokenIndex::from_bytes(&bytes), Err(EncodingError::Formatting));
    assert_eq!(TokenIndex::from_bytes(&[255]), Err(EncodingError::Formatting));
}

#[test]
fn reading_a_hash_that_is_not_utf8_is_a_formatting_error() {
    let bytes = [1, 2, 0, 0, 0, 0xc3, 0x28];
    assert_eq!(TokenIndex::from_bytes(&bytes), Err(EncodingError::Formatting));
}

#[test]
fn tokens_with_one_encoding_are_one_token() {
    let tokens = [ordinal(1), ordinal(256), hashed("1"), hashed(""), hashed("\u{1}")];
    for (i, first) in tokens.iter().enumerate() {
        for (j, second) in tokens.iter().enumerate() {
            assert_eq!(first.to_bytes() == second.to_bytes(), i == j);
            assert_eq!(first == second, i == j);
        }
    }
    let other = TokenIdentifier { index: TokenIndex::Ordinal(1), package: package(8) };
    assert_ne!(other.to_bytes(), ordinal(1).to_bytes());
    assert_ne!(other, ordinal(1));
    assert_eq!(ordinal(1).clone(), ordinal(1));
}

#[test]
fn buffers_are_handed_out_up_to_the_limit() {
    assert_eq!(allocate_buffer(0), Ok(vec![]));
    assert_eq!(allocate_buffer(41), Ok(vec![]));
    if usize::BITS > 32 {
        let beyond = u32::MAX as usize + 1;
        assert_eq!(allocate_buffer(beyond), Err(EncodingError::OutOfMemory));
    }
}
