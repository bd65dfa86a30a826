//! Token identifiers: one token within one collection.

use vstd::prelude::*;
use vstd::bytes::spec_u64_to_le_bytes;
use vstd::slice::slice_subrange;
use vstd::std_specs::cmp::PartialEqSpecImpl;
use vstd::utf8::encode_utf8;
use crate::encoding::{
    allocate_buffer, lemma_parse_string_of_bytes, lemma_parse_u64_of_bytes, max_encoded_length,
    parse_string, parse_u64, string_bytes, string_from_bytes, string_to_bytes, u64_from_bytes,
    u64_to_bytes, EncodingError,
};
use crate::identity::{Address, PackageHash};

verus! {

/// How a collection numbers its tokens: by ordinal or by hash string.
#[derive(Debug, Eq, Hash)]
pub enum TokenIndex {
    Ordinal(u64),
    Hash(String),
}

/// What a `TokenIndex` stands for.
pub enum TokenIndexView {
    Ordinal(u64),
    Hash(Seq<char>),
}

impl View for TokenIndex {
    type V = TokenIndexView;

    open spec fn view(&self) -> TokenIndexView {
        match *self {
            TokenIndex::Ordinal(ordinal) => TokenIndexView::Ordinal(ordinal),
            TokenIndex::Hash(hash) => TokenIndexView::Hash(hash@),
        }
    }
}

impl Clone for TokenIndex {
    fn clone(&self) -> (r: Self)
        ensures
            r == *self,
    {
        match self {
            TokenIndex::Ordinal(ordinal) => TokenIndex::Ordinal(*ordinal),
            TokenIndex::Hash(hash) => TokenIndex::Hash(hash.clone()),
        }
    }
}

impl PartialEq for TokenIndex {
    fn eq(&self, other: &Self) -> (r: bool) {
        match (self, other) {
            (TokenIndex::Ordinal(a), TokenIndex::Ordinal(b)) => *a == *b,
            (TokenIndex::Hash(a), TokenIndex::Hash(b)) => *a == *b,
            _ => false,
        }
    }
}

impl PartialEqSpecImpl for TokenIndex {
    open spec fn obeys_eq_spec() -> bool {
        true
    }

    open spec fn eq_spec(&self, other: &Self) -> bool {
        self@ == other@
    }
}

/// A token as identified by its collection and its index in it.
#[derive(Debug, Eq, Hash)]
pub struct TokenIdentifier {
    pub index: TokenIndex,
    pub package: PackageHash,
}

/// What a `TokenIdentifier` stands for.
pub struct TokenIdentifierView {
    pub index: TokenIndexView,
    pub package: PackageHash,
}

impl View for TokenIdentifier {
    type V = TokenIdentifierView;

    open spec fn view(&self) -> TokenIdentifierView {
        TokenIdentifierView { index: self.index@, package: self.package }
    }
}

impl Clone for TokenIdentifier {
    fn clone(&self) -> (r: Self)
        ensures
            r == *self,
    {
        TokenIdentifier { index: self.index.clone(), package: self.package }
    }
}

impl PartialEq for TokenIdentifier {
    fn eq(&self, other: &Self) -> (r: bool) {
        self.index == other.index && self.package == other.package
    }
}

impl PartialEqSpecImpl for TokenIdentifier {
    open spec fn obeys_eq_spec() -> bool {
        true
    }

    open spec fn eq_spec(&self, other: &Self) -> bool {
        self@ == other@
    }
}

/// The tag byte in front of an ordinal index.
pub const ORDINAL_TAG: u8 = 0;

/// The tag byte in front of a hash index.
pub const HASH_TAG: u8 = 1;

/// The encoding of a token index: a tag byte, then the ordinal as eight
/// little-endian bytes or the hash as a string.
pub open spec fn index_bytes(index: TokenIndexView) -> Seq<u8> {
    match index {
        TokenIndexView::Ordinal(ordinal) => seq![0u8] + spec_u64_to_le_bytes(ordinal),
        TokenIndexView::Hash(hash) => seq![1u8] + string_bytes(hash),
    }
}

/// How many bytes the encoding of a token index has.
pub open spec fn index_length(index: TokenIndexView) -> nat {
    match index {
        TokenIndexView::Ordinal(_) => 9,
        TokenIndexView::Hash(hash) => 5 + encode_utf8(hash).len(),
    }
}

/// The encoding of a token identifier: its index, then the 32 bytes of its
/// collection.
pub open spec fn token_bytes(token: TokenIdentifierView) -> Seq<u8> {
    index_bytes(token.index) + token.package.address.bytes@
}

/// How many bytes the encoding of a token identifier has.
pub open spec fn token_length(token: TokenIdentifierView) -> nat {
    index_length(token.index) + 32
}

/// The package reference made of the 32 bytes `bytes`.
pub open spec fn package_of(bytes: Seq<u8>) -> PackageHash {
    choose|package: PackageHash| package.address.bytes@ == bytes
}

/// A package reference is the one made of its bytes.
pub proof fn lemma_package_of_bytes(package: PackageHash)
    ensures
        package_of(package.address.bytes@) == package,
{
    let other = package_of(package.address.bytes@);
    assert(other.address.bytes =~= package.address.bytes);
}

/// What reading a token index from the front of `bytes` gives: the index
/// and the bytes after it.
pub open spec fn parse_index(bytes: Seq<u8>) -> Result<(TokenIndexView, Seq<u8>), EncodingError> {
    if bytes.len() == 0 {
        Err(EncodingError::EarlyEndOfStream)
    } else if bytes[0] == 0 {
        match parse_u64(bytes.drop_first()) {
            Ok((ordinal, rest)) => Ok((TokenIndexView::Ordinal(ordinal), rest)),
            Err(error) => Err(error),
        }
    } else if bytes[0] == 1 {
        match parse_string(bytes.drop_first()) {
            Ok((hash, rest)) => Ok((TokenIndexView::Hash(hash), rest)),
            Err(error) => Err(error),
        }
    } else {
        Err(EncodingError::Formatting)
    }
}

/// What reading a package reference from the front of `bytes` gives.
pub open spec fn parse_package(bytes: Seq<u8>) -> Result<(PackageHash, Seq<u8>), EncodingError> {
    if bytes.len() < 32 {
        Err(EncodingError::EarlyEndOfStream)
    } else {
        Ok((package_of(bytes.subrange(0, 32)), bytes.subrange(32, bytes.len() as int)))
    }
}

/// What reading a token identifier from the front of `bytes` gives: the
/// token and the bytes after it.
pub open spec fn parse_token(bytes: Seq<u8>) -> Result<
    (TokenIdentifierView, Seq<u8>),
    EncodingError,
> {
    match parse_index(bytes) {
        Ok((index, rest)) => match parse_package(rest) {
            Ok((package, rest)) => Ok((TokenIdentifierView { index, package }, rest)),
            Err(error) => Err(error),
        },
        Err(error) => Err(error),
    }
}

/// An encoded token index has the length that `index_length` says.
pub proof fn lemma_index_bytes_length(index: TokenIndexView)
    ensures
        index_bytes(index).len() == index_length(index),
{
    vstd::bytes::lemma_auto_spec_u64_to_from_le_bytes();
    vstd::bytes::lemma_auto_spec_u32_to_from_le_bytes();
}

/// Reading back a token index that was written gives the index and what
/// followed it.
pub proof fn lemma_parse_index_of_bytes(index: TokenIndexView, tail: Seq<u8>)
    requires
        index_length(index) <= max_encoded_length(),
    ensures
        parse_index(index_bytes(index) + tail) == Ok::<(TokenIndexView, Seq<u8>), EncodingError>(
            (index, tail),
        ),
{
    let bytes = index_bytes(index) + tail;
    match index {
        TokenIndexView::Ordinal(ordinal) => {
            assert(bytes.drop_first() =~= spec_u64_to_le_bytes(ordinal) + tail);
            lemma_parse_u64_of_bytes(ordinal, tail);
        },
        TokenIndexView::Hash(hash) => {
            assert(bytes.drop_first() =~= string_bytes(hash) + tail);
            lemma_parse_string_of_bytes(hash, tail);
        },
    }
}

/// Reading back a token identifier that was written gives the token and
/// what followed it.
pub proof fn lemma_parse_token_of_bytes(token: TokenIdentifierView, tail: Seq<u8>)
    requires
        token_length(token) <= max_encoded_length(),
    ensures
        parse_token(token_bytes(token) + tail) == Ok::<
            (TokenIdentifierView, Seq<u8>),
            EncodingError,
        >((token, tail)),
{
    let package_bytes = token.package.address.bytes@;
    let after_index = package_bytes + tail;
    assert(token_bytes(token) + tail =~= index_bytes(token.index) + after_index);
    lemma_parse_index_of_bytes(token.index, after_index);
    assert(after_index.subrange(0, 32) =~= package_bytes);
    assert(after_index.subrange(32, after_index.len() as int) =~= tail);
    lemma_package_of_bytes(token.package);
}

/// The encoding is canonical: two tokens with the same encoding are the
/// same token.
pub proof fn lemma_token_bytes_injective(first: TokenIdentifierView, second: TokenIdentifierView)
    requires
        token_length(first) <= max_encoded_length(),
        token_length(second) <= max_encoded_length(),
        token_bytes(first) == token_bytes(second),
    ensures
        first == second,
{
    lemma_parse_token_of_bytes(first, Seq::empty());
    lemma_parse_token_of_bytes(second, Seq::empty());
}

impl TokenIndex {
    /// How many bytes the encoding of the index has.
    pub fn serialized_length(&self) -> (r: usize)
        requires
            index_length(self@) <= usize::MAX,
        ensures
            r == index_length(self@),
    {
        match self {
            TokenIndex::Ordinal(_) => 1 + 8,
            TokenIndex::Hash(value) => 1 + (4 + value.as_str().as_bytes().len()),
        }
    }

    /// The encoding of the index, or `OutOfMemory` where it would be
    /// longer than a buffer may be.
    pub fn to_bytes(&self) -> (r: Result<Vec<u8>, EncodingError>)
        ensures
            index_length(self@) <= max_encoded_length() ==> r is Ok && r->Ok_0@ == index_bytes(
                self@,
            ),
            index_length(self@) > max_encoded_length() ==> r == Err::<Vec<u8>, EncodingError>(
                EncodingError::OutOfMemory,
            ),
    {
        match self {
            TokenIndex::Ordinal(value) => {
                let mut result = allocate_buffer(9)?;
                result.push(ORDINAL_TAG);
                let mut encoded = u64_to_bytes(*value)?;
                result.append(&mut encoded);
                Ok(result)
            },
            TokenIndex::Hash(value) => {
                let length = value.as_str().as_bytes().len();
                if length > u32::MAX as usize - 5 {
                    return Err(EncodingError::OutOfMemory);
                }
                let mut result = allocate_buffer(5 + length)?;
                result.push(HASH_TAG);
                let mut encoded = string_to_bytes(value)?;
                result.append(&mut encoded);
                Ok(result)
            },
        }
    }

    /// Reads a token index from the front of `bytes`, and hands back the
    /// bytes after it.
    pub fn from_bytes(bytes: &[u8]) -> (r: Result<(TokenIndex, &[u8]), EncodingError>)
        ensures
            match r {
                Ok((index, rest)) => parse_index(bytes@) == Ok::<
                    (TokenIndexView, Seq<u8>),
                    EncodingError,
                >((index@, rest@)),
                Err(error) => parse_index(bytes@) == Err::<
                    (TokenIndexView, Seq<u8>),
                    EncodingError,
                >(error),
            },
    {
        if bytes.len() == 0 {
            return Err(EncodingError::EarlyEndOfStream);
        }
        let tag = bytes[0];
        let rem = slice_subrange(bytes, 1, bytes.len());
        assert(rem@ =~= bytes@.drop_first());
        if tag == ORDINAL_TAG {
            let (index, rem) = u64_from_bytes(rem)?;
            Ok((TokenIndex::Ordinal(index), rem))
        } else if tag == HASH_TAG {
            let (hash, rem) = string_from_bytes(rem)?;
            Ok((TokenIndex::Hash(hash), rem))
        } else {
            Err(EncodingError::Formatting)
        }
    }
}

impl TokenIdentifier {
    /// How many bytes the encoding of the token has.
    pub fn serialized_length(&self) -> (r: usize)
        requires
            token_length(self@) <= usize::MAX,
        ensures
            r == token_length(self@),
    {
        self.index.serialized_length() + 32
    }

    /// The encoding of the token, or `OutOfMemory` where it would be
    /// longer than a buffer may be.
    pub fn to_bytes(&self) -> (r: Result<Vec<u8>, EncodingError>)
        ensures
            token_length(self@) <= max_encoded_length() ==> r is Ok && r->Ok_0@ == token_bytes(
                self@,
            ),
            token_length(self@) > max_encoded_length() ==> r == Err::<Vec<u8>, EncodingError>(
                EncodingError::OutOfMemory,
            ),
    {
        let mut result = self.index.to_bytes()?;
        proof {
            lemma_index_bytes_length(self.index@);
        }
        if result.len() > u32::MAX as usize - 32 {
            return Err(EncodingError::OutOfMemory);
        }
        let mut i: usize = 0;
        while i < 32
            invariant
                i <= 32,
                result@ == index_bytes(self.index@) + self.package.address.bytes@.subrange(
                    0,
                    i as int,
                ),
            decreases 32 - i,
        {
            result.push(self.package.address.bytes[i]);
            i += 1;
        }
        assert(self.package.address.bytes@.subrange(0, 32) =~= self.package.address.bytes@);
        Ok(result)
    }

    /// Reads a token identifier from the front of `bytes`, and hands back
    /// the bytes after it.
    pub fn from_bytes(bytes: &[u8]) -> (r: Result<(TokenIdentifier, &[u8]), EncodingError>)
        ensures
            match r {
                Ok((token, rest)) => parse_token(bytes@) == Ok::<
                    (TokenIdentifierView, Seq<u8>),
                    EncodingError,
                >((token@, rest@)),
                Err(error) => parse_token(bytes@) == Err::<
                    (TokenIdentifierView, Seq<u8>),
                    EncodingError,
                >(error),
            },
    {
        let (index, bytes) = TokenIndex::from_bytes(bytes)?;
        if bytes.len() < 32 {
            return Err(EncodingError::EarlyEndOfStream);
        }
        let mut address = [0u8; 32];
        let mut i: usize = 0;
        while i < 32
            invariant
                i <= 32,
                bytes@.len() >= 32,
                forall|j: int| 0 <= j < i ==> address@[j] == bytes@[j],
            decreases 32 - i,
        {
            address[i] = bytes[i];
            i += 1;
        }
        let package = PackageHash { address: Address { bytes: address } };
        proof {
            assert(address@ =~= bytes@.subrange(0, 32));
            lemma_package_of_bytes(package);
        }
        let rest = slice_subrange(bytes, 32, bytes.len());
        Ok((TokenIdentifier { index, package }, rest))
    }
}

} // verus!
