//! The string keys under which records are kept in dictionaries and named
//! keys: a package by the hexadecimal digits of its bytes, a token by
//! those of its encoding, a number by its decimal digits.

use vstd::prelude::*;
use vstd::string::StringExecFns;
use crate::encoding::max_encoded_length;
use crate::identity::PackageHash;
use crate::token::{
    lemma_token_bytes_injective, token_bytes, token_length, TokenIdentifier, TokenIdentifierView,
};

verus! {

/// Calls `String::push`. Trusted: the character is added at the end.
#[verifier::external_body]
fn push_char(text: &mut String, character: char)
    ensures
        final(text)@ == old(text)@.push(character),
{
    text.push(character);
}

/// The digit for a number below sixteen, in lower case.
pub open spec fn digit(value: nat) -> char {
    if value == 0 {
        '0'
    } else if value == 1 {
        '1'
    } else if value == 2 {
        '2'
    } else if value == 3 {
        '3'
    } else if value == 4 {
        '4'
    } else if value == 5 {
        '5'
    } else if value == 6 {
        '6'
    } else if value == 7 {
        '7'
    } else if value == 8 {
        '8'
    } else if value == 9 {
        '9'
    } else if value == 10 {
        'a'
    } else if value == 11 {
        'b'
    } else if value == 12 {
        'c'
    } else if value == 13 {
        'd'
    } else if value == 14 {
        'e'
    } else {
        'f'
    }
}

/// The decimal digits of a number, without leading zeros.
pub open spec fn decimal(value: nat) -> Seq<char>
    decreases value,
{
    if value < 10 {
        seq![digit(value)]
    } else {
        decimal(value / 10).push(digit(value % 10))
    }
}

/// Two hexadecimal digits for each byte, in lower case.
pub open spec fn hexadecimal(bytes: Seq<u8>) -> Seq<char>
    decreases bytes.len(),
{
    if bytes.len() == 0 {
        Seq::empty()
    } else {
        hexadecimal(bytes.drop_last()).push(digit(bytes.last() as nat / 16)).push(
            digit(bytes.last() as nat % 16),
        )
    }
}

/// There are two digits to each byte.
pub proof fn lemma_hexadecimal_length(bytes: Seq<u8>)
    ensures
        hexadecimal(bytes).len() == 2 * bytes.len(),
    decreases bytes.len(),
{
    if bytes.len() > 0 {
        lemma_hexadecimal_length(bytes.drop_last());
    }
}

/// Different byte strings have different hexadecimal digits.
pub proof fn lemma_hexadecimal_injective(first: Seq<u8>, second: Seq<u8>)
    requires
        hexadecimal(first) == hexadecimal(second),
    ensures
        first == second,
    decreases first.len(),
{
    lemma_hexadecimal_length(first);
    lemma_hexadecimal_length(second);
    if first.len() > 0 {
        let a = first.last() as nat;
        let b = second.last() as nat;
        let digits = hexadecimal(first);
        let shorter_first = hexadecimal(first.drop_last());
        let shorter_second = hexadecimal(second.drop_last());
        assert(digits[digits.len() - 1] == digit(a % 16));
        assert(digits[digits.len() - 1] == digit(b % 16));
        assert(digits[digits.len() - 2] == digit(a / 16));
        assert(digits[digits.len() - 2] == digit(b / 16));
        assert(a == b);
        assert(shorter_first =~= digits.subrange(0, digits.len() - 2));
        assert(shorter_second =~= digits.subrange(0, digits.len() - 2));
        lemma_hexadecimal_injective(first.drop_last(), second.drop_last());
        assert(first =~= first.drop_last().push(first.last()));
        assert(second =~= second.drop_last().push(second.last()));
    } else {
        assert(first =~= second);
    }
}

/// A number has at least one decimal digit, and at least two from ten on.
pub proof fn lemma_decimal_length(value: nat)
    ensures
        decimal(value).len() >= 1,
        value >= 10 ==> decimal(value).len() >= 2,
    decreases value,
{
    if value >= 10 {
        lemma_decimal_length(value / 10);
    }
}

/// Different numbers have different decimal digits.
pub proof fn lemma_decimal_injective(first: nat, second: nat)
    requires
        decimal(first) == decimal(second),
    ensures
        first == second,
    decreases first,
{
    lemma_decimal_length(first);
    lemma_decimal_length(second);
    if first >= 10 {
        let digits = decimal(first);
        assert(second >= 10);
        assert(digits.last() == digit(first % 10));
        assert(digits.last() == digit(second % 10));
        assert(decimal(first / 10) =~= digits.drop_last());
        assert(decimal(second / 10) =~= digits.drop_last());
        lemma_decimal_injective(first / 10, second / 10);
    } else {
        assert(decimal(first)[0] == digit(first));
        assert(decimal(second)[0] == digit(second));
    }
}

/// The digit for `value`, which is below sixteen.
fn digit_of(value: u8) -> (r: char)
    requires
        value < 16,
    ensures
        r == digit(value as nat),
{
    match value {
        0 => '0',
        1 => '1',
        2 => '2',
        3 => '3',
        4 => '4',
        5 => '5',
        6 => '6',
        7 => '7',
        8 => '8',
        9 => '9',
        10 => 'a',
        11 => 'b',
        12 => 'c',
        13 => 'd',
        14 => 'e',
        _ => 'f',
    }
}

/// Adds the decimal digits of `value` to `text`.
fn push_decimal(text: &mut String, value: u64)
    ensures
        final(text)@ == old(text)@ + decimal(value as nat),
    decreases value,
{
    if value >= 10 {
        push_decimal(text, value / 10);
    }
    push_char(text, digit_of((value % 10) as u8));
    assert(final(text)@ =~= old(text)@ + decimal(value as nat));
}

/// Adds the hexadecimal digits of `bytes` to `text`.
fn push_hexadecimal(text: &mut String, bytes: &[u8])
    ensures
        final(text)@ == old(text)@ + hexadecimal(bytes@),
{
    let mut i: usize = 0;
    assert(bytes@.subrange(0, 0) =~= Seq::<u8>::empty());
    assert(text@ =~= old(text)@ + hexadecimal(bytes@.subrange(0, 0)));
    while i < bytes.len()
        invariant
            i <= bytes.len(),
            text@ == old(text)@ + hexadecimal(bytes@.subrange(0, i as int)),
        decreases bytes.len() - i,
    {
        let ghost before = text@;
        let byte = bytes[i];
        push_char(text, digit_of(byte / 16));
        push_char(text, digit_of(byte % 16));
        proof {
            let next = bytes@.subrange(0, i + 1);
            assert(next.drop_last() =~= bytes@.subrange(0, i as int));
            assert(next.last() == byte);
            assert(text@ =~= old(text)@ + hexadecimal(next));
        }
        i += 1;
    }
    assert(bytes@.subrange(0, i as int) =~= bytes@);
}

/// A value that can serve as a key of a dictionary.
pub trait ToStrKey {
    /// Whether the value has a key at all.
    spec fn has_key(&self) -> bool;

    /// The key of the value.
    spec fn key(&self) -> Seq<char>;

    /// The key of the value.
    fn to_key(&self) -> (r: String)
        requires
            self.has_key(),
        ensures
            r@ == self.key(),
    ;
}

impl ToStrKey for PackageHash {
    open spec fn has_key(&self) -> bool {
        true
    }

    open spec fn key(&self) -> Seq<char> {
        hexadecimal(self.address.bytes@)
    }

    fn to_key(&self) -> (r: String) {
        let mut key = String::new();
        push_hexadecimal(&mut key, self.address.bytes.as_slice());
        key
    }
}

impl ToStrKey for TokenIdentifier {
    /// A token has a key where it has an encoding.
    open spec fn has_key(&self) -> bool {
        token_length(self@) <= max_encoded_length()
    }

    open spec fn key(&self) -> Seq<char> {
        hexadecimal(token_bytes(self@))
    }

    fn to_key(&self) -> (r: String) {
        let bytes = self.to_bytes().unwrap();
        let mut key = String::new();
        push_hexadecimal(&mut key, bytes.as_slice());
        key
    }
}

impl ToStrKey for u64 {
    open spec fn has_key(&self) -> bool {
        true
    }

    open spec fn key(&self) -> Seq<char> {
        decimal(*self as nat)
    }

    fn to_key(&self) -> (r: String) {
        let mut key = String::new();
        push_decimal(&mut key, *self);
        key
    }
}

/// Two packages with the same key are the same package.
pub proof fn lemma_package_key_canonical(first: PackageHash, second: PackageHash)
    requires
        first.key() == second.key(),
    ensures
        first == second,
{
    lemma_hexadecimal_injective(first.address.bytes@, second.address.bytes@);
    assert(first.address.bytes =~= second.address.bytes);
}

/// Two numbers with the same key are the same number.
pub proof fn lemma_number_key_canonical(first: u64, second: u64)
    requires
        first.key() == second.key(),
    ensures
        first == second,
{
    lemma_decimal_injective(first as nat, second as nat);
}

/// Two tokens with the same key are the same token.
pub proof fn lemma_token_key_canonical(first: TokenIdentifierView, second: TokenIdentifierView)
    requires
        token_length(first) <= max_encoded_length(),
        token_length(second) <= max_encoded_length(),
        hexadecimal(token_bytes(first)) == hexadecimal(token_bytes(second)),
    ensures
        first == second,
{
    lemma_hexadecimal_injective(token_bytes(first), token_bytes(second));
    lemma_token_bytes_injective(first, second);
}

/// The name under which the `attempt`-th try stores a named key: `name`
/// itself at first, then `name` with `_1`, `_2` and so on behind it.
pub open spec fn incremented_name(name: Seq<char>, attempt: nat) -> Seq<char> {
    if attempt == 0 {
        name
    } else {
        name.push('_') + decimal(attempt)
    }
}

/// The name to try at the `attempt`-th try of storing a named key.
pub fn named_key_incremented(name: &str, attempt: u64) -> (r: String)
    ensures
        r@ == incremented_name(name@, attempt as nat),
{
    let mut formatted_name = String::from_str(name);
    if attempt != 0 {
        push_char(&mut formatted_name, '_');
        push_decimal(&mut formatted_name, attempt);
    }
    formatted_name
}

/// The named key under which the payout purse of a posting is kept.
pub open spec fn target_purse_name(post_id: u64) -> Seq<char> {
    "target_purse_"@ + decimal(post_id as nat)
}

/// The named key under which the payout purse of posting `post_id` is
/// kept.
pub fn target_purse_key(post_id: u64) -> (r: String)
    ensures
        r@ == target_purse_name(post_id),
{
    let mut name = String::from_str("target_purse_");
    push_decimal(&mut name, post_id);
    name
}

} // verus!
