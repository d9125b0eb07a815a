//! Twenty-byte addresses and their text in hexadecimal digits.

use crate::error::{ErrorKind, RaasError};
use vstd::prelude::*;
use vstd::string::*;

verus! {

/// The lower-case hexadecimal digit for `n`.
pub open spec fn hex_digit(n: nat) -> char {
    if n == 0 {
        '0'
    } else if n == 1 {
        '1'
    } else if n == 2 {
        '2'
    } else if n == 3 {
        '3'
    } else if n == 4 {
        '4'
    } else if n == 5 {
        '5'
    } else if n == 6 {
        '6'
    } else if n == 7 {
        '7'
    } else if n == 8 {
        '8'
    } else if n == 9 {
        '9'
    } else if n == 10 {
        'a'
    } else if n == 11 {
        'b'
    } else if n == 12 {
        'c'
    } else if n == 13 {
        'd'
    } else if n == 14 {
        'e'
    } else {
        'f'
    }
}

/// `bytes` in hexadecimal: for each byte two lower-case digits, the high half
/// first.
pub open spec fn hex_text(bytes: Seq<u8>) -> Seq<char>
    decreases bytes.len(),
{
    if bytes.len() == 0 {
        Seq::empty()
    } else {
        hex_text(bytes.drop_last()).push(hex_digit((bytes.last() / 16) as nat)).push(
            hex_digit((bytes.last() % 16) as nat),
        )
    }
}

/// The number that the hexadecimal digit `c` stands for, in either case.
pub open spec fn hex_value(c: char) -> Option<nat> {
    let n = c as u32;
    if 48 <= n <= 57 {
        Some((n - 48) as nat)
    } else if 97 <= n <= 102 {
        Some((n - 87) as nat)
    } else if 65 <= n <= 70 {
        Some((n - 55) as nat)
    } else {
        None
    }
}

/// `text` is made of hexadecimal digits only, two for each of `count` bytes.
pub open spec fn is_hex_of(text: Seq<char>, count: nat) -> bool {
    &&& text.len() == 2 * count
    &&& forall|i: int| 0 <= i < text.len() ==> hex_value(#[trigger] text[i]) is Some
}

/// The bytes that `text` writes in hexadecimal.
pub open spec fn hex_bytes(text: Seq<char>) -> Seq<u8> {
    Seq::new(
        text.len() / 2,
        |i: int| (hex_value(text[2 * i]).unwrap() * 16 + hex_value(text[2 * i + 1]).unwrap()) as u8,
    )
}

/// The text of an address: `0x` and its forty hexadecimal digits.
pub open spec fn address_text(address: Seq<u8>) -> Seq<char> {
    "0x"@ + hex_text(address)
}

/// `hex::encode` on an address: the bytes in order, each as two lower-case
/// hexadecimal digits, high half first.
#[verifier::external_body]
fn hex_encode(address: &[u8; 20]) -> (text: String)
    ensures
        text@ == hex_text(address@),
{
    hex::encode(address)
}

/// `hex::FromHex::from_hex` for twenty bytes: succeeds on forty hexadecimal
/// digits of either case and on nothing else, and then returns the bytes that
/// they write.
#[verifier::external_body]
fn hex_decode(text: &str) -> (r: Result<[u8; 20], hex::FromHexError>)
    ensures
        r is Ok <==> is_hex_of(text@, 20),
        r matches Ok(bytes) ==> bytes@ == hex_bytes(text@),
{
    <[u8; 20] as hex::FromHex>::from_hex(text)
}

/// `hex::FromHexError`, the reason why a text is not the hexadecimal form of
/// an address.
#[verifier::external_type_specification]
#[verifier::external_body]
pub struct ExFromHexError(hex::FromHexError);

/// The `Display` text of a `hex::FromHexError`.
#[verifier::external_body]
fn hex_error_text(error: &hex::FromHexError) -> (text: String) {
    format!("{}", error)
}

/// The forty hexadecimal digits of `address`.
pub fn encode(address: &[u8; 20]) -> (text: String)
    ensures
        text@ == hex_text(address@),
{
    hex_encode(address)
}

/// The address that `text` writes in hexadecimal digits. An error of kind
/// `Parse` for a text that is not forty such digits.
pub fn decode(text: &str) -> (r: Result<[u8; 20], RaasError>)
    ensures
        match r {
            Ok(address) => is_hex_of(text@, 20) && address@ == hex_bytes(text@),
            Err(e) => !is_hex_of(text@, 20) && e@.kind == ErrorKind::Parse,
        },
{
    match hex_decode(text) {
        Ok(address) => Ok(address),
        Err(e) => {
            let message = hex_error_text(&e);
            Err(RaasError { kind: ErrorKind::Parse, message })
        },
    }
}

/// `address` as `0x` and forty hexadecimal digits.
pub fn to_text(address: &[u8; 20]) -> (text: String)
    ensures
        text@ == address_text(address@),
{
    String::from_str("0x").concat(hex_encode(address).as_str())
}

/// The hexadecimal digits of each address of `list`, in order.
pub fn encode_list(list: &Vec<[u8; 20]>) -> (texts: Vec<String>)
    ensures
        texts@.len() == list@.len(),
        forall|i: int| 0 <= i < list@.len() ==> (#[trigger] texts@[i])@ == hex_text(list@[i]@),
{
    let mut texts: Vec<String> = Vec::new();
    let mut i: usize = 0;
    while i < list.len()
        invariant
            i <= list@.len(),
            texts@.len() == i,
            forall|j: int| 0 <= j < i ==> (#[trigger] texts@[j])@ == hex_text(list@[j]@),
        decreases list@.len() - i,
    {
        texts.push(hex_encode(&list[i]));
        i += 1;
    }
    texts
}

/// The addresses that `texts` write, in order; the error of the first text
/// that is not forty hexadecimal digits.
pub fn decode_list(texts: &Vec<String>) -> (r: Result<Vec<[u8; 20]>, RaasError>)
    ensures
        match r {
            Ok(list) => {
                &&& list@.len() == texts@.len()
                &&& forall|i: int|
                    0 <= i < texts@.len() ==> is_hex_of(#[trigger] texts@[i]@, 20) && list@[i]@
                        == hex_bytes(texts@[i]@)
            },
            Err(e) => e@.kind == ErrorKind::Parse && exists|i: int|
                0 <= i < texts@.len() && !is_hex_of(#[trigger] texts@[i]@, 20),
        },
{
    let mut list: Vec<[u8; 20]> = Vec::new();
    let mut i: usize = 0;
    while i < texts.len()
        invariant
            i <= texts@.len(),
            list@.len() == i,
            forall|j: int|
                0 <= j < i ==> is_hex_of(#[trigger] texts@[j]@, 20) && list@[j]@ == hex_bytes(
                    texts@[j]@,
                ),
        decreases texts@.len() - i,
    {
        match decode(texts[i].as_str()) {
            Ok(address) => {
                list.push(address);
            },
            Err(e) => {
                return Err(e);
            },
        }
        i += 1;
    }
    Ok(list)
}

} // verus!
