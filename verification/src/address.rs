//! Deployed chain addresses: a fixed-width identifier, decoded from its
//! hex-encoded textual form.
//!
//! The accepted grammar is the one the chain tooling writes into address
//! books: an optional `0x` prefix followed by exactly forty hex digits,
//! upper or lower case.

use vstd::prelude::*;
use vstd::string::StrSliceExecFns;
use crate::errors::RegistryError;

verus! {

/// How many bytes a deployed address has.
pub const ADDRESS_BYTES: usize = 20;

/// A deployed contract address: twenty bytes, big endian.
#[derive(Clone, Debug)]
pub struct Address {
    /// The raw bytes; well-formed when there are exactly twenty.
    pub bytes: Vec<u8>,
}

impl View for Address {
    type V = Seq<u8>;

    open spec fn view(&self) -> Seq<u8> {
        self.bytes@
    }
}

impl Address {
    /// A well-formed address holds exactly the fixed number of bytes.
    pub open spec fn wf(&self) -> bool {
        self@.len() == ADDRESS_BYTES
    }
}

/// Whether a character is a hex digit.
pub open spec fn is_hex_digit(c: char) -> bool {
    ||| '0' as u32 <= c as u32 && c as u32 <= '9' as u32
    ||| 'a' as u32 <= c as u32 && c as u32 <= 'f' as u32
    ||| 'A' as u32 <= c as u32 && c as u32 <= 'F' as u32
}

/// The value of a hex digit.
pub open spec fn hex_digit_value(c: char) -> u8
    recommends
        is_hex_digit(c),
{
    if '0' as u32 <= c as u32 && c as u32 <= '9' as u32 {
        (c as u32 - '0' as u32) as u8
    } else if 'a' as u32 <= c as u32 && c as u32 <= 'f' as u32 {
        (c as u32 - 'a' as u32 + 10) as u8
    } else {
        (c as u32 - 'A' as u32 + 10) as u8
    }
}

/// The text with a leading `0x`, if any, taken off.
pub open spec fn strip_hex_prefix(s: Seq<char>) -> Seq<char> {
    if s.len() >= 2 && s[0] == '0' && s[1] == 'x' {
        s.skip(2)
    } else {
        s
    }
}

/// Whether a string is a valid address: after the optional `0x` prefix,
/// exactly forty hex digits.
pub open spec fn is_valid_address_text(s: Seq<char>) -> bool {
    let d = strip_hex_prefix(s);
    d.len() == 2 * ADDRESS_BYTES && (forall|i: int| 0 <= i < d.len() ==> is_hex_digit(#[trigger] d[i]))
}

/// The bytes a valid address string encodes, big endian, two digits a byte.
pub open spec fn address_bytes_of(s: Seq<char>) -> Seq<u8>
    recommends
        is_valid_address_text(s),
{
    let d = strip_hex_prefix(s);
    Seq::new(ADDRESS_BYTES as nat, |i: int|
        (hex_digit_value(d[2 * i]) * 16 + hex_digit_value(d[2 * i + 1])) as u8)
}

/// Decode one hex digit, or report that the character is none.
fn hex_digit(c: char) -> (r: Option<u8>)
    ensures
        r is Some <==> is_hex_digit(c),
        r matches Some(v) ==> v == hex_digit_value(c),
{
    let u = c as u32;
    if '0' as u32 <= u && u <= '9' as u32 {
        Some((u - '0' as u32) as u8)
    } else if 'a' as u32 <= u && u <= 'f' as u32 {
        Some((u - 'a' as u32 + 10) as u8)
    } else if 'A' as u32 <= u && u <= 'F' as u32 {
        Some((u - 'A' as u32 + 10) as u8)
    } else {
        None
    }
}

/// Parse an address string into its fixed-width representation.
///
/// Exactly the valid strings are accepted; everything else is reported as
/// `InvalidAddressFormat`, never a panic.
pub fn parse_address(s: &str) -> (r: Result<Address, RegistryError>)
    ensures
        is_valid_address_text(s@) ==> (r matches Ok(a) && a.wf() && a@ == address_bytes_of(s@)),
        !is_valid_address_text(s@) ==> r == Err::<Address, RegistryError>(
            RegistryError::InvalidAddressFormat,
        ),
{
    let n = s.unicode_len();
    let has_prefix = n >= 2 && s.get_char(0) == '0' && s.get_char(1) == 'x';
    let start: usize = if has_prefix { 2 } else { 0 };
    let ghost d = strip_hex_prefix(s@);
    proof {
        assert(d =~= s@.skip(start as int));
    }
    if n - start != 2 * ADDRESS_BYTES {
        return Err(RegistryError::InvalidAddressFormat);
    }
    let mut bytes: Vec<u8> = Vec::new();
    let mut i: usize = 0;
    while i < ADDRESS_BYTES
        invariant
            n == s@.len(),
            start + 2 * ADDRESS_BYTES == n,
            start == 0 || start == 2,
            d == s@.skip(start as int),
            i <= ADDRESS_BYTES,
            bytes@.len() == i,
            forall|j: int| 0 <= j < 2 * i ==> is_hex_digit(#[trigger] d[j]),
            forall|j: int| 0 <= j < i ==>
                #[trigger] bytes@[j] == (hex_digit_value(d[2 * j]) * 16 + hex_digit_value(
                    d[2 * j + 1],
                )) as u8,
        decreases ADDRESS_BYTES - i,
    {
        let hi = match hex_digit(s.get_char(start + 2 * i)) {
            Some(v) => v,
            None => {
                proof {
                    assert(!is_hex_digit(d[2 * i]));
                }
                return Err(RegistryError::InvalidAddressFormat);
            },
        };
        let lo = match hex_digit(s.get_char(start + 2 * i + 1)) {
            Some(v) => v,
            None => {
                proof {
                    assert(!is_hex_digit(d[2 * i + 1]));
                }
                return Err(RegistryError::InvalidAddressFormat);
            },
        };
        bytes.push(hi * 16 + lo);
        i = i + 1;
    }
    proof {
        assert(is_valid_address_text(s@));
        assert(bytes@ =~= address_bytes_of(s@));
    }
    Ok(Address { bytes })
}

} // verus!
