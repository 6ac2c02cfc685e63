//! Device addresses: six bytes, written as colon-separated pairs of hex
//! digits (`AA:BB:CC:DD:EE:FF`). Validation happens here, on the text as
//! bytes, before anything touches the radio.

use vstd::prelude::*;

use crate::Error;

verus! {

/// A six-byte device address, already validated.
#[derive(Clone, Copy, Debug, PartialEq, Eq)]
pub struct DeviceAddress {
    pub bytes: [u8; 6],
}

/// The byte is an ASCII hex digit, either case.
pub open spec fn is_hex_digit(b: u8) -> bool {
    (48 <= b && b <= 57) || (65 <= b && b <= 70) || (97 <= b && b <= 102)
}

/// Numeric value of an ASCII hex digit.
pub open spec fn hex_value(b: u8) -> u8 {
    if 48 <= b && b <= 57 {
        (b - 48) as u8
    } else if 65 <= b && b <= 70 {
        (b - 55) as u8
    } else {
        (b - 87) as u8
    }
}

/// The k-th digit pair of the address string holds two hex digits.
pub open spec fn octet_pair_ok(s: Seq<u8>, k: int) -> bool {
    is_hex_digit(s[3 * k]) && is_hex_digit(s[3 * k + 1])
}

/// A colon (ASCII 58) follows the k-th digit pair.
pub open spec fn separator_ok(s: Seq<u8>, k: int) -> bool {
    s[3 * k + 2] == 58u8
}

/// A well-formed address string: 17 bytes, hex-digit pairs at positions
/// 3k and 3k + 1, a colon between consecutive pairs.
pub open spec fn valid_address(s: Seq<u8>) -> bool {
    &&& s.len() == 17
    &&& forall|k: int| 0 <= k < 6 ==> octet_pair_ok(s, k)
    &&& forall|k: int| 0 <= k < 5 ==> separator_ok(s, k)
}

/// The k-th octet of a well-formed address string.
pub open spec fn address_octet(s: Seq<u8>, k: int) -> u8 {
    (hex_value(s[3 * k]) * 16 + hex_value(s[3 * k + 1])) as u8
}

/// The six octets of a well-formed address string, in order.
pub open spec fn address_octets(s: Seq<u8>) -> Seq<u8> {
    Seq::new(6, |k: int| address_octet(s, k))
}

/// Value of one ASCII hex digit, or `None` if the byte is not one.
fn hex_digit_value(b: u8) -> (r: Option<u8>)
    ensures
        r is Some <==> is_hex_digit(b),
        r matches Some(v) ==> v == hex_value(b) && v < 16,
{
    if 48 <= b && b <= 57 {
        Some(b - 48)
    } else if 65 <= b && b <= 70 {
        Some(b - 55)
    } else if 97 <= b && b <= 102 {
        Some(b - 87)
    } else {
        None
    }
}

/// Parses a device address from its textual form, given as bytes.
///
/// Accepts exactly the colon-separated two-digit form and nothing else;
/// on any malformed input it reports `Error::InvalidAddress` without
/// producing an address.
pub fn parse_address(text: &[u8]) -> (r: Result<DeviceAddress, Error>)
    ensures
        r is Ok <==> valid_address(text@),
        r matches Ok(a) ==> a.bytes@ == address_octets(text@),
        r matches Err(e) ==> e == Error::InvalidAddress,
{
    if text.len() != 17 {
        return Err(Error::InvalidAddress);
    }
    let mut octets: [u8; 6] = [0u8; 6];
    for k in 0..6
        invariant
            text@.len() == 17,
            forall|j: int| 0 <= j < k ==> octet_pair_ok(text@, j),
            forall|j: int| 0 <= j < k && j < 5 ==> separator_ok(text@, j),
            forall|j: int| 0 <= j < k ==> octets@[j] == address_octet(text@, j),
    {
        let hi: u8 = match hex_digit_value(text[3 * k]) {
            Some(v) => v,
            None => {
                assert(!octet_pair_ok(text@, k as int));
                return Err(Error::InvalidAddress);
            },
        };
        let lo: u8 = match hex_digit_value(text[3 * k + 1]) {
            Some(v) => v,
            None => {
                assert(!octet_pair_ok(text@, k as int));
                return Err(Error::InvalidAddress);
            },
        };
        if k < 5 && text[3 * k + 2] != 58 {
            assert(!separator_ok(text@, k as int));
            return Err(Error::InvalidAddress);
        }
        octets[k] = hi * 16 + lo;
    }
    let address = DeviceAddress { bytes: octets };
    assert(address.bytes@ =~= address_octets(text@));
    Ok(address)
}

} // verus!
