//! 48-bit link-layer addresses and their colon-delimited hex text form.
//!
//! A caller supplies a target address as text such as
//! `"AA:BB:CC:DD:EE:FF"`. [`parse_address`] accepts exactly that shape —
//! six two-digit hex octets separated by single colons — and yields the
//! numeric address, most significant octet first.

use vstd::prelude::*;

verus! {

/// A 48-bit link-layer device address, held as an integer with the first
/// octet of the textual form in the most significant position.
#[derive(Clone, Copy, Debug, PartialEq, Eq, Structural)]
pub struct Address {
    pub value: u64,
}

/// Largest value a 48-bit address can take.
pub const ADDRESS_MAX: u64 = 0xFFFF_FFFF_FFFF;

impl Address {
    /// An address is well formed when it fits in 48 bits.
    pub open spec fn wf(self) -> bool {
        self.value <= ADDRESS_MAX
    }
}

/// True for the ASCII bytes `0-9`, `a-f` and `A-F`.
pub open spec fn is_hex_digit(b: u8) -> bool {
    (48 <= b <= 57) || (97 <= b <= 102) || (65 <= b <= 70)
}

/// Numeric value of a hex digit byte.
pub open spec fn hex_digit_value(b: u8) -> int
    recommends
        is_hex_digit(b),
{
    if 48 <= b <= 57 {
        b - 48
    } else if 97 <= b <= 102 {
        b - 97 + 10
    } else {
        b - 65 + 10
    }
}

/// The accepted textual shape: exactly 17 bytes, a colon at every third
/// position and hex digits everywhere else.
pub open spec fn address_text_valid(s: Seq<u8>) -> bool {
    &&& s.len() == 17
    &&& forall|i: int|
        0 <= i < 17 ==> (if i % 3 == 2 {
            s[i] == 58
        } else {
            is_hex_digit(s[i])
        })
}

/// Value of the octet written at position `k` (0 through 5) of a valid
/// address text.
pub open spec fn address_octet(s: Seq<u8>, k: int) -> int
    recommends
        address_text_valid(s),
        0 <= k < 6,
{
    hex_digit_value(s[3 * k]) * 16 + hex_digit_value(s[3 * k + 1])
}

/// Numeric value of a valid address text, first octet most significant.
pub open spec fn address_text_value(s: Seq<u8>) -> int
    recommends
        address_text_valid(s),
{
    address_octet(s, 0) * 0x10000000000 + address_octet(s, 1) * 0x100000000 + address_octet(s, 2)
        * 0x1000000 + address_octet(s, 3) * 0x10000 + address_octet(s, 4) * 0x100 + address_octet(
        s,
        5,
    )
}

/// Value of the first `k` octets of a valid address text, read as a
/// base-256 number.
pub open spec fn octets_prefix_value(s: Seq<u8>, k: int) -> int
    recommends
        0 <= k <= 6,
    decreases k,
{
    if k <= 0 {
        0
    } else {
        octets_prefix_value(s, k - 1) * 256 + address_octet(s, k - 1)
    }
}

/// Strict bound on the value of a `k`-octet prefix.
spec fn prefix_value_bound(k: int) -> int {
    if k <= 0 {
        1
    } else if k == 1 {
        0x100
    } else if k == 2 {
        0x10000
    } else if k == 3 {
        0x1000000
    } else if k == 4 {
        0x100000000
    } else if k == 5 {
        0x10000000000
    } else {
        0x1000000000000
    }
}

/// Decodes one hex digit byte, or reports that it is not one.
fn hex_digit(b: u8) -> (r: Option<u64>)
    ensures
        r is Some <==> is_hex_digit(b),
        r is Some ==> r->0 == hex_digit_value(b) && r->0 < 16,
{
    if 48 <= b && b <= 57 {
        Some((b - 48) as u64)
    } else if 97 <= b && b <= 102 {
        Some((b - 97 + 10) as u64)
    } else if 65 <= b && b <= 70 {
        Some((b - 65 + 10) as u64)
    } else {
        None
    }
}

/// Parses colon-delimited hex text into an [`Address`].
///
/// Succeeds exactly on text of the shape `"AA:BB:CC:DD:EE:FF"` and then
/// returns its numeric value; every other input — the empty text that
/// stands for "unset" included — yields `None`.
pub fn parse_address(text: &[u8]) -> (r: Option<Address>)
    ensures
        r is Some <==> address_text_valid(text@),
        r is Some ==> r->0.value == address_text_value(text@) && r->0.wf(),
{
    if text.len() != 17 {
        return None;
    }
    let mut value: u64 = 0;
    let mut k: usize = 0;
    while k < 6
        invariant
            0 <= k <= 6,
            text@.len() == 17,
            forall|i: int|
                0 <= i < 3 * k - 1 ==> (if i % 3 == 2 {
                    text@[i] == 58
                } else {
                    is_hex_digit(text@[i])
                }),
            value == octets_prefix_value(text@, k as int),
            value < prefix_value_bound(k as int),
        decreases 6 - k,
    {
        if k > 0 {
            let sep = text[3 * k - 1];
            if sep != 58 {
                proof {
                    let i: int = 3 * (k as int) - 1;
                    assert(i % 3 == 2);
                    assert(address_text_valid(text@) ==> text@[i] == 58);
                }
                return None;
            }
        }
        let hi = match hex_digit(text[3 * k]) {
            Some(v) => v,
            None => {
                proof {
                    let i: int = 3 * (k as int);
                    assert(i % 3 == 0);
                    assert(address_text_valid(text@) ==> is_hex_digit(text@[i]));
                }
                return None;
            },
        };
        let lo = match hex_digit(text[3 * k + 1]) {
            Some(v) => v,
            None => {
                proof {
                    let i: int = 3 * (k as int) + 1;
                    assert(i % 3 == 1);
                    assert(address_text_valid(text@) ==> is_hex_digit(text@[i]));
                }
                return None;
            },
        };
        value = value * 256 + (hi * 16 + lo);
        k = k + 1;
    }
    proof {
        lemma_prefix_is_value(text@);
    }
    Some(Address { value })
}

proof fn lemma_prefix_is_value(s: Seq<u8>)
    requires
        s.len() == 17,
    ensures
        octets_prefix_value(s, 6) == address_text_value(s),
{
    reveal_with_fuel(octets_prefix_value, 7);
}

} // verus!
