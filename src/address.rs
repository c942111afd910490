use vstd::prelude::*;
use crate::erc::{hex_byte, hex_of, Address};
use vstd::string::StringSliceAdditionalSpecFns;

verus! {

/// Whether the byte is an ASCII hex digit of either case.
pub open spec fn is_hex_byte(b: u8) -> bool {
    (48 <= b <= 57) || (97 <= b <= 102) || (65 <= b <= 70)
}

/// The value of an ASCII hex digit.
pub open spec fn hex_val(b: u8) -> int {
    if 48 <= b <= 57 {
        b - 48
    } else if 97 <= b <= 102 {
        b - 87
    } else {
        b - 55
    }
}

/// The twenty bytes written as forty hex digits in `b` from `off` on, if
/// they all are hex digits.
pub open spec fn hex_body(b: Seq<u8>, off: int) -> Option<Seq<u8>> {
    if forall|i: int| off <= i < off + 40 ==> is_hex_byte(#[trigger] b[i]) {
        Some(Seq::new(20, |i: int| (hex_val(b[off + 2 * i]) * 16 + hex_val(b[off + 1 + 2 * i])) as u8))
    } else {
        None
    }
}

/// The address written as forty hex digits, with or without a leading `0x`,
/// if `b` is one.
pub open spec fn parse_address_spec(b: Seq<u8>) -> Option<Seq<u8>> {
    if b.len() == 42 && b[0] == 48 && b[1] == 120 {
        hex_body(b, 2)
    } else if b.len() == 40 {
        hex_body(b, 0)
    } else {
        None
    }
}

/// The address text `0x` and forty lowercase hex digits.
pub open spec fn address_text(a: Seq<u8>) -> Seq<char> {
    seq!['0', 'x'] + hex_of(a)
}

fn hex_digit_value(b: u8) -> (r: Option<u8>)
    ensures
        r is Some <==> is_hex_byte(b),
        r is Some ==> r->0 as int == hex_val(b) && r->0 < 16,
{
    if 48 <= b && b <= 57 {
        Some(b - 48)
    } else if 97 <= b && b <= 102 {
        Some(b - 87)
    } else if 65 <= b && b <= 70 {
        Some(b - 55)
    } else {
        None
    }
}

impl Address {
    /// Reads an address written as forty hex digits of either case, with or
    /// without a leading `0x`.
    pub fn parse(s: &str) -> (r: Option<Address>)
        ensures
            r is None <==> parse_address_spec(s.spec_bytes()) is None,
            r is Some ==> r->0.view() == parse_address_spec(s.spec_bytes())->0,
    {
        let b = s.as_bytes();
        let off: usize = if b.len() == 42 && b[0] == 48 && b[1] == 120 {
            2
        } else if b.len() == 40 {
            0
        } else {
            return None;
        };
        let mut bytes = [0u8; 20];
        let mut i: usize = 0;
        while i < 20
            invariant
                0 <= i <= 20,
                b@ == s.spec_bytes(),
                b@.len() == off + 40,
                off == 2 ==> b@[0] == 48 && b@[1] == 120,
                off == 0 || off == 2,
                off == 0 ==> !(b@.len() == 42 && b@[0] == 48 && b@[1] == 120),
                bytes@.len() == 20,
                forall|j: int| off <= j < off + 2 * i ==> is_hex_byte(#[trigger] b@[j]),
                forall|j: int| 0 <= j < i ==> #[trigger] bytes@[j] == (hex_val(b@[off + 2 * j]) * 16 + hex_val(b@[off + 1 + 2 * j])) as u8,
            decreases 20 - i,
        {
            let hi = match hex_digit_value(b[off + 2 * i]) {
                Some(v) => v,
                None => return None,
            };
            let lo = match hex_digit_value(b[off + 1 + 2 * i]) {
                Some(v) => v,
                None => return None,
            };
            bytes[i] = hi * 16 + lo;
            i = i + 1;
        }
        let r = Address { bytes };
        assert(r.view() =~= parse_address_spec(s.spec_bytes())->0);
        Some(r)
    }

    /// The address as `0x` followed by forty lowercase hex digits.
    pub fn to_hex(&self) -> (r: String)
        ensures
            r@ == address_text(self.view()),
    {
        proof { reveal_strlit("0x"); }
        let mut text = "0x".to_owned();
        let mut i: usize = 0;
        while i < 20
            invariant
                0 <= i <= 20,
                self.bytes@.len() == 20,
                text@ == seq!['0', 'x'] + hex_of(self.bytes@.subrange(0, i as int)),
            decreases 20 - i,
        {
            let pair = hex_byte(self.bytes[i]);
            proof {
                assert(self.bytes@.subrange(0, i + 1).drop_last() =~= self.bytes@.subrange(0, i as int));
            }
            text = text.concat(pair.as_str());
            proof {
                assert(text@ =~= seq!['0', 'x'] + hex_of(self.bytes@.subrange(0, i + 1)));
            }
            i = i + 1;
        }
        assert(self.bytes@.subrange(0, 20) =~= self.bytes@);
        text
    }
}

} // verus!
