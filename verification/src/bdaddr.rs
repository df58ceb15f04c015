//! The 48-bit address that identifies a Bluetooth device.

use vstd::prelude::*;
use vstd::string::StringExecFns;
use crate::text::hex_char;
use crate::text::hex_digit;

verus! {

/// The six bytes of a device address, the most significant first.
#[derive(Clone, Copy, Debug, PartialEq, Eq, Structural, Hash)]
pub struct BDAddr {
    b0: u8,
    b1: u8,
    b2: u8,
    b3: u8,
    b4: u8,
    b5: u8,
}

impl View for BDAddr {
    type V = Seq<u8>;

    /// The six bytes, the most significant first.
    closed spec fn view(&self) -> Seq<u8> {
        seq![self.b0, self.b1, self.b2, self.b3, self.b4, self.b5]
    }
}

/// The text of an address: each byte as two upper-case hexadecimal digits,
/// the bytes separated by colons.
pub open spec fn address_text(bytes: Seq<u8>) -> Seq<char> {
    Seq::new(
        17,
        |i: int|
            if i % 3 == 2 {
                ':'
            } else if i % 3 == 0 {
                hex_char(bytes[i / 3] as int / 16)
            } else {
                hex_char(bytes[i / 3] as int % 16)
            },
    )
}

impl BDAddr {
    /// An address has six bytes, and two addresses with the same bytes are
    /// the same address.
    pub proof fn lemma_view(a: BDAddr, b: BDAddr)
        ensures
            a@.len() == 6,
            a@ == b@ ==> a == b,
    {
        if a@ == b@ {
            assert(a@[0] == b@[0]);
            assert(a@[1] == b@[1]);
            assert(a@[2] == b@[2]);
            assert(a@[3] == b@[3]);
            assert(a@[4] == b@[4]);
            assert(a@[5] == b@[5]);
        }
    }

    /// The address of these bytes; `address[0]` is the most significant.
    pub fn new(address: [u8; 6]) -> (r: BDAddr)
        ensures
            r@ == address@,
    {
        let r = BDAddr {
            b0: address[0],
            b1: address[1],
            b2: address[2],
            b3: address[3],
            b4: address[4],
            b5: address[5],
        };
        assert(r@ =~= address@);
        r
    }

    /// The six bytes of the address.
    pub fn into_inner(self) -> (r: [u8; 6])
        ensures
            r@ == self@,
    {
        let r = [self.b0, self.b1, self.b2, self.b3, self.b4, self.b5];
        assert(r@ =~= self@);
        r
    }

    /// The address as text, such as `2A:CC:00:34:FA:00`.
    pub fn to_string(&self) -> (s: String)
        ensures
            s@ == address_text(self@),
    {
        let bytes = self.into_inner();
        let mut s = String::from_str(hex_digit(bytes[0] / 16));
        s.append(hex_digit(bytes[0] % 16));
        let mut i: usize = 1;
        while i < 6
            invariant
                1 <= i <= 6,
                bytes@ == self@,
                s@ == address_text(self@).subrange(0, 3 * i - 1),
            decreases 6 - i,
        {
            proof {
                reveal_strlit(":");
            }
            let ghost before = s@;
            s.append(":");
            s.append(hex_digit(bytes[i] / 16));
            s.append(hex_digit(bytes[i] % 16));
            assert(s@ =~= address_text(self@).subrange(0, 3 * i + 2)) by {
                assert(s@ == before + seq![':'] + seq![hex_char(bytes@[i as int] as int / 16)]
                    + seq![hex_char(bytes@[i as int] as int % 16)]);
            }
            i = i + 1;
        }
        assert(s@ =~= address_text(self@));
        s
    }
}

} // verus!
