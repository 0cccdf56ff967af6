//! The fixed header of the output container and big-endian encoding.
use vstd::prelude::*;

verus! {

/// The `j`-th byte, most significant first, of `x`.
pub open spec fn be_byte(x: u32, j: int) -> u8 {
    ((x >> ((24 - 8 * j) as u32)) & 0xff) as u8
}

/// The four bytes of `x`, most significant first.
pub open spec fn be_seq(x: u32) -> Seq<u8> {
    seq![be_byte(x, 0), be_byte(x, 1), be_byte(x, 2), be_byte(x, 3)]
}

/// Magic number, header length, data length (unknown), encoding
/// (32-bit float), sample rate, channel count.
pub open spec fn header_fields() -> Seq<u32> {
    seq![0x2e736e64u32, 24u32, 0xffffffffu32, 6u32, 48000u32, 1u32]
}

/// The header: each field in turn, four bytes each, most significant first.
pub open spec fn header_spec() -> Seq<u8> {
    be_seq(header_fields()[0]) + be_seq(header_fields()[1]) + be_seq(header_fields()[2])
        + be_seq(header_fields()[3]) + be_seq(header_fields()[4]) + be_seq(header_fields()[5])
}

/// The four bytes of `x`, most significant first.
pub fn be_bytes(x: u32) -> (r: Vec<u8>)
    ensures
        r@ == be_seq(x),
{
    let r = vec![
        ((x >> 24u32) & 0xff) as u8,
        ((x >> 16u32) & 0xff) as u8,
        ((x >> 8u32) & 0xff) as u8,
        (x & 0xff) as u8,
    ];
    proof {
        assert(x >> 0u32 == x) by (bit_vector);
        assert(r@ =~= be_seq(x));
    }
    r
}

/// The 24-byte container header, written once before any sample.
pub fn prepare_output() -> (r: Vec<u8>)
    ensures
        r@ == header_spec(),
        r.len() == 24,
{
    let fields: [u32; 6] = [0x2e736e64, 24, 0xffffffff, 6, 48000, 1];
    let mut r: Vec<u8> = Vec::new();
    let mut i: usize = 0;
    while i < 6
        invariant
            i <= 6,
            fields@ == header_fields(),
            r@.len() == 4 * i,
            forall|j: int| 0 <= j < i ==> r@.subrange(4 * j, 4 * j + 4) == be_seq(#[trigger] fields@[j]),
        decreases 6 - i,
    {
        let b = be_bytes(fields[i]);
        let ghost before = r@;
        let mut t: usize = 0;
        while t < 4
            invariant
                t <= 4,
                b@ == be_seq(fields@[i as int]),
                r@ == before + b@.take(t as int),
            decreases 4 - t,
        {
            r.push(b[t]);
            proof {
                assert(b@.take(t + 1) =~= b@.take(t as int).push(b@[t as int]));
            }
            t = t + 1;
        }
        proof {
            assert(b@.take(4) =~= b@);
            assert forall|j: int| 0 <= j < i + 1 implies r@.subrange(4 * j, 4 * j + 4) == be_seq(#[trigger] fields@[j]) by {
                if j < i {
                    assert(r@.subrange(4 * j, 4 * j + 4) =~= before.subrange(4 * j, 4 * j + 4));
                } else {
                    assert(r@.subrange(4 * j, 4 * j + 4) =~= b@);
                }
            }
        }
        i = i + 1;
    }
    proof {
        assert(r@ =~= header_spec()) by {
            assert(r@.subrange(0, 4) == be_seq(fields@[0]));
            assert(r@.subrange(4, 8) == be_seq(fields@[1]));
            assert(r@.subrange(8, 12) == be_seq(fields@[2]));
            assert(r@.subrange(12, 16) == be_seq(fields@[3]));
            assert(r@.subrange(16, 20) == be_seq(fields@[4]));
            assert(r@.subrange(20, 24) == be_seq(fields@[5]));
        }
    }
    r
}

} // verus!
