//! LEB128 variable-length integer encoding, as used by the wasm binary
//! format: seven payload bits per byte, high bit set on every byte but
//! the last.
use vstd::prelude::*;

verus! {

pub const CONTINUATION_BIT: u8 = 0x80;

pub const SIGN_BIT: u8 = 0x40;

/// The unsigned LEB128 encoding of `n`: base-128 digits, least
/// significant first, continuation bit on all but the final digit.
pub open spec fn spec_leb_unsigned(n: nat) -> Seq<u8>
    decreases n,
{
    if n < 128 {
        seq![n as u8]
    } else {
        seq![(n % 128 + 128) as u8] + spec_leb_unsigned(n / 128)
    }
}

/// The signed LEB128 encoding of `n`: base-128 two's-complement digits,
/// ending as soon as the remaining bits are pure sign extension.
pub open spec fn spec_leb_signed(n: int) -> Seq<u8>
    decreases (if n >= 0 {
        n
    } else {
        -1 - n
    }),
{
    let digit = n % 128;
    let rest = (n - digit) / 128;
    if (rest == 0 && digit < 64) || (rest == -1 && digit >= 64) {
        seq![digit as u8]
    } else {
        seq![(digit + 128) as u8] + spec_leb_signed(rest)
    }
}

fn low_bits_of_byte(byte: u8) -> (r: u8)
    ensures
        r == byte & 0x7f,
{
    proof {
        assert(byte & !0x80u8 == byte & 0x7fu8) by (bit_vector);
    }
    byte & !CONTINUATION_BIT
}

fn low_bits_of_u64(val: u64) -> (r: u8)
    ensures
        r == val % 128,
{
    let byte = val & (255 as u64);
    let r = low_bits_of_byte(byte as u8);
    proof {
        assert(((val & 255u64) as u8) & 0x7fu8 == val % 128) by (bit_vector);
    }
    r
}

/// Encode an unsigned 64-bit integer in unsigned LEB128.
pub fn encode_unsigned(n: u64) -> (r: Vec<u8>)
    ensures
        r@ == spec_leb_unsigned(n as nat),
{
    let mut m = n;
    let mut buffer: Vec<u8> = Vec::new();
    loop
        invariant
            buffer@ + spec_leb_unsigned(m as nat) == spec_leb_unsigned(n as nat),
        decreases m,
    {
        let ghost pre_buf = buffer@;
        let ghost pre_n = m as nat;
        let mut byte = low_bits_of_u64(m);
        proof {
            assert(m >> 7u64 == m / 128) by (bit_vector);
        }
        m >>= 7;
        if m != 0 {
            // More bytes to come.
            let ghost b0 = byte;
            byte |= CONTINUATION_BIT;
            proof {
                assert(b0 < 128 ==> (b0 | 0x80u8) == b0 + 128) by (bit_vector);
            }
        }
        buffer.push(byte);

        if m == 0 {
            proof {
                assert(spec_leb_unsigned(pre_n) =~= seq![byte]);
                assert(buffer@ =~= pre_buf + seq![byte]);
            }
            return buffer;
        }
        proof {
            assert(spec_leb_unsigned(pre_n) =~= seq![byte] + spec_leb_unsigned(m as nat));
            assert(buffer@ + spec_leb_unsigned(m as nat) =~= (pre_buf + seq![byte])
                + spec_leb_unsigned(m as nat));
            assert((pre_buf + seq![byte]) + spec_leb_unsigned(m as nat) =~= pre_buf + (seq![byte]
                + spec_leb_unsigned(m as nat)));
        }
    }
}

/// Encode a signed 64-bit integer in signed LEB128.
pub fn encode_signed(n: i64) -> (r: Vec<u8>)
    ensures
        r@ == spec_leb_signed(n as int),
{
    let mut m = n;
    let mut buffer: Vec<u8> = Vec::new();
    loop
        invariant
            buffer@ + spec_leb_signed(m as int) == spec_leb_signed(n as int),
        decreases (if m >= 0 {
            m as int
        } else {
            -1 - m
        }),
    {
        let ghost pre_buf = buffer@;
        let ghost pre_n = m as int;
        let mut byte = (m & 0x7f) as u8;
        proof {
            assert(((m & 0x7fi64) as u8) == m % 128) by (bit_vector);
            assert((m >> 7i64) == (m - m % 128) / 128) by (bit_vector);
            assert((m % 128 < 64) == (((m & 0x7fi64) as u8) & 0x40u8 == 0)) by (bit_vector);
        }
        m >>= 7;
        let done = (m == 0 && (byte & SIGN_BIT) == 0) || (m == -1 && (byte & SIGN_BIT) != 0);
        if !done {
            // More bytes to come.
            let ghost b0 = byte;
            byte |= CONTINUATION_BIT;
            proof {
                assert(b0 < 128 ==> (b0 | 0x80u8) == b0 + 128) by (bit_vector);
            }
        }
        buffer.push(byte);
        if done {
            proof {
                assert(spec_leb_signed(pre_n) =~= seq![byte]);
                assert(buffer@ =~= pre_buf + seq![byte]);
            }
            return buffer;
        }
        proof {
            assert(spec_leb_signed(pre_n) =~= seq![byte] + spec_leb_signed(m as int));
            assert(buffer@ + spec_leb_signed(m as int) =~= (pre_buf + seq![byte])
                + spec_leb_signed(m as int));
            assert((pre_buf + seq![byte]) + spec_leb_signed(m as int) =~= pre_buf + (seq![byte]
                + spec_leb_signed(m as int)));
        }
    }
}

} // verus!
