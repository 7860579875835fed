use vstd::prelude::*;

verus! {

/// Bit of the beta-is-zero hint: the output is written, not accumulated into.
pub const FLAG_BETA_0: u32 = 4;

/// Bit of the unsigned-left-operand hint for low-precision paths.
pub const FLAG_A_UNSIGNED: u32 = 256;

/// Bit of the packed (VNNI) layout of the left operand.
pub const FLAG_VNNI_A: u32 = 2048;

/// Bit of the packed (VNNI) layout of the right operand.
pub const FLAG_VNNI_B: u32 = 4096;

/// Independent, composable dispatch options; part of the cache key.
#[derive(Clone, Copy, Debug, PartialEq, Eq, Structural, Hash)]
pub struct DispatchFlags {
    pub beta_zero: bool,
    pub vnni_a: bool,
    pub vnni_b: bool,
    pub a_unsigned: bool,
}

pub open spec fn bit_if(on: bool, bit: u32) -> u32 {
    if on {
        bit
    } else {
        0
    }
}

/// The bit set that encodes a set of flags.
pub open spec fn spec_bits(f: DispatchFlags) -> u32 {
    bit_if(f.beta_zero, FLAG_BETA_0) | bit_if(f.a_unsigned, FLAG_A_UNSIGNED) | bit_if(
        f.vnni_a,
        FLAG_VNNI_A,
    ) | bit_if(f.vnni_b, FLAG_VNNI_B)
}

/// The flags that a bit set holds; bits of no flag are ignored.
pub open spec fn spec_from_bits(bits: u32) -> DispatchFlags {
    DispatchFlags {
        beta_zero: bits & FLAG_BETA_0 != 0,
        vnni_a: bits & FLAG_VNNI_A != 0,
        vnni_b: bits & FLAG_VNNI_B != 0,
        a_unsigned: bits & FLAG_A_UNSIGNED != 0,
    }
}

impl DispatchFlags {
    /// No option set.
    pub fn none() -> (r: DispatchFlags)
        ensures
            r == (DispatchFlags { beta_zero: false, vnni_a: false, vnni_b: false, a_unsigned: false }),
    {
        DispatchFlags { beta_zero: false, vnni_a: false, vnni_b: false, a_unsigned: false }
    }

    /// These flags with the beta-is-zero hint set.
    pub fn with_beta_zero(self) -> (r: DispatchFlags)
        ensures
            r == (DispatchFlags { beta_zero: true, ..self }),
    {
        DispatchFlags { beta_zero: true, ..self }
    }

    /// These flags with the packed layout of the left operand set.
    pub fn with_vnni_a(self) -> (r: DispatchFlags)
        ensures
            r == (DispatchFlags { vnni_a: true, ..self }),
    {
        DispatchFlags { vnni_a: true, ..self }
    }

    /// These flags with the packed layout of the right operand set.
    pub fn with_vnni_b(self) -> (r: DispatchFlags)
        ensures
            r == (DispatchFlags { vnni_b: true, ..self }),
    {
        DispatchFlags { vnni_b: true, ..self }
    }

    /// These flags with the unsigned-left-operand hint set.
    pub fn with_a_unsigned(self) -> (r: DispatchFlags)
        ensures
            r == (DispatchFlags { a_unsigned: true, ..self }),
    {
        DispatchFlags { a_unsigned: true, ..self }
    }

    /// The bit set that the code generator reads.
    pub fn bits(&self) -> (r: u32)
        ensures
            r == spec_bits(*self),
    {
        let b: u32 = if self.beta_zero {
            FLAG_BETA_0
        } else {
            0
        };
        let u: u32 = if self.a_unsigned {
            FLAG_A_UNSIGNED
        } else {
            0
        };
        let va: u32 = if self.vnni_a {
            FLAG_VNNI_A
        } else {
            0
        };
        let vb: u32 = if self.vnni_b {
            FLAG_VNNI_B
        } else {
            0
        };
        b | u | va | vb
    }

    /// The flags that a bit set holds; bits of no flag are ignored.
    pub fn from_bits(bits: u32) -> (r: DispatchFlags)
        ensures
            r == spec_from_bits(bits),
    {
        DispatchFlags {
            beta_zero: bits & FLAG_BETA_0 != 0,
            vnni_a: bits & FLAG_VNNI_A != 0,
            vnni_b: bits & FLAG_VNNI_B != 0,
            a_unsigned: bits & FLAG_A_UNSIGNED != 0,
        }
    }
}

/// Encoding flags as bits and reading them back gives the same flags: the
/// options are independent bits.
pub proof fn lemma_bits_round_trip(f: DispatchFlags)
    ensures
        spec_from_bits(spec_bits(f)) == f,
{
    let b = bit_if(f.beta_zero, FLAG_BETA_0);
    let u = bit_if(f.a_unsigned, FLAG_A_UNSIGNED);
    let va = bit_if(f.vnni_a, FLAG_VNNI_A);
    let vb = bit_if(f.vnni_b, FLAG_VNNI_B);
    assert({
        &&& ((b | u | va | vb) & 4 != 0) == (b == 4)
        &&& ((b | u | va | vb) & 256 != 0) == (u == 256)
        &&& ((b | u | va | vb) & 2048 != 0) == (va == 2048)
        &&& ((b | u | va | vb) & 4096 != 0) == (vb == 4096)
    }) by (bit_vector)
        requires
            b == 0 || b == 4,
            u == 0 || u == 256,
            va == 0 || va == 2048,
            vb == 0 || vb == 4096,
    ;
}

} // verus!
