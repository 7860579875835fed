use vstd::prelude::*;

verus! {

/// Element datatypes of GEMM operands and of the accumulation.
#[derive(Clone, Copy, Debug, PartialEq, Eq, Structural, Hash)]
pub enum Datatype {
    /// 64-bit float.
    F64,
    /// 32-bit float.
    F32,
    /// 16-bit brain float.
    Bf16,
    /// 16-bit IEEE float.
    F16,
    /// Signed 8-bit integer.
    I8,
    /// Unsigned 8-bit integer.
    U8,
    /// Signed 32-bit integer (integer accumulation).
    I32,
}

/// Size in bytes of one element of a datatype.
pub open spec fn size_of(t: Datatype) -> nat {
    match t {
        Datatype::F64 => 8,
        Datatype::F32 => 4,
        Datatype::Bf16 => 2,
        Datatype::F16 => 2,
        Datatype::I8 => 1,
        Datatype::U8 => 1,
        Datatype::I32 => 4,
    }
}

/// Numeric code of a datatype in the generator's interface.
pub open spec fn code_of(t: Datatype) -> i32 {
    match t {
        Datatype::F64 => 0,
        Datatype::F32 => 1,
        Datatype::Bf16 => 2,
        Datatype::F16 => 3,
        Datatype::I32 => 8,
        Datatype::I8 => 12,
        Datatype::U8 => 13,
    }
}

impl Datatype {
    /// Size in bytes of one element.
    pub fn size_bytes(&self) -> (r: u8)
        ensures
            r as nat == size_of(*self),
    {
        match self {
            Datatype::F64 => 8,
            Datatype::F32 => 4,
            Datatype::Bf16 => 2,
            Datatype::F16 => 2,
            Datatype::I8 => 1,
            Datatype::U8 => 1,
            Datatype::I32 => 4,
        }
    }

    /// Numeric code in the generator's interface.
    pub fn code(&self) -> (r: i32)
        ensures
            r == code_of(*self),
    {
        match self {
            Datatype::F64 => 0,
            Datatype::F32 => 1,
            Datatype::Bf16 => 2,
            Datatype::F16 => 3,
            Datatype::I32 => 8,
            Datatype::I8 => 12,
            Datatype::U8 => 13,
        }
    }
}

/// The datatype combinations that the dispatcher recognizes.
#[derive(Clone, Copy, Debug, PartialEq, Eq, Structural, Hash)]
pub enum Combination {
    /// float32 x float32 -> float32.
    F32,
    /// float64 x float64 -> float64.
    F64,
    /// bf16 x bf16 -> float32, accumulated in float32.
    Bf16,
    /// int8 x int8 -> int32, accumulated in int32.
    Int8,
    /// uint8 x int8 -> int32, accumulated in int32.
    Uint8Int8,
}

/// The combination that a left, right, output and compute datatype form, if
/// it is a recognized one.
pub open spec fn spec_combination(
    a: Datatype,
    b: Datatype,
    out: Datatype,
    comp: Datatype,
) -> Option<Combination> {
    if a == Datatype::F32 && b == Datatype::F32 && out == Datatype::F32 && comp == Datatype::F32 {
        Some(Combination::F32)
    } else if a == Datatype::F64 && b == Datatype::F64 && out == Datatype::F64 && comp
        == Datatype::F64 {
        Some(Combination::F64)
    } else if a == Datatype::Bf16 && b == Datatype::Bf16 && out == Datatype::F32 && comp
        == Datatype::F32 {
        Some(Combination::Bf16)
    } else if a == Datatype::I8 && b == Datatype::I8 && out == Datatype::I32 && comp
        == Datatype::I32 {
        Some(Combination::Int8)
    } else if a == Datatype::U8 && b == Datatype::I8 && out == Datatype::I32 && comp
        == Datatype::I32 {
        Some(Combination::Uint8Int8)
    } else {
        None
    }
}

/// The left, right, output and compute datatypes of a combination.
pub open spec fn spec_datatypes(c: Combination) -> (Datatype, Datatype, Datatype, Datatype) {
    match c {
        Combination::F32 => (Datatype::F32, Datatype::F32, Datatype::F32, Datatype::F32),
        Combination::F64 => (Datatype::F64, Datatype::F64, Datatype::F64, Datatype::F64),
        Combination::Bf16 => (Datatype::Bf16, Datatype::Bf16, Datatype::F32, Datatype::F32),
        Combination::Int8 => (Datatype::I8, Datatype::I8, Datatype::I32, Datatype::I32),
        Combination::Uint8Int8 => (Datatype::U8, Datatype::I8, Datatype::I32, Datatype::I32),
    }
}

/// Finds the recognized combination of four datatypes.
pub fn combination_of(a: Datatype, b: Datatype, out: Datatype, comp: Datatype) -> (r: Option<
    Combination,
>)
    ensures
        r == spec_combination(a, b, out, comp),
{
    match (a, b, out, comp) {
        (Datatype::F32, Datatype::F32, Datatype::F32, Datatype::F32) => Some(Combination::F32),
        (Datatype::F64, Datatype::F64, Datatype::F64, Datatype::F64) => Some(Combination::F64),
        (Datatype::Bf16, Datatype::Bf16, Datatype::F32, Datatype::F32) => Some(Combination::Bf16),
        (Datatype::I8, Datatype::I8, Datatype::I32, Datatype::I32) => Some(Combination::Int8),
        (Datatype::U8, Datatype::I8, Datatype::I32, Datatype::I32) => Some(Combination::Uint8Int8),
        _ => None,
    }
}

impl Combination {
    /// The left, right, output and compute datatypes of this combination.
    pub fn datatypes(&self) -> (r: (Datatype, Datatype, Datatype, Datatype))
        ensures
            r == spec_datatypes(*self),
            spec_combination(r.0, r.1, r.2, r.3) == Some(*self),
    {
        match self {
            Combination::F32 => (Datatype::F32, Datatype::F32, Datatype::F32, Datatype::F32),
            Combination::F64 => (Datatype::F64, Datatype::F64, Datatype::F64, Datatype::F64),
            Combination::Bf16 => (Datatype::Bf16, Datatype::Bf16, Datatype::F32, Datatype::F32),
            Combination::Int8 => (Datatype::I8, Datatype::I8, Datatype::I32, Datatype::I32),
            Combination::Uint8Int8 => (Datatype::U8, Datatype::I8, Datatype::I32, Datatype::I32),
        }
    }
}

/// The descriptor invariants that construction checks.
#[derive(Clone, Copy, Debug, PartialEq, Eq, Structural, Hash)]
pub enum DescriptorInvariant {
    /// m, n and k are all positive.
    PositiveDimensions,
    /// lda >= m, ldb >= k and ldc >= m.
    StridesCoverDimensions,
    /// The datatypes form a recognized combination.
    RecognizedDatatypes,
}

/// A descriptor was refused; `violated` names the invariant it broke.
#[derive(Clone, Copy, Debug, PartialEq, Eq, Structural, Hash)]
pub struct InvalidDescriptor {
    pub violated: DescriptorInvariant,
}

/// Shape, strides and datatypes of one GEMM: C (m x n) = A (m x k) * B (k x n),
/// column-major, with leading strides lda, ldb and ldc.
#[derive(Clone, Copy, Debug, PartialEq, Eq, Structural, Hash)]
pub struct ShapeTypeDescriptor {
    pub m: i32,
    pub n: i32,
    pub k: i32,
    pub lda: i32,
    pub ldb: i32,
    pub ldc: i32,
    pub a_type: Datatype,
    pub b_type: Datatype,
    pub out_type: Datatype,
    pub comp_type: Datatype,
}

pub open spec fn dims_positive(m: i32, n: i32, k: i32) -> bool {
    m > 0 && n > 0 && k > 0
}

pub open spec fn strides_cover(m: i32, k: i32, lda: i32, ldb: i32, ldc: i32) -> bool {
    lda >= m && ldb >= k && ldc >= m
}

/// The outcome of building a descriptor from its parts.
pub open spec fn spec_descriptor_new(
    m: i32,
    n: i32,
    k: i32,
    lda: i32,
    ldb: i32,
    ldc: i32,
    a: Datatype,
    b: Datatype,
    out: Datatype,
    comp: Datatype,
) -> Result<ShapeTypeDescriptor, InvalidDescriptor> {
    if !dims_positive(m, n, k) {
        Err(InvalidDescriptor { violated: DescriptorInvariant::PositiveDimensions })
    } else if !strides_cover(m, k, lda, ldb, ldc) {
        Err(InvalidDescriptor { violated: DescriptorInvariant::StridesCoverDimensions })
    } else if spec_combination(a, b, out, comp).is_none() {
        Err(InvalidDescriptor { violated: DescriptorInvariant::RecognizedDatatypes })
    } else {
        Ok(
            ShapeTypeDescriptor {
                m,
                n,
                k,
                lda,
                ldb,
                ldc,
                a_type: a,
                b_type: b,
                out_type: out,
                comp_type: comp,
            },
        )
    }
}

/// Elements spanned by an operand of `cols` columns with leading stride `ld`.
pub open spec fn panel(ld: i32, cols: i32) -> int {
    ld as int * cols as int
}

impl ShapeTypeDescriptor {
    /// The descriptor holds all of its invariants.
    pub open spec fn valid(&self) -> bool {
        &&& dims_positive(self.m, self.n, self.k)
        &&& strides_cover(self.m, self.k, self.lda, self.ldb, self.ldc)
        &&& spec_combination(self.a_type, self.b_type, self.out_type, self.comp_type).is_some()
    }

    /// The recognized combination of a valid descriptor.
    pub open spec fn spec_combination(&self) -> Combination {
        spec_combination(self.a_type, self.b_type, self.out_type, self.comp_type).unwrap()
    }

    /// Elements of the left operand.
    pub open spec fn left_elems(&self) -> int {
        panel(self.lda, self.k)
    }

    /// Elements of the right operand.
    pub open spec fn right_elems(&self) -> int {
        panel(self.ldb, self.n)
    }

    /// Elements of the output operand.
    pub open spec fn output_elems(&self) -> int {
        panel(self.ldc, self.n)
    }

    /// Bytes of all three operands.
    pub open spec fn spec_byte_size(&self) -> int {
        self.left_elems() * size_of(self.a_type) + self.right_elems() * size_of(self.b_type)
            + self.output_elems() * size_of(self.out_type)
    }

    /// The recognized datatype combination of the descriptor.
    pub fn combination(&self) -> (r: Combination)
        requires
            self.valid(),
        ensures
            r == self.spec_combination(),
    {
        match combination_of(self.a_type, self.b_type, self.out_type, self.comp_type) {
            Some(c) => c,
            None => Combination::F32,
        }
    }
}

proof fn lemma_panel_bound(ld: i32, cols: i32)
    requires
        ld > 0,
        cols > 0,
    ensures
        0 < panel(ld, cols) < 0x4000_0000_0000_0000,
{
    assert(0 < (ld as int) * (cols as int) < 0x4000_0000_0000_0000) by (nonlinear_arith)
        requires
            0 < ld <= 0x7fff_ffff,
            0 < cols <= 0x7fff_ffff,
    ;
}

/// Multiplies two positive 32-bit values without overflow.
fn panel_elems(ld: i32, cols: i32) -> (r: u64)
    requires
        ld > 0,
        cols > 0,
    ensures
        r as int == panel(ld, cols),
{
    proof {
        lemma_panel_bound(ld, cols);
    }
    (ld as u64) * (cols as u64)
}

/// Builds a descriptor, checking in turn that the dimensions are positive,
/// that each stride covers its dimension, and that the datatypes form a
/// recognized combination; the first invariant broken is reported.
pub fn descriptor_new(
    m: i32,
    n: i32,
    k: i32,
    lda: i32,
    ldb: i32,
    ldc: i32,
    a: Datatype,
    b: Datatype,
    out: Datatype,
    comp: Datatype,
) -> (r: Result<ShapeTypeDescriptor, InvalidDescriptor>)
    ensures
        r == spec_descriptor_new(m, n, k, lda, ldb, ldc, a, b, out, comp),
        r is Ok ==> r->Ok_0.valid(),
{
    if !(m > 0 && n > 0 && k > 0) {
        return Err(InvalidDescriptor { violated: DescriptorInvariant::PositiveDimensions });
    }
    if !(lda >= m && ldb >= k && ldc >= m) {
        return Err(InvalidDescriptor { violated: DescriptorInvariant::StridesCoverDimensions });
    }
    if combination_of(a, b, out, comp).is_none() {
        return Err(InvalidDescriptor { violated: DescriptorInvariant::RecognizedDatatypes });
    }
    Ok(
        ShapeTypeDescriptor {
            m,
            n,
            k,
            lda,
            ldb,
            ldc,
            a_type: a,
            b_type: b,
            out_type: out,
            comp_type: comp,
        },
    )
}

impl ShapeTypeDescriptor {
    /// A descriptor with tightly packed operands (lda = m, ldb = k, ldc = m)
    /// for a recognized combination.
    pub fn dense(m: i32, n: i32, k: i32, c: Combination) -> (r: Result<
        ShapeTypeDescriptor,
        InvalidDescriptor,
    >)
        ensures
            r == spec_descriptor_new(
                m,
                n,
                k,
                m,
                k,
                m,
                spec_datatypes(c).0,
                spec_datatypes(c).1,
                spec_datatypes(c).2,
                spec_datatypes(c).3,
            ),
            !dims_positive(m, n, k) <==> r is Err,
            r is Ok ==> r->Ok_0.valid() && r->Ok_0.spec_combination() == c,
    {
        let (a, b, out, comp) = c.datatypes();
        descriptor_new(m, n, k, m, k, m, a, b, out, comp)
    }

    /// Elements the left operand spans (lda * k).
    pub fn left_len(&self) -> (r: u64)
        requires
            self.valid(),
        ensures
            r as int == self.left_elems(),
    {
        panel_elems(self.lda, self.k)
    }

    /// Elements the right operand spans (ldb * n).
    pub fn right_len(&self) -> (r: u64)
        requires
            self.valid(),
        ensures
            r as int == self.right_elems(),
    {
        panel_elems(self.ldb, self.n)
    }

    /// Elements the output operand spans (ldc * n).
    pub fn output_len(&self) -> (r: u64)
        requires
            self.valid(),
        ensures
            r as int == self.output_elems(),
    {
        panel_elems(self.ldc, self.n)
    }

    /// Estimated bytes of the operand layout: each operand's span times its
    /// element size, summed over the three operands.
    pub fn byte_size(&self) -> (r: u128)
        requires
            self.valid(),
        ensures
            r as int == self.spec_byte_size(),
    {
        let a = self.left_len() as u128;
        let b = self.right_len() as u128;
        let c = self.output_len() as u128;
        let sa = self.a_type.size_bytes() as u128;
        let sb = self.b_type.size_bytes() as u128;
        let sc = self.out_type.size_bytes() as u128;
        proof {
            lemma_panel_bound(self.lda, self.k);
            lemma_panel_bound(self.ldb, self.n);
            lemma_panel_bound(self.ldc, self.n);
        }
        assert(a * sa <= 0x4000_0000_0000_0000 * 8) by (nonlinear_arith)
            requires
                a < 0x4000_0000_0000_0000,
                sa <= 8,
        ;
        assert(b * sb <= 0x4000_0000_0000_0000 * 8) by (nonlinear_arith)
            requires
                b < 0x4000_0000_0000_0000,
                sb <= 8,
        ;
        assert(c * sc <= 0x4000_0000_0000_0000 * 8) by (nonlinear_arith)
            requires
                c < 0x4000_0000_0000_0000,
                sc <= 8,
        ;
        a * sa + b * sb + c * sc
    }
}

/// The shape record that the code generator reads.
#[derive(Clone, Copy, Debug, PartialEq, Eq, Structural, Hash)]
pub struct LibxsmmGemmShape {
    pub m: i32,
    pub n: i32,
    pub k: i32,
    pub lda: i32,
    pub ldb: i32,
    pub ldc: i32,
    pub a_in_type: i32,
    pub b_in_type: i32,
    pub out_type: i32,
    pub comp_type: i32,
}

impl ShapeTypeDescriptor {
    /// The generator's shape record for this descriptor.
    pub fn to_gemm_shape(&self) -> (r: LibxsmmGemmShape)
        ensures
            r == (LibxsmmGemmShape {
                m: self.m,
                n: self.n,
                k: self.k,
                lda: self.lda,
                ldb: self.ldb,
                ldc: self.ldc,
                a_in_type: code_of(self.a_type),
                b_in_type: code_of(self.b_type),
                out_type: code_of(self.out_type),
                comp_type: code_of(self.comp_type),
            }),
    {
        LibxsmmGemmShape {
            m: self.m,
            n: self.n,
            k: self.k,
            lda: self.lda,
            ldb: self.ldb,
            ldc: self.ldc,
            a_in_type: self.a_type.code(),
            b_in_type: self.b_type.code(),
            out_type: self.out_type.code(),
            comp_type: self.comp_type.code(),
        }
    }
}

} // verus!
