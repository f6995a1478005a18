use vstd::prelude::*;

verus! {

/// Native code of `AVCOL_SPC_RGB`.
pub const SPC_RGB: i32 = 0;
/// Native code of `AVCOL_SPC_BT709`.
pub const SPC_BT709: i32 = 1;
/// Native code of `AVCOL_SPC_UNSPECIFIED`.
pub const SPC_UNSPECIFIED: i32 = 2;
/// Native code of `AVCOL_SPC_RESERVED`.
pub const SPC_RESERVED: i32 = 3;
/// Native code of `AVCOL_SPC_FCC`.
pub const SPC_FCC: i32 = 4;
/// Native code of `AVCOL_SPC_BT470BG`.
pub const SPC_BT470BG: i32 = 5;
/// Native code of `AVCOL_SPC_SMPTE170M`.
pub const SPC_SMPTE170M: i32 = 6;
/// Native code of `AVCOL_SPC_SMPTE240M`.
pub const SPC_SMPTE240M: i32 = 7;
/// Native code of `AVCOL_SPC_YCGCO`.
pub const SPC_YCGCO: i32 = 8;
/// Native code of `AVCOL_SPC_BT2020_NCL`.
pub const SPC_BT2020_NCL: i32 = 9;
/// Native code of `AVCOL_SPC_BT2020_CL`.
pub const SPC_BT2020_CL: i32 = 10;
/// Native code of `AVCOL_SPC_SMPTE2085`.
pub const SPC_SMPTE2085: i32 = 11;
/// Native code of `AVCOL_SPC_CHROMA_DERIVED_NCL`.
pub const SPC_CHROMA_DERIVED_NCL: i32 = 12;
/// Native code of `AVCOL_SPC_CHROMA_DERIVED_CL`.
pub const SPC_CHROMA_DERIVED_CL: i32 = 13;
/// Native code of `AVCOL_SPC_ICTCP`.
pub const SPC_ICTCP: i32 = 14;
/// Native code of `AVCOL_SPC_NB`, the deprecated count of color spaces.
/// It is accepted on the way in and read as `Space::Unspecified`.
pub const SPC_NB: i32 = 15;

/// A video color space, as FFmpeg's `AVColorSpace` enumerates them.
#[derive(Clone, Copy, Debug, PartialEq, Eq, Structural)]
pub enum Space {
    RGB,
    BT709,
    Unspecified,
    Reserved,
    FCC,
    BT470BG,
    SMPTE170M,
    SMPTE240M,
    YCGCO,
    BT2020NCL,
    BT2020CL,
    SMPTE2085,
    ChromaDerivedNCL,
    ChromaDerivedCL,
    ICTCP,
}

/// The native codes that the library defines: one per variant, and the
/// deprecated count sentinel.
pub open spec fn is_native_code(code: i32) -> bool {
    SPC_RGB <= code <= SPC_NB
}

/// The native code of each variant.
pub open spec fn code_of(space: Space) -> i32 {
    match space {
        Space::RGB => SPC_RGB,
        Space::BT709 => SPC_BT709,
        Space::Unspecified => SPC_UNSPECIFIED,
        Space::Reserved => SPC_RESERVED,
        Space::FCC => SPC_FCC,
        Space::BT470BG => SPC_BT470BG,
        Space::SMPTE170M => SPC_SMPTE170M,
        Space::SMPTE240M => SPC_SMPTE240M,
        Space::YCGCO => SPC_YCGCO,
        Space::BT2020NCL => SPC_BT2020_NCL,
        Space::BT2020CL => SPC_BT2020_CL,
        Space::SMPTE2085 => SPC_SMPTE2085,
        Space::ChromaDerivedNCL => SPC_CHROMA_DERIVED_NCL,
        Space::ChromaDerivedCL => SPC_CHROMA_DERIVED_CL,
        Space::ICTCP => SPC_ICTCP,
    }
}

/// The variant that a defined native code stands for: the variant whose code
/// it is, and `Unspecified` for the count sentinel.
pub open spec fn space_of(code: i32) -> Space
    recommends
        is_native_code(code),
{
    if code == SPC_NB {
        Space::Unspecified
    } else {
        choose|s: Space| code_of(s) == code
    }
}

impl Space {
    /// The variant for a native color-space code. The count sentinel reads
    /// as `Unspecified`; a code the library does not define is outside the
    /// contract.
    pub fn from_native(code: i32) -> (r: Space)
        requires
            is_native_code(code),
        ensures
            r == space_of(code),
            code != SPC_NB ==> code_of(r) == code,
            code == SPC_NB ==> r == Space::Unspecified,
    {
        let r = if code == SPC_RGB {
            Space::RGB
        } else if code == SPC_BT709 {
            Space::BT709
        } else if code == SPC_UNSPECIFIED {
            Space::Unspecified
        } else if code == SPC_RESERVED {
            Space::Reserved
        } else if code == SPC_FCC {
            Space::FCC
        } else if code == SPC_BT470BG {
            Space::BT470BG
        } else if code == SPC_SMPTE170M {
            Space::SMPTE170M
        } else if code == SPC_SMPTE240M {
            Space::SMPTE240M
        } else if code == SPC_YCGCO {
            Space::YCGCO
        } else if code == SPC_BT2020_NCL {
            Space::BT2020NCL
        } else if code == SPC_BT2020_CL {
            Space::BT2020CL
        } else if code == SPC_SMPTE2085 {
            Space::SMPTE2085
        } else if code == SPC_CHROMA_DERIVED_NCL {
            Space::ChromaDerivedNCL
        } else if code == SPC_CHROMA_DERIVED_CL {
            Space::ChromaDerivedCL
        } else if code == SPC_ICTCP {
            Space::ICTCP
        } else {
            Space::Unspecified
        };
        proof {
            lemma_code_of_injective();
        }
        r
    }

    /// The native code of this color space.
    pub fn to_native(self) -> (r: i32)
        ensures
            r == code_of(self),
            is_native_code(r),
            r != SPC_NB,
    {
        match self {
            Space::RGB => SPC_RGB,
            Space::BT709 => SPC_BT709,
            Space::Unspecified => SPC_UNSPECIFIED,
            Space::Reserved => SPC_RESERVED,
            Space::FCC => SPC_FCC,
            Space::BT470BG => SPC_BT470BG,
            Space::SMPTE170M => SPC_SMPTE170M,
            Space::SMPTE240M => SPC_SMPTE240M,
            Space::YCGCO => SPC_YCGCO,
            Space::BT2020NCL => SPC_BT2020_NCL,
            Space::BT2020CL => SPC_BT2020_CL,
            Space::SMPTE2085 => SPC_SMPTE2085,
            Space::ChromaDerivedNCL => SPC_CHROMA_DERIVED_NCL,
            Space::ChromaDerivedCL => SPC_CHROMA_DERIVED_CL,
            Space::ICTCP => SPC_ICTCP,
        }
    }
}

/// No two variants share a native code, and no variant has the count
/// sentinel's code; every code but the sentinel belongs to some variant.
pub proof fn lemma_code_of_injective()
    ensures
        forall|a: Space, b: Space| #[trigger] code_of(a) == #[trigger] code_of(b) ==> a == b,
        forall|a: Space| is_native_code(#[trigger] code_of(a)) && code_of(a) != SPC_NB,
        forall|c: i32|
            is_native_code(c) && c != SPC_NB ==> code_of(#[trigger] space_of(c)) == c,
{
    assert forall|c: i32| is_native_code(c) && c != SPC_NB implies code_of(
        #[trigger] space_of(c),
    ) == c by {
        let w = if c == 0 {
            Space::RGB
        } else if c == 1 {
            Space::BT709
        } else if c == 2 {
            Space::Unspecified
        } else if c == 3 {
            Space::Reserved
        } else if c == 4 {
            Space::FCC
        } else if c == 5 {
            Space::BT470BG
        } else if c == 6 {
            Space::SMPTE170M
        } else if c == 7 {
            Space::SMPTE240M
        } else if c == 8 {
            Space::YCGCO
        } else if c == 9 {
            Space::BT2020NCL
        } else if c == 10 {
            Space::BT2020CL
        } else if c == 11 {
            Space::SMPTE2085
        } else if c == 12 {
            Space::ChromaDerivedNCL
        } else if c == 13 {
            Space::ChromaDerivedCL
        } else {
            Space::ICTCP
        };
        assert(code_of(w) == c);
    }
}

/// Reading a defined native code and writing the variant back gives the same
/// code, for every code but the count sentinel.
pub proof fn lemma_native_round_trip(code: i32)
    requires
        is_native_code(code),
        code != SPC_NB,
    ensures
        code_of(space_of(code)) == code,
{
    lemma_code_of_injective();
}

/// The count sentinel reads as `Unspecified`, whose own code differs from it.
pub proof fn lemma_sentinel_collapses()
    ensures
        space_of(SPC_NB) == Space::Unspecified,
        code_of(space_of(SPC_NB)) != SPC_NB,
{
}

/// Writing a variant as its native code and reading it back gives the same
/// variant, for every variant.
pub proof fn lemma_space_round_trip(space: Space)
    ensures
        is_native_code(code_of(space)),
        space_of(code_of(space)) == space,
{
    lemma_code_of_injective();
}

} // verus!
