//! The access-attribute encoder: turns the declarative per-parameter access
//! annotations of a node declaration (read/write qualifier, pipeline stages,
//! usage categories, discard hints) and the parameter's semantic string into
//! a packed access descriptor for the scheduler.
//!
//! Encoding is deterministic and side-effect-free; an invalid annotation
//! combination or an unrecognized semantic name is rejected outright, never
//! recovered from.

use vstd::prelude::*;

use crate::Error;
use crate::rpsl_runtime::CRpsTypeInfo;
use crate::rpsl_runtime::RpsBuiltInTypeIds;
use crate::rpsl_runtime::RpsTypeInfoTrait;

verus! {

/// No access.
pub const ACCESS_UNKNOWN: u64 = 0;

/// Read as indirect arguments.
pub const INDIRECT_ARGS_BIT: u64 = 1u64 << 0;

/// Read as an index buffer.
pub const INDEX_BUFFER_BIT: u64 = 1u64 << 1;

/// Read as a vertex buffer.
pub const VERTEX_BUFFER_BIT: u64 = 1u64 << 2;

/// Read as a constant buffer.
pub const CONSTANT_BUFFER_BIT: u64 = 1u64 << 3;

/// Read as a shader resource view.
pub const SHADER_RESOURCE_BIT: u64 = 1u64 << 4;

/// Accessed as an unordered-access view.
pub const UNORDERED_ACCESS_BIT: u64 = 1u64 << 5;

/// Read as a shading-rate image.
pub const SHADING_RATE_BIT: u64 = 1u64 << 6;

/// Written as a render target.
pub const RENDER_TARGET_BIT: u64 = 1u64 << 7;

/// Depth plane read.
pub const DEPTH_READ_BIT: u64 = 1u64 << 8;

/// Depth plane write.
pub const DEPTH_WRITE_BIT: u64 = 1u64 << 9;

/// Stencil plane read.
pub const STENCIL_READ_BIT: u64 = 1u64 << 10;

/// Stencil plane write.
pub const STENCIL_WRITE_BIT: u64 = 1u64 << 11;

/// Written as a stream-out buffer.
pub const STREAM_OUT_BIT: u64 = 1u64 << 12;

/// Read as a copy source.
pub const COPY_SRC_BIT: u64 = 1u64 << 13;

/// Written as a copy destination.
pub const COPY_DEST_BIT: u64 = 1u64 << 14;

/// Read as a resolve source.
pub const RESOLVE_SRC_BIT: u64 = 1u64 << 15;

/// Written as a resolve destination.
pub const RESOLVE_DEST_BIT: u64 = 1u64 << 16;

/// Written as a raytracing acceleration-structure build output.
pub const RAYTRACING_AS_BUILD_BIT: u64 = 1u64 << 17;

/// Read as a raytracing acceleration structure.
pub const RAYTRACING_AS_READ_BIT: u64 = 1u64 << 18;

/// Read for presentation.
pub const PRESENT_BIT: u64 = 1u64 << 19;

/// Read by the CPU.
pub const CPU_READ_BIT: u64 = 1u64 << 20;

/// Written by the CPU.
pub const CPU_WRITE_BIT: u64 = 1u64 << 21;

/// Existing contents need not be preserved before the access.
pub const DISCARD_DATA_BEFORE_BIT: u64 = 1u64 << 22;

/// Contents need not be preserved after the access.
pub const DISCARD_DATA_AFTER_BIT: u64 = 1u64 << 23;

/// The stencil-plane counterpart of [`DISCARD_DATA_BEFORE_BIT`].
pub const STENCIL_DISCARD_DATA_BEFORE_BIT: u64 = 1u64 << 24;

/// The stencil-plane counterpart of [`DISCARD_DATA_AFTER_BIT`].
pub const STENCIL_DISCARD_DATA_AFTER_BIT: u64 = 1u64 << 25;

/// Access happens before the node executes.
pub const BEFORE_BIT: u64 = 1u64 << 26;

/// Access happens after the node executes.
pub const AFTER_BIT: u64 = 1u64 << 27;

/// The resource is cleared.
pub const CLEAR_BIT: u64 = 1u64 << 28;

/// The access takes part in a render pass.
pub const RENDER_PASS: u64 = 1u64 << 29;

/// Ordering against neighbouring accesses may be relaxed.
pub const RELAXED_ORDER_BIT: u64 = 1u64 << 30;

/// No view is created for the access.
pub const NO_VIEW_BIT: u64 = 1u64 << 31;

/// No shader stage.
pub const SHADER_STAGE_NONE: u64 = 0;

/// Vertex shader stage.
pub const SHADER_STAGE_VS: u64 = 1u64 << 32;

/// Pixel shader stage.
pub const SHADER_STAGE_PS: u64 = 1u64 << 33;

/// Geometry shader stage.
pub const SHADER_STAGE_GS: u64 = 1u64 << 34;

/// Compute shader stage.
pub const SHADER_STAGE_CS: u64 = 1u64 << 35;

/// Hull shader stage.
pub const SHADER_STAGE_HS: u64 = 1u64 << 36;

/// Domain shader stage.
pub const SHADER_STAGE_DS: u64 = 1u64 << 37;

/// Raytracing pipeline stage.
pub const SHADER_STAGE_RAYTRACING: u64 = 1u64 << 38;

/// Amplification shader stage.
pub const SHADER_STAGE_AS: u64 = 1u64 << 39;

/// Mesh shader stage.
pub const SHADER_STAGE_MS: u64 = 1u64 << 40;

/// All shader stages: the nine stage bits together.
pub const SHADER_STAGE_ALL: u64 = 0x1FF_0000_0000;

/// The view is a cubemap view.
pub const CUBEMAP_BIT: u64 = 1u64 << 63;

/// Encoder-internal marker: a read qualifier was seen.
pub const TMP_READ_BIT: u64 = 1u64 << 61;

/// Encoder-internal marker: a write qualifier was seen.
pub const TMP_WRITE_BIT: u64 = 1u64 << 62;

/// No parameter flags.
pub const PARAMETER_FLAG_NONE: u32 = 0;

/// The parameter is written by the node.
pub const PARAMETER_FLAG_OUT_BIT: u32 = 1u32 << 0;

/// The parameter may be omitted.
pub const PARAMETER_FLAG_OPTIONAL_BIT: u32 = 1u32 << 1;

/// The parameter is a resource view.
pub const PARAMETER_FLAG_RESOURCE_BIT: u32 = 1u32 << 2;

/// No node-declaration flags.
pub const NODE_DECL_FLAG_NONE: u32 = 0;

/// The node runs on the graphics queue.
pub const NODE_DECL_FLAG_GRAPHICS_BIT: u32 = 1u32 << 0;

/// The node runs on the compute queue.
pub const NODE_DECL_FLAG_COMPUTE_BIT: u32 = 1u32 << 1;

/// The node runs on the copy queue.
pub const NODE_DECL_FLAG_COPY_BIT: u32 = 1u32 << 2;

/// The node prefers execution inside a render pass.
pub const NODE_DECL_FLAG_PREFER_RENDER_PASS: u32 = 1u32 << 3;

/// The node prefers asynchronous execution.
pub const NODE_DECL_FLAG_PREFER_ASYNC: u32 = 1u32 << 4;

/// The fixed-function binding point a parameter's semantic string names.
#[derive(Clone, Copy, PartialEq, Eq, Structural, Debug)]
#[allow(non_camel_case_types)]
pub enum CRpsSemanticType {
    /// No semantic given.
    UNSPECIFIED,
    VERTEX_SHADER,
    PIXEL_SHADER,
    GEOMETRY_SHADER,
    COMPUTE_SHADER,
    HULL_SHADER,
    DOMAIN_SHADER,
    RAYTRACING_PIPELINE,
    AMPLIFICATION_SHADER,
    MESH_SHADER,
    VERTEX_LAYOUT,
    STREAM_OUT_LAYOUT,
    STREAM_OUT_DESC,
    BLEND_STATE,
    RENDER_TARGET_BLEND,
    DEPTH_STENCIL_STATE,
    RASTERIZER_STATE,
    /// Usage as a viewport.
    VIEWPORT,
    /// Usage as a scissor rectangle.
    SCISSOR,
    /// Usage as primitive topology.
    PRIMITIVE_TOPOLOGY,
    /// Reserved for future use.
    PATCH_CONTROL_POINTS,
    /// Reserved for future use.
    PRIMITIVE_STRIP_CUT_INDEX,
    /// Reserved for future use.
    BLEND_FACTOR,
    /// Reserved for future use.
    STENCIL_REF,
    /// Reserved for future use.
    DEPTH_BOUNDS,
    /// Reserved for future use.
    SAMPLE_LOCATION,
    /// Reserved for future use.
    SHADING_RATE,
    /// Usage as a color clear value.
    COLOR_CLEAR_VALUE,
    /// Usage as a depth clear value.
    DEPTH_CLEAR_VALUE,
    /// Usage as a stencil clear value.
    STENCIL_CLEAR_VALUE,
    /// Bound as a vertex buffer; the index is the binding slot.
    VERTEX_BUFFER,
    /// Bound as an index buffer.
    INDEX_BUFFER,
    /// Bound as an indirect argument buffer.
    INDIRECT_ARGS,
    /// Bound for write as a stream out buffer; the index is the binding slot.
    STREAM_OUT_BUFFER,
    /// Bound as an indirect count buffer.
    INDIRECT_COUNT,
    /// Bound as a render target view; the index is the render target slot.
    RENDER_TARGET,
    /// Bound as a depth stencil view.
    DEPTH_STENCIL_TARGET,
    /// Bound as a shading rate image.
    SHADING_RATE_IMAGE,
    /// Bound as a resolve target; the index is the slot of the source.
    RESOLVE_TARGET,
    /// User defined resource view binding.
    USER_RESOURCE_BINDING,
    /// Count of defined semantic values.
    COUNT,
}

impl Default for CRpsSemanticType {
    /// No semantic.
    fn default() -> (r: Self)
        ensures
            r == CRpsSemanticType::UNSPECIFIED,
    {
        CRpsSemanticType::UNSPECIFIED
    }
}

/// The fixed semantic-name table: which binding point each recognized name
/// denotes. The empty name means "no semantic"; unknown names have no entry.
pub open spec fn spec_semantic_of(s: Seq<char>) -> Option<CRpsSemanticType> {
    if s == "SV_Viewport"@ {
        Some(CRpsSemanticType::VIEWPORT)
    } else if s == "SV_ScissorRect"@ {
        Some(CRpsSemanticType::SCISSOR)
    } else if s == "SV_PrimitiveTopology"@ {
        Some(CRpsSemanticType::PRIMITIVE_TOPOLOGY)
    } else if s == "SV_PatchControlPoints"@ {
        Some(CRpsSemanticType::PATCH_CONTROL_POINTS)
    } else if s == "SV_PrimitiveStripCutIndex"@ {
        Some(CRpsSemanticType::PRIMITIVE_STRIP_CUT_INDEX)
    } else if s == "SV_BlendFactor"@ {
        Some(CRpsSemanticType::BLEND_FACTOR)
    } else if s == "SV_StencilRef"@ {
        Some(CRpsSemanticType::STENCIL_REF)
    } else if s == "SV_DepthBounds"@ {
        Some(CRpsSemanticType::DEPTH_BOUNDS)
    } else if s == "SV_SampleLocation"@ {
        Some(CRpsSemanticType::SAMPLE_LOCATION)
    } else if s == "SV_ShadingRate"@ {
        Some(CRpsSemanticType::SHADING_RATE)
    } else if s == "SV_ClearColor"@ {
        Some(CRpsSemanticType::COLOR_CLEAR_VALUE)
    } else if s == "SV_ClearDepth"@ {
        Some(CRpsSemanticType::DEPTH_CLEAR_VALUE)
    } else if s == "SV_ClearStencil"@ {
        Some(CRpsSemanticType::STENCIL_CLEAR_VALUE)
    } else if s == "SV_VertexBuffer"@ {
        Some(CRpsSemanticType::VERTEX_BUFFER)
    } else if s == "SV_IndexBuffer"@ {
        Some(CRpsSemanticType::INDEX_BUFFER)
    } else if s == "SV_IndirectArgs"@ {
        Some(CRpsSemanticType::INDIRECT_ARGS)
    } else if s == "SV_IndirectCount"@ {
        Some(CRpsSemanticType::INDIRECT_COUNT)
    } else if s == "SV_StreamOutBuffer"@ {
        Some(CRpsSemanticType::STREAM_OUT_BUFFER)
    } else if s == "SV_Target"@ {
        Some(CRpsSemanticType::RENDER_TARGET)
    } else if s == "SV_DepthStencil"@ {
        Some(CRpsSemanticType::DEPTH_STENCIL_TARGET)
    } else if s == "SV_ShadingRateImage"@ {
        Some(CRpsSemanticType::SHADING_RATE_IMAGE)
    } else if s == "SV_ResolveTarget"@ {
        Some(CRpsSemanticType::RESOLVE_TARGET)
    } else if s.len() == 0 {
        Some(CRpsSemanticType::UNSPECIFIED)
    } else {
        None
    }
}

/// Compares two strings by their character sequences.
pub(crate) fn str_eq(a: &str, b: &str) -> (r: bool)
    ensures
        r == (a@ == b@),
{
    let alen = a.unicode_len();
    let blen = b.unicode_len();
    if alen != blen {
        proof {
            assert(a@.len() != b@.len());
        }
        return false;
    }
    let mut i: usize = 0;
    while i < alen
        invariant
            alen == a@.len(),
            blen == b@.len(),
            alen == blen,
            i <= alen,
            forall|j: int| 0 <= j < i ==> a@[j] == b@[j],
        decreases alen - i,
    {
        if a.get_char(i) != b.get_char(i) {
            return false;
        }
        i = i + 1;
    }
    proof {
        assert(a@ =~= b@);
    }
    true
}

impl CRpsSemanticType {
    /// Looks a semantic name up in the fixed table: `Some` for each
    /// recognized name and for the empty name, `None` otherwise.
    pub fn from_bytes(s: &str) -> (r: Option<CRpsSemanticType>)
        ensures
            r == spec_semantic_of(s@),
    {
        if str_eq(s, "SV_Viewport") {
            Some(CRpsSemanticType::VIEWPORT)
        } else if str_eq(s, "SV_ScissorRect") {
            Some(CRpsSemanticType::SCISSOR)
        } else if str_eq(s, "SV_PrimitiveTopology") {
            Some(CRpsSemanticType::PRIMITIVE_TOPOLOGY)
        } else if str_eq(s, "SV_PatchControlPoints") {
            Some(CRpsSemanticType::PATCH_CONTROL_POINTS)
        } else if str_eq(s, "SV_PrimitiveStripCutIndex") {
            Some(CRpsSemanticType::PRIMITIVE_STRIP_CUT_INDEX)
        } else if str_eq(s, "SV_BlendFactor") {
            Some(CRpsSemanticType::BLEND_FACTOR)
        } else if str_eq(s, "SV_StencilRef") {
            Some(CRpsSemanticType::STENCIL_REF)
        } else if str_eq(s, "SV_DepthBounds") {
            Some(CRpsSemanticType::DEPTH_BOUNDS)
        } else if str_eq(s, "SV_SampleLocation") {
            Some(CRpsSemanticType::SAMPLE_LOCATION)
        } else if str_eq(s, "SV_ShadingRate") {
            Some(CRpsSemanticType::SHADING_RATE)
        } else if str_eq(s, "SV_ClearColor") {
            Some(CRpsSemanticType::COLOR_CLEAR_VALUE)
        } else if str_eq(s, "SV_ClearDepth") {
            Some(CRpsSemanticType::DEPTH_CLEAR_VALUE)
        } else if str_eq(s, "SV_ClearStencil") {
            Some(CRpsSemanticType::STENCIL_CLEAR_VALUE)
        } else if str_eq(s, "SV_VertexBuffer") {
            Some(CRpsSemanticType::VERTEX_BUFFER)
        } else if str_eq(s, "SV_IndexBuffer") {
            Some(CRpsSemanticType::INDEX_BUFFER)
        } else if str_eq(s, "SV_IndirectArgs") {
            Some(CRpsSemanticType::INDIRECT_ARGS)
        } else if str_eq(s, "SV_IndirectCount") {
            Some(CRpsSemanticType::INDIRECT_COUNT)
        } else if str_eq(s, "SV_StreamOutBuffer") {
            Some(CRpsSemanticType::STREAM_OUT_BUFFER)
        } else if str_eq(s, "SV_Target") {
            Some(CRpsSemanticType::RENDER_TARGET)
        } else if str_eq(s, "SV_DepthStencil") {
            Some(CRpsSemanticType::DEPTH_STENCIL_TARGET)
        } else if str_eq(s, "SV_ShadingRateImage") {
            Some(CRpsSemanticType::SHADING_RATE_IMAGE)
        } else if str_eq(s, "SV_ResolveTarget") {
            Some(CRpsSemanticType::RESOLVE_TARGET)
        } else if s.unicode_len() == 0 {
            Some(CRpsSemanticType::UNSPECIFIED)
        } else {
            None
        }
    }
}

/// A decoded semantic: the binding point and its slot index.
#[derive(Clone, Copy, PartialEq, Eq, Structural, Debug)]
pub struct CRpsSemanticAttr {
    /// The binding point.
    pub semantic: CRpsSemanticType,
    /// The slot index taken from the semantic string's trailing digits.
    pub index: u32,
}

/// The packed access half of a descriptor: the low 32 access bits and the
/// shader stage mask.
#[derive(Clone, Copy, PartialEq, Eq, Structural, Debug)]
pub struct CRpsAccessAttr {
    /// The low 32 bits of the accumulated access flags.
    pub access_flags: u32,
    /// The shader stage mask, moved down from the high flag bits.
    pub access_stages: u32,
}

/// The full packed descriptor of one parameter's access.
#[derive(Clone, Copy, PartialEq, Eq, Structural, Debug)]
pub struct CRpsParamAttr {
    /// The packed access flags and stages.
    pub access: CRpsAccessAttr,
    /// The decoded semantic binding.
    pub semantic: CRpsSemanticAttr,
}

/// Whether `c` is a decimal digit.
pub open spec fn spec_is_digit(c: char) -> bool {
    48 <= c as u32 <= 57
}

/// The numeric value of a digit character; zero for non-digits.
pub open spec fn spec_digit_val(c: char) -> nat {
    if spec_is_digit(c) {
        (c as u32 - 48) as nat
    } else {
        0
    }
}

/// The length of the maximal run of decimal digits at the end of `s`.
pub open spec fn spec_trailing_digit_count(s: Seq<char>) -> nat
    decreases s,
{
    if s.len() == 0 {
        0
    } else if spec_is_digit(s.last()) {
        1 + spec_trailing_digit_count(s.drop_last())
    } else {
        0
    }
}

/// The decimal value of a digit string, most significant digit first.
pub open spec fn spec_digits_value(s: Seq<char>) -> nat
    decreases s,
{
    if s.len() == 0 {
        0
    } else {
        spec_digits_value(s.drop_last()) * 10 + spec_digit_val(s.last())
    }
}

/// The semantic string with its trailing digit run stripped.
pub open spec fn spec_semantic_prefix(s: Seq<char>) -> Seq<char> {
    s.take(s.len() - spec_trailing_digit_count(s))
}

/// The semantic index: the decimal value of the trailing digit run, zero
/// when there are no trailing digits.
pub open spec fn spec_semantic_index(s: Seq<char>) -> nat {
    spec_digits_value(s.skip(s.len() - spec_trailing_digit_count(s)))
}

/// The trailing digit run is never longer than the string.
pub proof fn lemma_trailing_digit_count_le_len(s: Seq<char>)
    ensures
        spec_trailing_digit_count(s) <= s.len(),
    decreases s,
{
    if s.len() > 0 && spec_is_digit(s.last()) {
        lemma_trailing_digit_count_le_len(s.drop_last());
    }
}

/// The trailing digit run is maximal: the count equals any suffix length `k`
/// whose positions are all digits and which a non-digit (or the start of the
/// string) precedes.
proof fn lemma_trailing_digit_count_characterization(s: Seq<char>, k: int)
    requires
        0 <= k <= s.len(),
        forall|j: int| s.len() - k <= j < s.len() ==> spec_is_digit(s[j]),
        k == s.len() || !spec_is_digit(s[s.len() - k - 1]),
    ensures
        spec_trailing_digit_count(s) == k,
    decreases s,
{
    if s.len() == 0 {
    } else if k == 0 {
        assert(!spec_is_digit(s.last()));
    } else {
        assert(spec_is_digit(s.last()));
        assert forall|j: int|
            s.drop_last().len() - (k - 1) <= j < s.drop_last().len() implies spec_is_digit(
            s.drop_last()[j],
        ) by {
            assert(s.drop_last()[j] == s[j]);
        }
        if k - 1 < s.drop_last().len() {
            assert(s.drop_last()[s.len() - k - 1] == s[s.len() - k - 1]);
        }
        lemma_trailing_digit_count_characterization(s.drop_last(), k - 1);
    }
}

/// The value of a digit-string prefix never exceeds the value of the whole.
proof fn lemma_digits_value_prefix_le(s: Seq<char>, k: int)
    requires
        0 <= k <= s.len(),
    ensures
        spec_digits_value(s.take(k)) <= spec_digits_value(s),
    decreases s,
{
    if k == s.len() {
        assert(s.take(k) =~= s);
    } else {
        assert(s.drop_last().take(k) =~= s.take(k));
        lemma_digits_value_prefix_le(s.drop_last(), k);
    }
}

impl CRpsParamAttr {
    /// The all-zero descriptor.
    pub fn const_default() -> (r: CRpsParamAttr)
        ensures
            r == (CRpsParamAttr {
                access: CRpsAccessAttr { access_flags: 0u32, access_stages: 0u32 },
                semantic: CRpsSemanticAttr {
                    semantic: CRpsSemanticType::UNSPECIFIED,
                    index: 0u32,
                },
            }),
    {
        CRpsParamAttr {
            access: CRpsAccessAttr { access_flags: 0, access_stages: 0 },
            semantic: CRpsSemanticAttr { semantic: CRpsSemanticType::UNSPECIFIED, index: 0 },
        }
    }

    /// The shader stage mask carried in the high flag bits, moved down.
    pub open spec fn spec_stage_mask(flags: u64) -> u32 {
        ((flags & SHADER_STAGE_ALL) >> 32) as u32
    }

    /// The access bit a semantic alone implies.
    pub open spec fn spec_implicit_semantic_bits(sema: CRpsSemanticType, is_write: bool) -> u64 {
        match sema {
            CRpsSemanticType::VERTEX_BUFFER => VERTEX_BUFFER_BIT,
            CRpsSemanticType::INDEX_BUFFER => INDEX_BUFFER_BIT,
            CRpsSemanticType::INDIRECT_ARGS => INDIRECT_ARGS_BIT,
            CRpsSemanticType::STREAM_OUT_BUFFER => STREAM_OUT_BIT,
            CRpsSemanticType::INDIRECT_COUNT => INDIRECT_ARGS_BIT,
            CRpsSemanticType::RENDER_TARGET => RENDER_TARGET_BIT,
            CRpsSemanticType::DEPTH_STENCIL_TARGET => if is_write {
                DEPTH_WRITE_BIT
            } else {
                DEPTH_READ_BIT
            },
            CRpsSemanticType::SHADING_RATE_IMAGE => SHADING_RATE_BIT,
            CRpsSemanticType::RESOLVE_TARGET => RESOLVE_DEST_BIT,
            _ => ACCESS_UNKNOWN,
        }
    }

    /// The packed low 32 access bits: the truncated accumulated flags, the
    /// generic unordered-access / shader-resource bit a staged access
    /// implies, and the bit the semantic implies.
    pub open spec fn spec_packed_access_flags(flags: u64, sema: CRpsSemanticType) -> u32 {
        (flags as u32) | (
        if Self::spec_stage_mask(flags) != 0 {
            if flags & TMP_WRITE_BIT != 0 {
                UNORDERED_ACCESS_BIT as u32
            } else if flags & TMP_READ_BIT != 0 {
                SHADER_RESOURCE_BIT as u32
            } else {
                0u32
            }
        } else {
            0u32
        }) | (Self::spec_implicit_semantic_bits(sema, flags & TMP_WRITE_BIT != 0) as u32)
    }

    /// What packing `flags` with semantic string `s` yields.
    pub open spec fn spec_new(flags: u64, s: Seq<char>) -> CRpsParamAttr {
        let sema = spec_semantic_of(spec_semantic_prefix(s))->Some_0;
        CRpsParamAttr {
            access: CRpsAccessAttr {
                access_flags: Self::spec_packed_access_flags(flags, sema),
                access_stages: Self::spec_stage_mask(flags),
            },
            semantic: CRpsSemanticAttr { semantic: sema, index: spec_semantic_index(s) as u32 },
        }
    }

    /// Packs accumulated access flags and a semantic string into a
    /// descriptor: the semantic string is split into a name and a trailing
    /// decimal slot index, the name is looked up in the fixed table, and the
    /// implicit bits of stages and semantics are folded into the low flags.
    ///
    /// The name must be recognized and the slot index must fit; an entry
    /// whose semantic the table refuses is a fatal declaration error, which
    /// [`encode_param_attr`] reports as a value instead.
    pub fn new(flags: u64, sema_str: &str) -> (r: CRpsParamAttr)
        requires
            spec_semantic_of(spec_semantic_prefix(sema_str@)) is Some,
            spec_semantic_index(sema_str@) <= u32::MAX,
        ensures
            r == CRpsParamAttr::spec_new(flags, sema_str@),
    {
        let len = sema_str.unicode_len();

        // Find the maximal trailing digit run.
        let mut td: usize = 0;
        while td < len
            invariant
                len == sema_str@.len(),
                td <= len,
                forall|j: int| len - td <= j < len ==> spec_is_digit(sema_str@[j]),
            ensures
                len == sema_str@.len(),
                td <= len,
                forall|j: int| len - td <= j < len ==> spec_is_digit(sema_str@[j]),
                td == len || !spec_is_digit(sema_str@[len - 1 - td]),
            decreases len - td,
        {
            let c = sema_str.get_char(len - 1 - td);
            if !(48 <= c as u32 && c as u32 <= 57) {
                break ;
            }
            td = td + 1;
        }
        proof {
            lemma_trailing_digit_count_characterization(sema_str@, td as int);
        }

        // The decimal value of the digit run.
        let ghost run = sema_str@.skip(len - td);
        let mut index: u32 = 0;
        let mut i: usize = 0;
        while i < td
            invariant
                len == sema_str@.len(),
                td <= len,
                td == spec_trailing_digit_count(sema_str@),
                run == sema_str@.skip(len - td),
                spec_digits_value(run) <= u32::MAX,
                i <= td,
                index == spec_digits_value(run.take(i as int)),
            decreases td - i,
        {
            let c = sema_str.get_char(len - td + i);
            proof {
                assert(run[i as int] == sema_str@[len - td + i]);
                assert(run.take(i + 1 as int).drop_last() =~= run.take(i as int));
                assert(run.take(i + 1 as int).last() == run[i as int]);
                lemma_digits_value_prefix_le(run, i + 1 as int);
            }
            let d: u32 = if 48 <= c as u32 && c as u32 <= 57 {
                c as u32 - 48
            } else {
                0
            };
            index = index * 10 + d;
            i = i + 1;
        }
        proof {
            assert(run.take(td as int) =~= run);
        }

        // Look the remaining prefix up in the semantic table.
        let prefix = sema_str.substring_char(0, len - td);
        proof {
            assert(prefix@ =~= spec_semantic_prefix(sema_str@));
        }
        let sema = match CRpsSemanticType::from_bytes(prefix) {
            Some(sema) => sema,
            None => {
                proof {
                    assert(false);
                }
                CRpsSemanticType::UNSPECIFIED
            },
        };

        let stage = ((flags & SHADER_STAGE_ALL) >> 32) as u32;
        let is_write = flags & TMP_WRITE_BIT != 0;
        let is_read = flags & TMP_READ_BIT != 0;

        let mut access_flags = flags as u32;

        // Implicit access from the read/write qualifier of a staged access.
        let qualifier_bits: u32 = if stage != 0 {
            if is_write {
                UNORDERED_ACCESS_BIT as u32
            } else if is_read {
                SHADER_RESOURCE_BIT as u32
            } else {
                0u32
            }
        } else {
            0u32
        };
        access_flags = access_flags | qualifier_bits;

        // Implicit access from the semantic.
        let implicit = match sema {
            CRpsSemanticType::VERTEX_BUFFER => VERTEX_BUFFER_BIT,
            CRpsSemanticType::INDEX_BUFFER => INDEX_BUFFER_BIT,
            CRpsSemanticType::INDIRECT_ARGS => INDIRECT_ARGS_BIT,
            CRpsSemanticType::STREAM_OUT_BUFFER => STREAM_OUT_BIT,
            CRpsSemanticType::INDIRECT_COUNT => INDIRECT_ARGS_BIT,
            CRpsSemanticType::RENDER_TARGET => RENDER_TARGET_BIT,
            CRpsSemanticType::DEPTH_STENCIL_TARGET => if is_write {
                DEPTH_WRITE_BIT
            } else {
                DEPTH_READ_BIT
            },
            CRpsSemanticType::SHADING_RATE_IMAGE => SHADING_RATE_BIT,
            CRpsSemanticType::RESOLVE_TARGET => RESOLVE_DEST_BIT,
            _ => ACCESS_UNKNOWN,
        };
        access_flags = access_flags | (implicit as u32);

        proof {
            assert(access_flags == CRpsParamAttr::spec_packed_access_flags(flags, sema));
        }

        CRpsParamAttr {
            access: CRpsAccessAttr { access_flags, access_stages: stage },
            semantic: CRpsSemanticAttr { semantic: sema, index },
        }
    }
}

/// What the stencil-plane correction of the discard hints yields: a stencil
/// access promotes each generic discard bit to its stencil-specific
/// counterpart, and drops the generic bit when no depth plane exists to keep
/// it for.
pub open spec fn spec_post_process_access_attr(flags: u64) -> u64 {
    let has_depth = flags & (DEPTH_READ_BIT | DEPTH_WRITE_BIT) != 0;
    let has_stencil = flags & (STENCIL_READ_BIT | STENCIL_WRITE_BIT) != 0;
    let has_discard_before = flags & DISCARD_DATA_BEFORE_BIT != 0;
    let has_discard_after = flags & DISCARD_DATA_AFTER_BIT != 0;
    let f1 = if has_stencil && has_discard_before {
        let f = flags | STENCIL_DISCARD_DATA_BEFORE_BIT;
        if !has_depth {
            f & !DISCARD_DATA_BEFORE_BIT
        } else {
            f
        }
    } else {
        flags
    };
    if has_stencil && has_discard_after {
        let f = f1 | STENCIL_DISCARD_DATA_AFTER_BIT;
        if !has_depth {
            f & !DISCARD_DATA_AFTER_BIT
        } else {
            f
        }
    } else {
        f1
    }
}

/// Applies the stencil-plane correction to accumulated access flags: see
/// [`spec_post_process_access_attr`].
pub fn post_process_access_attr(flags: u64) -> (r: u64)
    ensures
        r == spec_post_process_access_attr(flags),
{
    let mut flags = flags;

    let has_depth = (flags & (DEPTH_READ_BIT | DEPTH_WRITE_BIT)) != 0;
    let has_stencil = (flags & (STENCIL_READ_BIT | STENCIL_WRITE_BIT)) != 0;

    let has_discard_before = (flags & DISCARD_DATA_BEFORE_BIT) != 0;
    let has_discard_after = (flags & DISCARD_DATA_AFTER_BIT) != 0;

    if has_stencil {
        if has_discard_before {
            flags = flags | STENCIL_DISCARD_DATA_BEFORE_BIT;
            if !has_depth {
                flags = flags & !DISCARD_DATA_BEFORE_BIT;
            }
        }
        if has_discard_after {
            flags = flags | STENCIL_DISCARD_DATA_AFTER_BIT;
            if !has_depth {
                flags = flags & !DISCARD_DATA_AFTER_BIT;
            }
        }
    }

    flags
}

/// The read/write qualifier of one annotation group.
#[derive(Clone, Copy, PartialEq, Eq, Structural, Debug)]
pub enum AccessQualifier {
    /// `readonly(...)`
    ReadOnly,
    /// `readwrite(...)`
    ReadWrite,
    /// `writeonly(...)`: a write whose previous contents are discarded.
    WriteOnly,
}

/// One annotation tag inside an access-annotation group.
#[derive(Clone, Copy, PartialEq, Eq, Structural, Debug)]
pub enum AccessTag {
    /// Vertex shader stage.
    Vs,
    /// Pixel shader stage.
    Ps,
    /// Compute shader stage.
    Cs,
    /// Geometry shader stage.
    Gs,
    /// Hull shader stage.
    Hs,
    /// Domain shader stage.
    Ds,
    /// Mesh shader stage.
    Ms,
    /// Raytracing pipeline stage.
    RayTracing,
    /// Contents need not be preserved before the access.
    DiscardBefore,
    /// Contents need not be preserved after the access.
    DiscardAfter,
    /// Depth plane access (read- or write-context).
    Depth,
    /// Stencil plane access (read- or write-context).
    Stencil,
    /// Copy source or destination.
    Copy,
    /// Resolve source or destination.
    Resolve,
    /// Presentation read.
    Present,
    /// CPU access.
    Cpu,
    /// Indirect-arguments read.
    IndirectArgs,
    /// Vertex-buffer read.
    VertexBuffer,
    /// Index-buffer read.
    IndexBuffer,
    /// Constant-buffer read.
    ConstantBuffer,
    /// Shading-rate image read.
    ShadingRate,
    /// Predication read.
    Predication,
    /// Raytracing acceleration structure read or build.
    Rtas,
    /// Cubemap view read.
    Cubemap,
    /// Render-target write.
    RenderTarget,
    /// Stream-out write.
    StreamOut,
    /// Clear write.
    Clear,
}

/// The fixed tag table: the raw bits one tag contributes under one
/// qualifier, with the qualifier's own marker bits folded in. `None` is a
/// tag that the qualifier's context does not define — a fatal declaration
/// error in an authored module.
pub open spec fn spec_convert_access_flag(qual: AccessQualifier, tag: AccessTag) -> Option<u64> {
    let context = match tag {
        AccessTag::Vs => Some(SHADER_STAGE_VS),
        AccessTag::Ps => Some(SHADER_STAGE_PS),
        AccessTag::Cs => Some(SHADER_STAGE_CS),
        AccessTag::Gs => Some(SHADER_STAGE_GS),
        AccessTag::Hs => Some(SHADER_STAGE_HS),
        AccessTag::Ds => Some(SHADER_STAGE_DS),
        AccessTag::Ms => Some(SHADER_STAGE_MS),
        AccessTag::RayTracing => Some(SHADER_STAGE_RAYTRACING),
        AccessTag::DiscardBefore => Some(DISCARD_DATA_BEFORE_BIT),
        AccessTag::DiscardAfter => Some(DISCARD_DATA_AFTER_BIT),
        _ => match qual {
            AccessQualifier::ReadOnly => match tag {
                AccessTag::Depth => Some(DEPTH_READ_BIT),
                AccessTag::Stencil => Some(STENCIL_READ_BIT),
                AccessTag::Copy => Some(COPY_SRC_BIT),
                AccessTag::Resolve => Some(RESOLVE_SRC_BIT),
                AccessTag::Present => Some(PRESENT_BIT),
                AccessTag::Cpu => Some(CPU_READ_BIT),
                AccessTag::IndirectArgs => Some(INDIRECT_ARGS_BIT),
                AccessTag::VertexBuffer => Some(VERTEX_BUFFER_BIT),
                AccessTag::IndexBuffer => Some(INDEX_BUFFER_BIT),
                AccessTag::ConstantBuffer => Some(CONSTANT_BUFFER_BIT),
                AccessTag::ShadingRate => Some(SHADING_RATE_BIT),
                AccessTag::Predication => Some(INDIRECT_ARGS_BIT),
                AccessTag::Rtas => Some(RAYTRACING_AS_READ_BIT),
                AccessTag::Cubemap => Some(CUBEMAP_BIT),
                _ => None,
            },
            _ => match tag {
                AccessTag::RenderTarget => Some(RENDER_TARGET_BIT),
                AccessTag::Depth => Some(DEPTH_WRITE_BIT),
                AccessTag::Stencil => Some(STENCIL_WRITE_BIT),
                AccessTag::Copy => Some(COPY_DEST_BIT),
                AccessTag::Resolve => Some(RESOLVE_DEST_BIT),
                AccessTag::Cpu => Some(CPU_WRITE_BIT),
                AccessTag::StreamOut => Some(STREAM_OUT_BIT),
                AccessTag::Rtas => Some(RAYTRACING_AS_BUILD_BIT),
                AccessTag::Clear => Some(CLEAR_BIT),
                _ => None,
            },
        },
    };
    match context {
        Some(bits) => Some(
            bits | match qual {
                AccessQualifier::ReadOnly => TMP_READ_BIT,
                AccessQualifier::ReadWrite => TMP_WRITE_BIT,
                AccessQualifier::WriteOnly => TMP_WRITE_BIT | DISCARD_DATA_BEFORE_BIT,
            },
        ),
        None => None,
    }
}

/// Looks one tag up in the fixed table under the given qualifier: its raw
/// bits with the qualifier's marker bits, or `Err` for a combination the
/// table does not define.
pub fn convert_access_flag(qual: AccessQualifier, tag: AccessTag) -> (r: Result<u64, Error>)
    ensures
        spec_convert_access_flag(qual, tag) matches Some(bits) ==> r == Ok::<u64, Error>(bits),
        spec_convert_access_flag(qual, tag) is None ==> r == Err::<u64, Error>(Error::InvalidArgs),
{
    let context: Option<u64> = match tag {
        AccessTag::Vs => Some(SHADER_STAGE_VS),
        AccessTag::Ps => Some(SHADER_STAGE_PS),
        AccessTag::Cs => Some(SHADER_STAGE_CS),
        AccessTag::Gs => Some(SHADER_STAGE_GS),
        AccessTag::Hs => Some(SHADER_STAGE_HS),
        AccessTag::Ds => Some(SHADER_STAGE_DS),
        AccessTag::Ms => Some(SHADER_STAGE_MS),
        AccessTag::RayTracing => Some(SHADER_STAGE_RAYTRACING),
        AccessTag::DiscardBefore => Some(DISCARD_DATA_BEFORE_BIT),
        AccessTag::DiscardAfter => Some(DISCARD_DATA_AFTER_BIT),
        _ => match qual {
            AccessQualifier::ReadOnly => match tag {
                AccessTag::Depth => Some(DEPTH_READ_BIT),
                AccessTag::Stencil => Some(STENCIL_READ_BIT),
                AccessTag::Copy => Some(COPY_SRC_BIT),
                AccessTag::Resolve => Some(RESOLVE_SRC_BIT),
                AccessTag::Present => Some(PRESENT_BIT),
                AccessTag::Cpu => Some(CPU_READ_BIT),
                AccessTag::IndirectArgs => Some(INDIRECT_ARGS_BIT),
                AccessTag::VertexBuffer => Some(VERTEX_BUFFER_BIT),
                AccessTag::IndexBuffer => Some(INDEX_BUFFER_BIT),
                AccessTag::ConstantBuffer => Some(CONSTANT_BUFFER_BIT),
                AccessTag::ShadingRate => Some(SHADING_RATE_BIT),
                AccessTag::Predication => Some(INDIRECT_ARGS_BIT),
                AccessTag::Rtas => Some(RAYTRACING_AS_READ_BIT),
                AccessTag::Cubemap => Some(CUBEMAP_BIT),
                _ => None,
            },
            _ => match tag {
                AccessTag::RenderTarget => Some(RENDER_TARGET_BIT),
                AccessTag::Depth => Some(DEPTH_WRITE_BIT),
                AccessTag::Stencil => Some(STENCIL_WRITE_BIT),
                AccessTag::Copy => Some(COPY_DEST_BIT),
                AccessTag::Resolve => Some(RESOLVE_DEST_BIT),
                AccessTag::Cpu => Some(CPU_WRITE_BIT),
                AccessTag::StreamOut => Some(STREAM_OUT_BIT),
                AccessTag::Rtas => Some(RAYTRACING_AS_BUILD_BIT),
                AccessTag::Clear => Some(CLEAR_BIT),
                _ => None,
            },
        },
    };
    match context {
        Some(bits) => Ok(
            bits | match qual {
                AccessQualifier::ReadOnly => TMP_READ_BIT,
                AccessQualifier::ReadWrite => TMP_WRITE_BIT,
                AccessQualifier::WriteOnly => TMP_WRITE_BIT | DISCARD_DATA_BEFORE_BIT,
            },
        ),
        None => Err(Error::InvalidArgs),
    }
}

/// The accumulated raw bits of one annotation group, `None` as soon as one
/// tag is invalid under the qualifier.
pub open spec fn spec_convert_access_attr(qual: AccessQualifier, tags: Seq<AccessTag>) -> Option<
    u64,
> {
    if exists|j: int| 0 <= j < tags.len() && spec_convert_access_flag(qual, tags[j]) is None {
        None
    } else {
        Some(spec_or_access_flags(qual, tags))
    }
}

/// The bitwise OR of the table bits of a group's tags, all assumed valid.
pub open spec fn spec_or_access_flags(qual: AccessQualifier, tags: Seq<AccessTag>) -> u64
    decreases tags,
{
    if tags.len() == 0 {
        0
    } else {
        spec_or_access_flags(qual, tags.drop_last()) | spec_convert_access_flag(
            qual,
            tags.last(),
        )->Some_0
    }
}

/// Accumulates the raw bits of one annotation group by ORing each tag's
/// table bits; an invalid tag rejects the whole group.
pub fn convert_access_attr(qual: AccessQualifier, tags: &Vec<AccessTag>) -> (r: Result<u64, Error>)
    ensures
        spec_convert_access_attr(qual, tags@) matches Some(bits) ==> r == Ok::<u64, Error>(bits),
        spec_convert_access_attr(qual, tags@) is None ==> r == Err::<u64, Error>(
            Error::InvalidArgs,
        ),
{
    let mut acc: u64 = 0;
    let mut i: usize = 0;
    while i < tags.len()
        invariant
            i <= tags@.len(),
            forall|j: int| 0 <= j < i ==> spec_convert_access_flag(qual, tags@[j]) is Some,
            acc == spec_or_access_flags(qual, tags@.take(i as int)),
        decreases tags@.len() - i,
    {
        proof {
            assert(tags@.take(i + 1 as int).drop_last() =~= tags@.take(i as int));
            assert(tags@.take(i + 1 as int).last() == tags@[i as int]);
        }
        match convert_access_flag(qual, tags[i]) {
            Ok(bits) => {
                acc = acc | bits;
            },
            Err(e) => {
                return Err(e);
            },
        }
        i = i + 1;
    }
    proof {
        assert(tags@.take(tags@.len() as int) =~= tags@);
    }
    Ok(acc)
}

/// An ordered list of annotation groups, as declared on one parameter.
pub type AccessAnnotation = Vec<(AccessQualifier, Vec<AccessTag>)>;

/// The raw accumulated bits of a whole annotation list, before the stencil
/// correction; `None` as soon as one group is invalid.
pub open spec fn spec_accumulate_annotations(groups: Seq<(AccessQualifier, Seq<AccessTag>)>) -> Option<u64>
    decreases groups,
{
    if groups.len() == 0 {
        Some(0)
    } else {
        match spec_accumulate_annotations(groups.drop_last()) {
            Some(acc) => match spec_convert_access_attr(groups.last().0, groups.last().1) {
                Some(bits) => Some(acc | bits),
                None => None,
            },
            None => None,
        }
    }
}

/// The view of an annotation list as a sequence of (qualifier, tag
/// sequence) pairs.
pub open spec fn spec_annotation_view(groups: AccessAnnotation) -> Seq<
    (AccessQualifier, Seq<AccessTag>),
> {
    groups@.map_values(|g: (AccessQualifier, Vec<AccessTag>)| (g.0, g.1@))
}

/// What encoding a whole annotation list with a semantic string yields:
/// accumulate every group's raw bits, apply the stencil discard correction
/// once over the combined bits, and pack them with the decoded semantic.
pub open spec fn spec_encode_param_attr(
    groups: Seq<(AccessQualifier, Seq<AccessTag>)>,
    s: Seq<char>,
) -> Option<CRpsParamAttr> {
    match spec_accumulate_annotations(groups) {
        Some(raw) => if spec_semantic_of(spec_semantic_prefix(s)) is Some && spec_semantic_index(s)
            <= u32::MAX {
            Some(CRpsParamAttr::spec_new(spec_post_process_access_attr(raw), s))
        } else {
            None
        },
        None => None,
    }
}

/// Encodes one parameter's access annotations and semantic string into a
/// packed descriptor. Succeeds exactly when every tag is valid under its
/// qualifier, the semantic name (after stripping trailing digits) is in the
/// fixed table, and the slot index fits in 32 bits; every rejection is
/// `Err(InvalidArgs)`, mirroring the fatal declaration error of the
/// authoring front end.
pub fn encode_param_attr(groups: &AccessAnnotation, sema_str: &str) -> (r: Result<
    CRpsParamAttr,
    Error,
>)
    ensures
        spec_encode_param_attr(spec_annotation_view(*groups), sema_str@) matches Some(attr) ==> r
            == Ok::<CRpsParamAttr, Error>(attr),
        spec_encode_param_attr(spec_annotation_view(*groups), sema_str@) is None ==> r == Err::<
            CRpsParamAttr,
            Error,
        >(Error::InvalidArgs),
{
    let ghost gview = spec_annotation_view(*groups);
    let mut raw: u64 = 0;
    let mut i: usize = 0;
    while i < groups.len()
        invariant
            gview == spec_annotation_view(*groups),
            i <= groups@.len(),
            gview.len() == groups@.len(),
            forall|j: int| 0 <= j < gview.len() ==> gview[j] == (groups@[j].0, groups@[j].1@),
            spec_accumulate_annotations(gview.take(i as int)) == Some(raw),
        decreases groups@.len() - i,
    {
        proof {
            assert(gview.take(i + 1 as int).drop_last() =~= gview.take(i as int));
            assert(gview.take(i + 1 as int).last() == gview[i as int]);
        }
        let group = &groups[i];
        match convert_access_attr(group.0, &group.1) {
            Ok(bits) => {
                raw = raw | bits;
            },
            Err(_) => {
                proof {
                    lemma_accumulate_annotations_none(gview, i as int);
                }
                return Err(Error::InvalidArgs);
            },
        }
        i = i + 1;
    }
    proof {
        assert(gview.take(gview.len() as int) =~= gview);
    }

    let flags = post_process_access_attr(raw);

    // Reject what `CRpsParamAttr::new` refuses, instead of requiring it.
    let len = sema_str.unicode_len();
    let mut td: usize = 0;
    while td < len
        invariant
            len == sema_str@.len(),
            td <= len,
            forall|j: int| len - td <= j < len ==> spec_is_digit(sema_str@[j]),
        ensures
            len == sema_str@.len(),
            td <= len,
            forall|j: int| len - td <= j < len ==> spec_is_digit(sema_str@[j]),
            td == len || !spec_is_digit(sema_str@[len - 1 - td]),
        decreases len - td,
    {
        let c = sema_str.get_char(len - 1 - td);
        if !(48 <= c as u32 && c as u32 <= 57) {
            break ;
        }
        td = td + 1;
    }
    proof {
        lemma_trailing_digit_count_characterization(sema_str@, td as int);
    }
    let prefix = sema_str.substring_char(0, len - td);
    proof {
        assert(prefix@ =~= spec_semantic_prefix(sema_str@));
    }
    if CRpsSemanticType::from_bytes(prefix).is_none() {
        return Err(Error::InvalidArgs);
    }

    // The slot index must fit in 32 bits: ten digits always fit when the
    // leading ones are below the limit, so compare digit by digit.
    let ghost run = sema_str@.skip(len - td);
    let mut index_ok = true;
    let mut index: u64 = 0;
    let mut i: usize = 0;
    while i < td
        invariant
            len == sema_str@.len(),
            td <= len,
            td == spec_trailing_digit_count(sema_str@),
            run == sema_str@.skip(len - td),
            i <= td,
            index_ok ==> index == spec_digits_value(run.take(i as int)),
            !index_ok ==> spec_digits_value(run.take(i as int)) > u32::MAX,
            index <= u32::MAX || !index_ok,
        decreases td - i,
    {
        let c = sema_str.get_char(len - td + i);
        proof {
            assert(run[i as int] == sema_str@[len - td + i]);
            assert(run.take(i + 1 as int).drop_last() =~= run.take(i as int));
            assert(run.take(i + 1 as int).last() == run[i as int]);
            if !index_ok {
                lemma_digits_value_monotone(run, i as int, i + 1 as int);
            }
        }
        let d: u64 = if 48 <= c as u32 && c as u32 <= 57 {
            (c as u32 - 48) as u64
        } else {
            0
        };
        if index_ok {
            let next = index * 10 + d;
            if next > u32::MAX as u64 {
                index_ok = false;
            } else {
                index = next;
            }
        }
        i = i + 1;
    }
    proof {
        assert(run.take(td as int) =~= run);
    }
    if !index_ok {
        return Err(Error::InvalidArgs);
    }

    Ok(CRpsParamAttr::new(flags, sema_str))
}

/// Once a prefix of the group list is invalid, the whole list is invalid.
proof fn lemma_accumulate_annotations_none(groups: Seq<(AccessQualifier, Seq<AccessTag>)>, k: int)
    requires
        0 <= k < groups.len(),
        spec_convert_access_attr(groups[k].0, groups[k].1) is None || spec_accumulate_annotations(
            groups.take(k),
        ) is None,
    ensures
        spec_accumulate_annotations(groups) is None,
    decreases groups.len(),
{
    if groups.len() == 0 {
    } else if k == groups.len() - 1 {
        assert(groups.take(k) =~= groups.drop_last());
    } else {
        assert(groups.drop_last().take(k) =~= groups.take(k));
        assert(groups.drop_last()[k] == groups[k]);
        lemma_accumulate_annotations_none(groups.drop_last(), k);
    }
}

/// The value of a digit string grows with its length.
proof fn lemma_digits_value_monotone(s: Seq<char>, k1: int, k2: int)
    requires
        0 <= k1 <= k2 <= s.len(),
    ensures
        spec_digits_value(s.take(k1)) <= spec_digits_value(s.take(k2)),
    decreases k2 - k1,
{
    if k1 < k2 {
        lemma_digits_value_monotone(s, k1, k2 - 1);
        assert(s.take(k2).drop_last() =~= s.take(k2 - 1));
    }
}

/// The wire type of `T`.
pub fn get_rps_ffi_type_info<T: RpsTypeInfoTrait>() -> (r: CRpsTypeInfo)
    ensures
        r == T::spec_rps_type_info(),
{
    T::rps_type_info()
}

/// The element count `T` contributes as an array parameter.
pub fn get_rps_ffi_array_len<T: RpsTypeInfoTrait>() -> (r: u32)
    ensures
        r == T::spec_rps_array_len(),
{
    T::rps_array_len()
}

/// The parameter flags a wire type implies: view types are resources.
pub open spec fn spec_param_flags_of(info: CRpsTypeInfo) -> u32 {
    if info.id == RpsBuiltInTypeIds::RPS_TYPE_IMAGE_VIEW.spec_value() || info.id
        == RpsBuiltInTypeIds::RPS_TYPE_BUFFER_VIEW.spec_value() {
        PARAMETER_FLAG_RESOURCE_BIT
    } else {
        PARAMETER_FLAG_NONE
    }
}

/// The parameter flags of a parameter of type `T`: the resource flag exactly
/// for image and buffer views.
pub fn get_rps_ffi_param_flags<T: RpsTypeInfoTrait>() -> (r: u32)
    ensures
        r == spec_param_flags_of(T::spec_rps_type_info()),
{
    let info = T::rps_type_info();
    let image_id = RpsBuiltInTypeIds::RPS_TYPE_IMAGE_VIEW.value();
    let buffer_id = RpsBuiltInTypeIds::RPS_TYPE_BUFFER_VIEW.value();
    if info.id == image_id || info.id == buffer_id {
        PARAMETER_FLAG_RESOURCE_BIT
    } else {
        PARAMETER_FLAG_NONE
    }
}


/// A semantic string without trailing digits keeps its whole text as the
/// name and decodes to slot index zero.
pub proof fn lemma_semantic_index_without_digits(s: Seq<char>)
    requires
        spec_trailing_digit_count(s) == 0,
    ensures
        spec_semantic_prefix(s) == s,
        spec_semantic_index(s) == 0,
{
    assert(s.take(s.len() as int) =~= s);
    assert(s.skip(s.len() as int) =~= Seq::<char>::empty());
}

/// The stencil correction of the discard hints, stated over every flag
/// combination: a stencil access promotes a generic discard hint to its
/// stencil-specific bit; the generic bit survives exactly when a depth
/// plane is also accessed.
pub proof fn lemma_post_process_stencil_discard(flags: u64)
    ensures
        ({
            let r = spec_post_process_access_attr(flags);
            let has_depth = flags & (DEPTH_READ_BIT | DEPTH_WRITE_BIT) != 0;
            let has_stencil = flags & (STENCIL_READ_BIT | STENCIL_WRITE_BIT) != 0;
            let has_db = flags & DISCARD_DATA_BEFORE_BIT != 0;
            let has_da = flags & DISCARD_DATA_AFTER_BIT != 0;
            &&& has_stencil && has_db ==> r & STENCIL_DISCARD_DATA_BEFORE_BIT != 0
            &&& has_stencil && has_db && !has_depth ==> r & DISCARD_DATA_BEFORE_BIT == 0
            &&& has_stencil && has_db && has_depth ==> r & DISCARD_DATA_BEFORE_BIT != 0
            &&& has_stencil && has_da ==> r & STENCIL_DISCARD_DATA_AFTER_BIT != 0
            &&& has_stencil && has_da && !has_depth ==> r & DISCARD_DATA_AFTER_BIT == 0
            &&& has_stencil && has_da && has_depth ==> r & DISCARD_DATA_AFTER_BIT != 0
            &&& !has_stencil ==> r == flags
        }),
{
    assert(({
        let r = spec_post_process_access_attr(flags);
        let has_depth = flags & (DEPTH_READ_BIT | DEPTH_WRITE_BIT) != 0;
        let has_stencil = flags & (STENCIL_READ_BIT | STENCIL_WRITE_BIT) != 0;
        let has_db = flags & DISCARD_DATA_BEFORE_BIT != 0;
        let has_da = flags & DISCARD_DATA_AFTER_BIT != 0;
        &&& has_stencil && has_db ==> r & STENCIL_DISCARD_DATA_BEFORE_BIT != 0
        &&& has_stencil && has_db && !has_depth ==> r & DISCARD_DATA_BEFORE_BIT == 0
        &&& has_stencil && has_db && has_depth ==> r & DISCARD_DATA_BEFORE_BIT != 0
        &&& has_stencil && has_da ==> r & STENCIL_DISCARD_DATA_AFTER_BIT != 0
        &&& has_stencil && has_da && !has_depth ==> r & DISCARD_DATA_AFTER_BIT == 0
        &&& has_stencil && has_da && has_depth ==> r & DISCARD_DATA_AFTER_BIT != 0
        &&& !has_stencil ==> r == flags
    })) by (bit_vector);
}


/// Re-encoding bitwise-equal flags and an equal semantic string yields a
/// bitwise-identical descriptor: the encoder is a pure function of its
/// inputs, with no hidden state, so access descriptors are identical across
/// re-runs of the pipeline.
pub proof fn lemma_param_attr_deterministic(flags1: u64, flags2: u64, s1: Seq<char>, s2: Seq<char>)
    requires
        flags1 == flags2,
        s1 == s2,
    ensures
        CRpsParamAttr::spec_new(flags1, s1) == CRpsParamAttr::spec_new(flags2, s2),
        spec_post_process_access_attr(flags1) == spec_post_process_access_attr(flags2),
{
}

} // verus!
