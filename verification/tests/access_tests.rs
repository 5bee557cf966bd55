use rps_rs::access::AccessQualifier;
use rps_rs::access::AccessTag;
use rps_rs::access::CRpsParamAttr;
use rps_rs::access::CRpsSemanticType;
use rps_rs::access::convert_access_attr;
use rps_rs::access::convert_access_flag;
use rps_rs::access::encode_param_attr;
use rps_rs::access::get_rps_ffi_array_len;
use rps_rs::access::get_rps_ffi_param_flags;
use rps_rs::access::get_rps_ffi_type_info;
use rps_rs::access::post_process_access_attr;
use rps_rs::access::DEPTH_READ_BIT;
use rps_rs::access::DEPTH_WRITE_BIT;
use rps_rs::access::DISCARD_DATA_AFTER_BIT;
use rps_rs::access::DISCARD_DATA_BEFORE_BIT;
use rps_rs::access::PARAMETER_FLAG_NONE;
use rps_rs::access::PARAMETER_FLAG_RESOURCE_BIT;
use rps_rs::access::RENDER_TARGET_BIT;
use rps_rs::access::SHADER_RESOURCE_BIT;
use rps_rs::access::SHADER_STAGE_PS;
use rps_rs::access::STENCIL_DISCARD_DATA_BEFORE_BIT;
use rps_rs::access::STENCIL_WRITE_BIT;
use rps_rs::access::TMP_READ_BIT;
use rps_rs::access::TMP_WRITE_BIT;
use rps_rs::access::UNORDERED_ACCESS_BIT;
use rps_rs::rps_types::Buffer;
use rps_rs::rps_types::Texture;
use rps_rs::Error;

#[test]
fn semantic_table_recognizes_names() {
    assert_eq!(
        CRpsSemanticType::from_bytes("SV_Viewport"),
        Some(CRpsSemanticType::VIEWPORT)
    );
    assert_eq!(
        CRpsSemanticType::from_bytes("SV_Target"),
        Some(CRpsSemanticType::RENDER_TARGET)
    );
    assert_eq!(
        CRpsSemanticType::from_bytes("SV_DepthStencil"),
        Some(CRpsSemanticType::DEPTH_STENCIL_TARGET)
    );
    assert_eq!(
        CRpsSemanticType::from_bytes(""),
        Some(CRpsSemanticType::UNSPECIFIED)
    );
    assert_eq!(CRpsSemanticType::from_bytes("SV_Bogus"), None);
    assert_eq!(CRpsSemanticType::from_bytes("SV_Target3"), None);
}

#[test]
fn semantic_string_with_trailing_digits() {
    let attr = CRpsParamAttr::new(0, "SV_Target3");
    assert_eq!(attr.semantic.semantic, CRpsSemanticType::RENDER_TARGET);
    assert_eq!(attr.semantic.index, 3);
}

#[test]
fn semantic_string_without_digits_gets_index_zero() {
    let attr = CRpsParamAttr::new(0, "SV_Target");
    assert_eq!(attr.semantic.semantic, CRpsSemanticType::RENDER_TARGET);
    assert_eq!(attr.semantic.index, 0);
}

#[test]
fn semantic_string_multi_digit_index() {
    let attr = CRpsParamAttr::new(0, "SV_Target12");
    assert_eq!(attr.semantic.semantic, CRpsSemanticType::RENDER_TARGET);
    assert_eq!(attr.semantic.index, 12);
}

#[test]
fn render_target_semantic_implies_render_target_bit() {
    let attr = CRpsParamAttr::new(0, "SV_Target0");
    assert_ne!(attr.access.access_flags & (RENDER_TARGET_BIT as u32), 0);
}

#[test]
fn depth_stencil_semantic_follows_qualifier() {
    let written = CRpsParamAttr::new(TMP_WRITE_BIT, "SV_DepthStencil");
    assert_ne!(written.access.access_flags & (DEPTH_WRITE_BIT as u32), 0);
    let read = CRpsParamAttr::new(TMP_READ_BIT, "SV_DepthStencil");
    assert_ne!(read.access.access_flags & (DEPTH_READ_BIT as u32), 0);
    assert_eq!(read.access.access_flags & (DEPTH_WRITE_BIT as u32), 0);
}

#[test]
fn staged_read_gains_shader_resource_bit() {
    let attr = CRpsParamAttr::new(SHADER_STAGE_PS | TMP_READ_BIT, "");
    assert_eq!(attr.access.access_stages, (SHADER_STAGE_PS >> 32) as u32);
    assert_ne!(attr.access.access_flags & (SHADER_RESOURCE_BIT as u32), 0);
    assert_eq!(attr.access.access_flags & (UNORDERED_ACCESS_BIT as u32), 0);
}

#[test]
fn staged_write_gains_unordered_access_bit() {
    let attr = CRpsParamAttr::new(SHADER_STAGE_PS | TMP_WRITE_BIT, "");
    assert_ne!(attr.access.access_flags & (UNORDERED_ACCESS_BIT as u32), 0);
}

#[test]
fn post_process_keeps_generic_discard_with_depth() {
    let flags = STENCIL_WRITE_BIT | DEPTH_WRITE_BIT | DISCARD_DATA_BEFORE_BIT;
    let out = post_process_access_attr(flags);
    assert_ne!(out & STENCIL_DISCARD_DATA_BEFORE_BIT, 0);
    assert_ne!(out & DISCARD_DATA_BEFORE_BIT, 0);
}

#[test]
fn post_process_clears_generic_discard_without_depth() {
    let flags = STENCIL_WRITE_BIT | DISCARD_DATA_BEFORE_BIT;
    let out = post_process_access_attr(flags);
    assert_ne!(out & STENCIL_DISCARD_DATA_BEFORE_BIT, 0);
    assert_eq!(out & DISCARD_DATA_BEFORE_BIT, 0);
}

#[test]
fn post_process_without_stencil_is_identity() {
    let flags = DEPTH_WRITE_BIT | DISCARD_DATA_AFTER_BIT;
    assert_eq!(post_process_access_attr(flags), flags);
}

#[test]
fn encode_stencil_discard_with_depth_annotation() {
    // "write, stencil, discard-before" plus "read-write, depth" on one
    // parameter: depth-write, stencil-write and the stencil discard bit are
    // set, and the generic discard bit is retained.
    let groups = vec![
        (
            AccessQualifier::WriteOnly,
            vec![AccessTag::Stencil, AccessTag::DiscardBefore],
        ),
        (AccessQualifier::ReadWrite, vec![AccessTag::Depth]),
    ];
    let attr = encode_param_attr(&groups, "").unwrap();
    let expected = (STENCIL_WRITE_BIT
        | DEPTH_WRITE_BIT
        | DISCARD_DATA_BEFORE_BIT
        | STENCIL_DISCARD_DATA_BEFORE_BIT) as u32;
    assert_eq!(attr.access.access_flags, expected);
}

#[test]
fn encode_stencil_discard_without_depth_annotation() {
    // "write, stencil, discard-before" alone: the generic discard bit is
    // cleared and only the stencil-specific bit remains.
    let groups = vec![(
        AccessQualifier::WriteOnly,
        vec![AccessTag::Stencil, AccessTag::DiscardBefore],
    )];
    let attr = encode_param_attr(&groups, "").unwrap();
    let expected = (STENCIL_WRITE_BIT | STENCIL_DISCARD_DATA_BEFORE_BIT) as u32;
    assert_eq!(attr.access.access_flags, expected);
}

#[test]
fn encode_rejects_invalid_tag_for_qualifier() {
    let groups = vec![(AccessQualifier::ReadOnly, vec![AccessTag::RenderTarget])];
    assert_eq!(encode_param_attr(&groups, ""), Err(Error::InvalidArgs));
}

#[test]
fn encode_rejects_unknown_semantic() {
    let groups: rps_rs::access::AccessAnnotation = vec![];
    assert_eq!(
        encode_param_attr(&groups, "NotASemantic"),
        Err(Error::InvalidArgs)
    );
}

#[test]
fn encode_rejects_oversized_semantic_index() {
    let groups: rps_rs::access::AccessAnnotation = vec![];
    assert_eq!(
        encode_param_attr(&groups, "SV_Target4294967296"),
        Err(Error::InvalidArgs)
    );
}

#[test]
fn convert_access_flag_follows_qualifier_context() {
    assert_eq!(
        convert_access_flag(AccessQualifier::ReadOnly, AccessTag::Depth),
        Ok(DEPTH_READ_BIT | TMP_READ_BIT)
    );
    assert_eq!(
        convert_access_flag(AccessQualifier::ReadWrite, AccessTag::Depth),
        Ok(DEPTH_WRITE_BIT | TMP_WRITE_BIT)
    );
    assert_eq!(
        convert_access_flag(AccessQualifier::WriteOnly, AccessTag::Depth),
        Ok(DEPTH_WRITE_BIT | TMP_WRITE_BIT | DISCARD_DATA_BEFORE_BIT)
    );
    assert_eq!(
        convert_access_flag(AccessQualifier::ReadOnly, AccessTag::StreamOut),
        Err(Error::InvalidArgs)
    );
}

#[test]
fn convert_access_attr_accumulates_group_bits() {
    let tags = vec![AccessTag::Stencil, AccessTag::DiscardBefore];
    let bits = convert_access_attr(AccessQualifier::WriteOnly, &tags).unwrap();
    assert_eq!(
        bits,
        STENCIL_WRITE_BIT | TMP_WRITE_BIT | DISCARD_DATA_BEFORE_BIT
    );
}

#[test]
fn empty_annotation_group_contributes_nothing() {
    let tags: Vec<AccessTag> = vec![];
    assert_eq!(
        convert_access_attr(AccessQualifier::ReadOnly, &tags),
        Ok(0)
    );
}

#[test]
fn parameter_flags_mark_resource_views() {
    assert_eq!(
        get_rps_ffi_param_flags::<Texture>(),
        PARAMETER_FLAG_RESOURCE_BIT
    );
    assert_eq!(
        get_rps_ffi_param_flags::<&Buffer>(),
        PARAMETER_FLAG_RESOURCE_BIT
    );
    assert_eq!(get_rps_ffi_param_flags::<u32>(), PARAMETER_FLAG_NONE);
    assert_eq!(get_rps_ffi_param_flags::<bool>(), PARAMETER_FLAG_NONE);
}

#[test]
fn type_info_of_built_in_types() {
    let info = get_rps_ffi_type_info::<u32>();
    assert_eq!(info.size, 4);
    assert_eq!(info.id, 7);
    let info = get_rps_ffi_type_info::<bool>();
    assert_eq!(info.size, 1);
    assert_eq!(info.id, 1);
    assert_eq!(get_rps_ffi_array_len::<u64>(), 0);
}

#[test]
fn const_default_is_all_zero() {
    let attr = CRpsParamAttr::const_default();
    assert_eq!(attr.access.access_flags, 0);
    assert_eq!(attr.access.access_stages, 0);
    assert_eq!(attr.semantic.semantic, CRpsSemanticType::UNSPECIFIED);
    assert_eq!(attr.semantic.index, 0);
}

#[test]
fn encode_accepts_the_largest_semantic_index() {
    let groups: rps_rs::access::AccessAnnotation = vec![];
    let attr = encode_param_attr(&groups, "SV_Target4294967295").unwrap();
    assert_eq!(attr.semantic.index, u32::MAX);
}

#[test]
fn re_encoding_is_byte_identical() {
    let first = CRpsParamAttr::new(SHADER_STAGE_PS | TMP_WRITE_BIT, "SV_Target2");
    let second = CRpsParamAttr::new(SHADER_STAGE_PS | TMP_WRITE_BIT, "SV_Target2");
    assert_eq!(first, second);
    let groups = vec![(
        AccessQualifier::WriteOnly,
        vec![AccessTag::Stencil, AccessTag::DiscardBefore],
    )];
    assert_eq!(
        encode_param_attr(&groups, "SV_Target"),
        encode_param_attr(&groups, "SV_Target")
    );
}
