use rps_rs::rps_types::Buffer;
use rps_rs::rps_types::ResourceDesc;
use rps_rs::rps_types::ResourceType;
use rps_rs::rps_types::RpsFormat;
use rps_rs::rps_types::SampleDesc;
use rps_rs::rps_types::SubResourceRange;
use rps_rs::rps_types::Texture;
use rps_rs::rps_types::COMPONENT_MAPPING_DEFAULT;
use rps_rs::rps_types::RESOURCE_FLAG_NONE;
use rps_rs::rpsl_runtime::CRpsResourceDesc;
use rps_rs::rpsl_runtime::Trace;
use rps_rs::rpsl_runtime::TraceEvent;
use rps_rs::Error;

fn tex2d_desc(width: u64, height: u32) -> ResourceDesc {
    ResourceDesc {
        dimension: ResourceType::IMAGE_2D,
        format: RpsFormat::R8G8B8A8_UNORM,
        width,
        height,
        depth_or_array_size: 4,
        mip_levels: 3,
        sample_desc: SampleDesc {
            count: 1,
            quality: 0,
        },
        temporal_layers: 1,
    }
}

#[test]
fn buffer_new_records_the_split_size() {
    let mut trace = Trace::new();
    let width = (7u64 << 32) | 9u64;
    let buf = Buffer::new(&mut trace, width, 1, RESOURCE_FLAG_NONE, 0);
    assert_eq!(buf.id(), 0);
    assert_eq!(buf.size_in_bytes, width);
    assert_eq!(buf.offset, 0);
    match &trace.events[0] {
        TraceEvent::CreateResource(req) => {
            assert_eq!(req.res_type, ResourceType::BUFFER);
            assert_eq!(req.width, 9);
            assert_eq!(req.height, 7);
            assert_eq!(req.depth_or_array_size, 1);
            assert_eq!(req.mip_levels, 1);
            assert_eq!(req.sample_count, 1);
            assert_eq!(req.temporal_layers, 1);
        }
        other => panic!("expected a creation, got {:?}", other),
    }
}

#[test]
fn consecutive_creations_get_consecutive_handles() {
    let mut trace = Trace::new();
    let first = Buffer::new(&mut trace, 16, 1, RESOURCE_FLAG_NONE, 0);
    let second = Buffer::new(&mut trace, 32, 1, RESOURCE_FLAG_NONE, 1);
    assert_eq!(first.id(), 0);
    assert_eq!(second.id(), 1);
}

#[test]
fn buffer_range_inside_the_view_succeeds() {
    let buf = Buffer::from_handle(3, 100);
    let sub = buf.range(10, 50).unwrap();
    assert_eq!(sub.offset, 10);
    assert_eq!(sub.size_in_bytes, 50);
    assert_eq!(sub.id(), 3);
    let nested = sub.range(5, 45).unwrap();
    assert_eq!(nested.offset, 15);
    assert_eq!(nested.size_in_bytes, 45);
}

#[test]
fn buffer_range_outside_the_view_fails() {
    let buf = Buffer::from_handle(3, 100);
    assert_eq!(buf.range(60, 50), Err(Error::IndexOutOfRange));
    assert_eq!(buf.range(101, 0), Err(Error::IndexOutOfRange));
    assert!(buf.range(100, 0).is_ok());
}

#[test]
fn buffer_format_and_stride_are_exclusive() {
    let buf = Buffer::from_handle(0, 64);
    let formatted = buf.format(RpsFormat::R32_UINT);
    assert_eq!(formatted.view_format, RpsFormat::R32_UINT);
    assert_eq!(formatted.stride, 0);
    let structured = formatted.stride(16);
    assert_eq!(structured.view_format, RpsFormat::UNKNOWN);
    assert_eq!(structured.stride, 16);
}

#[test]
fn buffer_null_and_default() {
    let null = Buffer::null();
    assert_eq!(null.id(), u32::MAX);
    assert_eq!(null.size_in_bytes, u64::MAX);
    let default = Buffer::default();
    assert_eq!(default.id(), u32::MAX);
    assert_eq!(default.size_in_bytes, 0);
    assert_eq!(default.temporal_layer, 1);
}

#[test]
fn texture_new_views_all_mips_and_layers() {
    let mut trace = Trace::new();
    let tex = Texture::new(&mut trace, tex2d_desc(640, 480), RESOURCE_FLAG_NONE, 0);
    assert_eq!(tex.id(), 0);
    assert_eq!(tex.view_format, RpsFormat::UNKNOWN);
    assert_eq!(tex.subresource_range.base_mip, 0);
    assert_eq!(tex.subresource_range.num_mips, 3);
    assert_eq!(tex.subresource_range.num_array_layers, 4);
    assert_eq!(tex.component_mapping, COMPONENT_MAPPING_DEFAULT);
    match &trace.events[0] {
        TraceEvent::CreateResource(req) => {
            assert_eq!(req.res_type, ResourceType::IMAGE_2D);
            assert_eq!(req.format, RpsFormat::R8G8B8A8_UNORM);
            assert_eq!(req.width, 640);
            assert_eq!(req.height, 480);
        }
        other => panic!("expected a creation, got {:?}", other),
    }
}

#[test]
fn texture_3d_views_one_layer() {
    let mut desc = tex2d_desc(16, 16);
    desc.dimension = ResourceType::IMAGE_3D;
    let tex = Texture::from_handle(1, desc);
    assert_eq!(tex.subresource_range.num_array_layers, 1);
}

#[test]
fn texture_view_functions_adjust_the_range() {
    let tex = Texture::from_handle(0, tex2d_desc(64, 64));
    let slice = tex.array_slice(2);
    assert_eq!(slice.subresource_range.base_array_slice, 2);
    assert_eq!(slice.subresource_range.num_array_layers, 1);
    let arr = tex.array(1, 3);
    assert_eq!(arr.subresource_range.base_array_slice, 1);
    assert_eq!(arr.subresource_range.num_array_layers, 3);
    let mip = tex.mip_level(2);
    assert_eq!(mip.subresource_range.base_mip, 2);
    assert_eq!(mip.subresource_range.num_mips, 1);
    let mips = tex.mips(1, 2);
    assert_eq!(mips.subresource_range.base_mip, 1);
    assert_eq!(mips.subresource_range.num_mips, 2);
    let reformatted = tex.format(RpsFormat::R16G16B16A16_FLOAT);
    assert_eq!(reformatted.view_format, RpsFormat::R16G16B16A16_FLOAT);
    let temporal = tex.temporal(2);
    assert_eq!(temporal.temporal_layer, 2);
}

#[test]
fn set_name_records_a_naming_event() {
    let mut trace = Trace::new();
    let buf = Buffer::new(&mut trace, 8, 1, RESOURCE_FLAG_NONE, 0);
    buf.set_name(&mut trace, b"staging");
    match &trace.events[1] {
        TraceEvent::NameResource { resource_hdl, name } => {
            assert_eq!(*resource_hdl, buf.id());
            assert_eq!(name, b"staging");
        }
        other => panic!("expected a naming event, got {:?}", other),
    }
}

#[test]
fn buffer_description_round_trips_through_the_record() {
    let record = CRpsResourceDesc {
        resource_type: ResourceType::BUFFER,
        temporal_layers: 1,
        flags: 0,
        image_width_or_buffer_size_lo: 0x89ABCDEF,
        image_height_or_buffer_size_hi: 0x01234567,
        image_depth_or_array_layers: 1,
        image_mip_levels: 1,
        image_format: RpsFormat::UNKNOWN,
        image_sample_count: 1,
    };
    let desc = record.to_resource_desc();
    assert_eq!(desc.dimension, ResourceType::BUFFER);
    assert_eq!(desc.width, 0x0123456789ABCDEF);
    assert_eq!(desc.height, 1);
    let buf = Buffer::from_c_desc(&record, 5);
    assert_eq!(buf.id(), 5);
    assert_eq!(buf.size_in_bytes, 0x0123456789ABCDEF);
}

#[test]
fn image_description_keeps_extent_fields() {
    let record = CRpsResourceDesc {
        resource_type: ResourceType::IMAGE_2D,
        temporal_layers: 2,
        flags: 0,
        image_width_or_buffer_size_lo: 800,
        image_height_or_buffer_size_hi: 600,
        image_depth_or_array_layers: 6,
        image_mip_levels: 4,
        image_format: RpsFormat::B8G8R8A8_UNORM,
        image_sample_count: 1,
    };
    let desc = record.to_resource_desc();
    assert_eq!(desc.width, 800);
    assert_eq!(desc.height, 600);
    assert_eq!(desc.depth_or_array_size, 6);
    assert_eq!(desc.mip_levels, 4);
    assert_eq!(desc.temporal_layers, 2);
    let tex = Texture::from_c_desc(&record, 2);
    assert_eq!(tex.id(), 2);
    assert_eq!(tex.view_format, RpsFormat::B8G8R8A8_UNORM);
    assert_eq!(tex.subresource_range.num_mips, 4);
    assert_eq!(tex.subresource_range.num_array_layers, 6);
}

#[test]
fn from_c_desc_array_numbers_consecutively() {
    let record = CRpsResourceDesc {
        resource_type: ResourceType::BUFFER,
        temporal_layers: 1,
        flags: 0,
        image_width_or_buffer_size_lo: 128,
        image_height_or_buffer_size_hi: 0,
        image_depth_or_array_layers: 1,
        image_mip_levels: 1,
        image_format: RpsFormat::UNKNOWN,
        image_sample_count: 1,
    };
    let records = [record, record, record];
    let buffers = Buffer::from_c_desc_array(&records, 10);
    assert_eq!(buffers.len(), 3);
    for (i, b) in buffers.iter().enumerate() {
        assert_eq!(b.id(), 10 + i as u32);
        assert_eq!(b.size_in_bytes, 128);
    }
    let textures = Texture::from_c_desc_array(&records, 4);
    assert_eq!(textures.len(), 3);
    assert_eq!(textures[2].id(), 6);
}

#[test]
fn sub_resource_range_defaults() {
    let r = SubResourceRange::new();
    assert_eq!(r.base_mip, 0);
    assert_eq!(r.num_mips, 1);
    assert_eq!(r.base_array_slice, 0);
    assert_eq!(r.num_array_layers, 1);
    assert_eq!(r, SubResourceRange::default());
}

#[test]
fn texture_null_views_nothing() {
    let t = Texture::null();
    assert_eq!(t.id(), u32::MAX);
    assert_eq!(t.subresource_range.num_mips, 0);
    assert_eq!(t.subresource_range.num_array_layers, 0);
    assert_eq!(t.component_mapping, 0);
}

#[test]
fn from_c_desc_array_of_nothing() {
    let records: [CRpsResourceDesc; 0] = [];
    assert!(Buffer::from_c_desc_array(&records, 0).is_empty());
    assert!(Texture::from_c_desc_array(&records, 0).is_empty());
}
