//! Types used directly in authored render-graph procedures: formats, resource
//! descriptions, and the buffer / texture view types handed to nodes.

use vstd::prelude::*;

use crate::Error;
use crate::rpsl_runtime::Trace;
use crate::rpsl_runtime::TraceEvent;
use crate::rpsl_runtime::ResourceCreateRequest;
use crate::rpsl_runtime::CRpsResourceDesc;
use crate::rpsl_runtime::CRpsTypeInfo;
use crate::rpsl_runtime::RpsBuiltInTypeIds;
use crate::rpsl_runtime::RpsTypeInfoTrait;
use crate::rpsl_runtime::count_creations;

verus! {

/// Pixel and buffer-element formats, numbered as on the wire.
#[derive(Clone, Copy, PartialEq, Eq, Structural, Debug)]
#[allow(non_camel_case_types)]
pub enum RpsFormat {
    UNKNOWN,
    R32G32B32A32_TYPELESS,
    R32G32B32A32_FLOAT,
    R32G32B32A32_UINT,
    R32G32B32A32_SINT,
    R32G32B32_TYPELESS,
    R32G32B32_FLOAT,
    R32G32B32_UINT,
    R32G32B32_SINT,
    R16G16B16A16_TYPELESS,
    R16G16B16A16_FLOAT,
    R16G16B16A16_UNORM,
    R16G16B16A16_UINT,
    R16G16B16A16_SNORM,
    R16G16B16A16_SINT,
    R32G32_TYPELESS,
    R32G32_FLOAT,
    R32G32_UINT,
    R32G32_SINT,
    R32G8X24_TYPELESS,
    D32_FLOAT_S8X24_UINT,
    R32_FLOAT_X8X24_TYPELESS,
    X32_TYPELESS_G8X24_UINT,
    R10G10B10A2_TYPELESS,
    R10G10B10A2_UNORM,
    R10G10B10A2_UINT,
    R11G11B10_FLOAT,
    R8G8B8A8_TYPELESS,
    R8G8B8A8_UNORM,
    R8G8B8A8_UNORM_SRGB,
    R8G8B8A8_UINT,
    R8G8B8A8_SNORM,
    R8G8B8A8_SINT,
    R16G16_TYPELESS,
    R16G16_FLOAT,
    R16G16_UNORM,
    R16G16_UINT,
    R16G16_SNORM,
    R16G16_SINT,
    R32_TYPELESS,
    D32_FLOAT,
    R32_FLOAT,
    R32_UINT,
    R32_SINT,
    R24G8_TYPELESS,
    D24_UNORM_S8_UINT,
    R24_UNORM_X8_TYPELESS,
    X24_TYPELESS_G8_UINT,
    R8G8_TYPELESS,
    R8G8_UNORM,
    R8G8_UINT,
    R8G8_SNORM,
    R8G8_SINT,
    R16_TYPELESS,
    R16_FLOAT,
    D16_UNORM,
    R16_UNORM,
    R16_UINT,
    R16_SNORM,
    R16_SINT,
    R8_TYPELESS,
    R8_UNORM,
    R8_UINT,
    R8_SNORM,
    R8_SINT,
    A8_UNORM,
    R1_UNORM,
    R9G9B9E5_SHAREDEXP,
    R8G8_B8G8_UNORM,
    G8R8_G8B8_UNORM,
    BC1_TYPELESS,
    BC1_UNORM,
    BC1_UNORM_SRGB,
    BC2_TYPELESS,
    BC2_UNORM,
    BC2_UNORM_SRGB,
    BC3_TYPELESS,
    BC3_UNORM,
    BC3_UNORM_SRGB,
    BC4_TYPELESS,
    BC4_UNORM,
    BC4_SNORM,
    BC5_TYPELESS,
    BC5_UNORM,
    BC5_SNORM,
    B5G6R5_UNORM,
    B5G5R5A1_UNORM,
    B8G8R8A8_UNORM,
    B8G8R8X8_UNORM,
    R10G10B10_XR_BIAS_A2_UNORM,
    B8G8R8A8_TYPELESS,
    B8G8R8A8_UNORM_SRGB,
    B8G8R8X8_TYPELESS,
    B8G8R8X8_UNORM_SRGB,
    BC6H_TYPELESS,
    BC6H_UF16,
    BC6H_SF16,
    BC7_TYPELESS,
    BC7_UNORM,
    BC7_UNORM_SRGB,
    AYUV,
    Y410,
    Y416,
    NV12,
    P010,
    P016,
    YUV_420_OPAQUE,
    YUY2,
    Y210,
    Y216,
    NV11,
    AI44,
    IA44,
    P8,
    A8P8,
    B4G4R4A4_UNORM,
}

impl Default for RpsFormat {
    /// An unspecified format.
    fn default() -> (r: Self)
        ensures
            r == RpsFormat::UNKNOWN,
    {
        RpsFormat::UNKNOWN
    }
}

/// The dimensionality of a resource.
#[derive(Clone, Copy, PartialEq, Eq, Structural, Debug)]
#[allow(non_camel_case_types)]
pub enum ResourceType {
    /// Resource type is unknown / invalid.
    UNKNOWN,
    /// A buffer resource type.
    BUFFER,
    /// A 1D image resource type.
    IMAGE_1D,
    /// A 2D image resource type.
    IMAGE_2D,
    /// A 3D image resource type.
    IMAGE_3D,
    /// Count of defined resource type values.
    COUNT,
}

impl Default for ResourceType {
    /// An unknown resource type.
    fn default() -> (r: Self)
        ensures
            r == ResourceType::UNKNOWN,
    {
        ResourceType::UNKNOWN
    }
}

/// No special resource properties.
pub const RESOURCE_FLAG_NONE: u32 = 0;

/// Supports cubemap views.
pub const RESOURCE_FLAG_CUBEMAP_COMPATIBLE_BIT: u32 = 1u32 << 1;

/// Uses rowmajor image layout.
pub const RESOURCE_FLAG_ROWMAJOR_IMAGE_BIT: u32 = 1u32 << 2;

/// Preferred to be in GPU-local CPU-visible heap if available.
pub const RESOURCE_FLAG_PREFER_GPU_LOCAL_CPU_VISIBLE_BIT: u32 = 1u32 << 3;

/// Preferred to be in dedicated allocation or as committed resource.
pub const RESOURCE_FLAG_PREFER_DEDICATED_ALLOCATION_BIT: u32 = 1u32 << 4;

/// Resource data is persistent from frame to frame.
pub const RESOURCE_FLAG_PERSISTENT_BIT: u32 = 1u32 << 15;

/// No special resource view flags.
pub const RESOURCE_VIEW_FLAG_NONE: u32 = 0;

/// The resource view is used as cubemaps.
pub const RESOURCE_VIEW_FLAG_CUBEMAP_BIT: u32 = 1u32 << 0;

/// The identity color-component mapping.
pub const COMPONENT_MAPPING_DEFAULT: u32 = 0x03020100;

/// A description of a sample configuration.
#[derive(Clone, Copy, PartialEq, Eq, Structural, Debug)]
pub struct SampleDesc {
    /// The number of samples.
    pub count: u32,
    /// The quality of the samples.
    pub quality: u32,
}

impl Default for SampleDesc {
    /// One sample, quality zero.
    fn default() -> (r: Self)
        ensures
            r == (SampleDesc { count: 1u32, quality: 0u32 }),
    {
        SampleDesc { count: 1u32, quality: 0u32 }
    }
}

/// A full description of a graph-managed resource.
#[derive(Clone, Copy, PartialEq, Eq, Structural, Debug)]
pub struct ResourceDesc {
    /// The type of resource.
    pub dimension: ResourceType,
    /// The format of the resource.
    pub format: RpsFormat,
    /// The width of the resource.
    pub width: u64,
    /// The height of the resource.
    pub height: u32,
    /// The depth (or array size) of the resource.
    pub depth_or_array_size: u32,
    /// The number of mipmap levels in the resource.
    pub mip_levels: u32,
    /// A description of the sample configuration in the resource.
    pub sample_desc: SampleDesc,
    /// The number of temporal layers in the resource.
    pub temporal_layers: u32,
}

impl Default for ResourceDesc {
    /// The all-unknown, zero-extent description.
    fn default() -> (r: Self)
        ensures
            r == (ResourceDesc {
                dimension: ResourceType::UNKNOWN,
                format: RpsFormat::UNKNOWN,
                width: 0u64,
                height: 0u32,
                depth_or_array_size: 0u32,
                mip_levels: 0u32,
                sample_desc: SampleDesc { count: 0u32, quality: 0u32 },
                temporal_layers: 0u32,
            }),
    {
        ResourceDesc {
            dimension: ResourceType::UNKNOWN,
            format: RpsFormat::UNKNOWN,
            width: 0u64,
            height: 0u32,
            depth_or_array_size: 0u32,
            mip_levels: 0u32,
            sample_desc: SampleDesc { count: 0u32, quality: 0u32 },
            temporal_layers: 0u32,
        }
    }
}

/// A description of a texture sub resource range.
#[derive(Clone, Copy, PartialEq, Eq, Structural, Debug)]
pub struct SubResourceRange {
    /// The base mipmapping level for the resource access.
    pub base_mip: u16,
    /// The number of mipmap levels accessible to the view.
    pub num_mips: u16,
    /// The first layer accessible to the view.
    pub base_array_slice: u32,
    /// The number of layers.
    pub num_array_layers: u32,
}

impl Default for SubResourceRange {
    /// The first mip level of the first array layer.
    fn default() -> (r: Self)
        ensures
            r == (SubResourceRange {
                base_mip: 0u16,
                num_mips: 1u16,
                base_array_slice: 0u32,
                num_array_layers: 1u32,
            }),
    {
        SubResourceRange { base_mip: 0, num_mips: 1, base_array_slice: 0, num_array_layers: 1 }
    }
}

impl SubResourceRange {
    /// The default range: the first mip level of the first array layer.
    pub fn new() -> (r: SubResourceRange)
        ensures
            r == (SubResourceRange {
                base_mip: 0u16,
                num_mips: 1u16,
                base_array_slice: 0u32,
                num_array_layers: 1u32,
            }),
    {
        SubResourceRange { base_mip: 0, num_mips: 1, base_array_slice: 0, num_array_layers: 1 }
    }
}

/// A buffer view: a handle to a graph-managed buffer together with the range
/// and format through which a node accesses it.
#[derive(Clone, Copy, PartialEq, Eq, Structural, Debug)]
pub struct Buffer {
    /// The resource handle of the buffer view.
    pub resource: u32,
    /// The format of the buffer view; `UNKNOWN` indicates an unformatted view.
    pub view_format: RpsFormat,
    /// The temporal layer of the buffer view.
    pub temporal_layer: u32,
    /// The flags of the buffer view.
    pub flags: u32,
    /// The offset in bytes from the start of the buffer resource.
    pub offset: u64,
    /// The size in bytes of the buffer view.
    pub size_in_bytes: u64,
    /// The stride in bytes of the view; non-zero indicates a structured buffer.
    pub stride: u32,
}

impl Buffer {
    /// The resource handle this view refers to.
    pub open spec fn spec_id(self) -> u32 {
        self.resource
    }

    /// The view's byte range stays representable: offset plus size fits in 64
    /// bits. Constructors establish this and `range` preserves it.
    pub open spec fn wf(self) -> bool {
        self.offset + self.size_in_bytes <= u64::MAX
    }

    /// The request that creating a buffer of `width` bytes sends to the host:
    /// the 64-bit size travels split over the width and height fields.
    pub open spec fn spec_create_request(
        width: u64,
        temporal_layers: u32,
        flags: u32,
        id: u32,
    ) -> ResourceCreateRequest {
        ResourceCreateRequest {
            res_type: ResourceType::BUFFER,
            flags,
            format: RpsFormat::UNKNOWN,
            width: (width & (u32::MAX as u64)) as u32,
            height: (width >> 32) as u32,
            depth_or_array_size: 1,
            mip_levels: 1,
            sample_count: 1,
            sample_quality: 0,
            temporal_layers,
            id,
        }
    }

    /// The view a fresh buffer creation hands back, given the handle the host
    /// assigned.
    pub open spec fn spec_from_handle(h_res: u32, width: u64) -> Buffer {
        Buffer {
            resource: h_res,
            view_format: RpsFormat::UNKNOWN,
            temporal_layer: 0,
            flags: RESOURCE_VIEW_FLAG_NONE,
            offset: 0,
            size_in_bytes: width,
            stride: 0,
        }
    }

    /// The null buffer view.
    pub fn null() -> (r: Self)
        ensures
            r.spec_id() == u32::MAX,
            r.view_format == RpsFormat::UNKNOWN,
            r.temporal_layer == 0u32,
            r.flags == RESOURCE_VIEW_FLAG_NONE,
            r.offset == 0u64,
            r.size_in_bytes == u64::MAX,
            r.stride == 0u32,
            r.wf(),
    {
        Buffer {
            resource: u32::MAX,
            view_format: RpsFormat::UNKNOWN,
            temporal_layer: 0,
            flags: RESOURCE_VIEW_FLAG_NONE,
            offset: 0,
            size_in_bytes: u64::MAX,
            stride: 0,
        }
    }

    /// Creates a buffer resource: records the creation on the trace and hands
    /// back a whole-buffer view of the created resource.
    pub fn new(trace: &mut Trace, width: u64, temporal_layers: u32, flags: u32, id: u32) -> (r:
        Buffer)
        requires
            count_creations(old(trace).events@) < u32::MAX,
        ensures
            final(trace).events@ == old(trace).events@.push(
                TraceEvent::CreateResource(
                    Buffer::spec_create_request(width, temporal_layers, flags, id),
                ),
            ),
            r == Buffer::spec_from_handle(
                count_creations(old(trace).events@) as u32,
                width,
            ),
            r.wf(),
    {
        let req = ResourceCreateRequest {
            res_type: ResourceType::BUFFER,
            flags,
            format: RpsFormat::UNKNOWN,
            width: (width & (u32::MAX as u64)) as u32,
            height: (width >> 32) as u32,
            depth_or_array_size: 1,
            mip_levels: 1,
            sample_count: 1,
            sample_quality: 0,
            temporal_layers,
            id,
        };
        let h_res = trace.create_resource(req);
        Buffer::from_handle(h_res, width)
    }

    /// The whole-buffer view of an already-created resource.
    pub fn from_handle(h_res: u32, width: u64) -> (r: Buffer)
        ensures
            r == Buffer::spec_from_handle(h_res, width),
            r.wf(),
    {
        Buffer {
            resource: h_res,
            view_format: RpsFormat::UNKNOWN,
            temporal_layer: 0,
            flags: RESOURCE_VIEW_FLAG_NONE,
            offset: 0,
            size_in_bytes: width,
            stride: 0,
        }
    }

    /// The whole-buffer view of the resource a host-provided description
    /// record describes: its size is reassembled from the split 64-bit size.
    pub fn from_c_desc(res_desc: &CRpsResourceDesc, res_id: u32) -> (r: Buffer)
        ensures
            r == Buffer::spec_from_handle(
                res_id,
                ((res_desc.image_height_or_buffer_size_hi as u64) << 32) | (
                res_desc.image_width_or_buffer_size_lo as u64),
            ),
            r.wf(),
    {
        Buffer::from_handle(
            res_id,
            ((res_desc.image_height_or_buffer_size_hi as u64) << 32) | (
            res_desc.image_width_or_buffer_size_lo as u64),
        )
    }

    /// Whole-buffer views for a run of consecutively numbered resources
    /// described by `res_desc`, starting at handle `res_id`.
    pub fn from_c_desc_array(res_desc: &[CRpsResourceDesc], res_id: u32) -> (r: Vec<Buffer>)
        requires
            res_id + res_desc@.len() <= u32::MAX,
        ensures
            r@.len() == res_desc@.len(),
            forall|i: int|
                0 <= i < r@.len() ==> r@[i] == Buffer::spec_from_handle(
                    (res_id + i) as u32,
                    ((res_desc@[i].image_height_or_buffer_size_hi as u64) << 32) | (
                    res_desc@[i].image_width_or_buffer_size_lo as u64),
                ),
    {
        let mut out: Vec<Buffer> = Vec::new();
        let mut i: usize = 0;
        while i < res_desc.len()
            invariant
                i <= res_desc@.len(),
                res_id + res_desc@.len() <= u32::MAX,
                out@.len() == i,
                forall|j: int|
                    0 <= j < i as int ==> out@[j] == Buffer::spec_from_handle(
                        (res_id + j) as u32,
                        ((res_desc@[j].image_height_or_buffer_size_hi as u64) << 32) | (
                        res_desc@[j].image_width_or_buffer_size_lo as u64),
                    ),
            decreases res_desc@.len() - i,
        {
            out.push(Buffer::from_c_desc(&res_desc[i], res_id + (i as u32)));
            i = i + 1;
        }
        out
    }

    /// A sub-range view of this buffer. Succeeds exactly when the requested
    /// range lies inside the view.
    pub fn range(&self, offset: u64, size_in_bytes: u64) -> (r: Result<Buffer, Error>)
        requires
            self.wf(),
        ensures
            offset + size_in_bytes <= self.size_in_bytes ==> (r matches Ok(b) && b == (Buffer {
                offset: (self.offset + offset) as u64,
                size_in_bytes,
                ..*self
            }) && b.wf()),
            offset + size_in_bytes > self.size_in_bytes ==> (r matches Err(e) && e
                == Error::IndexOutOfRange),
    {
        if offset <= self.size_in_bytes && size_in_bytes <= self.size_in_bytes - offset {
            let mut new_buf = *self;
            new_buf.offset = new_buf.offset + offset;
            new_buf.size_in_bytes = size_in_bytes;
            Ok(new_buf)
        } else {
            Err(Error::IndexOutOfRange)
        }
    }

    /// The same view seen through format `fmt`, unstructured.
    pub fn format(&self, fmt: RpsFormat) -> (r: Buffer)
        ensures
            r == (Buffer { view_format: fmt, stride: 0u32, ..*self }),
    {
        Buffer { view_format: fmt, stride: 0, ..*self }
    }

    /// The same view as a structured buffer of the given stride.
    pub fn stride(&self, stride: u32) -> (r: Buffer)
        ensures
            r == (Buffer { view_format: RpsFormat::UNKNOWN, stride, ..*self }),
    {
        Buffer { view_format: RpsFormat::UNKNOWN, stride: stride, ..*self }
    }

    /// The resource handle this view refers to.
    pub fn id(&self) -> (r: u32)
        ensures
            r == self.spec_id(),
    {
        self.resource
    }

    /// Attaches a diagnostic name to the viewed resource.
    pub fn set_name(&self, trace: &mut Trace, name: &[u8])
        ensures
            final(trace).events@.len() == old(trace).events@.len() + 1,
            final(trace).events@.drop_last() == old(trace).events@,
            final(trace).events@.last() matches TraceEvent::NameResource { resource_hdl, name: n }
                && resource_hdl == self.spec_id() && n@ == name@,
    {
        trace.name_resource(self.resource, name);
    }
}

impl Default for Buffer {
    /// The invalid-handle, empty view.
    fn default() -> (r: Self)
        ensures
            r.spec_id() == u32::MAX,
            r.view_format == RpsFormat::UNKNOWN,
            r.temporal_layer == 1u32,
            r.flags == RESOURCE_VIEW_FLAG_NONE,
            r.offset == 0u64,
            r.size_in_bytes == 0u64,
            r.stride == 0u32,
            r.wf(),
    {
        Buffer {
            resource: u32::MAX,
            view_format: RpsFormat::UNKNOWN,
            temporal_layer: 1,
            flags: RESOURCE_VIEW_FLAG_NONE,
            offset: 0,
            size_in_bytes: 0,
            stride: 0,
        }
    }
}

/// A texture view: a handle to a graph-managed image together with the
/// subresource range and format through which a node accesses it.
#[derive(Clone, Copy, PartialEq, Eq, Structural, Debug)]
pub struct Texture {
    /// The resource handle of the texture view.
    pub resource: u32,
    /// The format of the texture view; `UNKNOWN` inherits the resource format.
    pub view_format: RpsFormat,
    /// The temporal layer of the texture view.
    pub temporal_layer: u32,
    /// The flags of the texture view.
    pub flags: u32,
    /// The subresource range of the texture view.
    pub subresource_range: SubResourceRange,
    /// The color component (RGBA channel) mapping of the view.
    pub component_mapping: u32,
}

impl Texture {
    /// The resource handle this view refers to.
    pub open spec fn spec_id(self) -> u32 {
        self.resource
    }

    /// How many array layers a fresh view of a resource exposes: the full
    /// layer count for 1D and 2D images, one layer otherwise.
    pub open spec fn spec_full_array_layers(dimension: ResourceType, layers: u32) -> u32 {
        match dimension {
            ResourceType::IMAGE_1D | ResourceType::IMAGE_2D => layers,
            _ => 1u32,
        }
    }

    /// The request that creating a texture sends to the host; the 64-bit
    /// width field is truncated to the 32 bits the wire carries.
    pub open spec fn spec_create_request(desc: ResourceDesc, flags: u32, id: u32) -> ResourceCreateRequest {
        ResourceCreateRequest {
            res_type: desc.dimension,
            flags,
            format: desc.format,
            width: desc.width as u32,
            height: desc.height,
            depth_or_array_size: desc.depth_or_array_size,
            mip_levels: desc.mip_levels,
            sample_count: desc.sample_desc.count,
            sample_quality: desc.sample_desc.quality,
            temporal_layers: desc.temporal_layers,
            id,
        }
    }

    /// The view a fresh texture creation hands back, given the handle the
    /// host assigned: all mips, and all layers for 1D and 2D images.
    pub open spec fn spec_from_handle(h_res: u32, desc: ResourceDesc) -> Texture {
        Texture {
            resource: h_res,
            view_format: RpsFormat::UNKNOWN,
            temporal_layer: 0,
            flags: RESOURCE_VIEW_FLAG_NONE,
            subresource_range: SubResourceRange {
                base_mip: 0,
                num_mips: desc.mip_levels as u16,
                base_array_slice: 0,
                num_array_layers: Texture::spec_full_array_layers(
                    desc.dimension,
                    desc.depth_or_array_size,
                ),
            },
            component_mapping: COMPONENT_MAPPING_DEFAULT,
        }
    }

    /// The null texture view.
    pub fn null() -> (r: Self)
        ensures
            r.spec_id() == u32::MAX,
            r.view_format == RpsFormat::UNKNOWN,
            r.temporal_layer == 0u32,
            r.flags == RESOURCE_VIEW_FLAG_NONE,
            r.subresource_range == (SubResourceRange {
                base_mip: 0u16,
                num_mips: 0u16,
                base_array_slice: 0u32,
                num_array_layers: 0u32,
            }),
            r.component_mapping == 0u32,
    {
        Texture {
            resource: u32::MAX,
            view_format: RpsFormat::UNKNOWN,
            temporal_layer: 0,
            flags: RESOURCE_VIEW_FLAG_NONE,
            subresource_range: SubResourceRange {
                base_mip: 0,
                num_mips: 0,
                base_array_slice: 0,
                num_array_layers: 0,
            },
            component_mapping: 0,
        }
    }

    /// Creates a texture resource: records the creation on the trace and
    /// hands back a full view of the created resource.
    pub fn new(trace: &mut Trace, desc: ResourceDesc, flags: u32, id: u32) -> (r: Texture)
        requires
            count_creations(old(trace).events@) < u32::MAX,
        ensures
            final(trace).events@ == old(trace).events@.push(
                TraceEvent::CreateResource(Texture::spec_create_request(desc, flags, id)),
            ),
            r == Texture::spec_from_handle(count_creations(old(trace).events@) as u32, desc),
    {
        let req = ResourceCreateRequest {
            res_type: desc.dimension,
            flags,
            format: desc.format,
            width: desc.width as u32,
            height: desc.height,
            depth_or_array_size: desc.depth_or_array_size,
            mip_levels: desc.mip_levels,
            sample_count: desc.sample_desc.count,
            sample_quality: desc.sample_desc.quality,
            temporal_layers: desc.temporal_layers,
            id,
        };
        let h_res = trace.create_resource(req);
        Texture::from_handle(h_res, desc)
    }

    /// The full view of an already-created resource.
    pub fn from_handle(h_res: u32, desc: ResourceDesc) -> (r: Texture)
        ensures
            r == Texture::spec_from_handle(h_res, desc),
    {
        let num_array_layers = match desc.dimension {
            ResourceType::IMAGE_1D | ResourceType::IMAGE_2D => desc.depth_or_array_size,
            _ => 1,
        };
        Texture {
            resource: h_res,
            view_format: RpsFormat::UNKNOWN,
            temporal_layer: 0,
            flags: RESOURCE_VIEW_FLAG_NONE,
            subresource_range: SubResourceRange {
                base_mip: 0,
                num_mips: desc.mip_levels as u16,
                base_array_slice: 0,
                num_array_layers,
            },
            component_mapping: COMPONENT_MAPPING_DEFAULT,
        }
    }

    /// The full view of the resource a host-provided description record
    /// describes, keeping the record's format on the view.
    pub fn from_c_desc(res_desc: &CRpsResourceDesc, res_id: u32) -> (r: Texture)
        ensures
            r == (Texture {
                view_format: res_desc.image_format,
                ..Texture::spec_from_handle(res_id, res_desc.spec_to_resource_desc())
            }),
    {
        let num_array_layers = match res_desc.resource_type {
            ResourceType::IMAGE_1D | ResourceType::IMAGE_2D => res_desc.image_depth_or_array_layers,
            _ => 1,
        };
        Texture {
            resource: res_id,
            view_format: res_desc.image_format,
            temporal_layer: 0,
            flags: RESOURCE_VIEW_FLAG_NONE,
            subresource_range: SubResourceRange {
                base_mip: 0,
                num_mips: res_desc.image_mip_levels as u16,
                base_array_slice: 0,
                num_array_layers,
            },
            component_mapping: COMPONENT_MAPPING_DEFAULT,
        }
    }

    /// Full views for a run of consecutively numbered resources described by
    /// `res_desc`, starting at handle `res_id`.
    pub fn from_c_desc_array(res_desc: &[CRpsResourceDesc], res_id: u32) -> (r: Vec<Texture>)
        requires
            res_id + res_desc@.len() <= u32::MAX,
        ensures
            r@.len() == res_desc@.len(),
            forall|i: int|
                0 <= i < r@.len() ==> r@[i] == (Texture {
                    view_format: res_desc@[i].image_format,
                    ..Texture::spec_from_handle(
                        (res_id + i) as u32,
                        res_desc@[i].spec_to_resource_desc(),
                    )
                }),
    {
        let mut out: Vec<Texture> = Vec::new();
        let mut i: usize = 0;
        while i < res_desc.len()
            invariant
                i <= res_desc@.len(),
                res_id + res_desc@.len() <= u32::MAX,
                out@.len() == i,
                forall|j: int|
                    0 <= j < i as int ==> out@[j] == (Texture {
                        view_format: res_desc@[j].image_format,
                        ..Texture::spec_from_handle(
                            (res_id + j) as u32,
                            res_desc@[j].spec_to_resource_desc(),
                        )
                    }),
            decreases res_desc@.len() - i,
        {
            out.push(Texture::from_c_desc(&res_desc[i], res_id + (i as u32)));
            i = i + 1;
        }
        out
    }

    /// A view of one array slice.
    pub fn array_slice(&self, base_slice: u32) -> (r: Self)
        ensures
            r == (Texture {
                subresource_range: SubResourceRange {
                    base_array_slice: base_slice,
                    num_array_layers: 1u32,
                    ..self.subresource_range
                },
                ..*self
            }),
    {
        Texture {
            subresource_range: SubResourceRange {
                base_array_slice: base_slice,
                num_array_layers: 1,
                ..self.subresource_range
            },
            ..*self
        }
    }

    /// A view of a run of array slices.
    pub fn array(&self, base_slice: u32, num_slices: u32) -> (r: Self)
        ensures
            r == (Texture {
                subresource_range: SubResourceRange {
                    base_array_slice: base_slice,
                    num_array_layers: num_slices,
                    ..self.subresource_range
                },
                ..*self
            }),
    {
        Texture {
            subresource_range: SubResourceRange {
                base_array_slice: base_slice,
                num_array_layers: num_slices,
                ..self.subresource_range
            },
            ..*self
        }
    }

    /// A view of one mip level; the level index is truncated to the 16 bits
    /// the range record carries.
    pub fn mip_level(&self, base_mip: u32) -> (r: Self)
        ensures
            r == (Texture {
                subresource_range: SubResourceRange {
                    base_mip: base_mip as u16,
                    num_mips: 1u16,
                    ..self.subresource_range
                },
                ..*self
            }),
    {
        Texture {
            subresource_range: SubResourceRange {
                base_mip: base_mip as u16,
                num_mips: 1,
                ..self.subresource_range
            },
            ..*self
        }
    }

    /// A view of a run of mip levels; both counts are truncated to 16 bits.
    pub fn mips(&self, base_mip: u32, num_mips: u32) -> (r: Self)
        ensures
            r == (Texture {
                subresource_range: SubResourceRange {
                    base_mip: base_mip as u16,
                    num_mips: num_mips as u16,
                    ..self.subresource_range
                },
                ..*self
            }),
    {
        Texture {
            subresource_range: SubResourceRange {
                base_mip: base_mip as u16,
                num_mips: num_mips as u16,
                ..self.subresource_range
            },
            ..*self
        }
    }

    /// The same view seen through format `fmt`.
    pub fn format(&self, fmt: RpsFormat) -> (r: Self)
        ensures
            r == (Texture { view_format: fmt, ..*self }),
    {
        Texture { view_format: fmt, ..*self }
    }

    /// The same view of temporal layer `layer`.
    pub fn temporal(&self, layer: u32) -> (r: Self)
        ensures
            r == (Texture { temporal_layer: layer, ..*self }),
    {
        Texture { temporal_layer: layer, ..*self }
    }

    /// The resource handle this view refers to.
    pub fn id(&self) -> (r: u32)
        ensures
            r == self.spec_id(),
    {
        self.resource
    }

    /// Attaches a diagnostic name to the viewed resource.
    pub fn set_name(&self, trace: &mut Trace, name: &[u8])
        ensures
            final(trace).events@.len() == old(trace).events@.len() + 1,
            final(trace).events@.drop_last() == old(trace).events@,
            final(trace).events@.last() matches TraceEvent::NameResource { resource_hdl, name: n }
                && resource_hdl == self.spec_id() && n@ == name@,
    {
        trace.name_resource(self.resource, name);
    }
}

impl Default for Texture {
    /// The invalid-handle default view.
    fn default() -> (r: Self)
        ensures
            r.spec_id() == u32::MAX,
            r.view_format == RpsFormat::UNKNOWN,
            r.temporal_layer == 1u32,
            r.flags == RESOURCE_VIEW_FLAG_NONE,
            r.subresource_range == (SubResourceRange {
                base_mip: 0u16,
                num_mips: 1u16,
                base_array_slice: 0u32,
                num_array_layers: 1u32,
            }),
            r.component_mapping == COMPONENT_MAPPING_DEFAULT,
    {
        Texture {
            resource: u32::MAX,
            view_format: RpsFormat::UNKNOWN,
            temporal_layer: 1,
            flags: RESOURCE_VIEW_FLAG_NONE,
            subresource_range: SubResourceRange {
                base_mip: 0,
                num_mips: 1,
                base_array_slice: 0,
                num_array_layers: 1,
            },
            component_mapping: COMPONENT_MAPPING_DEFAULT,
        }
    }
}

/// How a multisampled resolve combines samples.
#[derive(Clone, Copy, PartialEq, Eq, Structural, Debug)]
#[allow(non_camel_case_types)]
pub enum RpsResolveMode {
    /// Average of the samples.
    AVERAGE,
    /// Minimum of the samples.
    MIN,
    /// Maximum of the samples.
    MAX,
    /// Sampler-feedback encode.
    ENCODE_SAMPLER_FEEDBACK,
    /// Sampler-feedback decode.
    DECODE_SAMPLER_FEEDBACK,
}


/// The wire size of a buffer view record.
pub const BUFFER_VIEW_WIRE_SIZE: u16 = 40;

/// The wire size of a texture view record.
pub const TEXTURE_VIEW_WIRE_SIZE: u16 = 36;

impl RpsTypeInfoTrait for Buffer {
    open spec fn spec_rps_type_info() -> CRpsTypeInfo {
        CRpsTypeInfo {
            size: BUFFER_VIEW_WIRE_SIZE,
            id: RpsBuiltInTypeIds::RPS_TYPE_BUFFER_VIEW.spec_value(),
        }
    }

    open spec fn spec_rps_array_len() -> u32 {
        0
    }

    fn rps_type_info() -> (r: CRpsTypeInfo) {
        CRpsTypeInfo {
            size: BUFFER_VIEW_WIRE_SIZE,
            id: RpsBuiltInTypeIds::RPS_TYPE_BUFFER_VIEW.value(),
        }
    }

    fn rps_array_len() -> (r: u32) {
        0
    }
}

impl RpsTypeInfoTrait for &Buffer {
    open spec fn spec_rps_type_info() -> CRpsTypeInfo {
        CRpsTypeInfo {
            size: BUFFER_VIEW_WIRE_SIZE,
            id: RpsBuiltInTypeIds::RPS_TYPE_BUFFER_VIEW.spec_value(),
        }
    }

    open spec fn spec_rps_array_len() -> u32 {
        0
    }

    fn rps_type_info() -> (r: CRpsTypeInfo) {
        CRpsTypeInfo {
            size: BUFFER_VIEW_WIRE_SIZE,
            id: RpsBuiltInTypeIds::RPS_TYPE_BUFFER_VIEW.value(),
        }
    }

    fn rps_array_len() -> (r: u32) {
        0
    }
}

impl RpsTypeInfoTrait for Texture {
    open spec fn spec_rps_type_info() -> CRpsTypeInfo {
        CRpsTypeInfo {
            size: TEXTURE_VIEW_WIRE_SIZE,
            id: RpsBuiltInTypeIds::RPS_TYPE_IMAGE_VIEW.spec_value(),
        }
    }

    open spec fn spec_rps_array_len() -> u32 {
        0
    }

    fn rps_type_info() -> (r: CRpsTypeInfo) {
        CRpsTypeInfo {
            size: TEXTURE_VIEW_WIRE_SIZE,
            id: RpsBuiltInTypeIds::RPS_TYPE_IMAGE_VIEW.value(),
        }
    }

    fn rps_array_len() -> (r: u32) {
        0
    }
}

impl RpsTypeInfoTrait for &Texture {
    open spec fn spec_rps_type_info() -> CRpsTypeInfo {
        CRpsTypeInfo {
            size: TEXTURE_VIEW_WIRE_SIZE,
            id: RpsBuiltInTypeIds::RPS_TYPE_IMAGE_VIEW.spec_value(),
        }
    }

    open spec fn spec_rps_array_len() -> u32 {
        0
    }

    fn rps_type_info() -> (r: CRpsTypeInfo) {
        CRpsTypeInfo {
            size: TEXTURE_VIEW_WIRE_SIZE,
            id: RpsBuiltInTypeIds::RPS_TYPE_IMAGE_VIEW.value(),
        }
    }

    fn rps_array_len() -> (r: u32) {
        0
    }
}

} // verus!
