//! The runtime marker protocol: the events an instrumented entry procedure
//! emits while it executes, and the reflection records that describe node
//! parameters to the scheduler.
//!
//! The host consumes these events through its callback interface; here the
//! emission side is modelled explicitly as an append-only event log
//! ([`Trace`]), so that everything said about the protocol can be verified.
//! Forwarding each recorded event to the host is left to unverified glue.

use vstd::prelude::*;

use crate::rps_types::ResourceType;
use crate::rps_types::RpsFormat;
use crate::rps_types::ResourceDesc;
use crate::rps_types::SampleDesc;

verus! {

/// The four marker kinds of the block protocol.
#[derive(Clone, Copy, PartialEq, Eq, Structural, Debug)]
pub enum MarkerKind {
    /// Whole-procedure summary, emitted once at entry.
    FunctionInfo,
    /// Loop block summary, emitted once per static loop site.
    LoopBegin,
    /// Fired at the start of every dynamic iteration.
    LoopIteration,
    /// Fired once when the loop's scope exits.
    LoopEnd,
}

impl MarkerKind {
    /// The numeric code used on the wire.
    pub open spec fn spec_code(self) -> u32 {
        match self {
            MarkerKind::FunctionInfo => 0,
            MarkerKind::LoopBegin => 1,
            MarkerKind::LoopIteration => 2,
            MarkerKind::LoopEnd => 3,
        }
    }

    /// The numeric code used on the wire.
    pub fn code(self) -> (c: u32)
        ensures
            c == self.spec_code(),
    {
        match self {
            MarkerKind::FunctionInfo => 0,
            MarkerKind::LoopBegin => 1,
            MarkerKind::LoopIteration => 2,
            MarkerKind::LoopEnd => 3,
        }
    }
}

/// Sentinel for "no parent block" and other unused marker parameters.
pub const NO_PARENT: u32 = u32::MAX;

/// One block marker, with the full parameter list of the protocol.
#[derive(Clone, Copy, PartialEq, Eq, Structural, Debug)]
pub struct MarkerEvent {
    pub kind: MarkerKind,
    pub block_id: u32,
    pub resource_count: u32,
    pub node_count: u32,
    pub local_loop_index: u32,
    pub num_children: u32,
    pub parent_id: u32,
}

impl MarkerEvent {
    /// A marker whose only meaningful parameter is the block id
    /// (loop-iteration and loop-end markers).
    pub open spec fn spec_block_only(kind: MarkerKind, block_id: u32) -> MarkerEvent {
        MarkerEvent {
            kind,
            block_id,
            resource_count: 0,
            node_count: 0,
            local_loop_index: 0,
            num_children: 0,
            parent_id: NO_PARENT,
        }
    }

    /// A marker whose only meaningful parameter is the block id.
    pub fn block_only(kind: MarkerKind, block_id: u32) -> (ev: MarkerEvent)
        ensures
            ev == MarkerEvent::spec_block_only(kind, block_id),
    {
        MarkerEvent {
            kind,
            block_id,
            resource_count: 0,
            node_count: 0,
            local_loop_index: 0,
            num_children: 0,
            parent_id: NO_PARENT,
        }
    }
}

/// The argument list of one resource-creation call into the host.
#[derive(Clone, Copy, PartialEq, Eq, Structural, Debug)]
pub struct ResourceCreateRequest {
    pub res_type: ResourceType,
    pub flags: u32,
    pub format: RpsFormat,
    pub width: u32,
    pub height: u32,
    pub depth_or_array_size: u32,
    pub mip_levels: u32,
    pub sample_count: u32,
    pub sample_quality: u32,
    pub temporal_layers: u32,
    pub id: u32,
}

/// One call into the host, as seen by the scheduler.
#[derive(Clone, PartialEq, Eq, Debug)]
pub enum TraceEvent {
    /// A block marker.
    Marker(MarkerEvent),
    /// One node invocation, with its declaration id, argument count and
    /// block-local call index.
    NodeCall { node_decl_id: u32, num_args: u32, node_local_id: u32 },
    /// One resource creation.
    CreateResource(ResourceCreateRequest),
    /// A diagnostic name attached to a created resource.
    NameResource { resource_hdl: u32, name: Vec<u8> },
}

/// How many node calls a prefix of the log contains.
pub open spec fn count_node_calls(events: Seq<TraceEvent>) -> nat
    decreases events,
{
    if events.len() == 0 {
        0
    } else {
        count_node_calls(events.drop_last()) + if events.last() is NodeCall {
            1nat
        } else {
            0nat
        }
    }
}

/// How many resource creations a prefix of the log contains.
pub open spec fn count_creations(events: Seq<TraceEvent>) -> nat
    decreases events,
{
    if events.len() == 0 {
        0
    } else {
        count_creations(events.drop_last()) + if events.last() is CreateResource {
            1nat
        } else {
            0nat
        }
    }
}

/// The event log of one executing entry procedure.
///
/// Markers, node calls and resource creations are appended in the order in
/// which the host would observe them; node calls and resource creations are
/// numbered monotonically by their position among events of the same kind.
pub struct Trace {
    pub events: Vec<TraceEvent>,
}

impl Trace {
    /// The empty log.
    pub fn new() -> (t: Trace)
        ensures
            t.events@ =~= Seq::<TraceEvent>::empty(),
    {
        Trace { events: Vec::new() }
    }

    /// Appends one block marker.
    pub fn block_marker(&mut self, ev: MarkerEvent)
        ensures
            final(self).events@ == old(self).events@.push(TraceEvent::Marker(ev)),
    {
        self.events.push(TraceEvent::Marker(ev));
    }

    /// Appends one node call and hands back its process-wide running number.
    pub fn node_call(&mut self, node_decl_id: u32, num_args: u32, node_local_id: u32) -> (n: u32)
        requires
            count_node_calls(old(self).events@) < u32::MAX,
        ensures
            final(self).events@ == old(self).events@.push(
                TraceEvent::NodeCall { node_decl_id, num_args, node_local_id },
            ),
            n == count_node_calls(old(self).events@),
    {
        let n = self.count_node_calls_so_far();
        self.events.push(TraceEvent::NodeCall { node_decl_id, num_args, node_local_id });
        proof {
            assert(self.events@.drop_last() =~= old(self).events@);
        }
        n
    }

    /// Appends one resource creation and hands back the handle the model
    /// assigns to it: its running number among creations.
    pub fn create_resource(&mut self, req: ResourceCreateRequest) -> (h: u32)
        requires
            count_creations(old(self).events@) < u32::MAX,
        ensures
            final(self).events@ == old(self).events@.push(TraceEvent::CreateResource(req)),
            h == count_creations(old(self).events@),
    {
        let h = self.count_creations_so_far();
        self.events.push(TraceEvent::CreateResource(req));
        proof {
            assert(self.events@.drop_last() =~= old(self).events@);
        }
        h
    }

    /// Appends one resource-naming notification.
    pub fn name_resource(&mut self, resource_hdl: u32, name: &[u8])
        ensures
            final(self).events@.len() == old(self).events@.len() + 1,
            final(self).events@.drop_last() == old(self).events@,
            final(self).events@.last() matches TraceEvent::NameResource {
                resource_hdl: h,
                name: n,
            } && h == resource_hdl && n@ == name@,
    {
        let mut owned: Vec<u8> = Vec::new();
        let mut i: usize = 0;
        while i < name.len()
            invariant
                i <= name.len(),
                owned@ =~= name@.take(i as int),
            decreases name.len() - i,
        {
            owned.push(name[i]);
            proof {
                assert(owned@ =~= name@.take(i + 1 as int));
            }
            i = i + 1;
        }
        proof {
            assert(owned@ =~= name@);
        }
        self.events.push(TraceEvent::NameResource { resource_hdl, name: owned });
        proof {
            assert(self.events@.drop_last() =~= old(self).events@);
        }
    }

    fn count_node_calls_so_far(&self) -> (n: u32)
        requires
            count_node_calls(self.events@) < u32::MAX,
        ensures
            n == count_node_calls(self.events@),
    {
        let mut n: u32 = 0;
        let mut i: usize = 0;
        while i < self.events.len()
            invariant
                i <= self.events@.len(),
                n == count_node_calls(self.events@.take(i as int)),
                count_node_calls(self.events@) < u32::MAX,
            decreases self.events@.len() - i,
        {
            proof {
                assert(self.events@.take(i + 1 as int).drop_last() =~= self.events@.take(i as int));
                lemma_count_node_calls_prefix_le(self.events@, i + 1 as int);
            }
            let is_call = match &self.events[i] {
                TraceEvent::NodeCall { .. } => true,
                _ => false,
            };
            if is_call {
                n = n + 1;
            }
            i = i + 1;
        }
        proof {
            assert(self.events@.take(self.events@.len() as int) =~= self.events@);
        }
        n
    }

    fn count_creations_so_far(&self) -> (n: u32)
        requires
            count_creations(self.events@) < u32::MAX,
        ensures
            n == count_creations(self.events@),
    {
        let mut n: u32 = 0;
        let mut i: usize = 0;
        while i < self.events.len()
            invariant
                i <= self.events@.len(),
                n == count_creations(self.events@.take(i as int)),
                count_creations(self.events@) < u32::MAX,
            decreases self.events@.len() - i,
        {
            proof {
                assert(self.events@.take(i + 1 as int).drop_last() =~= self.events@.take(i as int));
                lemma_count_creations_prefix_le(self.events@, i + 1 as int);
            }
            let is_creation = match &self.events[i] {
                TraceEvent::CreateResource(..) => true,
                _ => false,
            };
            if is_creation {
                n = n + 1;
            }
            i = i + 1;
        }
        proof {
            assert(self.events@.take(self.events@.len() as int) =~= self.events@);
        }
        n
    }
}

/// A prefix of the log never holds more node calls than the whole log.
proof fn lemma_count_node_calls_prefix_le(events: Seq<TraceEvent>, k: int)
    requires
        0 <= k <= events.len(),
    ensures
        count_node_calls(events.take(k)) <= count_node_calls(events),
    decreases events.len() - k,
{
    if k < events.len() {
        lemma_count_node_calls_prefix_le(events, k + 1);
        assert(events.take(k + 1).drop_last() =~= events.take(k));
    } else {
        assert(events.take(k) =~= events);
    }
}

/// A prefix of the log never holds more resource creations than the whole log.
proof fn lemma_count_creations_prefix_le(events: Seq<TraceEvent>, k: int)
    requires
        0 <= k <= events.len(),
    ensures
        count_creations(events.take(k)) <= count_creations(events),
    decreases events.len() - k,
{
    if k < events.len() {
        lemma_count_creations_prefix_le(events, k + 1);
        assert(events.take(k + 1).drop_last() =~= events.take(k));
    } else {
        assert(events.take(k) =~= events);
    }
}

/// The resource description record handed back by the host when a resource
/// handle is queried.
#[derive(Clone, Copy, PartialEq, Eq, Structural, Debug)]
pub struct CRpsResourceDesc {
    pub resource_type: ResourceType,
    pub temporal_layers: u32,
    pub flags: u32,
    pub image_width_or_buffer_size_lo: u32,
    pub image_height_or_buffer_size_hi: u32,
    pub image_depth_or_array_layers: u32,
    pub image_mip_levels: u32,
    pub image_format: RpsFormat,
    pub image_sample_count: u32,
}

impl CRpsResourceDesc {
    /// What the packed record means as a plain resource description.
    pub open spec fn spec_to_resource_desc(self) -> ResourceDesc {
        ResourceDesc {
            dimension: self.resource_type,
            format: self.image_format,
            width: match self.resource_type {
                ResourceType::BUFFER => (self.image_width_or_buffer_size_lo as u64) | (
                (self.image_height_or_buffer_size_hi as u64) << 32),
                _ => self.image_width_or_buffer_size_lo as u64,
            },
            height: match self.resource_type {
                ResourceType::BUFFER | ResourceType::IMAGE_1D => 1u32,
                _ => self.image_height_or_buffer_size_hi,
            },
            depth_or_array_size: self.image_depth_or_array_layers,
            mip_levels: self.image_mip_levels,
            sample_desc: SampleDesc { count: self.image_sample_count, quality: 0 },
            temporal_layers: self.temporal_layers,
        }
    }

    /// Unpacks the record: a buffer's 64-bit size is split over the width and
    /// height fields; images carry their extent directly.
    pub fn to_resource_desc(self) -> (r: ResourceDesc)
        ensures
            r == self.spec_to_resource_desc(),
    {
        ResourceDesc {
            dimension: self.resource_type,
            format: self.image_format,
            width: match self.resource_type {
                ResourceType::BUFFER => (self.image_width_or_buffer_size_lo as u64) | (
                (self.image_height_or_buffer_size_hi as u64) << 32),
                _ => self.image_width_or_buffer_size_lo as u64,
            },
            height: match self.resource_type {
                ResourceType::BUFFER | ResourceType::IMAGE_1D => 1u32,
                _ => self.image_height_or_buffer_size_hi,
            },
            depth_or_array_size: self.image_depth_or_array_layers,
            mip_levels: self.image_mip_levels,
            sample_desc: SampleDesc { count: self.image_sample_count, quality: 0 },
            temporal_layers: self.temporal_layers,
        }
    }
}

/// The size and id of a parameter's wire type.
#[derive(Clone, Copy, PartialEq, Eq, Structural, Debug)]
pub struct CRpsTypeInfo {
    pub size: u16,
    pub id: u16,
}

/// Ids of the built-in wire types.
#[allow(non_camel_case_types)]
#[derive(Clone, Copy, PartialEq, Eq, Structural, Debug)]
pub enum RpsBuiltInTypeIds {
    RPS_TYPE_OPAQUE,
    RPS_TYPE_BUILT_IN_BOOL,
    RPS_TYPE_BUILT_IN_INT8,
    RPS_TYPE_BUILT_IN_UINT8,
    RPS_TYPE_BUILT_IN_INT16,
    RPS_TYPE_BUILT_IN_UINT16,
    RPS_TYPE_BUILT_IN_INT32,
    RPS_TYPE_BUILT_IN_UINT32,
    RPS_TYPE_BUILT_IN_INT64,
    RPS_TYPE_BUILT_IN_UINT64,
    RPS_TYPE_BUILT_IN_FLOAT32,
    RPS_TYPE_BUILT_IN_FLOAT64,
    RPS_TYPE_IMAGE_VIEW,
    RPS_TYPE_BUFFER_VIEW,
}

impl RpsBuiltInTypeIds {
    /// The numeric id of the built-in type; view types start at 64.
    pub open spec fn spec_value(self) -> u16 {
        match self {
            RpsBuiltInTypeIds::RPS_TYPE_OPAQUE => 0,
            RpsBuiltInTypeIds::RPS_TYPE_BUILT_IN_BOOL => 1,
            RpsBuiltInTypeIds::RPS_TYPE_BUILT_IN_INT8 => 2,
            RpsBuiltInTypeIds::RPS_TYPE_BUILT_IN_UINT8 => 3,
            RpsBuiltInTypeIds::RPS_TYPE_BUILT_IN_INT16 => 4,
            RpsBuiltInTypeIds::RPS_TYPE_BUILT_IN_UINT16 => 5,
            RpsBuiltInTypeIds::RPS_TYPE_BUILT_IN_INT32 => 6,
            RpsBuiltInTypeIds::RPS_TYPE_BUILT_IN_UINT32 => 7,
            RpsBuiltInTypeIds::RPS_TYPE_BUILT_IN_INT64 => 8,
            RpsBuiltInTypeIds::RPS_TYPE_BUILT_IN_UINT64 => 9,
            RpsBuiltInTypeIds::RPS_TYPE_BUILT_IN_FLOAT32 => 10,
            RpsBuiltInTypeIds::RPS_TYPE_BUILT_IN_FLOAT64 => 11,
            RpsBuiltInTypeIds::RPS_TYPE_IMAGE_VIEW => 64,
            RpsBuiltInTypeIds::RPS_TYPE_BUFFER_VIEW => 65,
        }
    }

    /// The numeric id of the built-in type; view types start at 64.
    pub fn value(self) -> (v: u16)
        ensures
            v == self.spec_value(),
    {
        match self {
            RpsBuiltInTypeIds::RPS_TYPE_OPAQUE => 0,
            RpsBuiltInTypeIds::RPS_TYPE_BUILT_IN_BOOL => 1,
            RpsBuiltInTypeIds::RPS_TYPE_BUILT_IN_INT8 => 2,
            RpsBuiltInTypeIds::RPS_TYPE_BUILT_IN_UINT8 => 3,
            RpsBuiltInTypeIds::RPS_TYPE_BUILT_IN_INT16 => 4,
            RpsBuiltInTypeIds::RPS_TYPE_BUILT_IN_UINT16 => 5,
            RpsBuiltInTypeIds::RPS_TYPE_BUILT_IN_INT32 => 6,
            RpsBuiltInTypeIds::RPS_TYPE_BUILT_IN_UINT32 => 7,
            RpsBuiltInTypeIds::RPS_TYPE_BUILT_IN_INT64 => 8,
            RpsBuiltInTypeIds::RPS_TYPE_BUILT_IN_UINT64 => 9,
            RpsBuiltInTypeIds::RPS_TYPE_BUILT_IN_FLOAT32 => 10,
            RpsBuiltInTypeIds::RPS_TYPE_BUILT_IN_FLOAT64 => 11,
            RpsBuiltInTypeIds::RPS_TYPE_IMAGE_VIEW => 64,
            RpsBuiltInTypeIds::RPS_TYPE_BUFFER_VIEW => 65,
        }
    }
}

/// Types that can travel as node or entry arguments describe their wire type
/// through this trait.
pub trait RpsTypeInfoTrait: Sized {
    /// The wire type of `Self`, as a spec value.
    spec fn spec_rps_type_info() -> CRpsTypeInfo;

    /// The element count `Self` contributes when it stands for an array
    /// parameter; zero for non-array types.
    spec fn spec_rps_array_len() -> u32;

    /// The wire type of `Self`.
    fn rps_type_info() -> (r: CRpsTypeInfo)
        ensures
            r == Self::spec_rps_type_info(),
    ;

    /// The element count `Self` contributes as an array parameter.
    fn rps_array_len() -> (r: u32)
        ensures
            r == Self::spec_rps_array_len(),
    ;
}

/// The wire types of the plain built-in value types.

impl RpsTypeInfoTrait for bool {
    open spec fn spec_rps_type_info() -> CRpsTypeInfo {
        CRpsTypeInfo {
            size: 1,
            id: RpsBuiltInTypeIds::RPS_TYPE_BUILT_IN_BOOL.spec_value(),
        }
    }

    open spec fn spec_rps_array_len() -> u32 {
        0
    }

    fn rps_type_info() -> (r: CRpsTypeInfo) {
        CRpsTypeInfo { size: 1, id: RpsBuiltInTypeIds::RPS_TYPE_BUILT_IN_BOOL.value() }
    }

    fn rps_array_len() -> (r: u32) {
        0
    }
}

impl RpsTypeInfoTrait for i8 {
    open spec fn spec_rps_type_info() -> CRpsTypeInfo {
        CRpsTypeInfo {
            size: 1,
            id: RpsBuiltInTypeIds::RPS_TYPE_BUILT_IN_INT8.spec_value(),
        }
    }

    open spec fn spec_rps_array_len() -> u32 {
        0
    }

    fn rps_type_info() -> (r: CRpsTypeInfo) {
        CRpsTypeInfo { size: 1, id: RpsBuiltInTypeIds::RPS_TYPE_BUILT_IN_INT8.value() }
    }

    fn rps_array_len() -> (r: u32) {
        0
    }
}

impl RpsTypeInfoTrait for u8 {
    open spec fn spec_rps_type_info() -> CRpsTypeInfo {
        CRpsTypeInfo {
            size: 1,
            id: RpsBuiltInTypeIds::RPS_TYPE_BUILT_IN_UINT8.spec_value(),
        }
    }

    open spec fn spec_rps_array_len() -> u32 {
        0
    }

    fn rps_type_info() -> (r: CRpsTypeInfo) {
        CRpsTypeInfo { size: 1, id: RpsBuiltInTypeIds::RPS_TYPE_BUILT_IN_UINT8.value() }
    }

    fn rps_array_len() -> (r: u32) {
        0
    }
}

impl RpsTypeInfoTrait for i16 {
    open spec fn spec_rps_type_info() -> CRpsTypeInfo {
        CRpsTypeInfo {
            size: 2,
            id: RpsBuiltInTypeIds::RPS_TYPE_BUILT_IN_INT16.spec_value(),
        }
    }

    open spec fn spec_rps_array_len() -> u32 {
        0
    }

    fn rps_type_info() -> (r: CRpsTypeInfo) {
        CRpsTypeInfo { size: 2, id: RpsBuiltInTypeIds::RPS_TYPE_BUILT_IN_INT16.value() }
    }

    fn rps_array_len() -> (r: u32) {
        0
    }
}

impl RpsTypeInfoTrait for u16 {
    open spec fn spec_rps_type_info() -> CRpsTypeInfo {
        CRpsTypeInfo {
            size: 2,
            id: RpsBuiltInTypeIds::RPS_TYPE_BUILT_IN_UINT16.spec_value(),
        }
    }

    open spec fn spec_rps_array_len() -> u32 {
        0
    }

    fn rps_type_info() -> (r: CRpsTypeInfo) {
        CRpsTypeInfo { size: 2, id: RpsBuiltInTypeIds::RPS_TYPE_BUILT_IN_UINT16.value() }
    }

    fn rps_array_len() -> (r: u32) {
        0
    }
}

impl RpsTypeInfoTrait for i32 {
    open spec fn spec_rps_type_info() -> CRpsTypeInfo {
        CRpsTypeInfo {
            size: 4,
            id: RpsBuiltInTypeIds::RPS_TYPE_BUILT_IN_INT32.spec_value(),
        }
    }

    open spec fn spec_rps_array_len() -> u32 {
        0
    }

    fn rps_type_info() -> (r: CRpsTypeInfo) {
        CRpsTypeInfo { size: 4, id: RpsBuiltInTypeIds::RPS_TYPE_BUILT_IN_INT32.value() }
    }

    fn rps_array_len() -> (r: u32) {
        0
    }
}

impl RpsTypeInfoTrait for u32 {
    open spec fn spec_rps_type_info() -> CRpsTypeInfo {
        CRpsTypeInfo {
            size: 4,
            id: RpsBuiltInTypeIds::RPS_TYPE_BUILT_IN_UINT32.spec_value(),
        }
    }

    open spec fn spec_rps_array_len() -> u32 {
        0
    }

    fn rps_type_info() -> (r: CRpsTypeInfo) {
        CRpsTypeInfo { size: 4, id: RpsBuiltInTypeIds::RPS_TYPE_BUILT_IN_UINT32.value() }
    }

    fn rps_array_len() -> (r: u32) {
        0
    }
}

impl RpsTypeInfoTrait for i64 {
    open spec fn spec_rps_type_info() -> CRpsTypeInfo {
        CRpsTypeInfo {
            size: 8,
            id: RpsBuiltInTypeIds::RPS_TYPE_BUILT_IN_INT64.spec_value(),
        }
    }

    open spec fn spec_rps_array_len() -> u32 {
        0
    }

    fn rps_type_info() -> (r: CRpsTypeInfo) {
        CRpsTypeInfo { size: 8, id: RpsBuiltInTypeIds::RPS_TYPE_BUILT_IN_INT64.value() }
    }

    fn rps_array_len() -> (r: u32) {
        0
    }
}

impl RpsTypeInfoTrait for u64 {
    open spec fn spec_rps_type_info() -> CRpsTypeInfo {
        CRpsTypeInfo {
            size: 8,
            id: RpsBuiltInTypeIds::RPS_TYPE_BUILT_IN_UINT64.spec_value(),
        }
    }

    open spec fn spec_rps_array_len() -> u32 {
        0
    }

    fn rps_type_info() -> (r: CRpsTypeInfo) {
        CRpsTypeInfo { size: 8, id: RpsBuiltInTypeIds::RPS_TYPE_BUILT_IN_UINT64.value() }
    }

    fn rps_array_len() -> (r: u32) {
        0
    }
}

} // verus!
