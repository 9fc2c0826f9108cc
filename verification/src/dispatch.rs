//! The request dispatcher: accepts one typed lifecycle call and routes
//! it to the matching handler.  Validation failures are deterministic
//! and raised by the handler before any backend call; the dispatcher
//! adds no retry of its own.

use vstd::prelude::*;

use crate::backend::Backend;
use crate::backend::create_model;
use crate::backend::dataset_at;
use crate::backend::destroy_model;
use crate::backend::enumerate_model;
use crate::backend::has_dataset;
use crate::backend::resize_model;
use crate::node::CsiNode;
use crate::node::managed_root;
use crate::request::NodeCapability;
use crate::request::NodeExpandVolumeRequest;
use crate::request::NodeExpandVolumeResponse;
use crate::request::NodeGetCapabilitiesRequest;
use crate::request::NodeGetCapabilitiesResponse;
use crate::request::NodeGetInfoRequest;
use crate::request::NodeGetInfoResponse;
use crate::request::NodeGetVolumeStatsRequest;
use crate::request::NodeGetVolumeStatsResponse;
use crate::request::NodeListVolumesRequest;
use crate::request::NodeListVolumesResponse;
use crate::request::NodePublishVolumeRequest;
use crate::request::NodePublishVolumeResponse;
use crate::request::NodeStageVolumeRequest;
use crate::request::NodeStageVolumeResponse;
use crate::request::NodeUnpublishVolumeRequest;
use crate::request::NodeUnpublishVolumeResponse;
use crate::request::NodeUnstageVolumeRequest;
use crate::request::NodeUnstageVolumeResponse;
use crate::status::ErrorKind;
use crate::status::Status;

verus! {

/// One lifecycle call, as the service boundary hands it over.
#[derive(Debug)]
pub enum NodeRequest {
    StageVolume(NodeStageVolumeRequest),
    UnstageVolume(NodeUnstageVolumeRequest),
    PublishVolume(NodePublishVolumeRequest),
    UnpublishVolume(NodeUnpublishVolumeRequest),
    ListVolumes(NodeListVolumesRequest),
    GetVolumeStats(NodeGetVolumeStatsRequest),
    ExpandVolume(NodeExpandVolumeRequest),
    GetCapabilities(NodeGetCapabilitiesRequest),
    GetInfo(NodeGetInfoRequest),
}

/// The successful response of the matching call.
#[derive(Debug)]
pub enum NodeResponse {
    StageVolume(NodeStageVolumeResponse),
    UnstageVolume(NodeUnstageVolumeResponse),
    PublishVolume(NodePublishVolumeResponse),
    UnpublishVolume(NodeUnpublishVolumeResponse),
    ListVolumes(NodeListVolumesResponse),
    GetVolumeStats(NodeGetVolumeStatsResponse),
    ExpandVolume(NodeExpandVolumeResponse),
    GetCapabilities(NodeGetCapabilitiesResponse),
    GetInfo(NodeGetInfoResponse),
}

/// Routes one call to its handler and answers with the matching
/// response variant.  The contract restates each handler's guarantee,
/// so a caller driving the plugin through this one entry point is owed
/// the same results and the same store as a caller of the handlers
/// themselves.
pub fn dispatch(node: &CsiNode, backend: &mut Backend, request: NodeRequest) -> (r: Result<
    NodeResponse,
    Status,
>)
    requires
        old(backend).wf(),
        old(backend)@.calls < u64::MAX - 1,
    ensures
        final(backend).wf(),
        final(backend)@.default_capacity == old(backend)@.default_capacity,
        old(backend)@.calls <= final(backend)@.calls <= old(backend)@.calls + 2,
        request matches NodeRequest::StageVolume(q) ==> (q.valid() ==> (r matches Ok(
            NodeResponse::StageVolume(_),
        ) && final(backend)@.datasets == create_model(
            old(backend)@.datasets,
            q.dataset_name()->Some_0,
            old(backend)@.default_capacity,
        ))) && (!q.valid() ==> (r matches Err(s) && s.kind == ErrorKind::InvalidArgument && *final(backend) == *old(backend))),
        request matches NodeRequest::UnstageVolume(q) ==> (q.valid() ==> (r matches Ok(
            NodeResponse::UnstageVolume(_),
        ) && final(backend)@.datasets == destroy_model(
            old(backend)@.datasets,
            q.staging_target_path@,
        ))) && (!q.valid() ==> (r matches Err(s) && s.kind == ErrorKind::InvalidArgument && *final(backend) == *old(backend))),
        request is PublishVolume || request is UnpublishVolume ==> (r matches Err(s) && s.kind
            == ErrorKind::Unimplemented && *final(backend) == *old(backend)),
        request is ListVolumes ==> (r matches Ok(NodeResponse::ListVolumes(resp))
            && resp.vol_names@.map_values(|s: String| s@) == enumerate_model(
            old(backend)@.datasets,
            managed_root(),
        ) && final(backend)@.datasets == old(backend)@.datasets),
        request matches NodeRequest::GetVolumeStats(q) ==> final(backend)@.datasets == old(backend)@.datasets && (!q.valid() ==> (r matches Err(s) && s.kind == ErrorKind::InvalidArgument
            && *final(backend) == *old(backend))) && (q.valid() && has_dataset(
            old(backend)@.datasets,
            q.volume_path@,
        ) ==> (r matches Ok(NodeResponse::GetVolumeStats(resp)) && resp.capacity == dataset_at(
            old(backend)@.datasets,
            q.volume_path@,
        ).capacity && resp.used == dataset_at(old(backend)@.datasets, q.volume_path@).used)) && (
        q.valid() && !has_dataset(old(backend)@.datasets, q.volume_path@) ==> (r matches Err(s)
            && s.kind == ErrorKind::NotFound)),
        request matches NodeRequest::ExpandVolume(q) ==> (!q.valid() ==> (r matches Err(s)
            && s.kind == ErrorKind::InvalidArgument && *final(backend) == *old(backend))) && (
        q.valid() && !has_dataset(old(backend)@.datasets, q.volume_path@) ==> (r matches Err(s)
            && s.kind == ErrorKind::FailedPrecondition && final(backend)@.datasets == old(backend)@.datasets)) && (q.valid() && has_dataset(old(backend)@.datasets, q.volume_path@)
            && q.requested_size <= dataset_at(old(backend)@.datasets, q.volume_path@).capacity
            ==> (r matches Err(s) && s.kind == ErrorKind::InvalidArgument && final(backend)@.datasets == old(backend)@.datasets)) && (q.valid() && has_dataset(
            old(backend)@.datasets,
            q.volume_path@,
        ) && q.requested_size > dataset_at(old(backend)@.datasets, q.volume_path@).capacity ==> (
        r matches Ok(NodeResponse::ExpandVolume(resp)) && resp.capacity == q.requested_size
            && final(backend)@.datasets == resize_model(
            old(backend)@.datasets,
            q.volume_path@,
            q.requested_size,
        ))),
        request is GetCapabilities ==> (r matches Ok(NodeResponse::GetCapabilities(resp))
            && resp.capabilities@ == seq![
            NodeCapability::StageUnstageVolume,
            NodeCapability::GetVolumeStats,
            NodeCapability::ExpandVolume,
        ] && *final(backend) == *old(backend)),
        request is GetInfo ==> (r matches Ok(NodeResponse::GetInfo(resp)) && resp.node_id@
            == node.name@ && *final(backend) == *old(backend)),
{
    match request {
        NodeRequest::StageVolume(q) => match node.node_stage_volume(backend, &q) {
            Ok(resp) => Ok(NodeResponse::StageVolume(resp)),
            Err(s) => Err(s),
        },
        NodeRequest::UnstageVolume(q) => match node.node_unstage_volume(backend, &q) {
            Ok(resp) => Ok(NodeResponse::UnstageVolume(resp)),
            Err(s) => Err(s),
        },
        NodeRequest::PublishVolume(q) => match node.node_publish_volume(&q) {
            Ok(resp) => Ok(NodeResponse::PublishVolume(resp)),
            Err(s) => Err(s),
        },
        NodeRequest::UnpublishVolume(q) => match node.node_unpublish_volume(&q) {
            Ok(resp) => Ok(NodeResponse::UnpublishVolume(resp)),
            Err(s) => Err(s),
        },
        NodeRequest::ListVolumes(q) => match node.node_list_volumes(backend, &q) {
            Ok(resp) => Ok(NodeResponse::ListVolumes(resp)),
            Err(s) => Err(s),
        },
        NodeRequest::GetVolumeStats(q) => match node.node_get_volume_stats(backend, &q) {
            Ok(resp) => Ok(NodeResponse::GetVolumeStats(resp)),
            Err(s) => Err(s),
        },
        NodeRequest::ExpandVolume(q) => match node.node_expand_volume(backend, &q) {
            Ok(resp) => Ok(NodeResponse::ExpandVolume(resp)),
            Err(s) => Err(s),
        },
        NodeRequest::GetCapabilities(q) => Ok(
            NodeResponse::GetCapabilities(node.node_get_capabilities(&q)),
        ),
        NodeRequest::GetInfo(q) => Ok(NodeResponse::GetInfo(node.node_get_info(&q))),
    }
}

} // verus!
