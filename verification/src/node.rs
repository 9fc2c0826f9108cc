//! The node plugin and its lifecycle handlers.
//!
//! Each handler validates its request first — a missing or empty
//! dataset-naming field fails with `InvalidArgument` before any
//! backend call — then performs exactly one idempotent backend
//! operation and maps its outcome to a response.  The plugin holds no
//! per-volume state: every handler is a function of the backend's
//! state, so the orchestrator may retry any call, and calls for
//! distinct volumes never interfere.
//!
//! The `*_response` functions state, for every outcome a backend
//! operation can have, which response the handler returns; a caller
//! driving a fallible backend maps outcomes through the same
//! functions.

use vstd::prelude::*;

use crate::backend::Backend;
use crate::backend::create_model;
use crate::backend::dataset_at;
use crate::backend::destroy_model;
use crate::backend::enumerate_model;
use crate::backend::has_dataset;
use crate::backend::resize_model;
use crate::request::NodeCapability;
use crate::request::NodeExpandVolumeRequest;
use crate::request::NodeExpandVolumeResponse;
use crate::request::NodeGetCapabilitiesRequest;
use crate::request::NodeGetCapabilitiesResponse;
use crate::request::NodeGetInfoRequest;
use crate::request::NodeGetInfoResponse;
use crate::request::NodeGetVolumeStatsRequest;
use crate::request::NodeGetVolumeStatsResponse;
use crate::request::NodeListVolumesRequest;
use crate::request::NodeListVolumesResponse;
use crate::request::NodePublishVolumeRequest;
use crate::request::NodePublishVolumeResponse;
use crate::request::NodeStageVolumeRequest;
use crate::request::NodeStageVolumeResponse;
use crate::request::NodeUnpublishVolumeRequest;
use crate::request::NodeUnpublishVolumeResponse;
use crate::request::NodeUnstageVolumeRequest;
use crate::request::NodeUnstageVolumeResponse;
use crate::status::BackendError;
use crate::status::ErrorKind;
use crate::status::Status;
use crate::status::map_backend_error;

verus! {

/// The root dataset under which this node manages volumes.
pub open spec fn managed_root() -> Seq<char> {
    "pool"@
}

/// The response a stage call returns for each outcome of the backend's
/// create operation: success stays success, a backend error is mapped
/// (`Unavailable` for a lost handle, `Internal` otherwise) and never
/// passed through raw.
pub fn stage_response(outcome: Result<(), BackendError>) -> (r: Result<
    NodeStageVolumeResponse,
    Status,
>)
    ensures
        outcome is Ok ==> r is Ok,
        outcome matches Err(BackendError::HandleUnavailable) ==> (r matches Err(s) && s.kind
            == ErrorKind::Unavailable),
        outcome matches Err(BackendError::OperationFailed(m)) ==> (r matches Err(s) && s.kind
            == ErrorKind::Internal && s.message@ == m@),
{
    match outcome {
        Ok(()) => Ok(NodeStageVolumeResponse {  }),
        Err(e) => Err(map_backend_error(e)),
    }
}

/// The response an unstage call returns for each outcome of the
/// backend's destroy operation.
pub fn unstage_response(outcome: Result<(), BackendError>) -> (r: Result<
    NodeUnstageVolumeResponse,
    Status,
>)
    ensures
        outcome is Ok ==> r is Ok,
        outcome matches Err(BackendError::HandleUnavailable) ==> (r matches Err(s) && s.kind
            == ErrorKind::Unavailable),
        outcome matches Err(BackendError::OperationFailed(m)) ==> (r matches Err(s) && s.kind
            == ErrorKind::Internal && s.message@ == m@),
{
    match outcome {
        Ok(()) => Ok(NodeUnstageVolumeResponse {  }),
        Err(e) => Err(map_backend_error(e)),
    }
}

/// The response a list call returns for each outcome of the backend's
/// enumerate operation: the names pass through unchanged; an empty
/// list is a valid response, not an error.
pub fn list_response(outcome: Result<Vec<String>, BackendError>) -> (r: Result<
    NodeListVolumesResponse,
    Status,
>)
    ensures
        outcome matches Ok(names) ==> (r matches Ok(resp) && resp.vol_names == names),
        outcome matches Err(BackendError::HandleUnavailable) ==> (r matches Err(s) && s.kind
            == ErrorKind::Unavailable),
        outcome matches Err(BackendError::OperationFailed(m)) ==> (r matches Err(s) && s.kind
            == ErrorKind::Internal && s.message@ == m@),
{
    match outcome {
        Ok(names) => Ok(NodeListVolumesResponse { vol_names: names }),
        Err(e) => Err(map_backend_error(e)),
    }
}

/// The response a stats call returns for each outcome of the backend's
/// query operation: an absent dataset is `NotFound` — the volume is
/// not staged on this node.
pub fn stats_response(outcome: Result<Option<(u64, u64)>, BackendError>) -> (r: Result<
    NodeGetVolumeStatsResponse,
    Status,
>)
    ensures
        outcome matches Ok(Some(cu)) ==> (r matches Ok(resp) && resp.capacity == cu.0 && resp.used
            == cu.1),
        outcome matches Ok(o) && o is None ==> (r matches Err(s) && s.kind == ErrorKind::NotFound),
        outcome matches Err(BackendError::HandleUnavailable) ==> (r matches Err(s) && s.kind
            == ErrorKind::Unavailable),
        outcome matches Err(BackendError::OperationFailed(m)) ==> (r matches Err(s) && s.kind
            == ErrorKind::Internal && s.message@ == m@),
{
    match outcome {
        Ok(Some((capacity, used))) => Ok(NodeGetVolumeStatsResponse { capacity, used }),
        Ok(None) => Err(Status::new(ErrorKind::NotFound, "volume is not staged on this node")),
        Err(e) => Err(map_backend_error(e)),
    }
}

/// The expansion policy, decided from what the backend reports of the
/// dataset: not staged is `FailedPrecondition` (transition first), a
/// size not larger than the current capacity is `InvalidArgument`, and
/// only a strict growth proceeds to a backend mutation.
pub fn expand_decision(current: Option<(u64, u64)>, requested_size: u64) -> (r: Result<(), Status>)
    ensures
        current is None ==> (r matches Err(s) && s.kind == ErrorKind::FailedPrecondition),
        current matches Some(cu) && requested_size <= cu.0 ==> (r matches Err(s) && s.kind
            == ErrorKind::InvalidArgument),
        current matches Some(cu) && requested_size > cu.0 ==> r is Ok,
{
    match current {
        None => Err(
            Status::new(ErrorKind::FailedPrecondition, "volume is not staged on this node"),
        ),
        Some((capacity, _used)) => {
            if requested_size <= capacity {
                Err(
                    Status::new(
                        ErrorKind::InvalidArgument,
                        "requested size is not larger than the current capacity",
                    ),
                )
            } else {
                Ok(())
            }
        },
    }
}

/// Our main structure.
#[derive(Clone, Debug)]
pub struct CsiNode {
    /// Name of this node, reported as its identity.
    pub name: String,
    /// The socket the surrounding service listens on.
    pub socket: String,
}

impl CsiNode {
    /// A node with an empty identity, to be configured by the
    /// surrounding process.
    pub fn new() -> (n: CsiNode)
        ensures
            n.name@ == Seq::<char>::empty(),
            n.socket@ == Seq::<char>::empty(),
    {
        CsiNode { name: String::new(), socket: String::new() }
    }

    /// A node with the given identity.
    pub fn with_identity(name: String, socket: String) -> (n: CsiNode)
        ensures
            n.name == name,
            n.socket == socket,
    {
        CsiNode { name, socket }
    }

    /// Stage: make the volume's backing dataset exist on this node.
    ///
    /// A valid request performs exactly one backend create, which is
    /// idempotent, so retrying a stage that already took effect
    /// succeeds and leaves the store as it was.  An invalid request —
    /// empty volume id, or a missing or empty dataset-name key —
    /// fails with `InvalidArgument` and performs no backend call.
    pub fn node_stage_volume(
        &self,
        backend: &mut Backend,
        request: &NodeStageVolumeRequest,
    ) -> (r: Result<NodeStageVolumeResponse, Status>)
        requires
            old(backend).wf(),
            old(backend)@.calls < u64::MAX,
        ensures
            final(backend).wf(),
            final(backend)@.default_capacity == old(backend)@.default_capacity,
            request.valid() ==> r is Ok && final(backend)@.datasets == create_model(
                old(backend)@.datasets,
                request.dataset_name()->Some_0,
                old(backend)@.default_capacity,
            ) && final(backend)@.calls == old(backend)@.calls + 1,
            !request.valid() ==> (r matches Err(s) && s.kind == ErrorKind::InvalidArgument && *final(backend) == *old(backend)),
    {
        let name = match request.validated_dataset_name() {
            Ok(n) => n,
            Err(s) => {
                return Err(s);
            },
        };
        let outcome = backend.create(name.as_str());
        stage_response(outcome)
    }

    /// Unstage: make the volume's backing dataset absent from this
    /// node.
    ///
    /// A valid request performs exactly one backend destroy, which is
    /// idempotent: unstaging an already-absent dataset succeeds — no
    /// `NotFound` is surfaced — because the orchestrator may retry
    /// after a timeout.  An invalid request fails with
    /// `InvalidArgument` and performs no backend call.
    pub fn node_unstage_volume(
        &self,
        backend: &mut Backend,
        request: &NodeUnstageVolumeRequest,
    ) -> (r: Result<NodeUnstageVolumeResponse, Status>)
        requires
            old(backend).wf(),
            old(backend)@.calls < u64::MAX,
        ensures
            final(backend).wf(),
            final(backend)@.default_capacity == old(backend)@.default_capacity,
            request.valid() ==> r is Ok && final(backend)@.datasets == destroy_model(
                old(backend)@.datasets,
                request.staging_target_path@,
            ) && final(backend)@.calls == old(backend)@.calls + 1,
            !request.valid() ==> (r matches Err(s) && s.kind == ErrorKind::InvalidArgument && *final(backend) == *old(backend)),
    {
        let name = match request.validated_dataset_name() {
            Ok(n) => n,
            Err(s) => {
                return Err(s);
            },
        };
        let outcome = backend.destroy(name.as_str());
        unstage_response(outcome)
    }

    /// Publish is not built in this deployment: the orchestrator
    /// receives an explicit `Unimplemented` kind — never a crash — so
    /// it can treat the method as an optional feature absence.
    pub fn node_publish_volume(&self, _request: &NodePublishVolumeRequest) -> (r: Result<
        NodePublishVolumeResponse,
        Status,
    >)
        ensures
            r matches Err(s) && s.kind == ErrorKind::Unimplemented,
    {
        Err(Status::new(ErrorKind::Unimplemented, "publish is not supported by this node plugin"))
    }

    /// Unpublish is not built in this deployment; see `node_publish_volume`.
    pub fn node_unpublish_volume(&self, _request: &NodeUnpublishVolumeRequest) -> (r: Result<
        NodeUnpublishVolumeResponse,
        Status,
    >)
        ensures
            r matches Err(s) && s.kind == ErrorKind::Unimplemented,
    {
        Err(
            Status::new(ErrorKind::Unimplemented, "unpublish is not supported by this node plugin"),
        )
    }

    /// List: the names of the datasets under the node's managed root,
    /// in store order, in one backend enumeration.  Read-only; an
    /// empty store yields an empty list, not an error.
    pub fn node_list_volumes(
        &self,
        backend: &mut Backend,
        _request: &NodeListVolumesRequest,
    ) -> (r: Result<NodeListVolumesResponse, Status>)
        requires
            old(backend).wf(),
            old(backend)@.calls < u64::MAX,
        ensures
            final(backend).wf(),
            final(backend)@.datasets == old(backend)@.datasets,
            final(backend)@.default_capacity == old(backend)@.default_capacity,
            final(backend)@.calls == old(backend)@.calls + 1,
            (r matches Ok(resp) && resp.vol_names@.map_values(|s: String| s@) == enumerate_model(
                old(backend)@.datasets,
                managed_root(),
            )),
    {
        let outcome = backend.enumerate("pool");
        list_response(outcome)
    }

    /// Stats: capacity and use of the staged volume's dataset, read
    /// from the backend.  `NotFound` when the volume is not staged;
    /// `InvalidArgument`, before any backend call, when a required
    /// field is empty.
    pub fn node_get_volume_stats(
        &self,
        backend: &mut Backend,
        request: &NodeGetVolumeStatsRequest,
    ) -> (r: Result<NodeGetVolumeStatsResponse, Status>)
        requires
            old(backend).wf(),
            old(backend)@.calls < u64::MAX,
        ensures
            final(backend).wf(),
            final(backend)@.datasets == old(backend)@.datasets,
            final(backend)@.default_capacity == old(backend)@.default_capacity,
            !request.valid() ==> (r matches Err(s) && s.kind == ErrorKind::InvalidArgument && *final(backend) == *old(backend)),
            request.valid() ==> final(backend)@.calls == old(backend)@.calls + 1,
            request.valid() && has_dataset(old(backend)@.datasets, request.volume_path@) ==> (
            r matches Ok(resp) && resp.capacity == dataset_at(
                old(backend)@.datasets,
                request.volume_path@,
            ).capacity && resp.used == dataset_at(
                old(backend)@.datasets,
                request.volume_path@,
            ).used),
            request.valid() && !has_dataset(old(backend)@.datasets, request.volume_path@) ==> (
            r matches Err(s) && s.kind == ErrorKind::NotFound),
    {
        let name = match request.validated_dataset_name() {
            Ok(n) => n,
            Err(s) => {
                return Err(s);
            },
        };
        let outcome = backend.query(name.as_str());
        stats_response(outcome)
    }

    /// Expand: grow the staged dataset's capacity limit in place.
    ///
    /// `InvalidArgument`, before any backend call, when a required
    /// field is empty; `FailedPrecondition` when the volume is not
    /// staged; `InvalidArgument`, with no backend mutation, when the
    /// requested size is not larger than the current capacity; and
    /// otherwise the capacity becomes exactly the requested size.
    pub fn node_expand_volume(
        &self,
        backend: &mut Backend,
        request: &NodeExpandVolumeRequest,
    ) -> (r: Result<NodeExpandVolumeResponse, Status>)
        requires
            old(backend).wf(),
            old(backend)@.calls < u64::MAX - 1,
        ensures
            final(backend).wf(),
            final(backend)@.default_capacity == old(backend)@.default_capacity,
            !request.valid() ==> (r matches Err(s) && s.kind == ErrorKind::InvalidArgument && *final(backend) == *old(backend)),
            request.valid() && !has_dataset(old(backend)@.datasets, request.volume_path@) ==> (
            r matches Err(s) && s.kind == ErrorKind::FailedPrecondition && final(backend)@.datasets
                == old(backend)@.datasets && final(backend)@.calls == old(backend)@.calls + 1),
            request.valid() && has_dataset(old(backend)@.datasets, request.volume_path@)
                && request.requested_size <= dataset_at(
                old(backend)@.datasets,
                request.volume_path@,
            ).capacity ==> (r matches Err(s) && s.kind == ErrorKind::InvalidArgument && final(backend)@.datasets == old(backend)@.datasets && final(backend)@.calls == old(backend)@.calls
                + 1),
            request.valid() && has_dataset(old(backend)@.datasets, request.volume_path@)
                && request.requested_size > dataset_at(
                old(backend)@.datasets,
                request.volume_path@,
            ).capacity ==> (r matches Ok(resp) && resp.capacity == request.requested_size && final(backend)@.datasets == resize_model(
                old(backend)@.datasets,
                request.volume_path@,
                request.requested_size,
            ) && final(backend)@.calls == old(backend)@.calls + 2),
    {
        let name = match request.validated_dataset_name() {
            Ok(n) => n,
            Err(s) => {
                return Err(s);
            },
        };
        let current = match backend.query(name.as_str()) {
            Ok(c) => c,
            Err(e) => {
                return Err(map_backend_error(e));
            },
        };
        match expand_decision(current, request.requested_size) {
            Ok(()) => {},
            Err(s) => {
                return Err(s);
            },
        }
        match backend.resize(name.as_str(), request.requested_size) {
            Ok(()) => Ok(NodeExpandVolumeResponse { capacity: request.requested_size }),
            Err(e) => Err(map_backend_error(e)),
        }
    }

    /// The static capability table: which optional methods this node
    /// plugin supports.  A pure read; never fails.
    pub fn node_get_capabilities(&self, _request: &NodeGetCapabilitiesRequest) -> (r:
        NodeGetCapabilitiesResponse)
        ensures
            r.capabilities@ == seq![
                NodeCapability::StageUnstageVolume,
                NodeCapability::GetVolumeStats,
                NodeCapability::ExpandVolume,
            ],
    {
        let mut capabilities: Vec<NodeCapability> = Vec::new();
        capabilities.push(NodeCapability::StageUnstageVolume);
        capabilities.push(NodeCapability::GetVolumeStats);
        capabilities.push(NodeCapability::ExpandVolume);
        proof {
            assert(capabilities@ =~= seq![
                NodeCapability::StageUnstageVolume,
                NodeCapability::GetVolumeStats,
                NodeCapability::ExpandVolume,
            ]);
        }
        NodeGetCapabilitiesResponse { capabilities }
    }

    /// The node's identity, for the orchestrator's topology.  A pure
    /// read of startup configuration; never fails.
    pub fn node_get_info(&self, _request: &NodeGetInfoRequest) -> (r: NodeGetInfoResponse)
        ensures
            r.node_id@ == self.name@,
    {
        NodeGetInfoResponse { node_id: self.name.clone() }
    }
}

} // verus!
