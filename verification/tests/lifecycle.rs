//! The volume lifecycle end to end: staging, unstaging, listing,
//! stats and expansion against an in-memory backend.

use csi_node::backend::Backend;
use csi_node::node::CsiNode;
use csi_node::request::NodeExpandVolumeRequest;
use csi_node::request::NodeGetVolumeStatsRequest;
use csi_node::request::NodeListVolumesRequest;
use csi_node::request::NodeStageVolumeRequest;
use csi_node::request::NodeUnstageVolumeRequest;
use csi_node::request::VolumeContext;
use csi_node::status::ErrorKind;

fn stage_request(volume_id: &str, dataset: &str) -> NodeStageVolumeRequest {
    let mut ctx = VolumeContext::new();
    ctx.insert("DataSetName", dataset);
    NodeStageVolumeRequest {
        volume_id: volume_id.to_owned(),
        volume_context: ctx,
        staging_target_path: dataset.to_owned(),
    }
}

fn unstage_request(volume_id: &str, dataset: &str) -> NodeUnstageVolumeRequest {
    NodeUnstageVolumeRequest {
        volume_id: volume_id.to_owned(),
        staging_target_path: dataset.to_owned(),
    }
}

fn list_request() -> NodeListVolumesRequest {
    NodeListVolumesRequest { starting_token: None }
}

fn listed_names(node: &CsiNode, backend: &mut Backend) -> Vec<String> {
    let resp = node.node_list_volumes(backend, &list_request()).unwrap();
    resp.vol_names
}

#[test]
fn stage_twice_same_arguments_is_idempotent() {
    let node = CsiNode::new();
    let mut backend = Backend::new(1024);
    let req = stage_request("v1", "pool/v1");
    assert!(node.node_stage_volume(&mut backend, &req).is_ok());
    assert!(node.node_stage_volume(&mut backend, &req).is_ok());
    // Exactly one dataset exists after the retry.
    assert_eq!(listed_names(&node, &mut backend), vec!["pool/v1".to_owned()]);
}

#[test]
fn unstage_absent_dataset_succeeds() {
    let node = CsiNode::new();
    let mut backend = Backend::new(1024);
    // Nothing was ever staged: no `NotFound` is surfaced.
    let req = unstage_request("v1", "pool/v1");
    assert!(node.node_unstage_volume(&mut backend, &req).is_ok());
    // And the retry of a completed unstage succeeds too.
    let stage = stage_request("v1", "pool/v1");
    assert!(node.node_stage_volume(&mut backend, &stage).is_ok());
    assert!(node.node_unstage_volume(&mut backend, &req).is_ok());
    assert!(node.node_unstage_volume(&mut backend, &req).is_ok());
    assert_eq!(listed_names(&node, &mut backend), Vec::<String>::new());
}

#[test]
fn stage_without_dataset_key_is_invalid_and_makes_no_backend_call() {
    let node = CsiNode::new();
    let mut backend = Backend::new(1024);
    let req = NodeStageVolumeRequest {
        volume_id: "v1".to_owned(),
        volume_context: VolumeContext::new(),
        staging_target_path: "pool/v1".to_owned(),
    };
    let err = node.node_stage_volume(&mut backend, &req).unwrap_err();
    assert_eq!(err.kind, ErrorKind::InvalidArgument);
    assert_eq!(backend.call_count(), 0);
}

#[test]
fn stage_with_empty_dataset_name_is_invalid_and_makes_no_backend_call() {
    let node = CsiNode::new();
    let mut backend = Backend::new(1024);
    let req = stage_request("v1", "");
    let err = node.node_stage_volume(&mut backend, &req).unwrap_err();
    assert_eq!(err.kind, ErrorKind::InvalidArgument);
    assert_eq!(backend.call_count(), 0);
}

#[test]
fn stage_with_empty_volume_id_is_invalid_and_makes_no_backend_call() {
    let node = CsiNode::new();
    let mut backend = Backend::new(1024);
    let req = stage_request("", "pool/v1");
    let err = node.node_stage_volume(&mut backend, &req).unwrap_err();
    assert_eq!(err.kind, ErrorKind::InvalidArgument);
    assert_eq!(backend.call_count(), 0);
}

#[test]
fn unstage_without_dataset_field_is_invalid_and_makes_no_backend_call() {
    let node = CsiNode::new();
    let mut backend = Backend::new(1024);
    let req = unstage_request("v1", "");
    let err = node.node_unstage_volume(&mut backend, &req).unwrap_err();
    assert_eq!(err.kind, ErrorKind::InvalidArgument);
    assert_eq!(backend.call_count(), 0);
}

#[test]
fn list_volumes_on_empty_backend_returns_empty_list() {
    let node = CsiNode::new();
    let mut backend = Backend::new(1024);
    let resp = node.node_list_volumes(&mut backend, &list_request()).unwrap();
    assert_eq!(resp.vol_names, Vec::<String>::new());
}

#[test]
fn list_volumes_returns_exactly_the_datasets_under_the_root() {
    let node = CsiNode::new();
    let mut backend = Backend::new(1024);
    for (id, ds) in [("va", "pool/a"), ("vb", "pool/b"), ("vc", "pool/c")] {
        assert!(node.node_stage_volume(&mut backend, &stage_request(id, ds)).is_ok());
    }
    // A dataset outside the managed root is not listed.
    assert!(node.node_stage_volume(&mut backend, &stage_request("vx", "tank/x")).is_ok());
    // The backend contract guarantees store (insertion) order, so the
    // order is asserted here as well as the contents.
    assert_eq!(
        listed_names(&node, &mut backend),
        vec!["pool/a".to_owned(), "pool/b".to_owned(), "pool/c".to_owned()]
    );
}

#[test]
fn expand_to_a_smaller_size_is_invalid_and_mutates_nothing() {
    let node = CsiNode::new();
    let mut backend = Backend::new(1000);
    assert!(node.node_stage_volume(&mut backend, &stage_request("v1", "pool/v1")).is_ok());
    let before = backend.call_count();
    let req = NodeExpandVolumeRequest {
        volume_id: "v1".to_owned(),
        volume_path: "pool/v1".to_owned(),
        requested_size: 500,
    };
    let err = node.node_expand_volume(&mut backend, &req).unwrap_err();
    assert_eq!(err.kind, ErrorKind::InvalidArgument);
    // One backend query, no backend mutation.
    assert_eq!(backend.call_count(), before + 1);
    let stats = node
        .node_get_volume_stats(
            &mut backend,
            &NodeGetVolumeStatsRequest {
                volume_id: "v1".to_owned(),
                volume_path: "pool/v1".to_owned(),
            },
        )
        .unwrap();
    assert_eq!(stats.capacity, 1000);
}

#[test]
fn expand_of_an_unstaged_volume_is_a_failed_precondition() {
    let node = CsiNode::new();
    let mut backend = Backend::new(1000);
    let req = NodeExpandVolumeRequest {
        volume_id: "v1".to_owned(),
        volume_path: "pool/v1".to_owned(),
        requested_size: 2000,
    };
    let err = node.node_expand_volume(&mut backend, &req).unwrap_err();
    assert_eq!(err.kind, ErrorKind::FailedPrecondition);
}

#[test]
fn expand_to_a_larger_size_grows_the_capacity() {
    let node = CsiNode::new();
    let mut backend = Backend::new(1000);
    assert!(node.node_stage_volume(&mut backend, &stage_request("v1", "pool/v1")).is_ok());
    let req = NodeExpandVolumeRequest {
        volume_id: "v1".to_owned(),
        volume_path: "pool/v1".to_owned(),
        requested_size: 2000,
    };
    let resp = node.node_expand_volume(&mut backend, &req).unwrap();
    assert_eq!(resp.capacity, 2000);
    let stats = node
        .node_get_volume_stats(
            &mut backend,
            &NodeGetVolumeStatsRequest {
                volume_id: "v1".to_owned(),
                volume_path: "pool/v1".to_owned(),
            },
        )
        .unwrap();
    assert_eq!(stats.capacity, 2000);
}

#[test]
fn staging_two_distinct_volumes_is_independent() {
    // Interleaved calls for two distinct volume ids both succeed, and
    // each leaves the other's dataset alone; the backend serializes
    // same-name operations, so only the resulting state is asserted,
    // not a thread schedule.
    let node = CsiNode::new();
    let mut forward = Backend::new(1024);
    assert!(node.node_stage_volume(&mut forward, &stage_request("va", "pool/a")).is_ok());
    assert!(node.node_stage_volume(&mut forward, &stage_request("vb", "pool/b")).is_ok());
    let mut reverse = Backend::new(1024);
    assert!(node.node_stage_volume(&mut reverse, &stage_request("vb", "pool/b")).is_ok());
    assert!(node.node_stage_volume(&mut reverse, &stage_request("va", "pool/a")).is_ok());
    let mut forward_names = listed_names(&node, &mut forward);
    let mut reverse_names = listed_names(&node, &mut reverse);
    forward_names.sort();
    reverse_names.sort();
    assert_eq!(forward_names, vec!["pool/a".to_owned(), "pool/b".to_owned()]);
    assert_eq!(forward_names, reverse_names);
}

#[test]
fn stage_stats_unstage_stats_end_to_end() {
    let node = CsiNode::new();
    let mut backend = Backend::new(4096);
    assert!(node.node_stage_volume(&mut backend, &stage_request("v1", "pool/v1")).is_ok());
    let stats_req = NodeGetVolumeStatsRequest {
        volume_id: "v1".to_owned(),
        volume_path: "pool/v1".to_owned(),
    };
    let stats = node.node_get_volume_stats(&mut backend, &stats_req).unwrap();
    assert_eq!(stats.capacity, 4096);
    assert_eq!(stats.used, 0);
    assert!(node.node_unstage_volume(&mut backend, &unstage_request("v1", "pool/v1")).is_ok());
    let err = node.node_get_volume_stats(&mut backend, &stats_req).unwrap_err();
    assert_eq!(err.kind, ErrorKind::NotFound);
}

#[test]
fn stats_with_empty_fields_is_invalid_and_makes_no_backend_call() {
    let node = CsiNode::new();
    let mut backend = Backend::new(4096);
    let err = node
        .node_get_volume_stats(
            &mut backend,
            &NodeGetVolumeStatsRequest {
                volume_id: "".to_owned(),
                volume_path: "pool/v1".to_owned(),
            },
        )
        .unwrap_err();
    assert_eq!(err.kind, ErrorKind::InvalidArgument);
    let err = node
        .node_expand_volume(
            &mut backend,
            &NodeExpandVolumeRequest {
                volume_id: "v1".to_owned(),
                volume_path: "".to_owned(),
                requested_size: 10,
            },
        )
        .unwrap_err();
    assert_eq!(err.kind, ErrorKind::InvalidArgument);
    assert_eq!(backend.call_count(), 0);
}
