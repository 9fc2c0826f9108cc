//! The surrounding plugin surface: error mapping, the unimplemented
//! methods, capability advertisement, node identity, the context
//! lookup, and the dispatcher.

use csi_node::backend::Backend;
use csi_node::dispatch::NodeRequest;
use csi_node::dispatch::NodeResponse;
use csi_node::dispatch::dispatch;
use csi_node::node::CsiNode;
use csi_node::node::expand_decision;
use csi_node::node::stats_response;
use csi_node::request::NodeCapability;
use csi_node::request::NodeExpandVolumeRequest;
use csi_node::request::NodeGetVolumeStatsRequest;
use csi_node::request::NodeGetCapabilitiesRequest;
use csi_node::request::NodeGetInfoRequest;
use csi_node::request::NodeListVolumesRequest;
use csi_node::request::NodePublishVolumeRequest;
use csi_node::request::NodeStageVolumeRequest;
use csi_node::request::NodeUnpublishVolumeRequest;
use csi_node::request::VolumeContext;
use csi_node::status::BackendError;
use csi_node::status::ErrorKind;
use csi_node::status::map_backend_error;
use csi_node::text::is_under_root;
use csi_node::text::str_eq;

#[test]
fn handle_failure_maps_to_unavailable() {
    let status = map_backend_error(BackendError::HandleUnavailable);
    assert_eq!(status.kind, ErrorKind::Unavailable);
    assert!(!status.message.is_empty());
}

#[test]
fn operation_failure_maps_to_internal_with_the_backend_message() {
    let status = map_backend_error(BackendError::OperationFailed("dataset is busy".to_owned()));
    assert_eq!(status.kind, ErrorKind::Internal);
    assert_eq!(status.message, "dataset is busy");
}

#[test]
fn stats_of_an_absent_dataset_is_not_found() {
    let err = stats_response(Ok(None)).unwrap_err();
    assert_eq!(err.kind, ErrorKind::NotFound);
    let resp = stats_response(Ok(Some((100, 7)))).unwrap();
    assert_eq!(resp.capacity, 100);
    assert_eq!(resp.used, 7);
    let err = stats_response(Err(BackendError::HandleUnavailable)).unwrap_err();
    assert_eq!(err.kind, ErrorKind::Unavailable);
}

#[test]
fn expansion_policy_rejects_non_growth() {
    assert_eq!(expand_decision(None, 10).unwrap_err().kind, ErrorKind::FailedPrecondition);
    assert_eq!(expand_decision(Some((10, 0)), 10).unwrap_err().kind, ErrorKind::InvalidArgument);
    assert_eq!(expand_decision(Some((10, 0)), 5).unwrap_err().kind, ErrorKind::InvalidArgument);
    assert!(expand_decision(Some((10, 0)), 11).is_ok());
}

#[test]
fn publish_and_unpublish_answer_unimplemented() {
    let node = CsiNode::new();
    let publish = NodePublishVolumeRequest {
        volume_id: "v1".to_owned(),
        staging_target_path: "pool/v1".to_owned(),
        target_path: "/mnt/v1".to_owned(),
    };
    let err = node.node_publish_volume(&publish).unwrap_err();
    assert_eq!(err.kind, ErrorKind::Unimplemented);
    let unpublish = NodeUnpublishVolumeRequest {
        volume_id: "v1".to_owned(),
        target_path: "/mnt/v1".to_owned(),
    };
    let err = node.node_unpublish_volume(&unpublish).unwrap_err();
    assert_eq!(err.kind, ErrorKind::Unimplemented);
}

#[test]
fn capabilities_advertise_the_supported_methods() {
    let node = CsiNode::new();
    let resp = node.node_get_capabilities(&NodeGetCapabilitiesRequest {});
    assert_eq!(
        resp.capabilities,
        vec![
            NodeCapability::StageUnstageVolume,
            NodeCapability::GetVolumeStats,
            NodeCapability::ExpandVolume,
        ]
    );
}

#[test]
fn get_info_reports_the_node_identity() {
    let node = CsiNode::with_identity("node-1".to_owned(), "/run/plugin.sock".to_owned());
    let resp = node.node_get_info(&NodeGetInfoRequest {});
    assert_eq!(resp.node_id, "node-1");
    let blank = CsiNode::new();
    assert_eq!(blank.node_get_info(&NodeGetInfoRequest {}).node_id, "");
}

#[test]
fn context_lookup_takes_the_first_match() {
    let mut ctx = VolumeContext::new();
    ctx.insert("DataSetName", "pool/first");
    ctx.insert("DataSetName", "pool/second");
    ctx.insert("Other", "x");
    assert_eq!(ctx.get("DataSetName").unwrap(), "pool/first");
    assert!(ctx.get("Absent").is_none());
}

#[test]
fn under_root_requires_a_separator_and_a_remainder() {
    assert!(is_under_root("pool/a", "pool"));
    assert!(is_under_root("pool/a/b", "pool"));
    assert!(!is_under_root("pool", "pool"));
    assert!(!is_under_root("pool/", "pool"));
    assert!(!is_under_root("poolish/a", "pool"));
    assert!(!is_under_root("tank/a", "pool"));
}

#[test]
fn string_equality_is_by_characters() {
    assert!(str_eq("pool/a", "pool/a"));
    assert!(!str_eq("pool/a", "pool/b"));
    assert!(!str_eq("pool", "pool/a"));
    assert!(str_eq("", ""));
}

#[test]
fn dispatcher_routes_to_the_matching_handler() {
    let node = CsiNode::with_identity("node-1".to_owned(), "/run/plugin.sock".to_owned());
    let mut backend = Backend::new(1024);

    let mut ctx = VolumeContext::new();
    ctx.insert("DataSetName", "pool/v1");
    let stage = NodeRequest::StageVolume(NodeStageVolumeRequest {
        volume_id: "v1".to_owned(),
        volume_context: ctx,
        staging_target_path: "pool/v1".to_owned(),
    });
    match dispatch(&node, &mut backend, stage).unwrap() {
        NodeResponse::StageVolume(_) => {}
        _ => panic!("stage answered with the wrong response variant"),
    }

    let list = NodeRequest::ListVolumes(NodeListVolumesRequest { starting_token: None });
    match dispatch(&node, &mut backend, list).unwrap() {
        NodeResponse::ListVolumes(resp) => {
            assert_eq!(resp.vol_names, vec!["pool/v1".to_owned()]);
        }
        _ => panic!("list answered with the wrong response variant"),
    }

    let info = NodeRequest::GetInfo(NodeGetInfoRequest {});
    match dispatch(&node, &mut backend, info).unwrap() {
        NodeResponse::GetInfo(resp) => assert_eq!(resp.node_id, "node-1"),
        _ => panic!("info answered with the wrong response variant"),
    }

    let publish = NodeRequest::PublishVolume(NodePublishVolumeRequest {
        volume_id: "v1".to_owned(),
        staging_target_path: "pool/v1".to_owned(),
        target_path: "/mnt/v1".to_owned(),
    });
    let err = dispatch(&node, &mut backend, publish).unwrap_err();
    assert_eq!(err.kind, ErrorKind::Unimplemented);

    let stats = NodeRequest::GetVolumeStats(NodeGetVolumeStatsRequest {
        volume_id: "v1".to_owned(),
        volume_path: "pool/v1".to_owned(),
    });
    match dispatch(&node, &mut backend, stats).unwrap() {
        NodeResponse::GetVolumeStats(resp) => {
            assert_eq!(resp.capacity, 1024);
            assert_eq!(resp.used, 0);
        }
        _ => panic!("stats answered with the wrong response variant"),
    }

    let expand = NodeRequest::ExpandVolume(NodeExpandVolumeRequest {
        volume_id: "v1".to_owned(),
        volume_path: "pool/v1".to_owned(),
        requested_size: 2048,
    });
    match dispatch(&node, &mut backend, expand).unwrap() {
        NodeResponse::ExpandVolume(resp) => assert_eq!(resp.capacity, 2048),
        _ => panic!("expand answered with the wrong response variant"),
    }

    let absent = NodeRequest::GetVolumeStats(NodeGetVolumeStatsRequest {
        volume_id: "v9".to_owned(),
        volume_path: "pool/v9".to_owned(),
    });
    let err = dispatch(&node, &mut backend, absent).unwrap_err();
    assert_eq!(err.kind, ErrorKind::NotFound);

    let unstaged = NodeRequest::ExpandVolume(NodeExpandVolumeRequest {
        volume_id: "v9".to_owned(),
        volume_path: "pool/v9".to_owned(),
        requested_size: 2048,
    });
    let err = dispatch(&node, &mut backend, unstaged).unwrap_err();
    assert_eq!(err.kind, ErrorKind::FailedPrecondition);
}
