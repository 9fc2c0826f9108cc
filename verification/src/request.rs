//! The request and response types of the lifecycle calls, and the
//! validity of each request.
//!
//! Every request that names a dataset is validated before any backend
//! call: the orchestrator-assigned `volume_id` and the method's
//! dataset-naming field must be non-empty.  The dataset name itself is
//! always taken from one fixed field per method — for staging, the
//! `DataSetName` key of the volume context; a missing key is a
//! validation error, never a silent fallback to a default name.

use vstd::prelude::*;

use crate::status::ErrorKind;
use crate::status::Status;
use crate::text::str_eq;

verus! {

/// The volume-context key that carries the dataset name for staging.
pub open spec fn dataset_name_key() -> Seq<char> {
    "DataSetName"@
}

/// The value bound to a key, by first match.
pub open spec fn ctx_lookup(entries: Seq<(String, String)>, key: Seq<char>) -> Option<Seq<char>>
    decreases entries.len(),
{
    if entries.len() == 0 {
        None
    } else if entries.first().0@ == key {
        Some(entries.first().1@)
    } else {
        ctx_lookup(entries.drop_first(), key)
    }
}

/// Backend-specific parameters of a volume: a mapping of string keys
/// to string values.
#[derive(Debug)]
pub struct VolumeContext {
    pub entries: Vec<(String, String)>,
}

impl VolumeContext {
    /// An empty context.
    pub fn new() -> (c: VolumeContext)
        ensures
            c.entries@ == Seq::<(String, String)>::empty(),
    {
        let c = VolumeContext { entries: Vec::new() };
        proof {
            assert(c.entries@ =~= Seq::<(String, String)>::empty());
        }
        c
    }

    /// Binds a key to a value (appended; earlier bindings win on
    /// lookup).
    pub fn insert(&mut self, key: &str, value: &str)
        ensures
            final(self).entries@.len() == old(self).entries@.len() + 1,
            final(self).entries@.last().0@ == key@,
            final(self).entries@.last().1@ == value@,
            final(self).entries@.drop_last() == old(self).entries@,
    {
        self.entries.push((key.to_owned(), value.to_owned()));
        proof {
            assert(self.entries@.drop_last() =~= old(self).entries@);
        }
    }

    /// The value bound to the key, by first match.
    pub fn get(&self, key: &str) -> (r: Option<&String>)
        ensures
            match r {
                Some(v) => ctx_lookup(self.entries@, key@) == Some(v@),
                None => ctx_lookup(self.entries@, key@) is None,
            },
    {
        let mut i: usize = 0;
        proof {
            assert(self.entries@.subrange(0, self.entries@.len() as int) =~= self.entries@);
        }
        while i < self.entries.len()
            invariant
                i <= self.entries.len(),
                ctx_lookup(self.entries@, key@) == ctx_lookup(
                    self.entries@.subrange(i as int, self.entries@.len() as int),
                    key@,
                ),
            decreases self.entries.len() - i,
        {
            let ghost tail = self.entries@.subrange(i as int, self.entries@.len() as int);
            proof {
                assert(tail.first() == self.entries@[i as int]);
                assert(tail.drop_first() =~= self.entries@.subrange(
                    i as int + 1,
                    self.entries@.len() as int,
                ));
            }
            if str_eq(self.entries[i].0.as_str(), key) {
                return Some(&self.entries[i].1);
            }
            i += 1;
        }
        None
    }
}

/// Stage: make the volume's backing dataset exist on this node.
#[derive(Debug)]
pub struct NodeStageVolumeRequest {
    pub volume_id: String,
    pub volume_context: VolumeContext,
    pub staging_target_path: String,
}

impl NodeStageVolumeRequest {
    /// The dataset name the request carries, when it does.
    pub open spec fn dataset_name(self) -> Option<Seq<char>> {
        ctx_lookup(self.volume_context.entries@, dataset_name_key())
    }

    /// A stage request is valid when the volume id is non-empty and the
    /// context binds the dataset-name key to a non-empty name.
    pub open spec fn valid(self) -> bool {
        &&& self.volume_id@.len() > 0
        &&& self.dataset_name() matches Some(n) && n.len() > 0
    }

    /// The dataset name to stage, or the `InvalidArgument` failure when
    /// a required field is missing or empty.
    pub fn validated_dataset_name(&self) -> (r: Result<&String, Status>)
        ensures
            self.valid() ==> (r matches Ok(n) && Some(n@) == self.dataset_name()),
            !self.valid() ==> (r matches Err(s) && s.kind == ErrorKind::InvalidArgument),
    {
        if self.volume_id.as_str().is_empty() {
            return Err(Status::new(ErrorKind::InvalidArgument, "volume_id is required"));
        }
        let name = match self.volume_context.get("DataSetName") {
            Some(n) => n,
            None => {
                return Err(
                    Status::new(
                        ErrorKind::InvalidArgument,
                        "volume_context is missing the DataSetName key",
                    ),
                );
            },
        };
        if name.as_str().is_empty() {
            return Err(Status::new(ErrorKind::InvalidArgument, "DataSetName must be non-empty"));
        }
        Ok(name)
    }
}

#[derive(Debug)]
pub struct NodeStageVolumeResponse {}

/// Unstage: make the volume's backing dataset absent from this node.
/// The dataset name is the staging target path.
#[derive(Debug)]
pub struct NodeUnstageVolumeRequest {
    pub volume_id: String,
    pub staging_target_path: String,
}

impl NodeUnstageVolumeRequest {
    /// An unstage request is valid when the volume id and the
    /// dataset-naming field are non-empty.
    pub open spec fn valid(self) -> bool {
        self.volume_id@.len() > 0 && self.staging_target_path@.len() > 0
    }

    /// The dataset name to unstage, or the `InvalidArgument` failure
    /// when a required field is empty.
    pub fn validated_dataset_name(&self) -> (r: Result<&String, Status>)
        ensures
            self.valid() ==> (r matches Ok(n) && n@ == self.staging_target_path@),
            !self.valid() ==> (r matches Err(s) && s.kind == ErrorKind::InvalidArgument),
    {
        if self.volume_id.as_str().is_empty() {
            return Err(Status::new(ErrorKind::InvalidArgument, "volume_id is required"));
        }
        if self.staging_target_path.as_str().is_empty() {
            return Err(
                Status::new(ErrorKind::InvalidArgument, "staging_target_path is required"),
            );
        }
        Ok(&self.staging_target_path)
    }
}

#[derive(Debug)]
pub struct NodeUnstageVolumeResponse {}

/// Publish: bind the staged dataset into the workload-visible target.
#[derive(Debug)]
pub struct NodePublishVolumeRequest {
    pub volume_id: String,
    pub staging_target_path: String,
    pub target_path: String,
}

#[derive(Debug)]
pub struct NodePublishVolumeResponse {}

/// Unpublish: unbind the workload-visible target.
#[derive(Debug)]
pub struct NodeUnpublishVolumeRequest {
    pub volume_id: String,
    pub target_path: String,
}

#[derive(Debug)]
pub struct NodeUnpublishVolumeResponse {}

/// List: enumerate the datasets under the node's managed root.  The
/// token is accepted for interface fidelity; the whole list is always
/// materialized in one response.
#[derive(Debug)]
pub struct NodeListVolumesRequest {
    pub starting_token: Option<String>,
}

#[derive(Debug)]
pub struct NodeListVolumesResponse {
    pub vol_names: Vec<String>,
}

/// Stats: report capacity and use of a staged volume's dataset.  The
/// dataset name is the volume path.
#[derive(Debug)]
pub struct NodeGetVolumeStatsRequest {
    pub volume_id: String,
    pub volume_path: String,
}

impl NodeGetVolumeStatsRequest {
    pub open spec fn valid(self) -> bool {
        self.volume_id@.len() > 0 && self.volume_path@.len() > 0
    }

    /// The dataset name to report on, or the `InvalidArgument` failure
    /// when a required field is empty.
    pub fn validated_dataset_name(&self) -> (r: Result<&String, Status>)
        ensures
            self.valid() ==> (r matches Ok(n) && n@ == self.volume_path@),
            !self.valid() ==> (r matches Err(s) && s.kind == ErrorKind::InvalidArgument),
    {
        if self.volume_id.as_str().is_empty() {
            return Err(Status::new(ErrorKind::InvalidArgument, "volume_id is required"));
        }
        if self.volume_path.as_str().is_empty() {
            return Err(Status::new(ErrorKind::InvalidArgument, "volume_path is required"));
        }
        Ok(&self.volume_path)
    }
}

#[derive(Debug)]
pub struct NodeGetVolumeStatsResponse {
    pub capacity: u64,
    pub used: u64,
}

/// Expand: grow a staged dataset's capacity limit in place.  The
/// dataset name is the volume path.
#[derive(Debug)]
pub struct NodeExpandVolumeRequest {
    pub volume_id: String,
    pub volume_path: String,
    pub requested_size: u64,
}

impl NodeExpandVolumeRequest {
    pub open spec fn valid(self) -> bool {
        self.volume_id@.len() > 0 && self.volume_path@.len() > 0
    }

    /// The dataset name to expand, or the `InvalidArgument` failure
    /// when a required field is empty.
    pub fn validated_dataset_name(&self) -> (r: Result<&String, Status>)
        ensures
            self.valid() ==> (r matches Ok(n) && n@ == self.volume_path@),
            !self.valid() ==> (r matches Err(s) && s.kind == ErrorKind::InvalidArgument),
    {
        if self.volume_id.as_str().is_empty() {
            return Err(Status::new(ErrorKind::InvalidArgument, "volume_id is required"));
        }
        if self.volume_path.as_str().is_empty() {
            return Err(Status::new(ErrorKind::InvalidArgument, "volume_path is required"));
        }
        Ok(&self.volume_path)
    }
}

#[derive(Debug)]
pub struct NodeExpandVolumeResponse {
    pub capacity: u64,
}

#[derive(Debug)]
pub struct NodeGetCapabilitiesRequest {}

/// An optional feature this node plugin supports, consulted by the
/// orchestrator before issuing the matching optional call.
#[derive(Clone, Copy, Debug, PartialEq, Eq, Structural)]
pub enum NodeCapability {
    StageUnstageVolume,
    GetVolumeStats,
    ExpandVolume,
}

#[derive(Debug)]
pub struct NodeGetCapabilitiesResponse {
    pub capabilities: Vec<NodeCapability>,
}

#[derive(Debug)]
pub struct NodeGetInfoRequest {}

#[derive(Debug)]
pub struct NodeGetInfoResponse {
    pub node_id: String,
}

} // verus!
