use vstd::prelude::*;

use crate::jsonrpc;
use crate::mount::{
    copy_opts, lemma_compare_reflexive, effective_flags, mount_opts_compare, mode_word, opts_equivalent, ro_word, views, Fs,
    MountRecord,
};

verus! {

/// The status codes the node reports to the orchestrator.
#[derive(PartialEq, Eq, Clone, Copy, Debug)]
pub enum Code {
    InvalidArgument,
    NotFound,
    AlreadyExists,
    Internal,
    Unimplemented,
}

/// Access modes of a volume capability. `Unrecognized` holds a wire value
/// outside the known ones.
#[derive(PartialEq, Eq, Clone, Copy, Debug)]
pub enum AccessMode {
    Unknown,
    SingleNodeWriter,
    SingleNodeReaderOnly,
    MultiNodeReaderOnly,
    MultiNodeSingleWriter,
    MultiNodeMultiWriter,
    Unrecognized(i32),
}

impl AccessMode {
    /// The access mode that a wire value stands for.
    pub fn from_i32(v: i32) -> (r: AccessMode)
        ensures
            v == 0 ==> r == AccessMode::Unknown,
            v == 1 ==> r == AccessMode::SingleNodeWriter,
            v == 2 ==> r == AccessMode::SingleNodeReaderOnly,
            v == 3 ==> r == AccessMode::MultiNodeReaderOnly,
            v == 4 ==> r == AccessMode::MultiNodeSingleWriter,
            v == 5 ==> r == AccessMode::MultiNodeMultiWriter,
            (v < 0 || v > 5) ==> r == AccessMode::Unrecognized(v),
    {
        match v {
            0 => AccessMode::Unknown,
            1 => AccessMode::SingleNodeWriter,
            2 => AccessMode::SingleNodeReaderOnly,
            3 => AccessMode::MultiNodeReaderOnly,
            4 => AccessMode::MultiNodeSingleWriter,
            5 => AccessMode::MultiNodeMultiWriter,
            _ => AccessMode::Unrecognized(v),
        }
    }
}

/// Modes that the node serves.
pub open spec fn is_supported_mode(m: AccessMode) -> bool {
    match m {
        AccessMode::SingleNodeWriter | AccessMode::SingleNodeReaderOnly
        | AccessMode::MultiNodeReaderOnly | AccessMode::MultiNodeSingleWriter => true,
        _ => false,
    }
}

/// Modes that allow reading only.
pub open spec fn is_read_only_mode(m: AccessMode) -> bool {
    m == AccessMode::SingleNodeReaderOnly || m == AccessMode::MultiNodeReaderOnly
}

/// Why a node request failed.
#[derive(PartialEq, Eq, Clone, Debug)]
pub enum NodeError {
    /// The staging or target path, or the volume id, is empty.
    InvalidPath { volume_id: String },
    MissingCapability { volume_id: String },
    MissingAccessType { volume_id: String },
    /// Raw block volumes are not served.
    RawBlock,
    MissingAccessMode { volume_id: String },
    UnsupportedAccessMode { volume_id: String, mode: AccessMode },
    /// A read-only access mode on a mount that is not read-only.
    ReadOnlyAccessMode { volume_id: String },
    UnsupportedFilesystem { fs_type: String },
    NotStaged { volume_id: String, staging_path: String },
    /// The target is already mounted with other options.
    IncompatibleMount { volume_id: String },
    CreateDirFailed { volume_id: String, path: String, reason: String },
    MountFailed { volume_id: String, reason: String },
    UnmountFailed { volume_id: String, reason: String },
    /// The volume has no backing device on this node.
    DeviceNotFound { volume_id: String },
    /// The storage engine reports no volume behind the device.
    BdevNotFound { volume_id: String },
    /// The storage engine reports more than one volume under the name.
    BdevAmbiguous { volume_id: String },
    /// The volume's size does not fit the reply.
    SizeOverflow { volume_id: String },
    Transport(jsonrpc::Error),
    Unimplemented,
}

impl NodeError {
    pub open spec fn spec_code(&self) -> Code {
        match self {
            NodeError::InvalidPath { .. } | NodeError::MissingCapability { .. }
            | NodeError::MissingAccessType { .. } | NodeError::RawBlock
            | NodeError::MissingAccessMode { .. } | NodeError::UnsupportedAccessMode { .. }
            | NodeError::ReadOnlyAccessMode { .. } | NodeError::UnsupportedFilesystem { .. }
            | NodeError::NotStaged { .. } => Code::InvalidArgument,
            NodeError::IncompatibleMount { .. } => Code::AlreadyExists,
            NodeError::DeviceNotFound { .. } => Code::NotFound,
            NodeError::Transport(e) => jsonrpc::error_code(*e),
            NodeError::Unimplemented => Code::Unimplemented,
            _ => Code::Internal,
        }
    }

    /// The status code under which the orchestrator sees this error.
    pub fn code(&self) -> (r: Code)
        ensures
            r == self.spec_code(),
    {
        match self {
            NodeError::InvalidPath { .. } | NodeError::MissingCapability { .. }
            | NodeError::MissingAccessType { .. } | NodeError::RawBlock
            | NodeError::MissingAccessMode { .. } | NodeError::UnsupportedAccessMode { .. }
            | NodeError::ReadOnlyAccessMode { .. } | NodeError::UnsupportedFilesystem { .. }
            | NodeError::NotStaged { .. } => Code::InvalidArgument,
            NodeError::IncompatibleMount { .. } => Code::AlreadyExists,
            NodeError::DeviceNotFound { .. } => Code::NotFound,
            NodeError::Transport(e) => e.code(),
            NodeError::Unimplemented => Code::Unimplemented,
            _ => Code::Internal,
        }
    }
}

/// What the access-mode check gives for a mode and the mount's read-only flag.
/// Only a read-only mode on a writable mount is refused; a writable mode on a
/// read-only mount is accepted.
pub open spec fn access_check(volume_id: String, mode: Option<AccessMode>, readonly: bool) -> Result<
    (),
    NodeError,
> {
    match mode {
        None => Err(NodeError::MissingAccessMode { volume_id }),
        Some(m) => if !is_supported_mode(m) {
            Err(NodeError::UnsupportedAccessMode { volume_id, mode: m })
        } else if !readonly && is_read_only_mode(m) {
            Err(NodeError::ReadOnlyAccessMode { volume_id })
        } else {
            Ok(())
        },
    }
}

/// Decide whether an access mode makes sense together with the mount's
/// read-only flag.
pub fn check_access_mode(volume_id: &String, access_mode: &Option<AccessMode>, readonly: bool) -> (r:
    Result<(), NodeError>)
    ensures
        r == access_check(*volume_id, *access_mode, readonly),
{
    let rdonly = match access_mode {
        Some(m) => match m {
            AccessMode::SingleNodeWriter => false,
            AccessMode::SingleNodeReaderOnly => true,
            AccessMode::MultiNodeReaderOnly => true,
            AccessMode::MultiNodeSingleWriter => false,
            _ => {
                return Err(NodeError::UnsupportedAccessMode { volume_id: volume_id.clone(), mode: *m });
            },
        },
        None => {
            return Err(NodeError::MissingAccessMode { volume_id: volume_id.clone() });
        },
    };
    if !readonly && rdonly {
        Err(NodeError::ReadOnlyAccessMode { volume_id: volume_id.clone() })
    } else {
        Ok(())
    }
}

/// How a volume is to be used: as a filesystem with these options, or raw.
pub struct MountVolume {
    pub fs_type: String,
    pub mount_flags: Vec<String>,
}

pub enum AccessType {
    Mount(MountVolume),
    Block,
}

pub struct VolumeCapability {
    pub access_type: Option<AccessType>,
    pub access_mode: Option<AccessMode>,
}

pub struct NodeStageVolumeRequest {
    pub volume_id: String,
    pub staging_target_path: String,
    pub volume_capability: Option<VolumeCapability>,
}

pub struct NodePublishVolumeRequest {
    pub volume_id: String,
    pub staging_target_path: String,
    pub target_path: String,
    pub volume_capability: Option<VolumeCapability>,
    pub readonly: bool,
}

pub struct NodeUnpublishVolumeRequest {
    pub volume_id: String,
    pub target_path: String,
}

pub struct NodeUnstageVolumeRequest {
    pub volume_id: String,
    pub staging_target_path: String,
}

/// The local block device that backs a volume.
pub struct NbdDisk {
    pub nbd_device: String,
    pub bdev_name: String,
}

/// A volume as the storage engine describes it.
pub struct Bdev {
    pub name: String,
    pub block_size: u32,
    pub num_blocks: u64,
}

#[derive(PartialEq, Eq, Clone, Copy, Debug)]
pub enum Unit {
    Bytes,
}

pub struct VolumeUsage {
    pub total: i64,
    pub available: i64,
    pub used: i64,
    pub unit: Unit,
}

#[derive(PartialEq, Eq, Clone, Copy, Debug)]
pub enum Capability {
    GetVolumeStats,
    StageUnstageVolume,
}

pub struct NodeInfo {
    pub node_id: String,
    pub max_volumes_per_node: i64,
}

/// What staging asks of the device layer: attach the volume and mount it at
/// the staging path with this filesystem and these options.
pub struct StagePlan {
    pub volume_id: String,
    pub staging_path: String,
    pub filesystem: Fs,
    pub mount_flags: Vec<String>,
}

/// What publishing asks of the mount layer.
pub enum PublishAction {
    /// The target is already mounted with equivalent options: nothing to do.
    AlreadyPublished,
    /// Create `target` and mount `source` on it.
    Mount { source: String, target: String, fs_name: String, flags: Vec<String> },
}

/// The node's identity and the filesystems it offers; the first one is the
/// default.
pub struct Node {
    pub node_name: String,
    pub socket: String,
    pub addr: String,
    pub port: u16,
    pub filesystems: Vec<Fs>,
}

/// The index of the first filesystem at or after `i` named `name`, or -1.
pub open spec fn fs_position_from(fss: Seq<Fs>, name: Seq<char>, i: int) -> int
    decreases fss.len() - i,
{
    if i < 0 || i >= fss.len() {
        -1
    } else if fss[i].name@ == name {
        i
    } else {
        fs_position_from(fss, name, i + 1)
    }
}

proof fn lemma_fs_position_bounds(fss: Seq<Fs>, name: Seq<char>, i: int)
    requires
        0 <= i,
    ensures
        fs_position_from(fss, name, i) == -1 || (i <= fs_position_from(fss, name, i) < fss.len()
            && fss[fs_position_from(fss, name, i)].name@ == name),
    decreases fss.len() - i,
{
    if i < fss.len() && fss[i].name@ != name {
        lemma_fs_position_bounds(fss, name, i + 1);
    }
}

/// The filesystem options of a capability that asks for a filesystem.
pub open spec fn mount_volume_of(cap: VolumeCapability) -> Option<MountVolume> {
    match cap.access_type {
        Some(AccessType::Mount(m)) => Some(m),
        _ => None,
    }
}

/// The error for a capability that does not ask for a filesystem.
pub open spec fn access_type_error(volume_id: String, cap: VolumeCapability) -> NodeError {
    match cap.access_type {
        Some(AccessType::Block) => NodeError::RawBlock,
        _ => NodeError::MissingAccessType { volume_id },
    }
}

/// The options of an existing mount, if there is one.
pub open spec fn opts_of(m: Option<MountRecord>) -> Option<Seq<Seq<char>>> {
    match m {
        Some(r) => Some(views(r.opts@)),
        None => None,
    }
}

impl Node {
    /// The index of the filesystem a request for `fs_type` uses (the default one
    /// when `fs_type` is empty), or -1 when there is none.
    pub open spec fn chosen_fs(self, fs_type: Seq<char>) -> int {
        if fs_type.len() == 0 {
            if self.filesystems@.len() > 0 {
                0
            } else {
                -1
            }
        } else {
            fs_position_from(self.filesystems@, fs_type, 0)
        }
    }

    /// Pick the filesystem for a requested type.
    fn select_filesystem(&self, fs_type: &String) -> (r: Result<usize, NodeError>)
        ensures
            r is Ok ==> r->Ok_0 < self.filesystems@.len(),
            self.chosen_fs(fs_type@) >= 0 ==> r is Ok && r->Ok_0 as int == self.chosen_fs(fs_type@),
            self.chosen_fs(fs_type@) < 0 ==> r == Err::<usize, NodeError>(
                NodeError::UnsupportedFilesystem { fs_type: *fs_type },
            ),
    {
        proof {
            lemma_fs_position_bounds(self.filesystems@, fs_type@, 0);
        }
        if fs_type.as_str().is_empty() {
            if self.filesystems.len() > 0 {
                return Ok(0);
            }
            return Err(NodeError::UnsupportedFilesystem { fs_type: fs_type.clone() });
        }
        let mut i: usize = 0;
        while i < self.filesystems.len()
            invariant
                i <= self.filesystems@.len(),
                fs_type@.len() > 0,
                fs_position_from(self.filesystems@, fs_type@, 0) == fs_position_from(
                    self.filesystems@,
                    fs_type@,
                    i as int,
                ),
            decreases self.filesystems@.len() - i,
        {
            if self.filesystems[i].name == *fs_type {
                return Ok(i);
            }
            i = i + 1;
        }
        Err(NodeError::UnsupportedFilesystem { fs_type: fs_type.clone() })
    }

    /// The checks of staging: `Ok` with the chosen filesystem's index, or the
    /// first failure.
    pub open spec fn stage_check(self, req: NodeStageVolumeRequest) -> Result<int, NodeError> {
        let volume_id = req.volume_id;
        if req.staging_target_path@.len() == 0 || volume_id@.len() == 0 {
            Err(NodeError::InvalidPath { volume_id })
        } else {
            match req.volume_capability {
                None => Err(NodeError::MissingCapability { volume_id }),
                Some(cap) => match mount_volume_of(cap) {
                    None => Err(access_type_error(volume_id, cap)),
                    Some(m) => if access_check(volume_id, cap.access_mode, true) is Err {
                        Err(access_check(volume_id, cap.access_mode, true)->Err_0)
                    } else if self.chosen_fs(m.fs_type@) < 0 {
                        Err(NodeError::UnsupportedFilesystem { fs_type: m.fs_type })
                    } else {
                        Ok(self.chosen_fs(m.fs_type@))
                    },
                },
            }
        }
    }

    /// Validate a stage request and say what the device layer is to do. The
    /// access mode is checked as for a read-only mount: staging does not
    /// commit to writing.
    pub fn node_stage_volume(&self, req: &NodeStageVolumeRequest) -> (r: Result<StagePlan, NodeError>)
        ensures
            self.stage_check(*req) is Err ==> r == Err::<StagePlan, NodeError>(
                self.stage_check(*req)->Err_0,
            ),
            self.stage_check(*req) is Ok ==> {
                &&& r is Ok
                &&& r->Ok_0.volume_id == req.volume_id
                &&& r->Ok_0.staging_path == req.staging_target_path
                &&& r->Ok_0.filesystem.name == self.filesystems@[self.stage_check(*req)->Ok_0].name
                &&& r->Ok_0.filesystem.defaults@ == self.filesystems@[self.stage_check(
                    *req,
                )->Ok_0].defaults@
                &&& r->Ok_0.mount_flags@ == mount_volume_of(
                    req.volume_capability->Some_0,
                )->Some_0.mount_flags@
            },
    {
        if req.staging_target_path.as_str().is_empty() || req.volume_id.as_str().is_empty() {
            return Err(NodeError::InvalidPath { volume_id: req.volume_id.clone() });
        }
        let cap = match &req.volume_capability {
            Some(c) => c,
            None => {
                return Err(NodeError::MissingCapability { volume_id: req.volume_id.clone() });
            },
        };
        let mnt = match &cap.access_type {
            Some(AccessType::Mount(m)) => m,
            Some(AccessType::Block) => {
                return Err(NodeError::RawBlock);
            },
            None => {
                return Err(NodeError::MissingAccessType { volume_id: req.volume_id.clone() });
            },
        };
        if let Err(e) = check_access_mode(&req.volume_id, &cap.access_mode, true) {
            return Err(e);
        }
        let i = match self.select_filesystem(&mnt.fs_type) {
            Ok(i) => i,
            Err(e) => {
                return Err(e);
            },
        };
        let fs = &self.filesystems[i];
        Ok(
            StagePlan {
                volume_id: req.volume_id.clone(),
                staging_path: req.staging_target_path.clone(),
                filesystem: Fs { name: fs.name.clone(), defaults: copy_opts(&fs.defaults) },
                mount_flags: copy_opts(&mnt.mount_flags),
            },
        )
    }
    /// The checks of publishing, before the target's mount is looked at: `Ok`
    /// with the chosen filesystem's index, or the first failure. `staged` says
    /// whether something is mounted at the staging path.
    pub open spec fn publish_check(self, req: NodePublishVolumeRequest, staged: bool) -> Result<
        int,
        NodeError,
    > {
        let volume_id = req.volume_id;
        if req.staging_target_path@.len() == 0 || req.target_path@.len() == 0 {
            Err(NodeError::InvalidPath { volume_id })
        } else {
            match req.volume_capability {
                None => Err(NodeError::MissingCapability { volume_id }),
                Some(cap) => match mount_volume_of(cap) {
                    None => Err(access_type_error(volume_id, cap)),
                    Some(m) => if !staged {
                        Err(
                            NodeError::NotStaged {
                                volume_id,
                                staging_path: req.staging_target_path,
                            },
                        )
                    } else if access_check(volume_id, cap.access_mode, req.readonly) is Err {
                        Err(access_check(volume_id, cap.access_mode, req.readonly)->Err_0)
                    } else if self.chosen_fs(m.fs_type@) < 0 {
                        Err(NodeError::UnsupportedFilesystem { fs_type: m.fs_type })
                    } else {
                        Ok(self.chosen_fs(m.fs_type@))
                    },
                },
            }
        }
    }

    /// The options a publish request mounts with: its own, the read-only or
    /// read-write word, and the chosen filesystem's defaults.
    pub open spec fn publish_flags(self, req: NodePublishVolumeRequest) -> Seq<Seq<char>> {
        let m = mount_volume_of(req.volume_capability->Some_0)->Some_0;
        views(m.mount_flags@).push(mode_word(req.readonly)) + views(
            self.filesystems@[self.chosen_fs(m.fs_type@)].defaults@,
        )
    }

    /// The outcome of publishing given what is mounted at the target:
    /// `Ok(true)` when it is already published, `Ok(false)` when it is to be
    /// mounted, or the failure.
    pub open spec fn publish_outcome(
        self,
        req: NodePublishVolumeRequest,
        staged: bool,
        target_opts: Option<Seq<Seq<char>>>,
    ) -> Result<bool, NodeError> {
        match self.publish_check(req, staged) {
            Err(e) => Err(e),
            Ok(_) => match target_opts {
                Some(opts) => if opts_equivalent(self.publish_flags(req), opts, req.readonly) {
                    Ok(true)
                } else {
                    Err(NodeError::IncompatibleMount { volume_id: req.volume_id })
                },
                None => Ok(false),
            },
        }
    }

    /// Whether `a` mounts the request's staging path on its target with the
    /// request's options.
    pub open spec fn is_publish_mount(self, req: NodePublishVolumeRequest, a: PublishAction) -> bool {
        match a {
            PublishAction::Mount { source, target, fs_name, flags } => {
                let m = mount_volume_of(req.volume_capability->Some_0)->Some_0;
                &&& source == req.staging_target_path
                &&& target == req.target_path
                &&& fs_name == self.filesystems@[self.chosen_fs(m.fs_type@)].name
                &&& views(flags@) == self.publish_flags(req)
            },
            PublishAction::AlreadyPublished => false,
        }
    }

    /// Validate a publish request against the mount table and say what to do.
    /// `staged` tells whether something is mounted at the staging path;
    /// `target_mount` is the mount of the staging path at the target, if any.
    pub fn node_publish_volume(
        &self,
        req: &NodePublishVolumeRequest,
        staged: bool,
        target_mount: &Option<MountRecord>,
    ) -> (r: Result<PublishAction, NodeError>)
        ensures
            match self.publish_outcome(*req, staged, opts_of(*target_mount)) {
                Err(e) => r == Err::<PublishAction, NodeError>(e),
                Ok(true) => r == Ok::<PublishAction, NodeError>(PublishAction::AlreadyPublished),
                Ok(false) => r is Ok && self.is_publish_mount(*req, r->Ok_0),
            },
    {
        if req.staging_target_path.as_str().is_empty() || req.target_path.as_str().is_empty() {
            return Err(NodeError::InvalidPath { volume_id: req.volume_id.clone() });
        }
        let cap = match &req.volume_capability {
            Some(c) => c,
            None => {
                return Err(NodeError::MissingCapability { volume_id: req.volume_id.clone() });
            },
        };
        let mnt = match &cap.access_type {
            Some(AccessType::Mount(m)) => m,
            Some(AccessType::Block) => {
                return Err(NodeError::RawBlock);
            },
            None => {
                return Err(NodeError::MissingAccessType { volume_id: req.volume_id.clone() });
            },
        };
        if !staged {
            return Err(
                NodeError::NotStaged {
                    volume_id: req.volume_id.clone(),
                    staging_path: req.staging_target_path.clone(),
                },
            );
        }
        if let Err(e) = check_access_mode(&req.volume_id, &cap.access_mode, req.readonly) {
            return Err(e);
        }
        let i = match self.select_filesystem(&mnt.fs_type) {
            Ok(i) => i,
            Err(e) => {
                return Err(e);
            },
        };
        let fs = &self.filesystems[i];
        let flags = effective_flags(&mnt.mount_flags, req.readonly, &fs.defaults);
        match target_mount {
            Some(m) => {
                if mount_opts_compare(&flags, &m.opts, req.readonly) {
                    Ok(PublishAction::AlreadyPublished)
                } else {
                    Err(NodeError::IncompatibleMount { volume_id: req.volume_id.clone() })
                }
            },
            None => Ok(
                PublishAction::Mount {
                    source: req.staging_target_path.clone(),
                    target: req.target_path.clone(),
                    fs_name: fs.name.clone(),
                    flags,
                },
            ),
        }
    }
    /// Say what unpublishing does: unmount the target when it is mounted, and
    /// nothing otherwise. Either way the request succeeds.
    pub fn node_unpublish_volume(&self, req: &NodeUnpublishVolumeRequest, target_mounted: bool) -> (r:
        Option<String>)
        ensures
            target_mounted ==> r == Some(req.target_path),
            !target_mounted ==> r is None,
    {
        if target_mounted {
            Some(req.target_path.clone())
        } else {
            None
        }
    }

    /// Say what unstaging does, given the device that backs the volume and the
    /// mount of that device at the staging path, if any: `Ok(Some(path))` to
    /// unmount the staging path, `Ok(None)` when the device is not mounted
    /// exactly there.
    pub fn node_unstage_volume(
        &self,
        req: &NodeUnstageVolumeRequest,
        device: &Option<NbdDisk>,
        mount: &Option<MountRecord>,
    ) -> (r: Result<Option<String>, NodeError>)
        ensures
            device is None ==> r == Err::<Option<String>, NodeError>(
                NodeError::DeviceNotFound { volume_id: req.volume_id },
            ),
            device is Some ==> r is Ok,
            device is Some ==> (r->Ok_0 is Some <==> (mount is Some && mount->Some_0.source@
                == device->Some_0.nbd_device@ && mount->Some_0.dest@
                == req.staging_target_path@)),
            r is Ok && r->Ok_0 is Some ==> r->Ok_0->Some_0 == req.staging_target_path,
    {
        let disk = match device {
            Some(d) => d,
            None => {
                return Err(NodeError::DeviceNotFound { volume_id: req.volume_id.clone() });
            },
        };
        if let Some(m) = mount {
            if m.source == disk.nbd_device && m.dest == req.staging_target_path {
                return Ok(Some(req.staging_target_path.clone()));
            }
        }
        Ok(None)
    }

    /// The name under which to ask the storage engine for the volume's size,
    /// given the device that backs it.
    pub fn stats_query(&self, volume_id: &String, device: &Option<NbdDisk>) -> (r: Result<
        String,
        NodeError,
    >)
        ensures
            device is None ==> r == Err::<String, NodeError>(
                NodeError::DeviceNotFound { volume_id: *volume_id },
            ),
            device is Some ==> r == Ok::<String, NodeError>(*volume_id),
    {
        match device {
            Some(_) => Ok(volume_id.clone()),
            None => Err(NodeError::DeviceNotFound { volume_id: volume_id.clone() }),
        }
    }

    /// The usage of a volume from the storage engine's answer: its total size in
    /// bytes; what is used and available is not known and reported as zero.
    pub fn node_get_volume_stats(&self, volume_id: &String, bdevs: &Vec<Bdev>) -> (r: Result<
        VolumeUsage,
        NodeError,
    >)
        ensures
            bdevs@.len() == 0 ==> r == Err::<VolumeUsage, NodeError>(
                NodeError::BdevNotFound { volume_id: *volume_id },
            ),
            bdevs@.len() > 1 ==> r == Err::<VolumeUsage, NodeError>(
                NodeError::BdevAmbiguous { volume_id: *volume_id },
            ),
            bdevs@.len() == 1 && bdevs@[0].block_size * bdevs@[0].num_blocks > i64::MAX ==> r
                == Err::<VolumeUsage, NodeError>(NodeError::SizeOverflow { volume_id: *volume_id }),
            bdevs@.len() == 1 && bdevs@[0].block_size * bdevs@[0].num_blocks <= i64::MAX ==> {
                &&& r is Ok
                &&& r->Ok_0.total == bdevs@[0].block_size * bdevs@[0].num_blocks
                &&& r->Ok_0.available == 0
                &&& r->Ok_0.used == 0
                &&& r->Ok_0.unit == Unit::Bytes
            },
    {
        if bdevs.len() == 0 {
            return Err(NodeError::BdevNotFound { volume_id: volume_id.clone() });
        }
        if bdevs.len() > 1 {
            return Err(NodeError::BdevAmbiguous { volume_id: volume_id.clone() });
        }
        let b = &bdevs[0];
        proof {
            assert((b.block_size as u128) * (b.num_blocks as u128) <= u32::MAX as u128 * u64::MAX as u128)
                by (nonlinear_arith);
        }
        let total: u128 = (b.block_size as u128) * (b.num_blocks as u128);
        if total > i64::MAX as u128 {
            return Err(NodeError::SizeOverflow { volume_id: volume_id.clone() });
        }
        Ok(VolumeUsage { total: total as i64, available: 0, used: 0, unit: Unit::Bytes })
    }

    /// The node's id and how many volumes it can serve, given the number of
    /// device slots.
    pub fn node_get_info(&self, device_slots: u32) -> (r: NodeInfo)
        ensures
            r.node_id@ == node_id_of(self.node_name@, self.addr@, self.port),
            r.max_volumes_per_node == device_slots,
    {
        let mut id = String::from_str("mayastor://");
        id.append(self.node_name.as_str());
        id.append("/");
        id.append(self.addr.as_str());
        id.append(":");
        let port = decimal_string(self.port);
        id.append(port.as_str());
        proof {
            reveal_strlit("mayastor://");
            reveal_strlit("/");
            reveal_strlit(":");
        }
        NodeInfo { node_id: id, max_volumes_per_node: device_slots as i64 }
    }

    /// The capabilities the node offers: volume statistics and staging.
    pub fn node_get_capabilities(&self) -> (r: Vec<Capability>)
        ensures
            r@ == seq![Capability::GetVolumeStats, Capability::StageUnstageVolume],
    {
        let r = vec![Capability::GetVolumeStats, Capability::StageUnstageVolume];
        assert(r@ =~= seq![Capability::GetVolumeStats, Capability::StageUnstageVolume]);
        r
    }

    /// Expanding a volume is not offered.
    pub fn node_expand_volume(&self) -> (r: Result<(), NodeError>)
        ensures
            r == Err::<(), NodeError>(NodeError::Unimplemented),
    {
        Err(NodeError::Unimplemented)
    }
}

/// The character of a decimal digit.
pub open spec fn digit_char(d: nat) -> char {
    if d == 0 { '0' } else if d == 1 { '1' } else if d == 2 { '2' } else if d == 3 { '3' }
    else if d == 4 { '4' } else if d == 5 { '5' } else if d == 6 { '6' } else if d == 7 { '7' }
    else if d == 8 { '8' } else { '9' }
}

/// The decimal digits of a number, without leading zeros.
pub open spec fn decimal(n: nat) -> Seq<char>
    decreases n,
{
    if n < 10 {
        seq![digit_char(n)]
    } else {
        decimal(n / 10).push(digit_char(n % 10))
    }
}

/// A node's id: `mayastor://<name>/<address>:<port>`.
pub open spec fn node_id_of(name: Seq<char>, addr: Seq<char>, port: u16) -> Seq<char> {
    seq!['m', 'a', 'y', 'a', 's', 't', 'o', 'r', ':', '/', '/'] + name + seq!['/'] + addr + seq![':']
        + decimal(port as nat)
}

fn digit_str(d: u16) -> (r: &'static str)
    requires
        d < 10,
    ensures
        r@ == seq![digit_char(d as nat)],
{
    proof {
        reveal_strlit("0");
        reveal_strlit("1");
        reveal_strlit("2");
        reveal_strlit("3");
        reveal_strlit("4");
        reveal_strlit("5");
        reveal_strlit("6");
        reveal_strlit("7");
        reveal_strlit("8");
        reveal_strlit("9");
    }
    match d {
        0 => "0",
        1 => "1",
        2 => "2",
        3 => "3",
        4 => "4",
        5 => "5",
        6 => "6",
        7 => "7",
        8 => "8",
        _ => "9",
    }
}

fn decimal_string(n: u16) -> (r: String)
    ensures
        r@ == decimal(n as nat),
    decreases n,
{
    if n < 10 {
        String::from_str(digit_str(n))
    } else {
        let mut s = decimal_string(n / 10);
        s.append(digit_str(n % 10));
        s
    }
}

/// Publishing again after a publish that mounted the target succeeds without
/// doing anything: the target's mount then has the options that the request
/// asks for. This needs a writable publish not to ask for the read-only option
/// itself.
pub proof fn lemma_publish_idempotent(node: Node, req: NodePublishVolumeRequest, staged: bool)
    requires
        node.publish_outcome(req, staged, None) == Ok::<bool, NodeError>(false),
        !req.readonly ==> !node.publish_flags(req).contains(ro_word()),
    ensures
        node.publish_outcome(req, staged, Some(node.publish_flags(req))) == Ok::<bool, NodeError>(
            true,
        ),
{
    let f = node.publish_flags(req);
    let m = mount_volume_of(req.volume_capability->Some_0)->Some_0;
    if req.readonly {
        assert(f[views(m.mount_flags@).len() as int] == ro_word());
    }
    lemma_compare_reflexive(f, req.readonly);
}

/// Every access mode that is not served, and every read-only mode on a writable
/// mount, is refused as an invalid argument.
pub proof fn lemma_access_mode_rejection(volume_id: String, mode: AccessMode, readonly: bool)
    requires
        !is_supported_mode(mode) || (is_read_only_mode(mode) && !readonly),
    ensures
        access_check(volume_id, Some(mode), readonly) is Err,
        access_check(volume_id, Some(mode), readonly)->Err_0.spec_code() == Code::InvalidArgument,
{
}

/// Publishing with an access mode that is not served, or with a read-only mode
/// on a writable mount, fails as an invalid argument, whatever else the request
/// holds and whatever is mounted.
pub proof fn lemma_publish_access_mode_rejection(
    node: Node,
    req: NodePublishVolumeRequest,
    staged: bool,
    target_opts: Option<Seq<Seq<char>>>,
)
    requires
        req.volume_capability is Some,
        req.volume_capability->Some_0.access_mode is Some,
        ({
            let mode = req.volume_capability->Some_0.access_mode->Some_0;
            !is_supported_mode(mode) || (is_read_only_mode(mode) && !req.readonly)
        }),
    ensures
        node.publish_outcome(req, staged, target_opts) is Err,
        node.publish_outcome(req, staged, target_opts)->Err_0.spec_code() == Code::InvalidArgument,
{
    let cap = req.volume_capability->Some_0;
    lemma_access_mode_rejection(req.volume_id, cap.access_mode->Some_0, req.readonly);
}

/// A stage request with an empty staging path, and a publish request with an
/// empty staging or target path, fail as an invalid argument before anything
/// else is looked at.
pub proof fn lemma_empty_path_rejected(
    node: Node,
    stage: NodeStageVolumeRequest,
    publish: NodePublishVolumeRequest,
    staged: bool,
    target_opts: Option<Seq<Seq<char>>>,
)
    ensures
        stage.staging_target_path@.len() == 0 ==> node.stage_check(stage) == Err::<int, NodeError>(
            NodeError::InvalidPath { volume_id: stage.volume_id },
        ),
        stage.staging_target_path@.len() == 0 ==> node.stage_check(stage)->Err_0.spec_code()
            == Code::InvalidArgument,
        (publish.staging_target_path@.len() == 0 || publish.target_path@.len() == 0) ==> node.publish_outcome(
            publish,
            staged,
            target_opts,
        ) == Err::<bool, NodeError>(NodeError::InvalidPath { volume_id: publish.volume_id }),
        (publish.staging_target_path@.len() == 0 || publish.target_path@.len() == 0) ==> node.publish_outcome(
            publish,
            staged,
            target_opts,
        )->Err_0.spec_code() == Code::InvalidArgument,
{
}

} // verus!
