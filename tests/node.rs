use csi_node::mount::{mount_opts_compare, Fs, MountRecord};
use csi_node::node::{
    check_access_mode, AccessMode, AccessType, Bdev, Capability, Code, MountVolume, NbdDisk, Node,
    NodeError, NodePublishVolumeRequest, NodeStageVolumeRequest, NodeUnpublishVolumeRequest,
    NodeUnstageVolumeRequest, PublishAction, Unit, VolumeCapability,
};

fn strings(v: &[&str]) -> Vec<String> {
    v.iter().map(|s| s.to_string()).collect()
}

fn node() -> Node {
    Node {
        node_name: "node-1".to_string(),
        socket: "/var/tmp/engine.sock".to_string(),
        addr: "10.0.0.1".to_string(),
        port: 10124,
        filesystems: vec![
            Fs { name: "ext4".to_string(), defaults: strings(&["defaults"]) },
            Fs { name: "xfs".to_string(), defaults: strings(&["nouuid"]) },
        ],
    }
}

fn mount_cap(fs_type: &str, flags: &[&str], mode: AccessMode) -> Option<VolumeCapability> {
    Some(VolumeCapability {
        access_type: Some(AccessType::Mount(MountVolume {
            fs_type: fs_type.to_string(),
            mount_flags: strings(flags),
        })),
        access_mode: Some(mode),
    })
}

fn stage_req(volume: &str, path: &str, fs_type: &str) -> NodeStageVolumeRequest {
    NodeStageVolumeRequest {
        volume_id: volume.to_string(),
        staging_target_path: path.to_string(),
        volume_capability: mount_cap(fs_type, &[], AccessMode::SingleNodeWriter),
    }
}

fn publish_req(target: &str, mode: AccessMode, readonly: bool) -> NodePublishVolumeRequest {
    NodePublishVolumeRequest {
        volume_id: "vol-1".to_string(),
        staging_target_path: "/stage/vol-1".to_string(),
        target_path: target.to_string(),
        volume_capability: mount_cap("", &[], mode),
        readonly,
    }
}

fn disk() -> Option<NbdDisk> {
    Some(NbdDisk { nbd_device: "/dev/nbd0".to_string(), bdev_name: "vol-1".to_string() })
}

#[test]
fn end_to_end_stage_publish_unpublish_unstage() {
    let n = node();
    let plan = n.node_stage_volume(&stage_req("vol-1", "/stage/vol-1", "")).unwrap();
    assert_eq!(plan.filesystem.name, "ext4");
    assert_eq!(plan.filesystem.defaults, strings(&["defaults"]));
    assert_eq!(plan.staging_path, "/stage/vol-1");
    assert_eq!(plan.volume_id, "vol-1");

    let req = publish_req("/target/a", AccessMode::SingleNodeWriter, false);
    let flags = match n.node_publish_volume(&req, true, &None).unwrap() {
        PublishAction::Mount { source, target, fs_name, flags } => {
            assert_eq!(source, "/stage/vol-1");
            assert_eq!(target, "/target/a");
            assert_eq!(fs_name, "ext4");
            flags
        }
        PublishAction::AlreadyPublished => panic!("first publish must mount"),
    };
    assert_eq!(flags, strings(&["rw", "defaults"]));

    let mounted = Some(MountRecord {
        source: "/stage/vol-1".to_string(),
        dest: "/target/a".to_string(),
        opts: flags,
    });
    assert!(matches!(
        n.node_publish_volume(&req, true, &mounted),
        Ok(PublishAction::AlreadyPublished)
    ));

    let bad = publish_req("/target/a", AccessMode::SingleNodeReaderOnly, false);
    let err = n.node_publish_volume(&bad, true, &None).err().unwrap();
    assert_eq!(err.code(), Code::InvalidArgument);

    let unpub = NodeUnpublishVolumeRequest {
        volume_id: "vol-1".to_string(),
        target_path: "/target/a".to_string(),
    };
    assert_eq!(n.node_unpublish_volume(&unpub, true), Some("/target/a".to_string()));

    let unstage = NodeUnstageVolumeRequest {
        volume_id: "vol-1".to_string(),
        staging_target_path: "/stage/vol-1".to_string(),
    };
    let staged_mount = Some(MountRecord {
        source: "/dev/nbd0".to_string(),
        dest: "/stage/vol-1".to_string(),
        opts: strings(&["rw"]),
    });
    assert_eq!(
        n.node_unstage_volume(&unstage, &disk(), &staged_mount),
        Ok(Some("/stage/vol-1".to_string()))
    );
    assert_eq!(n.node_unstage_volume(&unstage, &disk(), &None), Ok(None));
}

#[test]
fn stage_twice_gives_the_same_plan() {
    let n = node();
    let a = n.node_stage_volume(&stage_req("vol-1", "/stage/vol-1", "xfs")).unwrap();
    let b = n.node_stage_volume(&stage_req("vol-1", "/stage/vol-1", "xfs")).unwrap();
    assert_eq!(a.filesystem.name, "xfs");
    assert_eq!(a.filesystem.name, b.filesystem.name);
    assert_eq!(a.filesystem.defaults, b.filesystem.defaults);
    assert_eq!(a.mount_flags, b.mount_flags);
}

#[test]
fn stage_keeps_requested_flags() {
    let n = node();
    let mut req = stage_req("vol-2", "/stage/vol-2", "");
    req.volume_capability = mount_cap("", &["noatime"], AccessMode::MultiNodeReaderOnly);
    let plan = n.node_stage_volume(&req).unwrap();
    assert_eq!(plan.mount_flags, strings(&["noatime"]));
}

#[test]
fn stage_rejects_empty_paths_and_ids() {
    let n = node();
    let e = n.node_stage_volume(&stage_req("vol-1", "", "")).err().unwrap();
    assert_eq!(e, NodeError::InvalidPath { volume_id: "vol-1".to_string() });
    assert_eq!(e.code(), Code::InvalidArgument);
    let e = n.node_stage_volume(&stage_req("", "/stage/x", "")).err().unwrap();
    assert_eq!(e.code(), Code::InvalidArgument);
}

#[test]
fn stage_rejects_missing_capability_and_raw_block() {
    let n = node();
    let mut req = stage_req("vol-1", "/stage/vol-1", "");
    req.volume_capability = None;
    let e = n.node_stage_volume(&req).err().unwrap();
    assert_eq!(e, NodeError::MissingCapability { volume_id: "vol-1".to_string() });
    req.volume_capability = Some(VolumeCapability {
        access_type: Some(AccessType::Block),
        access_mode: Some(AccessMode::SingleNodeWriter),
    });
    assert_eq!(n.node_stage_volume(&req).err().unwrap(), NodeError::RawBlock);
    req.volume_capability = Some(VolumeCapability {
        access_type: None,
        access_mode: Some(AccessMode::SingleNodeWriter),
    });
    let e = n.node_stage_volume(&req).err().unwrap();
    assert_eq!(e, NodeError::MissingAccessType { volume_id: "vol-1".to_string() });
    assert_eq!(e.code(), Code::InvalidArgument);
}

#[test]
fn stage_rejects_unknown_filesystem() {
    let n = node();
    let e = n.node_stage_volume(&stage_req("vol-1", "/stage/vol-1", "btrfs")).err().unwrap();
    assert_eq!(e, NodeError::UnsupportedFilesystem { fs_type: "btrfs".to_string() });
    assert_eq!(e.code(), Code::InvalidArgument);
}

#[test]
fn stage_treats_the_mount_as_read_only() {
    let n = node();
    let mut req = stage_req("vol-1", "/stage/vol-1", "");
    req.volume_capability = mount_cap("", &[], AccessMode::SingleNodeReaderOnly);
    assert!(n.node_stage_volume(&req).is_ok());
    req.volume_capability = mount_cap("", &[], AccessMode::MultiNodeMultiWriter);
    let e = n.node_stage_volume(&req).err().unwrap();
    assert_eq!(
        e,
        NodeError::UnsupportedAccessMode {
            volume_id: "vol-1".to_string(),
            mode: AccessMode::MultiNodeMultiWriter
        }
    );
}

#[test]
fn stage_without_filesystems_fails() {
    let mut n = node();
    n.filesystems = Vec::new();
    let e = n.node_stage_volume(&stage_req("vol-1", "/stage/vol-1", "")).err().unwrap();
    assert_eq!(e, NodeError::UnsupportedFilesystem { fs_type: String::new() });
}

#[test]
fn publish_rejects_empty_paths() {
    let n = node();
    let mut req = publish_req("", AccessMode::SingleNodeWriter, false);
    let e = n.node_publish_volume(&req, true, &None).err().unwrap();
    assert_eq!(e, NodeError::InvalidPath { volume_id: "vol-1".to_string() });
    req.target_path = "/target/a".to_string();
    req.staging_target_path = String::new();
    let e = n.node_publish_volume(&req, true, &None).err().unwrap();
    assert_eq!(e.code(), Code::InvalidArgument);
}

#[test]
fn publish_requires_a_staged_volume() {
    let n = node();
    let req = publish_req("/target/a", AccessMode::SingleNodeWriter, false);
    let e = n.node_publish_volume(&req, false, &None).err().unwrap();
    assert_eq!(
        e,
        NodeError::NotStaged {
            volume_id: "vol-1".to_string(),
            staging_path: "/stage/vol-1".to_string()
        }
    );
    assert_eq!(e.code(), Code::InvalidArgument);
}

#[test]
fn publish_read_only_mount_flags() {
    let n = node();
    let mut req = publish_req("/target/b", AccessMode::MultiNodeReaderOnly, true);
    req.volume_capability = mount_cap("xfs", &["noatime"], AccessMode::MultiNodeReaderOnly);
    match n.node_publish_volume(&req, true, &None).unwrap() {
        PublishAction::Mount { fs_name, flags, .. } => {
            assert_eq!(fs_name, "xfs");
            assert_eq!(flags, strings(&["noatime", "ro", "nouuid"]));
        }
        PublishAction::AlreadyPublished => panic!("expected a mount"),
    }
}

#[test]
fn publish_writable_mode_on_read_only_mount_is_accepted() {
    let n = node();
    let req = publish_req("/target/c", AccessMode::SingleNodeWriter, true);
    assert!(n.node_publish_volume(&req, true, &None).is_ok());
}

#[test]
fn publish_with_incompatible_mount_fails() {
    let n = node();
    let req = publish_req("/target/a", AccessMode::SingleNodeWriter, false);
    let mounted = Some(MountRecord {
        source: "/stage/vol-1".to_string(),
        dest: "/target/a".to_string(),
        opts: strings(&["ro", "defaults"]),
    });
    let e = n.node_publish_volume(&req, true, &mounted).err().unwrap();
    assert_eq!(e, NodeError::IncompatibleMount { volume_id: "vol-1".to_string() });
    assert_eq!(e.code(), Code::AlreadyExists);
}

#[test]
fn publish_accepts_reordered_options() {
    let n = node();
    let mut req = publish_req("/target/a", AccessMode::SingleNodeWriter, false);
    req.volume_capability = mount_cap("", &["noatime"], AccessMode::SingleNodeWriter);
    let mounted = Some(MountRecord {
        source: "/stage/vol-1".to_string(),
        dest: "/target/a".to_string(),
        opts: strings(&["defaults", "rw", "noatime"]),
    });
    assert!(matches!(
        n.node_publish_volume(&req, true, &mounted),
        Ok(PublishAction::AlreadyPublished)
    ));
}

#[test]
fn publish_rejects_read_only_modes_on_writable_mounts() {
    let n = node();
    for mode in [AccessMode::SingleNodeReaderOnly, AccessMode::MultiNodeReaderOnly] {
        let req = publish_req("/target/a", mode, false);
        let e = n.node_publish_volume(&req, true, &None).err().unwrap();
        assert_eq!(e, NodeError::ReadOnlyAccessMode { volume_id: "vol-1".to_string() });
    }
    for mode in [AccessMode::Unknown, AccessMode::MultiNodeMultiWriter, AccessMode::Unrecognized(9)] {
        let req = publish_req("/target/a", mode, false);
        let e = n.node_publish_volume(&req, true, &None).err().unwrap();
        assert_eq!(e.code(), Code::InvalidArgument);
    }
}

#[test]
fn unpublish_of_unmounted_target_does_nothing() {
    let n = node();
    let req = NodeUnpublishVolumeRequest {
        volume_id: "vol-1".to_string(),
        target_path: "/target/a".to_string(),
    };
    assert_eq!(n.node_unpublish_volume(&req, false), None);
    assert_eq!(n.node_unpublish_volume(&req, false), None);
}

#[test]
fn unstage_without_device_is_not_found() {
    let n = node();
    let req = NodeUnstageVolumeRequest {
        volume_id: "vol-9".to_string(),
        staging_target_path: "/stage/vol-9".to_string(),
    };
    let e = n.node_unstage_volume(&req, &None, &None).err().unwrap();
    assert_eq!(e, NodeError::DeviceNotFound { volume_id: "vol-9".to_string() });
    assert_eq!(e.code(), Code::NotFound);
}

#[test]
fn unstage_of_other_mount_does_nothing() {
    let n = node();
    let req = NodeUnstageVolumeRequest {
        volume_id: "vol-1".to_string(),
        staging_target_path: "/stage/vol-1".to_string(),
    };
    let elsewhere = Some(MountRecord {
        source: "/dev/nbd0".to_string(),
        dest: "/stage/other".to_string(),
        opts: Vec::new(),
    });
    assert_eq!(n.node_unstage_volume(&req, &disk(), &elsewhere), Ok(None));
    let other_device = Some(MountRecord {
        source: "/dev/nbd1".to_string(),
        dest: "/stage/vol-1".to_string(),
        opts: Vec::new(),
    });
    assert_eq!(n.node_unstage_volume(&req, &disk(), &other_device), Ok(None));
}

#[test]
fn volume_stats_total_size() {
    let n = node();
    let id = "vol-1".to_string();
    assert_eq!(n.stats_query(&id, &disk()), Ok("vol-1".to_string()));
    assert_eq!(
        n.stats_query(&id, &None),
        Err(NodeError::DeviceNotFound { volume_id: "vol-1".to_string() })
    );
    let bdevs = vec![Bdev { name: "vol-1".to_string(), block_size: 512, num_blocks: 2048 }];
    let usage = n.node_get_volume_stats(&id, &bdevs).ok().unwrap();
    assert_eq!(usage.total, 1048576);
    assert_eq!(usage.available, 0);
    assert_eq!(usage.used, 0);
    assert_eq!(usage.unit, Unit::Bytes);
}

#[test]
fn volume_stats_errors() {
    let n = node();
    let id = "vol-1".to_string();
    let e = n.node_get_volume_stats(&id, &Vec::new()).err().unwrap();
    assert_eq!(e, NodeError::BdevNotFound { volume_id: id.clone() });
    assert_eq!(e.code(), Code::Internal);
    let two = vec![
        Bdev { name: "vol-1".to_string(), block_size: 512, num_blocks: 1 },
        Bdev { name: "vol-1".to_string(), block_size: 512, num_blocks: 2 },
    ];
    let e = n.node_get_volume_stats(&id, &two).err().unwrap();
    assert_eq!(e, NodeError::BdevAmbiguous { volume_id: id.clone() });
    let huge = vec![Bdev { name: "vol-1".to_string(), block_size: 4096, num_blocks: u64::MAX }];
    let e = n.node_get_volume_stats(&id, &huge).err().unwrap();
    assert_eq!(e, NodeError::SizeOverflow { volume_id: id.clone() });
}

#[test]
fn node_info_id_and_capacity() {
    let n = node();
    let info = n.node_get_info(16);
    assert_eq!(info.node_id, "mayastor://node-1/10.0.0.1:10124");
    assert_eq!(info.max_volumes_per_node, 16);
    let mut m = node();
    m.port = 7;
    assert_eq!(m.node_get_info(0).node_id, "mayastor://node-1/10.0.0.1:7");
}

#[test]
fn node_capabilities_and_expand() {
    let n = node();
    assert_eq!(
        n.node_get_capabilities(),
        vec![Capability::GetVolumeStats, Capability::StageUnstageVolume]
    );
    let e = n.node_expand_volume().err().unwrap();
    assert_eq!(e, NodeError::Unimplemented);
    assert_eq!(e.code(), Code::Unimplemented);
}

#[test]
fn access_mode_wire_values() {
    assert_eq!(AccessMode::from_i32(0), AccessMode::Unknown);
    assert_eq!(AccessMode::from_i32(1), AccessMode::SingleNodeWriter);
    assert_eq!(AccessMode::from_i32(2), AccessMode::SingleNodeReaderOnly);
    assert_eq!(AccessMode::from_i32(3), AccessMode::MultiNodeReaderOnly);
    assert_eq!(AccessMode::from_i32(4), AccessMode::MultiNodeSingleWriter);
    assert_eq!(AccessMode::from_i32(5), AccessMode::MultiNodeMultiWriter);
    assert_eq!(AccessMode::from_i32(42), AccessMode::Unrecognized(42));
}

#[test]
fn access_mode_check() {
    let id = "vol-1".to_string();
    assert_eq!(check_access_mode(&id, &Some(AccessMode::SingleNodeWriter), false), Ok(()));
    assert_eq!(check_access_mode(&id, &Some(AccessMode::MultiNodeSingleWriter), true), Ok(()));
    assert_eq!(check_access_mode(&id, &Some(AccessMode::MultiNodeReaderOnly), true), Ok(()));
    assert_eq!(
        check_access_mode(&id, &Some(AccessMode::SingleNodeReaderOnly), false),
        Err(NodeError::ReadOnlyAccessMode { volume_id: id.clone() })
    );
    assert_eq!(
        check_access_mode(&id, &None, true),
        Err(NodeError::MissingAccessMode { volume_id: id.clone() })
    );
}

#[test]
fn mount_options_compare_ignores_order() {
    assert!(mount_opts_compare(&strings(&["ro", "noatime"]), &strings(&["noatime", "ro"]), true));
}

#[test]
fn mount_options_compare_differences() {
    assert!(!mount_opts_compare(&strings(&["ro", "noatime"]), &strings(&["noatime", "ro"]), false));
    assert!(!mount_opts_compare(&strings(&["rw", "noatime"]), &strings(&["rw"]), false));
    assert!(!mount_opts_compare(&strings(&["rw"]), &strings(&["rw", "sync"]), false));
    assert!(mount_opts_compare(&strings(&["rw", "sync"]), &strings(&["sync"]), false));
    assert!(mount_opts_compare(&strings(&["a", "a", "rw"]), &strings(&["a", "rw"]), false));
}
