use rsjail::{validate_config, JailConfig, JailError, MountConfig, ValidationFault};
use rsjail::confine::FsAction;
use rsjail::privilege::PrivAction;
use rsjail::supervise::{supervise_step, SuperviseStep, WaitOutcome};
use rsjail::mapping::{write_outcome, ProcWrite};
use rsjail::confine::{mkdir_outcome, target_step, TargetStep};

fn ensure_dir(path: &str) {
    let _ = nix::unistd::mkdir(path, nix::sys::stat::Mode::from_bits_truncate(0o755));
}

fn validate_config_result(config: &JailConfig) -> Result<(), JailError> {
    validate_config(config)
}

#[test]
fn test_config_default() {
    let config = JailConfig::default();
    assert_eq!(config.name, "default");
    assert_eq!(config.exec_bin, "/bin/sh");
    assert!(config.clone_newpid);
    assert!(config.mounts.is_empty());
}

#[test]
fn test_config_validation() {
    let mut config = JailConfig::default();

    config.exec_bin = "".to_string();
    assert!(validate_config_result(&config).is_err());

    config.exec_bin = "/bin/sh".to_string();
    config.chroot_dir = Some("/nonexistent/path".to_string());
    assert!(validate_config_result(&config).is_err());

    ensure_dir("/tmp/test");
    config.chroot_dir = Some("/tmp/test".to_string());
    assert!(validate_config_result(&config).is_ok());
}

#[test]
fn test_validate_empty_exec_exact_error() {
    let mut config = JailConfig::default();
    config.exec_bin = String::new();
    assert_eq!(
        validate_config(&config),
        Err(JailError::Validation(ValidationFault::EmptyExecutable))
    );
}

#[test]
fn test_validate_missing_root_exact_error() {
    let mut config = JailConfig::default();
    config.chroot_dir = Some("/no/such/root/anywhere".to_string());
    assert_eq!(
        validate_config(&config),
        Err(JailError::Validation(ValidationFault::MissingRoot))
    );
}

#[test]
fn test_validate_mount_escape() {
    ensure_dir("/tmp/test");
    let mut config = JailConfig::default();
    config.chroot_dir = Some("/tmp/test".to_string());
    config.mounts = vec![MountConfig {
        src: "/bin".to_string(),
        dst: "/bin/../../evil".to_string(),
        fstype: None,
        is_bind: true,
        rw: false,
    }];
    assert_eq!(
        validate_config(&config),
        Err(JailError::Validation(ValidationFault::MountEscapes))
    );

    config.mounts[0].dst = "relative".to_string();
    assert_eq!(
        validate_config(&config),
        Err(JailError::Validation(ValidationFault::MountEscapes))
    );

    config.mounts[0].dst = "/fine".to_string();
    assert_eq!(validate_config(&config), Ok(()));
}

#[test]
fn test_validate_duplicate_mounts() {
    let mut config = JailConfig::default();
    let entry = MountConfig {
        src: "/bin".to_string(),
        dst: "/bin".to_string(),
        fstype: None,
        is_bind: true,
        rw: false,
    };
    let mut second = entry.clone();
    second.src = "/usr/bin".to_string();
    config.mounts = vec![entry, second];
    assert_eq!(
        validate_config(&config),
        Err(JailError::Validation(ValidationFault::DuplicateMount))
    );
}

#[test]
fn test_validate_zero_ceiling() {
    let mut config = JailConfig::default();
    config.rlimit_cpu = Some(0);
    assert_eq!(
        validate_config(&config),
        Err(JailError::Validation(ValidationFault::ZeroCeiling))
    );
}

#[test]
fn test_clone_bits_values() {
    let all = JailConfig::default();
    assert_eq!(rsjail::isolate::clone_bits(&all), 0x7C02_0000);

    let mut none = JailConfig::default();
    none.clone_newpid = false;
    none.clone_newnet = false;
    none.clone_newns = false;
    none.clone_newuts = false;
    none.clone_newipc = false;
    none.clone_newuser = false;
    assert_eq!(rsjail::isolate::clone_bits(&none), 0);

    let mut only_user = none.clone();
    only_user.clone_newuser = true;
    assert_eq!(rsjail::isolate::clone_bits(&only_user), 0x1000_0000);
}

#[test]
fn test_mount_flag_bits() {
    assert_eq!(rsjail::confine::mount_flag_bits(true, false), 0x1001);
    assert_eq!(rsjail::confine::mount_flag_bits(true, true), 0x1000);
    assert_eq!(rsjail::confine::mount_flag_bits(false, false), 0x1);
    assert_eq!(rsjail::confine::mount_flag_bits(false, true), 0x0);
}

#[test]
fn test_identity_map_write_order() {
    let writes = rsjail::mapping::identity_map_writes(1234, 1000, 1001);
    assert_eq!(writes.len(), 3);
    assert_eq!(writes[0].path, "/proc/1234/uid_map");
    assert_eq!(writes[0].contents, "0 1000 1");
    assert_eq!(writes[1].path, "/proc/1234/setgroups");
    assert_eq!(writes[1].contents, "deny");
    assert_eq!(writes[2].path, "/proc/1234/gid_map");
    assert_eq!(writes[2].contents, "0 1001 1");
}

#[test]
fn test_fs_plan_order() {
    let mounts = vec![MountConfig {
        src: "/bin".to_string(),
        dst: "/bin".to_string(),
        fstype: None,
        is_bind: true,
        rw: false,
    }];
    let plan = rsjail::confine::fs_plan("/tmp/jail", &mounts);
    assert_eq!(plan.len(), 14);
    match &plan[0] {
        FsAction::Dir(p) => assert_eq!(p, "/tmp/jail"),
        other => panic!("expected Dir first, got {:?}", other),
    }
    match &plan[1] {
        FsAction::Dir(p) => assert_eq!(p, "/tmp/jail/bin"),
        other => panic!("expected Dir, got {:?}", other),
    }
    match &plan[10] {
        FsAction::EnsureTarget { src, target } => {
            assert_eq!(src, "/bin");
            assert_eq!(target, "/tmp/jail/bin");
        }
        other => panic!("expected EnsureTarget, got {:?}", other),
    }
    match &plan[11] {
        FsAction::Mount { src, target, fstype, bits } => {
            assert_eq!(src, "/bin");
            assert_eq!(target, "/tmp/jail/bin");
            assert!(fstype.is_none());
            assert_eq!(*bits, 0x1001);
        }
        other => panic!("expected Mount, got {:?}", other),
    }
    match &plan[12] {
        FsAction::SwitchRoot(p) => assert_eq!(p, "/tmp/jail"),
        other => panic!("expected SwitchRoot, got {:?}", other),
    }
    match &plan[13] {
        FsAction::ResetCwd => {}
        other => panic!("expected ResetCwd last, got {:?}", other),
    }
    // Every mount stands before the root switch.
    let switch_at = 12;
    for (i, a) in plan.iter().enumerate() {
        if let FsAction::Mount { .. } = a {
            assert!(i < switch_at);
        }
    }
}

#[test]
fn test_priv_plan_order_and_limits() {
    let mut config = JailConfig::default();
    config.gid = Some(5);
    config.uid = Some(7);
    config.rlimit_as = Some(1048576);
    config.rlimit_cpu = Some(10);
    config.rlimit_nofile = Some(64);
    let plan = rsjail::privilege::priv_plan(&config);
    assert_eq!(
        plan,
        vec![
            PrivAction::SetGid(5),
            PrivAction::SetUid(7),
            PrivAction::LimitAs(1048576, 1048576),
            PrivAction::LimitCpu(10, 10),
            PrivAction::LimitNofile(64, 64),
        ]
    );
}

#[test]
fn test_priv_plan_address_space_soft_equals_hard() {
    let mut config = JailConfig::default();
    config.rlimit_as = Some(4242);
    let plan = rsjail::privilege::priv_plan(&config);
    assert_eq!(plan.len(), 1);
    assert_eq!(plan[0], rsjail::privilege::PrivAction::LimitAs(4242, 4242));
}

#[test]
fn test_prepare_exec_image() {
    let config = JailConfig::default();
    let jail = rsjail::Jail::new(config);
    let img = jail.exec_image().unwrap();
    assert_eq!(img.bin, "/bin/sh");
    assert_eq!(img.args, vec!["/bin/sh".to_string()]);
    assert_eq!(
        img.env,
        vec![
            "PATH=/bin:/usr/bin:/sbin:/usr/sbin".to_string(),
            "HOME=/".to_string(),
            "USER=jail".to_string(),
        ]
    );
}

#[test]
fn test_prepare_exec_rejects_nul() {
    let mut config = JailConfig::default();
    config.exec_args = vec!["/bin/sh".to_string(), "a\0b".to_string()];
    let jail = rsjail::Jail::new(config);
    assert_eq!(jail.exec_image().unwrap_err(), JailError::Exec(22));
}

#[test]
fn test_supervise_step_decisions() {
    assert_eq!(supervise_step(None, 4, Some(5)), SuperviseStep::KeepWaiting);
    assert_eq!(supervise_step(None, 5, Some(5)), SuperviseStep::KillNow);
    assert_eq!(supervise_step(None, 100, None), SuperviseStep::KeepWaiting);
    assert_eq!(
        supervise_step(Some(WaitOutcome::Exited(0)), 9, Some(1)),
        SuperviseStep::Report(WaitOutcome::Exited(0))
    );
    assert_eq!(
        supervise_step(Some(WaitOutcome::Signaled(9)), 0, None),
        SuperviseStep::Report(WaitOutcome::Signaled(9))
    );
}

#[test]
fn test_u64_to_dec() {
    assert_eq!(rsjail::text::u64_to_dec(0), "0");
    assert_eq!(rsjail::text::u64_to_dec(7), "7");
    assert_eq!(rsjail::text::u64_to_dec(1048576), "1048576");
    assert_eq!(rsjail::text::u64_to_dec(u64::MAX), "18446744073709551615");
}

#[test]
fn test_codec_exact_encoding() {
    let config = JailConfig::default();
    let text = rsjail::codec::config_to_text(&config);
    assert_eq!(text, "CS7:defaultNNS7:/bin/shL1:S7:/bin/shTTTTTTNNNL0:NNN");
}

#[test]
fn test_codec_round_trip_all_fields() {
    let config = JailConfig {
        name: "test".to_string(),
        hostname: Some("test-host".to_string()),
        chroot_dir: Some("/tmp/test".to_string()),
        exec_bin: "/bin/sh".to_string(),
        exec_args: vec!["/bin/sh".to_string()],
        clone_newpid: true,
        clone_newnet: true,
        clone_newns: true,
        clone_newuts: true,
        clone_newipc: true,
        clone_newuser: true,
        rlimit_as: Some(1024 * 1024),
        rlimit_cpu: Some(10),
        rlimit_nofile: Some(64),
        mounts: vec![MountConfig {
            src: "/bin".to_string(),
            dst: "/bin".to_string(),
            fstype: None,
            is_bind: true,
            rw: false,
        }],
        uid: Some(1000),
        gid: Some(1000),
        time_limit: Some(30),
    };
    let text = rsjail::codec::config_to_text(&config);
    let back = rsjail::codec::config_from_text(text.as_str()).unwrap();
    assert_eq!(back.name, "test");
    assert_eq!(back.hostname, Some("test-host".to_string()));
    assert_eq!(back.chroot_dir, Some("/tmp/test".to_string()));
    assert_eq!(back.exec_bin, "/bin/sh");
    assert_eq!(back.exec_args, vec!["/bin/sh".to_string()]);
    assert!(back.clone_newpid);
    assert!(back.clone_newnet);
    assert!(back.clone_newns);
    assert!(back.clone_newuts);
    assert!(back.clone_newipc);
    assert!(back.clone_newuser);
    assert_eq!(back.rlimit_as, Some(1048576));
    assert_eq!(back.rlimit_cpu, Some(10));
    assert_eq!(back.rlimit_nofile, Some(64));
    assert_eq!(back.mounts.len(), 1);
    assert_eq!(back.mounts[0].src, "/bin");
    assert_eq!(back.mounts[0].dst, "/bin");
    assert_eq!(back.mounts[0].fstype, None);
    assert!(back.mounts[0].is_bind);
    assert!(!back.mounts[0].rw);
    assert_eq!(back.uid, Some(1000));
    assert_eq!(back.gid, Some(1000));
    assert_eq!(back.time_limit, Some(30));
}

#[test]
fn test_codec_round_trip_tricky_strings() {
    let mut config = JailConfig::default();
    config.name = "a:b S7:T L0: N".to_string();
    config.hostname = Some(String::new());
    config.exec_args = vec![String::new(), "x".to_string(), "::".to_string()];
    let text = rsjail::codec::config_to_text(&config);
    let back = rsjail::codec::config_from_text(text.as_str()).unwrap();
    assert_eq!(back.name, "a:b S7:T L0: N");
    assert_eq!(back.hostname, Some(String::new()));
    assert_eq!(back.exec_args, vec![String::new(), "x".to_string(), "::".to_string()]);
}

#[test]
fn test_codec_rejects_bad_input() {
    assert!(rsjail::codec::config_from_text("").is_none());
    assert!(rsjail::codec::config_from_text("X").is_none());
    assert!(rsjail::codec::config_from_text("CS7:default").is_none());
    // Trailing garbage after a whole configuration is refused.
    assert!(
        rsjail::codec::config_from_text("CS7:defaultNNS7:/bin/shL1:S7:/bin/shTTTTTTNNNL0:NNNx")
            .is_none()
    );
    // A mangled count is refused.
    assert!(rsjail::codec::config_from_text("CS8:defaultNNS7:/bin/shL1:S7:/bin/shTTTTTTNNNL0:NNN")
        .is_none());
}

fn create_file(path: &str) {
    let fd = nix::fcntl::open(
        path,
        nix::fcntl::OFlag::O_WRONLY | nix::fcntl::OFlag::O_CREAT | nix::fcntl::OFlag::O_TRUNC,
        nix::sys::stat::Mode::from_bits_truncate(0o644),
    )
    .unwrap();
    drop(fd);
}

fn read_file(path: &str) -> Vec<u8> {
    let fd = nix::fcntl::open(path, nix::fcntl::OFlag::O_RDONLY, nix::sys::stat::Mode::empty())
        .unwrap();
    let mut buf = [0u8; 256];
    let n = nix::unistd::read(&fd, &mut buf).unwrap();
    buf[..n].to_vec()
}

#[test]
fn test_apply_proc_writes_hits_the_file() {
    let path = "/tmp/rsjail_write_probe";
    create_file(path);
    let writes = vec![ProcWrite { path: path.to_string(), contents: "0 1000 1".to_string() }];
    assert!(rsjail::mapping::apply_proc_writes(&writes).is_ok());
    assert_eq!(read_file(path), b"0 1000 1".to_vec());
}

#[test]
fn test_apply_proc_writes_missing_target_is_mapping_error() {
    let writes = vec![ProcWrite {
        path: "/tmp/rsjail_no_such_dir/x".to_string(),
        contents: "deny".to_string(),
    }];
    match rsjail::mapping::apply_proc_writes(&writes) {
        Err(JailError::Mapping(_)) => {}
        other => panic!("expected a mapping error, got {:?}", other),
    }
}

#[test]
fn test_apply_fs_plan_creates_directories() {
    let plan = vec![FsAction::Dir("/tmp/rsjail_dirs/a/b".to_string())];
    assert!(rsjail::confine::apply_fs_plan(&plan).is_ok());
    // Doing it again is idempotent.
    assert!(rsjail::confine::apply_fs_plan(&plan).is_ok());
}

#[test]
fn test_codec_u64_bounds() {
    let mut config = JailConfig::default();
    config.time_limit = Some(u64::MAX);
    let text = rsjail::codec::config_to_text(&config);
    let back = rsjail::codec::config_from_text(text.as_str()).unwrap();
    assert_eq!(back.time_limit, Some(u64::MAX));

    // The largest u64 parses; one more is refused.
    let fits = "CS0:NNS0:L0:TTTTTTJ18446744073709551615:NNL0:NNN";
    assert!(rsjail::codec::config_from_text(fits).is_some());
    let too_big = "CS0:NNS0:L0:TTTTTTJ18446744073709551616:NNL0:NNN";
    assert!(rsjail::codec::config_from_text(too_big).is_none());
}

#[test]
fn test_empty_plans_always_succeed() {
    assert!(rsjail::privilege::apply_priv_plan(&Vec::new()).is_ok());
    assert!(rsjail::confine::apply_fs_plan(&Vec::new()).is_ok());
    assert!(rsjail::mapping::apply_proc_writes(&Vec::new()).is_ok());
}

#[test]
fn test_apply_privileges_nothing_configured_is_ok() {
    // No identity and no ceiling: the drop is a no-op and must succeed.
    let config = JailConfig::default();
    assert!(rsjail::privilege::priv_plan(&config).is_empty());
    assert!(rsjail::privilege::apply_privileges(&config).is_ok());
}

#[test]
fn test_setup_child_environment_nothing_requested_is_ok() {
    // The echo-style configuration: no namespaces, no hostname, no root,
    // no identity, no ceilings. The whole child-side setup is a no-op.
    let mut config = JailConfig::default();
    config.clone_newpid = false;
    config.clone_newnet = false;
    config.clone_newns = false;
    config.clone_newuts = false;
    config.clone_newipc = false;
    config.clone_newuser = false;
    let jail = rsjail::Jail::new(config);
    assert_eq!(jail.setup_child_environment(), Ok(()));
}

#[test]
fn test_write_outcome_rule() {
    assert_eq!(write_outcome(Ok(8), 8), Ok(()));
    assert_eq!(write_outcome(Ok(7), 8), Err(JailError::Mapping(5)));
    assert_eq!(write_outcome(Err(13), 8), Err(JailError::Mapping(13)));
}

#[test]
fn test_mkdir_outcome_rule() {
    assert_eq!(mkdir_outcome(Ok(()), false), Ok(()));
    assert_eq!(mkdir_outcome(Err(17), true), Ok(()));
    assert_eq!(mkdir_outcome(Err(13), false), Err(13));
}

#[test]
fn test_target_step_rule() {
    assert_eq!(target_step(true, true), TargetStep::CreateFile);
    assert_eq!(target_step(true, false), TargetStep::CreateFile);
    assert_eq!(target_step(false, false), TargetStep::CreateDirs);
    assert_eq!(target_step(false, true), TargetStep::AlreadyThere);
}
