use xprocess_lock::AcquireStage;
use xprocess_lock::Error;
use xprocess_lock::LockMode;
use xprocess_lock::XProcessLock;
use xprocess_lock::mode_label;
use xprocess_lock::next_stage;
use xprocess_lock::open_plan;
use xprocess_lock::resolve_base_dir;
use xprocess_lock::sanitize;

#[test]
fn sanitize_preserves_allowed_chars() {
    let input = "Safe-Name_123";
    assert_eq!(sanitize(input), input);
}

#[test]
fn sanitize_replaces_disallowed_ascii() {
    assert_eq!(sanitize("bad name!"), "bad_name_");
    assert_eq!(sanitize("foo.bar"), "foo_bar");
}

#[test]
fn sanitize_replaces_non_ascii() {
    assert_eq!(sanitize("über"), "__ber");
    assert_eq!(sanitize("你好"), "______");
}

#[test]
fn sanitize_emits_one_underscore_per_utf8_byte() {
    assert_eq!(sanitize("é"), "__");
    assert_eq!(sanitize("€"), "___");
    assert_eq!(sanitize("𝄞"), "____");
    assert_eq!(sanitize("aé好𝄞-"), "a_________-");
}

#[test]
fn sanitize_is_idempotent_on_samples() {
    let once = sanitize("b@d näme!");
    let twice = sanitize(&once);
    assert_eq!(once, twice);
    assert_eq!(sanitize(&sanitize("")), "");
}

#[test]
fn create_rejects_empty_or_whitespace_names() {
    assert!(matches!(XProcessLock::create("", "/tmp"), Err(Error::EmptyName)));
    assert!(matches!(XProcessLock::create("   ", "/tmp"), Err(Error::EmptyName)));
}

#[test]
fn create_trims_only_for_the_emptiness_check() {
    let lock = XProcessLock::create(" a ", "/tmp").unwrap();
    assert_eq!(lock.lock_file_path(), "/tmp/_a_.lock");
}

#[test]
fn create_derives_the_lock_file_path() {
    let lock = XProcessLock::create("my test", "/var/locks").unwrap();
    assert_eq!(lock.lock_file_path(), "/var/locks/my_test.lock");
    assert_eq!(lock.parent_dir(), "/var/locks");
}

#[test]
fn default_dir_respects_env_override() {
    assert_eq!(resolve_base_dir(Some("/tmp/custom"), "/any/temp"), "/tmp/custom");
}

#[test]
fn default_dir_uses_temp_when_unset() {
    assert_eq!(resolve_base_dir(None, "/the/temp"), "/the/temp/xprocess-lock");
    assert_eq!(resolve_base_dir(Some(""), "/the/temp"), "/the/temp/xprocess-lock");
}

#[test]
fn open_plan_never_truncates() {
    let p = open_plan();
    assert!(p.read);
    assert!(p.write);
    assert!(p.create);
    assert!(!p.truncate);
}

#[test]
fn stages_run_in_a_fixed_order() {
    assert_eq!(next_stage(AcquireStage::EnsureDir), Some(AcquireStage::OpenFile));
    assert_eq!(next_stage(AcquireStage::OpenFile), Some(AcquireStage::AcquireOsLock));
    assert_eq!(next_stage(AcquireStage::AcquireOsLock), None);
}

#[test]
fn mode_labels_name_the_modes() {
    assert_eq!(mode_label(LockMode::Exclusive), "exclusive");
    assert_eq!(mode_label(LockMode::Shared), "shared");
}

#[test]
fn stage_failures_carry_the_attempted_path() {
    let lock = XProcessLock::create("x", "/base").unwrap();
    let e = lock.stage_failure(AcquireStage::EnsureDir, LockMode::Exclusive, "denied".to_string());
    match e {
        Error::CreateDir { path, message } => {
            assert_eq!(path, "/base");
            assert_eq!(message, "denied");
        },
        _ => panic!("wrong error kind"),
    }
    let e = lock.stage_failure(AcquireStage::OpenFile, LockMode::Exclusive, "no".to_string());
    match e {
        Error::OpenLockFile { path, message } => {
            assert_eq!(path, "/base/x.lock");
            assert_eq!(message, "no");
        },
        _ => panic!("wrong error kind"),
    }
    let e = lock.stage_failure(AcquireStage::AcquireOsLock, LockMode::Shared, "busy".to_string());
    match e {
        Error::AcquireLock { path, mode, message } => {
            assert_eq!(path, "/base/x.lock");
            assert_eq!(mode, LockMode::Shared);
            assert_eq!(message, "busy");
        },
        _ => panic!("wrong error kind"),
    }
}
