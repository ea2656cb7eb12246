use std::io::Write;

use env_vars::EnvVars;
use env_vars::Environment;
use env_vars::OutputStep;

/// The real process environment: each installed pair is written to a scratch
/// env file and loaded into the process with override semantics, so a later
/// read observes it.
struct ProcessSink;

impl env_vars::EnvSink for ProcessSink {
    fn set_var(&mut self, key: &str, value: &str) {
        let mut file = tempfile::NamedTempFile::new().unwrap();
        file.write_all(format!("{key}={value}\n").as_bytes()).unwrap();
        dotenvy::from_path_override(file.path()).unwrap();
    }
}

fn runtime() -> tokio::runtime::Runtime {
    tokio::runtime::Builder::new_current_thread()
        .build()
        .expect("runtime")
}

fn declare_local(e: EnvVars) -> env_vars::ResourceOutput {
    match e.output(Environment::Local) {
        OutputStep::Ready(out) => out,
        OutputStep::CopyFolder(_) => panic!("a local declaration must not delegate a copy"),
    }
}

#[test]
fn load_env_vars_with_empty_path_skips_loading() {
    let mut sink = env_vars::RecordedEnv::new();
    let path = EnvVars::load_env_vars("", &mut sink)
        .expect("empty path is the nothing-to-load success");
    assert_eq!(path, "");
    assert!(sink.vars().is_empty(), "nothing may be installed when there is nothing to load");
}

#[test]
fn load_env_vars_reports_a_missing_file() {
    let mut sink = env_vars::RecordedEnv::new();
    let r = EnvVars::load_env_vars("/definitely/not/a/real/env/file", &mut sink);
    assert!(r.is_err(), "a missing env file must fail the load");
    assert!(sink.vars().is_empty(), "a failed load may not install anything");
}

#[test]
fn load_env_vars_rejects_a_nul_value() {
    let mut file = tempfile::NamedTempFile::new().unwrap();
    file.write_all(b"MY_NUL=a\x00b\n").unwrap();
    let path = file.path().to_str().unwrap();

    let mut sink = env_vars::RecordedEnv::new();
    let r = EnvVars::load_env_vars(path, &mut sink);
    assert!(r.is_err(), "a value holding a NUL cannot be installed and must fail the load");
    assert!(sink.vars().is_empty(), "the unloadable pair may not reach the sink");
}

#[test]
fn load_env_vars_installs_every_pair_in_file_order() {
    let mut file = tempfile::NamedTempFile::new().unwrap();
    file.write_all(b"MY_DUP=a\nMY_OTHER=x\nMY_DUP=b\n").unwrap();
    let path = file.path().to_str().unwrap();

    let mut sink = env_vars::RecordedEnv::new();
    let returned = EnvVars::load_env_vars(path, &mut sink).unwrap();
    assert_eq!(returned, path);
    assert_eq!(
        sink.vars(),
        &vec![
            ("MY_DUP".to_string(), "a".to_string()),
            ("MY_OTHER".to_string(), "x".to_string()),
            ("MY_DUP".to_string(), "b".to_string()),
        ],
        "every pair reaches the sink in file order, so the last duplicate wins"
    );
}

#[test]
fn folder_is_ignored_if_local_and_local_file_absolute() {
    let rt = runtime();
    rt.block_on(async {
        let temp_dir = tempfile::Builder::new()
            .prefix("env_vars")
            .tempdir()
            .unwrap();
        let local_env_path = temp_dir.path().join("other").join(".env-dev");
        tokio::fs::create_dir_all(local_env_path.parent().unwrap())
            .await
            .unwrap();
        tokio::fs::write(&local_env_path, "MY_VAR2=1").await.unwrap();
        let local_env_path = local_env_path.to_str().unwrap().to_string();

        let e = EnvVars::new().folder("/etc").env_local(&local_env_path);
        let out = declare_local(e);
        let mut sink = ProcessSink;
        let returned = EnvVars::build(&out, None, &mut sink)
            .map_err(|e| format!("Cannot load env vars: {e:?}"))
            .unwrap();

        assert_eq!(returned, local_env_path, "should return local env path");
        assert_eq!(
            dotenvy::var("MY_VAR2").unwrap(),
            "1",
            "should load env var"
        );
    });
}

#[test]
fn folder_is_ignored_if_local_and_local_file() {
    let rt = runtime();
    rt.block_on(async {
        let temp_dir = tempfile::Builder::new()
            .prefix("env_vars")
            .tempdir()
            .unwrap();
        let local_env_path = temp_dir.path().join("other").join(".env-dev");
        tokio::fs::create_dir_all(local_env_path.parent().unwrap())
            .await
            .unwrap();
        tokio::fs::write(&local_env_path, "MY_VAR3=1").await.unwrap();
        let local_env_path = local_env_path.to_str().unwrap().to_string();

        let e = EnvVars::new().folder("../escape").env_local(&local_env_path);
        let out = declare_local(e);
        let mut sink = ProcessSink;
        let returned = EnvVars::build(&out, None, &mut sink)
            .map_err(|e| format!("Cannot load env vars: {e:?}"))
            .unwrap();

        assert_eq!(returned, local_env_path, "should return local env path");
        assert_eq!(
            dotenvy::var("MY_VAR3").unwrap(),
            "1",
            "should load env var"
        );
    });
}

#[test]
#[should_panic(expected = "Cannot load env vars")]
fn panics_if_local_and_local_file_is_not_correct() {
    let e = EnvVars::new().folder("random").env_local("random/.env-dev");
    let out = declare_local(e);
    let mut sink = env_vars::RecordedEnv::new();
    let _ = EnvVars::build(&out, None, &mut sink)
        .map_err(|e| format!("Cannot load env vars: {e:?}"))
        .unwrap();
}

#[test]
fn materialize_overrides_existing_variables() {
    let rt = runtime();
    rt.block_on(async {
        let temp_dir = tempfile::Builder::new()
            .prefix("env_vars")
            .tempdir()
            .unwrap();
        let first = temp_dir.path().join("first.env");
        let second = temp_dir.path().join("second.env");
        tokio::fs::write(&first, "MY_VAR7=first").await.unwrap();
        tokio::fs::write(&second, "MY_VAR7=second").await.unwrap();

        let mut sink = ProcessSink;
        let out = declare_local(EnvVars::new().env_local(first.to_str().unwrap()));
        EnvVars::build(&out, None, &mut sink).unwrap();
        let out = declare_local(EnvVars::new().env_local(second.to_str().unwrap()));
        EnvVars::build(&out, None, &mut sink).unwrap();

        assert_eq!(
            dotenvy::var("MY_VAR7").unwrap(),
            "second",
            "a later load overrides the installed value"
        );
    });
}

#[test]
fn install_pairs_accepts_safe_pairs_in_order() {
    let pairs = vec![
        ("MY_A".to_string(), "1".to_string()),
        ("MY_B".to_string(), "two words".to_string()),
    ];
    let mut sink = env_vars::RecordedEnv::new();
    env_vars::install_pairs(&pairs, &mut sink).expect("safe pairs must install");
    assert_eq!(sink.vars(), &pairs, "exactly the pairs, in order, reach the sink");
}

#[test]
fn install_pairs_rejects_an_unsafe_key() {
    let pairs = vec![
        ("MY_A".to_string(), "1".to_string()),
        ("BAD=KEY".to_string(), "x".to_string()),
        ("MY_B".to_string(), "2".to_string()),
    ];
    let mut sink = env_vars::RecordedEnv::new();
    let r = env_vars::install_pairs(&pairs, &mut sink);
    assert!(r.is_err(), "a key holding `=` cannot be installed");
    assert_eq!(
        sink.vars(),
        &vec![("MY_A".to_string(), "1".to_string())],
        "exactly the pairs before the unsafe one are installed"
    );
}

#[test]
fn install_pairs_rejects_an_empty_key() {
    let pairs = vec![("".to_string(), "x".to_string())];
    let mut sink = env_vars::RecordedEnv::new();
    let r = env_vars::install_pairs(&pairs, &mut sink);
    assert!(r.is_err(), "an empty key cannot be installed");
    assert!(sink.vars().is_empty());
}

#[test]
fn install_pairs_rejects_a_nul_key() {
    let pairs = vec![("MY\0KEY".to_string(), "x".to_string())];
    let mut sink = env_vars::RecordedEnv::new();
    let r = env_vars::install_pairs(&pairs, &mut sink);
    assert!(r.is_err(), "a key holding a NUL cannot be installed");
    assert!(sink.vars().is_empty());
}
