use leak_profile::steps::{
    build_invocation, clean_invocation, profile_invocation, report_path, sysroot_invocation,
    Invocation,
};

fn texts(items: &[&str]) -> Vec<String> {
    items.iter().map(|s| s.to_string()).collect()
}

#[test]
fn clean_invocation_exact() {
    assert_eq!(
        clean_invocation("/src/rls/test-proj"),
        Invocation {
            program: "cargo".to_string(),
            args: texts(&["clean", "--manifest-path=/src/rls/test-proj/Cargo.toml"]),
            dir: None,
            env: Vec::new(),
        }
    );
}

#[test]
fn build_invocation_release() {
    assert_eq!(
        build_invocation("/src/rls", "leaktest", true),
        Invocation {
            program: "rustup".to_string(),
            args: texts(&[
                "run",
                "leaktest",
                "cargo",
                "build",
                "--target-dir=/src/rls/target/leaktest",
                "--no-default-features",
                "--release",
            ]),
            dir: Some("/src/rls".to_string()),
            env: Vec::new(),
        }
    );
}

#[test]
fn build_invocation_debug() {
    assert_eq!(
        build_invocation("/src/rls", "leaktest-prev", false),
        Invocation {
            program: "rustup".to_string(),
            args: texts(&[
                "run",
                "leaktest-prev",
                "cargo",
                "build",
                "--target-dir=/src/rls/target/leaktest-prev",
                "--no-default-features",
            ]),
            dir: Some("/src/rls".to_string()),
            env: Vec::new(),
        }
    );
}

#[test]
fn sysroot_invocation_exact() {
    assert_eq!(
        sysroot_invocation("leaktest"),
        Invocation {
            program: "rustup".to_string(),
            args: texts(&["run", "leaktest", "rustc", "--print", "sysroot"]),
            dir: None,
            env: Vec::new(),
        }
    );
}

#[test]
fn profile_invocation_release() {
    assert_eq!(
        profile_invocation("/src/rls", "/src/rls/test-proj", "leaktest", true, "/home/me/.rustup/tc\n"),
        Invocation {
            program: "rustup".to_string(),
            args: texts(&[
                "run",
                "leaktest",
                "valgrind",
                "--tool=massif",
                "--massif-out-file=/src/rls/leaktest.massif",
                "/src/rls/target/leaktest/release/rls",
                "--cli",
            ]),
            dir: Some("/src/rls/test-proj".to_string()),
            env: vec![("LD_LIBRARY_PATH".to_string(), "/home/me/.rustup/tc/lib".to_string())],
        }
    );
}

#[test]
fn profile_invocation_debug_binary() {
    let inv = profile_invocation("/r", "/t", "tc", false, "  /s p \t");
    assert_eq!(inv.args[5], "/r/target/tc/debug/rls");
    assert_eq!(inv.env, vec![("LD_LIBRARY_PATH".to_string(), "/s p/lib".to_string())]);
}

#[test]
fn report_path_exact() {
    assert_eq!(report_path("/src/rls", "leaktest-prev"), "/src/rls/leaktest-prev.massif");
}
