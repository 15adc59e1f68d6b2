//! The commands of a comparison between two toolchains: what to clean, build
//! and profile, and where the profiler leaves its report.
//!
//! A command is described here and started by the caller.

use crate::text::{trim, trimmed};
use vstd::prelude::*;
use vstd::string::*;

verus! {

/// A command to start: the program, its arguments in order, the directory to
/// start it in, and variables to set on top of the inherited environment.
#[derive(Debug, Clone, PartialEq, Eq)]
pub struct Invocation {
    pub program: String,
    pub args: Vec<String>,
    pub dir: Option<String>,
    pub env: Vec<(String, String)>,
}

/// The mathematical value of an [`Invocation`].
pub struct InvocationView {
    pub program: Seq<char>,
    pub args: Seq<Seq<char>>,
    pub dir: Option<Seq<char>>,
    pub env: Seq<(Seq<char>, Seq<char>)>,
}

impl View for Invocation {
    type V = InvocationView;

    open spec fn view(&self) -> InvocationView {
        InvocationView {
            program: self.program@,
            args: Seq::new(self.args@.len(), |i: int| self.args@[i]@),
            dir: match self.dir {
                Some(dir) => Some(dir@),
                None => None,
            },
            env: Seq::new(self.env@.len(), |i: int| (self.env@[i].0@, self.env@[i].1@)),
        }
    }
}

/// What every command of a toolchain begins with: `rustup run`, the toolchain
/// and the tool to run.
pub open spec fn toolchain_args(toolchain: Seq<char>, tool: Seq<char>) -> Seq<Seq<char>> {
    seq!["run"@, toolchain, tool]
}

/// The directory under `rls_dir` that a toolchain builds into.
pub open spec fn target_dir(rls_dir: Seq<char>, toolchain: Seq<char>) -> Seq<char> {
    rls_dir + "/target/"@ + toolchain
}

/// The file under `rls_dir` that the profiler writes its report to.
pub open spec fn report_file(rls_dir: Seq<char>, toolchain: Seq<char>) -> Seq<char> {
    rls_dir + "/"@ + toolchain + ".massif"@
}

/// The name of the directory of a release or a debug build.
pub open spec fn profile_name(release: bool) -> Seq<char> {
    if release {
        "release"@
    } else {
        "debug"@
    }
}

/// The command that removes what earlier builds of the test project left.
pub open spec fn clean_command(test_proj_dir: Seq<char>) -> InvocationView {
    InvocationView {
        program: "cargo"@,
        args: seq!["clean"@, "--manifest-path="@ + test_proj_dir + "/Cargo.toml"@],
        dir: None,
        env: Seq::empty(),
    }
}

/// The command that builds the language server with `toolchain`.
pub open spec fn build_command(rls_dir: Seq<char>, toolchain: Seq<char>, release: bool)
    -> InvocationView {
    let fixed = toolchain_args(toolchain, "cargo"@) + seq![
        "build"@,
        "--target-dir="@ + target_dir(rls_dir, toolchain),
        "--no-default-features"@,
    ];
    InvocationView {
        program: "rustup"@,
        args: if release {
            fixed.push("--release"@)
        } else {
            fixed
        },
        dir: Some(rls_dir),
        env: Seq::empty(),
    }
}

/// The command that asks `toolchain` where it is installed.
pub open spec fn sysroot_command(toolchain: Seq<char>) -> InvocationView {
    InvocationView {
        program: "rustup"@,
        args: toolchain_args(toolchain, "rustc"@) + seq!["--print"@, "sysroot"@],
        dir: None,
        env: Seq::empty(),
    }
}

/// The command that runs the language server built with `toolchain` on the
/// test project under the heap profiler. `sysroot` is what the toolchain
/// answered when asked where it is installed; its libraries are searched under
/// that directory.
pub open spec fn profile_command(
    rls_dir: Seq<char>,
    test_proj_dir: Seq<char>,
    toolchain: Seq<char>,
    release: bool,
    sysroot: Seq<char>,
) -> InvocationView {
    InvocationView {
        program: "rustup"@,
        args: toolchain_args(toolchain, "valgrind"@) + seq![
            "--tool=massif"@,
            "--massif-out-file="@ + report_file(rls_dir, toolchain),
            target_dir(rls_dir, toolchain) + "/"@ + profile_name(release) + "/rls"@,
            "--cli"@,
        ],
        dir: Some(test_proj_dir),
        env: seq![("LD_LIBRARY_PATH"@, trim(sysroot) + "/lib"@)],
    }
}

/// `rustup`, with the arguments that run `tool` of `toolchain`.
fn toolchain_invocation(toolchain: &str, tool: &str) -> (inv: Invocation)
    ensures
        inv@.program == "rustup"@,
        inv@.args == toolchain_args(toolchain@, tool@),
        inv.dir is None,
        inv.env@.len() == 0,
{
    let mut args: Vec<String> = Vec::new();
    args.push("run".to_owned());
    args.push(toolchain.to_owned());
    args.push(tool.to_owned());
    let inv = Invocation { program: "rustup".to_owned(), args, dir: None, env: Vec::new() };
    assert(inv@.args =~= toolchain_args(toolchain@, tool@));
    inv
}

/// Adds `arg` as the last argument.
fn push_arg(inv: &mut Invocation, arg: String)
    ensures
        final(inv)@.args == old(inv)@.args.push(arg@),
        final(inv)@.program == old(inv)@.program,
        final(inv).dir == old(inv).dir,
        final(inv).env == old(inv).env,
{
    inv.args.push(arg);
    assert(inv@.args =~= old(inv)@.args.push(arg@));
}

/// The path of the directory under `rls_dir` that `toolchain` builds into.
fn target_dir_path(rls_dir: &str, toolchain: &str) -> (path: String)
    ensures
        path@ == target_dir(rls_dir@, toolchain@),
{
    let mut path = rls_dir.to_owned();
    path.append("/target/");
    path.append(toolchain);
    path
}

/// The path of the file under `rls_dir` that the profiler writes the report
/// on `toolchain` to.
pub fn report_path(rls_dir: &str, toolchain: &str) -> (path: String)
    ensures
        path@ == report_file(rls_dir@, toolchain@),
{
    let mut path = rls_dir.to_owned();
    path.append("/");
    path.append(toolchain);
    path.append(".massif");
    path
}

/// Describes the command that removes what earlier builds of the test project
/// left.
pub fn clean_invocation(test_proj_dir: &str) -> (inv: Invocation)
    ensures
        inv@ == clean_command(test_proj_dir@),
{
    let mut manifest = "--manifest-path=".to_owned();
    manifest.append(test_proj_dir);
    manifest.append("/Cargo.toml");
    let mut args: Vec<String> = Vec::new();
    args.push("clean".to_owned());
    args.push(manifest);
    let inv = Invocation { program: "cargo".to_owned(), args, dir: None, env: Vec::new() };
    assert(inv@.args =~= clean_command(test_proj_dir@).args);
    assert(inv@.env =~= clean_command(test_proj_dir@).env);
    inv
}

/// Describes the command that builds the language server with `toolchain`.
pub fn build_invocation(rls_dir: &str, toolchain: &str, release: bool) -> (inv: Invocation)
    ensures
        inv@ == build_command(rls_dir@, toolchain@, release),
{
    let mut inv = toolchain_invocation(toolchain, "cargo");
    push_arg(&mut inv, "build".to_owned());
    let mut target = "--target-dir=".to_owned();
    target.append(target_dir_path(rls_dir, toolchain).as_str());
    push_arg(&mut inv, target);
    push_arg(&mut inv, "--no-default-features".to_owned());
    if release {
        push_arg(&mut inv, "--release".to_owned());
    }
    inv.dir = Some(rls_dir.to_owned());
    assert(inv@.args =~= build_command(rls_dir@, toolchain@, release).args);
    assert(inv@.env =~= build_command(rls_dir@, toolchain@, release).env);
    inv
}

/// Describes the command that asks `toolchain` where it is installed.
pub fn sysroot_invocation(toolchain: &str) -> (inv: Invocation)
    ensures
        inv@ == sysroot_command(toolchain@),
{
    let mut inv = toolchain_invocation(toolchain, "rustc");
    push_arg(&mut inv, "--print".to_owned());
    push_arg(&mut inv, "sysroot".to_owned());
    assert(inv@.args =~= sysroot_command(toolchain@).args);
    assert(inv@.env =~= sysroot_command(toolchain@).env);
    inv
}

/// Describes the command that runs the language server built with `toolchain`
/// under the heap profiler.
pub fn profile_invocation(
    rls_dir: &str,
    test_proj_dir: &str,
    toolchain: &str,
    release: bool,
    sysroot: &str,
) -> (inv: Invocation)
    ensures
        inv@ == profile_command(rls_dir@, test_proj_dir@, toolchain@, release, sysroot@),
{
    let ghost want = profile_command(rls_dir@, test_proj_dir@, toolchain@, release, sysroot@);
    let mut inv = toolchain_invocation(toolchain, "valgrind");
    push_arg(&mut inv, "--tool=massif".to_owned());
    let mut out_file = "--massif-out-file=".to_owned();
    out_file.append(report_path(rls_dir, toolchain).as_str());
    push_arg(&mut inv, out_file);
    let mut binary = target_dir_path(rls_dir, toolchain);
    binary.append("/");
    binary.append(if release {
        "release"
    } else {
        "debug"
    });
    binary.append("/rls");
    push_arg(&mut inv, binary);
    push_arg(&mut inv, "--cli".to_owned());
    let mut lib_dir = trimmed(sysroot).to_owned();
    lib_dir.append("/lib");
    let mut env: Vec<(String, String)> = Vec::new();
    env.push(("LD_LIBRARY_PATH".to_owned(), lib_dir));
    inv.env = env;
    inv.dir = Some(test_proj_dir.to_owned());
    assert(inv@.args =~= want.args);
    assert(inv@.env =~= want.env);
    inv
}

} // verus!
