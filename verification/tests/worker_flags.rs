//! A manifold as command-line flags.
use afterburner_wasi::manifold::{EnvAccess, FsAccess, Manifold, NetAccess};
use afterburner_wasi::manifold_codec::{join_paths, manifold_to_cli_args};

fn list(v: &[&str]) -> Vec<String> {
    v.iter().map(|s| s.to_string()).collect()
}

#[test]
fn open_manifold_needs_no_flag() {
    assert_eq!(manifold_to_cli_args(&Manifold::open()), Vec::<String>::new());
}

#[test]
fn sealed_manifold_is_the_sandbox() {
    assert_eq!(manifold_to_cli_args(&Manifold::sealed()), list(&["--sandbox"]));
}

#[test]
fn grants_follow_the_sandbox_flag_in_order() {
    let m = Manifold {
        fs: FsAccess::ReadWrite(list(&["/tmp", "/var/data"])),
        net: NetAccess::OutboundFull(Some(list(&["api.example.com", "*.trusted.io"]))),
        env: EnvAccess::AllowList(list(&["HOME", "PATH"])),
        crypto: true,
        ..Manifold::sealed()
    };
    assert_eq!(
        manifold_to_cli_args(&m),
        list(&[
            "--sandbox",
            "--allow-fs=/tmp,/var/data",
            "--allow-net=api.example.com,*.trusted.io",
            "--allow-env=HOME,PATH",
        ])
    );
}

#[test]
fn unrestricted_grants_are_stars() {
    let m = Manifold { crypto: false, ..Manifold::open() };
    assert_eq!(
        manifold_to_cli_args(&m),
        list(&["--sandbox", "--allow-fs=*", "--allow-net=*", "--allow-env=*"])
    );
    let m = Manifold {
        net: NetAccess::OutboundFull(Some(vec![])),
        env: EnvAccess::AllowList(vec![]),
        ..Manifold::sealed()
    };
    assert_eq!(manifold_to_cli_args(&m), list(&["--sandbox", "--allow-net=*"]));
}

#[test]
fn any_restriction_starts_from_the_sandbox() {
    let nearly_open = [
        Manifold { fs: FsAccess::ReadOnly(vec![]), ..Manifold::open() },
        Manifold { fs: FsAccess::ReadWrite(list(&["/"])), ..Manifold::open() },
        Manifold { net: NetAccess::OutboundHttp(None), ..Manifold::open() },
        Manifold { env: EnvAccess::Denied, ..Manifold::open() },
        Manifold { crypto: false, ..Manifold::open() },
        Manifold { child_process: false, ..Manifold::open() },
        Manifold { allow_exit: false, ..Manifold::open() },
        Manifold { http_timeout_ms: Some(5000), ..Manifold::open() },
    ];
    for m in &nearly_open {
        assert_eq!(manifold_to_cli_args(m)[0], "--sandbox");
    }
}

#[test]
fn what_flags_cannot_express_is_withheld() {
    let read_only = Manifold { fs: FsAccess::ReadOnly(list(&["/data"])), ..Manifold::sealed() };
    assert_eq!(manifold_to_cli_args(&read_only), list(&["--sandbox"]));
    let http_only = Manifold {
        net: NetAccess::OutboundHttp(Some(list(&["api.example.com"]))),
        ..Manifold::sealed()
    };
    assert_eq!(manifold_to_cli_args(&http_only), list(&["--sandbox"]));
    let timed = Manifold {
        net: NetAccess::OutboundFull(None),
        http_timeout_ms: Some(1000),
        ..Manifold::sealed()
    };
    assert_eq!(manifold_to_cli_args(&timed), list(&["--sandbox"]));
    let with_comma = Manifold {
        fs: FsAccess::ReadWrite(list(&["/a,/etc"])),
        net: NetAccess::OutboundFull(Some(list(&["a.io,b.io"]))),
        env: EnvAccess::AllowList(list(&["HOME,PATH"])),
        ..Manifold::sealed()
    };
    assert_eq!(manifold_to_cli_args(&with_comma), list(&["--sandbox"]));
    let star = Manifold {
        fs: FsAccess::ReadWrite(list(&["*"])),
        net: NetAccess::OutboundFull(Some(list(&["*"]))),
        env: EnvAccess::AllowList(list(&["*"])),
        ..Manifold::sealed()
    };
    assert_eq!(manifold_to_cli_args(&star), list(&["--sandbox", "--allow-net=*"]));
}

#[test]
fn paths_are_joined_with_commas() {
    assert_eq!(join_paths(&list(&[])), "");
    assert_eq!(join_paths(&list(&["/a"])), "/a");
    assert_eq!(join_paths(&list(&["/a", "", "/b"])), "/a,,/b");
}
