//! Tests of the flag emitter: emission order, list handling, the quiet
//! flag, and the capability-drop family.

use firejail::CapsDrop;
use firejail::FireJailCommand;

fn strings(v: &[&str]) -> Vec<String> {
    v.iter().map(|s| s.to_string()).collect()
}

#[test]
fn emit_full_configuration() {
    let args = FireJailCommand::new("hostname")
        .apparmor()
        .caps()
        .cpus(&[0, 1])
        .dns("8.8.8.8")
        .dns("8.8.4.4")
        .hostname("test")
        .deterministic_exit_code()
        .disable_mnt()
        .hosts_file("/etc/hosts")
        .caps_drop(CapsDrop::builder().blacklist("chown").whilelist("fowner").build())
        .emit_args();
    assert_eq!(
        args,
        strings(&[
            "--quiet",
            "--caps",
            "--apparmor",
            "--deterministic-exit-code",
            "--disable-mnt",
            "--caps.keep=fowner",
            "--caps.drop=chown",
            "--hostname=test",
            "--hosts-file=/etc/hosts",
            "--cpu=0,1",
            "--dns=8.8.8.8",
            "--dns=8.8.4.4",
            "--",
            "hostname",
        ])
    );
}

#[test]
fn quiet_flag_leads_unless_verbose() {
    let args = FireJailCommand::new("true").emit_args();
    assert_eq!(args[0], "--quiet");

    let verbose_args = FireJailCommand::new("true").verbose().emit_args();
    assert!(!verbose_args.contains(&"--quiet".to_string()));
}

#[test]
fn list_flags_keep_append_order_without_dedup() {
    let args = FireJailCommand::new("true")
        .dns("9.9.9.9")
        .dns("1.1.1.1")
        .dns("9.9.9.9")
        .emit_args();
    let dns: Vec<&String> = args.iter().filter(|f| f.starts_with("--dns=")).collect();
    assert_eq!(
        dns,
        vec!["--dns=9.9.9.9", "--dns=1.1.1.1", "--dns=9.9.9.9"]
    );
}

#[test]
fn same_append_twice_emits_two_identical_flags() {
    let args = FireJailCommand::new("true").ignore("seccomp").ignore("seccomp").emit_args();
    let ignores: Vec<&String> = args.iter().filter(|f| f.starts_with("--ignore=")).collect();
    assert_eq!(ignores, vec!["--ignore=seccomp", "--ignore=seccomp"]);
}

#[test]
fn caps_settings_emit_keep_then_drop() {
    let args = FireJailCommand::new("true")
        .caps()
        .caps_drop(CapsDrop::builder().whilelist("fowner").blacklist("chown").build())
        .emit_args();
    assert_eq!(
        args,
        strings(&["--quiet", "--caps", "--caps.keep=fowner", "--caps.drop=chown", "--", "true"])
    );
}

#[test]
fn caps_settings_with_empty_keep_emit_only_drop() {
    let args = FireJailCommand::new("true")
        .caps()
        .caps_drop(CapsDrop::builder().blacklist("chown").build())
        .emit_args();
    assert_eq!(args, strings(&["--quiet", "--caps", "--caps.drop=chown", "--", "true"]));
}

#[test]
fn caps_drop_all_emits_single_flag() {
    let args = FireJailCommand::new("true").caps().caps_drop(CapsDrop::drop_all()).emit_args();
    assert_eq!(args, strings(&["--quiet", "--caps", "--caps.drop=all", "--", "true"]));
}

#[test]
fn caps_drop_is_silent_while_capabilities_disabled() {
    let args = FireJailCommand::new("true")
        .caps_drop(CapsDrop::builder().whilelist("fowner").blacklist("chown").build())
        .emit_args();
    assert!(args.iter().all(|f| !f.starts_with("--caps")));
    assert_eq!(args, strings(&["--quiet", "--", "true"]));
}

#[test]
fn end_to_end_flag_vector_for_env() {
    let args = FireJailCommand::new("env").caps().apparmor().emit_args();
    assert_eq!(args, strings(&["--quiet", "--caps", "--apparmor", "--", "env"]));
}

#[test]
fn two_bind_pairs_emit_in_order() {
    let args = FireJailCommand::new("true").bind("/a", "/b").bind("/c", "/d").emit_args();
    assert_eq!(args, strings(&["--quiet", "--bind=/a,/b", "--bind=/c,/d", "--", "true"]));
}

#[test]
fn cpu_indices_join_in_decimal() {
    let args = FireJailCommand::new("true").cpu(7).cpu(42).cpu(0).emit_args();
    assert_eq!(args, strings(&["--quiet", "--cpu=7,42,0", "--", "true"]));
}

#[test]
fn large_cpu_index_renders_all_digits() {
    let args = FireJailCommand::new("true").cpu(65535).emit_args();
    assert_eq!(args, strings(&["--quiet", "--cpu=65535", "--", "true"]));
}

#[test]
fn scalar_options_replace_on_second_call() {
    let args = FireJailCommand::new("true").cgroup("/old").cgroup("/new").emit_args();
    assert_eq!(args, strings(&["--quiet", "--cgroup=/new", "--", "true"]));
}

#[test]
fn plural_appends_extend_in_order() {
    let args = FireJailCommand::new("sh")
        .blacklists(&["/p", "/q"])
        .blacklist("/r")
        .dnss(&["4.4.4.4", "5.5.5.5"])
        .ignores(&["net", "shell"])
        .arg("-c")
        .args(&["echo", "hi"])
        .emit_args();
    assert_eq!(
        args,
        strings(&[
            "--quiet",
            "--dns=4.4.4.4",
            "--dns=5.5.5.5",
            "--blacklist=/p",
            "--blacklist=/q",
            "--blacklist=/r",
            "--ignore=net",
            "--ignore=shell",
            "--",
            "sh",
            "-c",
            "echo",
            "hi",
        ])
    );
}

#[test]
fn caps_builder_bulk_appends_keep_order() {
    let args = FireJailCommand::new("true")
        .caps()
        .caps_drop(
            CapsDrop::builder()
                .whilelists(&["fowner", "setuid"])
                .blacklists(&["chown", "kill"])
                .blacklist("mknod")
                .build(),
        )
        .emit_args();
    assert_eq!(
        args,
        strings(&[
            "--quiet",
            "--caps",
            "--caps.keep=fowner,setuid",
            "--caps.drop=chown,kill,mknod",
            "--",
            "true",
        ])
    );
}

#[test]
fn target_arguments_follow_separator_verbatim() {
    let args = FireJailCommand::new("printf").verbose().args(&["%s", "--quiet"]).emit_args();
    assert_eq!(args, strings(&["--", "printf", "%s", "--quiet"]));
}

#[test]
fn allow_debuggers_emits_its_switch_flag() {
    let args = FireJailCommand::new("true")
        .allow_debuggers()
        .allusers()
        .appimage()
        .emit_args();
    assert_eq!(
        args,
        strings(&["--quiet", "--allow-debuggers", "--allusers", "--appimage", "--", "true"])
    );
}

#[test]
fn binds_bulk_append_keeps_order() {
    let args = FireJailCommand::new("true")
        .binds(&[("/a", "/b"), ("/c", "/d")])
        .bind("/e", "/f")
        .emit_args();
    assert_eq!(
        args,
        strings(&[
            "--quiet",
            "--bind=/a,/b",
            "--bind=/c,/d",
            "--bind=/e,/f",
            "--",
            "true",
        ])
    );
}
