use install_mimic::cli::{parse_command_line, usage, version, Action};
use install_mimic::invoke::{
    command_display, install_args, install_failed_message, installer_program, run_failed_message,
    stat_failed_message,
};
use install_mimic::metadata::OwnershipTriple;
use install_mimic::numfmt::{format_decimal, format_octal};
use install_mimic::paths::{basename, join_path};
use install_mimic::resolve::{invalid_source_message, reference_for, resolve_targets, ResolveError};

fn strings(items: &[&str]) -> Vec<String> {
    items.iter().map(|s| s.to_string()).collect()
}

#[test]
fn decimal_formatting() {
    assert_eq!(format_decimal(0), "0");
    assert_eq!(format_decimal(7), "7");
    assert_eq!(format_decimal(1000), "1000");
    assert_eq!(format_decimal(4294967295), "4294967295");
}

#[test]
fn octal_formatting() {
    assert_eq!(format_octal(0), "0");
    assert_eq!(format_octal(0o644), "644");
    assert_eq!(format_octal(0o7777), "7777");
    assert_eq!(format_octal(0o4755), "4755");
}

#[test]
fn mode_is_masked_to_twelve_bits() {
    // A regular file's raw stat mode carries type bits above the twelve
    // permission bits; they must not show in the formatted mode.
    let raw = OwnershipTriple::new(0, 0, 0o100644);
    let masked = OwnershipTriple::new(0, 0, 0o644);
    assert_eq!(raw.mode_string(), "644");
    assert_eq!(raw.mode_string(), masked.mode_string());
    let sticky = OwnershipTriple::new(0, 0, 0o041777);
    assert_eq!(sticky.mode_string(), "1777");
}

#[test]
fn basename_of_plain_paths() {
    assert_eq!(basename("src"), Some("src".to_string()));
    assert_eq!(basename("a/b"), Some("b".to_string()));
    assert_eq!(basename("dir/sub/file.txt"), Some("file.txt".to_string()));
    assert_eq!(basename("a/b/"), Some("b".to_string()));
    assert_eq!(basename("/etc/passwd"), Some("passwd".to_string()));
}

#[test]
fn basename_skips_trailing_dot_components() {
    assert_eq!(basename("a/."), Some("a".to_string()));
    assert_eq!(basename("foo.txt/."), Some("foo.txt".to_string()));
    assert_eq!(basename("foo.txt/.//"), Some("foo.txt".to_string()));
    assert_eq!(basename("a/./."), Some("a".to_string()));
    assert_eq!(basename("x."), Some("x.".to_string()));
    assert_eq!(basename("..."), Some("...".to_string()));
}

#[test]
fn basename_of_degenerate_paths() {
    assert_eq!(basename(""), None);
    assert_eq!(basename("/"), None);
    assert_eq!(basename("///"), None);
    assert_eq!(basename("."), None);
    assert_eq!(basename("./"), None);
    assert_eq!(basename("/."), None);
    assert_eq!(basename(".."), None);
    assert_eq!(basename("a/.."), None);
    assert_eq!(basename("a/../"), None);
    assert_eq!(basename("a/../."), None);
}

#[test]
fn join_path_inserts_one_separator() {
    assert_eq!(join_path("d", "x"), "d/x");
    assert_eq!(join_path("d/", "x"), "d/x");
    assert_eq!(join_path("", "x"), "x");
    assert_eq!(join_path("/usr/local", "bin"), "/usr/local/bin");
}

#[test]
fn fan_out_pairs_each_source_with_the_directory() {
    let free = strings(&["a", "b", "d"]);
    let reqs = resolve_targets(&free, false, true, true).unwrap();
    assert_eq!(reqs.len(), 2);
    assert_eq!(reqs[0].source, "a");
    assert_eq!(reqs[0].destination, "d/a");
    assert_eq!(reqs[1].source, "b");
    assert_eq!(reqs[1].destination, "d/b");
}

#[test]
fn fan_out_is_the_same_with_an_explicit_reference() {
    let free = strings(&["a", "b", "d"]);
    let reqs = resolve_targets(&free, true, true, true).unwrap();
    assert_eq!(reqs.len(), 2);
    assert_eq!(reqs[0].destination, "d/a");
    assert_eq!(reqs[1].destination, "d/b");
}

#[test]
fn fan_out_rejects_a_source_without_a_base_name() {
    let free = strings(&["a", "..", "d"]);
    match resolve_targets(&free, false, true, true) {
        Err(ResolveError::InvalidSource(f)) => assert_eq!(f, ".."),
        _ => panic!("expected the offending source to be reported"),
    }
}

#[test]
fn single_pair_with_existing_destination() {
    let free = strings(&["src", "dst"]);
    let reqs = resolve_targets(&free, false, true, false).unwrap();
    assert_eq!(reqs.len(), 1);
    assert_eq!(reqs[0].source, "src");
    assert_eq!(reqs[0].destination, "dst");
}

#[test]
fn single_pair_with_reference_and_fresh_destination() {
    let free = strings(&["src", "dst"]);
    let reqs = resolve_targets(&free, true, false, false).unwrap();
    assert_eq!(reqs.len(), 1);
    assert_eq!(reqs[0].destination, "dst");
}

#[test]
fn fresh_destination_without_reference_is_rejected() {
    let free = strings(&["src", "dst"]);
    assert!(matches!(resolve_targets(&free, false, false, false), Err(ResolveError::Usage)));
}

#[test]
fn extra_arguments_with_fresh_destination_are_rejected() {
    // No reference given and the final argument does not exist: rejected
    // before any stat of the sources or any spawn could happen.
    let free = strings(&["src", "dst", "extra"]);
    assert!(matches!(resolve_targets(&free, false, false, false), Err(ResolveError::Usage)));
}

#[test]
fn extra_arguments_with_existing_file_destination_are_rejected() {
    // Fan-out is only triggered by an existing directory: an existing
    // plain file with three positional arguments is a usage error even
    // when a reference was supplied.
    let free = strings(&["a", "b", "existing-file"]);
    assert!(matches!(resolve_targets(&free, true, true, false), Err(ResolveError::Usage)));
    assert!(matches!(resolve_targets(&free, false, true, false), Err(ResolveError::Usage)));
}

#[test]
fn too_few_arguments_are_rejected() {
    assert!(matches!(resolve_targets(&strings(&[]), false, false, false), Err(ResolveError::Usage)));
    assert!(matches!(resolve_targets(&strings(&["one"]), true, true, true), Err(ResolveError::Usage)));
}

#[test]
fn reference_wins_over_destination() {
    // With an explicit reference the metadata source is the reference,
    // never the destination.
    let refname = Some("ref".to_string());
    assert_eq!(reference_for("dst", &refname), "ref");
}

#[test]
fn destination_is_its_own_reference_by_default() {
    assert_eq!(reference_for("dst", &None), "dst");
}

#[test]
fn install_invocation_arguments_are_exact() {
    let triple = OwnershipTriple::new(1000, 1000, 0o644);
    let args = install_args("src", "dst", &triple);
    assert_eq!(
        args,
        vec!["-c", "-o", "1000", "-g", "1000", "-m", "644", "--", "src", "dst"]
    );
    assert_eq!(installer_program(), "install");
}

#[test]
fn verbose_echo_quotes_program_and_arguments() {
    let args = strings(&["-c", "x y"]);
    assert_eq!(command_display("install", &args), "\"install\" \"-c\" \"x y\"");
    assert_eq!(command_display("install", &strings(&[])), "\"install\"");
}

#[test]
fn error_messages_name_the_paths() {
    assert_eq!(invalid_source_message(".."), "Invalid source filename ..");
    assert_eq!(install_failed_message("src", "dst"), "Could not install src as dst");
    assert_eq!(
        stat_failed_message("ref", "No such file or directory (os error 2)"),
        "Could not examine ref: No such file or directory (os error 2)"
    );
    assert_eq!(run_failed_message("not found"), "Could not run install: not found");
}

#[test]
fn help_and_version_never_install() {
    let (action, opts) = parse_command_line(&strings(&["-h", "whatever"])).unwrap();
    assert!(opts.help);
    assert!(matches!(action, Action::Early { show_help: true, show_version: false }));

    let (action, _) = parse_command_line(&strings(&["-V", "junk", "more"])).unwrap();
    assert!(matches!(action, Action::Early { show_help: false, show_version: true }));

    let (action, _) = parse_command_line(&strings(&["-V", "-h"])).unwrap();
    assert!(matches!(action, Action::Early { show_help: true, show_version: true }));
}

#[test]
fn long_options_are_recognized() {
    let (action, _) = parse_command_line(&strings(&["--help"])).unwrap();
    assert!(matches!(action, Action::Early { show_help: true, .. }));
    let (action, _) = parse_command_line(&strings(&["--version"])).unwrap();
    assert!(matches!(action, Action::Early { show_version: true, .. }));
}

#[test]
fn install_run_carries_its_options() {
    let (action, opts) =
        parse_command_line(&strings(&["-v", "-r", "ref", "src", "dst"])).unwrap();
    assert!(matches!(action, Action::Install));
    assert!(opts.verbose);
    assert_eq!(opts.refname, Some("ref".to_string()));
    assert_eq!(opts.free, vec!["src".to_string(), "dst".to_string()]);
    assert!(!opts.help);
    assert!(!opts.version_requested);
}

#[test]
fn unknown_options_fail_to_parse() {
    assert!(parse_command_line(&strings(&["-x", "src", "dst"])).is_err());
    assert!(parse_command_line(&strings(&["-r"])).is_err());
}

#[test]
fn usage_and_version_texts() {
    assert_eq!(version(), "install-mimic 0.3.0");
    assert!(usage().starts_with("Usage:\tinstall-mimic [-v] [-r reffile] srcfile dstfile"));
    assert!(usage().contains("install-mimic -V | -h"));
}

#[test]
fn end_to_end_invocation_for_a_reference_triple() {
    // A reference file with uid 1000, gid 1000 and mode 0644, installed
    // as `install-mimic -r ref src dst`, must issue exactly this command.
    let free = strings(&["src", "dst"]);
    let refname = Some("ref".to_string());
    let reqs = resolve_targets(&free, true, false, false).unwrap();
    assert_eq!(reqs.len(), 1);
    let fileref = reference_for(&reqs[0].destination, &refname);
    assert_eq!(fileref, "ref");
    let triple = OwnershipTriple::new(1000, 1000, 0o644);
    let args = install_args(&reqs[0].source, &reqs[0].destination, &triple);
    assert_eq!(
        args,
        vec!["-c", "-o", "1000", "-g", "1000", "-m", "644", "--", "src", "dst"]
    );
}
