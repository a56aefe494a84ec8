use xdp_hello::build_ebpf::{build_ebpf_args, Architecture, Options as BuildOptions};
use xdp_hello::run::{
    bin_path, build_args, build_options, command_line, runner_command, split_on_spaces,
    Options as RunOptions,
};

fn strings(v: &[&str]) -> Vec<String> {
    v.iter().map(|s| s.to_string()).collect()
}

#[test]
fn architecture_parses_known_triples() {
    assert_eq!(Architecture::parse("bpfel-unknown-none"), Ok(Architecture::BpfEl));
    assert_eq!(Architecture::parse("bpfeb-unknown-none"), Ok(Architecture::BpfEb));
    let via_trait: Architecture = "bpfeb-unknown-none".parse().unwrap();
    assert_eq!(via_trait, Architecture::BpfEb);
}

#[test]
fn architecture_refuses_unknown_triple() {
    assert_eq!(Architecture::parse("x86_64-unknown-linux-gnu"), Err("invalid target".to_string()));
    assert_eq!(Architecture::parse(""), Err("invalid target".to_string()));
}

#[test]
fn architecture_names_round_trip() {
    for a in [Architecture::BpfEl, Architecture::BpfEb] {
        assert_eq!(Architecture::parse(a.as_str()), Ok(a));
    }
    assert_eq!(Architecture::BpfEl.to_string(), "bpfel-unknown-none");
    assert_eq!(Architecture::BpfEb.as_str(), "bpfeb-unknown-none");
}

#[test]
fn ebpf_build_arguments_debug() {
    let opts = BuildOptions { target: Architecture::BpfEl, release: false };
    assert_eq!(
        build_ebpf_args(&opts),
        strings(&["build", "--target=bpfel-unknown-none", "-Z", "build-std=core"])
    );
}

#[test]
fn ebpf_build_arguments_release() {
    let opts = BuildOptions { target: Architecture::BpfEb, release: true };
    assert_eq!(
        build_ebpf_args(&opts),
        strings(&["build", "--target=bpfeb-unknown-none", "-Z", "build-std=core", "--release"])
    );
}

#[test]
fn userspace_build_arguments() {
    assert_eq!(build_args(false), strings(&["build"]));
    assert_eq!(build_args(true), strings(&["build", "--release"]));
}

#[test]
fn executable_path_per_profile() {
    assert_eq!(bin_path(false), "target/debug/xdp-hello");
    assert_eq!(bin_path(true), "target/release/xdp-hello");
}

#[test]
fn splitting_on_spaces() {
    assert_eq!(split_on_spaces("sudo -E"), strings(&["sudo", "-E"]));
    assert_eq!(split_on_spaces(""), Vec::<String>::new());
    assert_eq!(split_on_spaces("a  b"), strings(&["a", "", "b"]));
    assert_eq!(split_on_spaces("a "), strings(&["a"]));
    assert_eq!(split_on_spaces(" "), strings(&[""]));
    assert_eq!(split_on_spaces(" a"), strings(&["", "a"]));
}

#[test]
fn run_options_carry_build_options() {
    let opts = RunOptions {
        bpf_target: Architecture::BpfEb,
        release: true,
        runner: "sudo -E".to_string(),
        run_args: vec![],
    };
    let b = build_options(&opts);
    assert_eq!(b.target, Architecture::BpfEb);
    assert!(b.release);
}

#[test]
fn default_runner_command() {
    let opts = RunOptions {
        bpf_target: Architecture::BpfEl,
        release: false,
        runner: "sudo -E".to_string(),
        run_args: strings(&["--iface", "lo"]),
    };
    assert_eq!(
        runner_command(&opts),
        strings(&["sudo", "-E", "target/debug/xdp-hello", "--iface", "lo"])
    );
}

#[test]
fn runner_is_trimmed_before_splitting() {
    let opts = RunOptions {
        bpf_target: Architecture::BpfEl,
        release: true,
        runner: "  sudo -E \n".to_string(),
        run_args: vec![],
    };
    assert_eq!(runner_command(&opts), strings(&["sudo", "-E", "target/release/xdp-hello"]));
}

#[test]
fn empty_runner_runs_the_executable_itself() {
    let opts = RunOptions {
        bpf_target: Architecture::BpfEl,
        release: false,
        runner: "   ".to_string(),
        run_args: strings(&["-i", "eth0"]),
    };
    assert_eq!(runner_command(&opts), strings(&["target/debug/xdp-hello", "-i", "eth0"]));
    assert_eq!(command_line("", true, &vec![]), strings(&["target/release/xdp-hello"]));
}
