use vstd::prelude::*;

use crate::build_ebpf::{Architecture, Options as BuildOptions};
use crate::string_views;

verus! {

/// Options for compiling everything and running the supervisor.
#[derive(Debug)]
pub struct Options {
    /// Byte order of the filter program's target.
    pub bpf_target: Architecture,
    /// Compile and run with optimisations.
    pub release: bool,
    /// The command that wraps the supervisor, words split by spaces.
    pub runner: String,
    /// Arguments handed on to the supervisor.
    pub run_args: Vec<String>,
}

/// The pieces of `s` between single spaces; there is always at least one.
pub open spec fn split_spaces(s: Seq<char>) -> Seq<Seq<char>>
    decreases s.len(),
{
    if s.len() == 0 {
        seq![Seq::empty()]
    } else {
        let rest = split_spaces(s.drop_last());
        if s.last() == ' ' {
            rest.push(Seq::empty())
        } else {
            rest.update(rest.len() - 1, rest.last().push(s.last()))
        }
    }
}

/// The pieces of `s` between single spaces, without an empty last piece.
pub open spec fn split_terminator_spaces(s: Seq<char>) -> Seq<Seq<char>> {
    let p = split_spaces(s);
    if p.last().len() == 0 {
        p.drop_last()
    } else {
        p
    }
}

/// The name of the build profile.
pub open spec fn profile_name(release: bool) -> Seq<char> {
    if release {
        "release"@
    } else {
        "debug"@
    }
}

/// Where cargo puts the supervisor's executable for a profile.
pub open spec fn bin_path_of(release: bool) -> Seq<char> {
    "target/"@ + profile_name(release) + "/xdp-hello"@
}

/// The arguments handed to cargo to compile the supervisor.
pub open spec fn userspace_build_args(release: bool) -> Seq<Seq<char>> {
    seq!["build"@] + if release { seq!["--release"@] } else { Seq::empty() }
}

/// The full command that runs the supervisor: the runner's words, the
/// executable, then the arguments for it.
pub open spec fn runner_invocation(
    trimmed_runner: Seq<char>,
    release: bool,
    run_args: Seq<Seq<char>>,
) -> Seq<Seq<char>> {
    split_terminator_spaces(trimmed_runner) + seq![bin_path_of(release)] + run_args
}

/// What `str::trim` returns for a string.
pub uninterp spec fn trimmed(s: Seq<char>) -> Seq<char>;

/// Relies on `str::trim`: leading and trailing whitespace removed, which
/// depends on the characters alone.
#[verifier::external_body]
fn trim(s: &str) -> (r: String)
    ensures
        r@ == trimmed(s@),
{
    s.trim().to_string()
}

/// The options that compile the filter program as part of a run.
pub fn build_options(opts: &Options) -> (r: BuildOptions)
    ensures
        r.target == opts.bpf_target,
        r.release == opts.release,
{
    BuildOptions { target: opts.bpf_target, release: opts.release }
}

/// The cargo arguments that compile the supervisor.
pub fn build_args(release: bool) -> (r: Vec<String>)
    ensures
        string_views(r@) == userspace_build_args(release),
{
    let mut args: Vec<String> = Vec::new();
    args.push(String::from_str("build"));
    if release {
        args.push(String::from_str("--release"));
    }
    assert(string_views(args@) =~= userspace_build_args(release));
    args
}

/// Where the supervisor's executable lies for a profile.
pub fn bin_path(release: bool) -> (r: String)
    ensures
        r@ == bin_path_of(release),
{
    let mut p = String::from_str("target/");
    if release {
        p.append("release");
    } else {
        p.append("debug");
    }
    p.append("/xdp-hello");
    p
}

/// Splits `s` at each space, dropping an empty last piece.
pub fn split_on_spaces(s: &str) -> (r: Vec<String>)
    ensures
        string_views(r@) == split_terminator_spaces(s@),
{
    let n = s.unicode_len();
    let mut pieces: Vec<String> = Vec::new();
    let mut start: usize = 0;
    let mut i: usize = 0;
    assert(s@.subrange(0, 0) =~= Seq::<char>::empty());
    assert(string_views(pieces@) =~= Seq::<Seq<char>>::empty());
    assert(split_spaces(s@.subrange(0, 0)) =~= string_views(pieces@).push(s@.subrange(0, 0)));
    while i < n
        invariant
            n == s@.len(),
            start <= i <= n,
            split_spaces(s@.subrange(0, i as int))
                == string_views(pieces@).push(s@.subrange(start as int, i as int)),
        decreases n - i,
    {
        let c = s.get_char(i);
        let ghost prefix = s@.subrange(0, i as int);
        let ghost next = s@.subrange(0, i + 1);
        assert(next.drop_last() =~= prefix);
        assert(next.last() == c);
        if c == ' ' {
            let ghost before = string_views(pieces@);
            let piece = s.substring_char(start, i);
            pieces.push(String::from_str(piece));
            assert(string_views(pieces@) =~= before.push(s@.subrange(start as int, i as int)));
            start = i + 1;
            assert(s@.subrange(start as int, i + 1) =~= Seq::<char>::empty());
            assert(string_views(pieces@).push(s@.subrange(start as int, i + 1))
                =~= split_spaces(prefix).push(Seq::empty()));
        } else {
            assert(s@.subrange(start as int, i + 1) =~= s@.subrange(start as int, i as int).push(c));
            assert(string_views(pieces@).push(s@.subrange(start as int, i + 1))
                =~= split_spaces(prefix).update(
                    split_spaces(prefix).len() - 1,
                    split_spaces(prefix).last().push(c),
                ));
        }
        i = i + 1;
    }
    assert(s@.subrange(0, n as int) =~= s@);
    if start < n {
        let ghost before = string_views(pieces@);
        let piece = s.substring_char(start, n);
        pieces.push(String::from_str(piece));
        assert(string_views(pieces@) =~= before.push(s@.subrange(start as int, n as int)));
        assert(string_views(pieces@) =~= split_spaces(s@));
    } else {
        assert(string_views(pieces@) =~= split_spaces(s@).drop_last());
    }
    pieces
}

/// The command that runs the supervisor, from an already trimmed runner.
pub fn command_line(trimmed_runner: &str, release: bool, run_args: &Vec<String>) -> (r: Vec<String>)
    ensures
        string_views(r@) == runner_invocation(trimmed_runner@, release, string_views(run_args@)),
        r@.len() >= 1,
{
    let mut args = split_on_spaces(trimmed_runner);
    let ghost pieces = string_views(args@);
    args.push(bin_path(release));
    assert(string_views(args@) =~= pieces.push(bin_path_of(release)));
    let ghost head = string_views(args@);
    let mut j: usize = 0;
    assert(string_views(args@) =~= head + string_views(run_args@).subrange(0, 0));
    while j < run_args.len()
        invariant
            head.len() <= args@.len(),
            string_views(args@) == head + string_views(run_args@).subrange(0, j as int),
            j <= run_args@.len(),
            head == split_terminator_spaces(trimmed_runner@) + seq![bin_path_of(release)],
        decreases run_args.len() - j,
    {
        let ghost before = string_views(args@);
        args.push(run_args[j].clone());
        assert(string_views(args@) =~= before.push(run_args@[j as int]@));
        assert(string_views(run_args@).subrange(0, j + 1)
            =~= string_views(run_args@).subrange(0, j as int).push(run_args@[j as int]@));
        assert(string_views(args@) =~= head + string_views(run_args@).subrange(0, j + 1));
        j = j + 1;
    }
    assert(string_views(run_args@).subrange(0, j as int) =~= string_views(run_args@));
    args
}

/// The command that runs the supervisor under the configured runner.
pub fn runner_command(opts: &Options) -> (r: Vec<String>)
    ensures
        string_views(r@) == runner_invocation(
            trimmed(opts.runner@),
            opts.release,
            string_views(opts.run_args@),
        ),
        r@.len() >= 1,
{
    let t = trim(opts.runner.as_str());
    command_line(t.as_str(), opts.release, &opts.run_args)
}

} // verus!
