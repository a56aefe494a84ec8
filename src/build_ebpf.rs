use vstd::prelude::*;

use crate::string_views;

verus! {

/// Byte order of the target that the filter program is compiled for.
#[derive(Debug, Clone, Copy, PartialEq, Eq, Structural)]
pub enum Architecture {
    BpfEl,
    BpfEb,
}

/// The target triple that names an architecture.
pub open spec fn target_name(a: Architecture) -> Seq<char> {
    match a {
        Architecture::BpfEl => "bpfel-unknown-none"@,
        Architecture::BpfEb => "bpfeb-unknown-none"@,
    }
}

impl Architecture {
    /// The target triple of this architecture.
    pub fn as_str(&self) -> (r: &'static str)
        ensures
            r@ == target_name(*self),
    {
        match self {
            Architecture::BpfEl => "bpfel-unknown-none",
            Architecture::BpfEb => "bpfeb-unknown-none",
        }
    }

    /// Reads a target triple; anything but the two known triples is refused.
    pub fn parse(s: &str) -> (r: Result<Architecture, String>)
        ensures
            match r {
                Ok(a) => s@ == target_name(a),
                Err(e) => e@ == "invalid target"@
                    && s@ != target_name(Architecture::BpfEl)
                    && s@ != target_name(Architecture::BpfEb),
            },
    {
        let given = String::from_str(s);
        let el = String::from_str(Architecture::BpfEl.as_str());
        let eb = String::from_str(Architecture::BpfEb.as_str());
        if given == el {
            Ok(Architecture::BpfEl)
        } else if given == eb {
            Ok(Architecture::BpfEb)
        } else {
            Err(String::from_str("invalid target"))
        }
    }

    /// The target triple as an owned string.
    pub fn to_string(&self) -> (r: String)
        ensures
            r@ == target_name(*self),
    {
        String::from_str(self.as_str())
    }
}

impl std::str::FromStr for Architecture {
    type Err = String;

    fn from_str(s: &str) -> Result<Architecture, String> {
        Architecture::parse(s)
    }
}

/// Two architectures never share a target triple.
pub proof fn lemma_target_names_distinct()
    ensures
        target_name(Architecture::BpfEl) != target_name(Architecture::BpfEb),
{
    reveal_strlit("bpfel-unknown-none");
    reveal_strlit("bpfeb-unknown-none");
    assert(target_name(Architecture::BpfEl)[4] != target_name(Architecture::BpfEb)[4]);
}

/// Options for compiling the filter program.
#[derive(Debug, Clone, Copy)]
pub struct Options {
    /// Byte order of the compilation target.
    pub target: Architecture,
    /// Compile with optimisations.
    pub release: bool,
}

/// The arguments handed to cargo to compile the filter program.
pub open spec fn ebpf_build_args(target: Architecture, release: bool) -> Seq<Seq<char>> {
    seq!["build"@, "--target="@ + target_name(target), "-Z"@, "build-std=core"@]
        + if release { seq!["--release"@] } else { Seq::empty() }
}

/// The cargo arguments that compile the filter program for `opts`.
pub fn build_ebpf_args(opts: &Options) -> (r: Vec<String>)
    ensures
        string_views(r@) == ebpf_build_args(opts.target, opts.release),
{
    let mut target = String::from_str("--target=");
    target.append(opts.target.as_str());
    let mut args: Vec<String> = Vec::new();
    args.push(String::from_str("build"));
    args.push(target);
    args.push(String::from_str("-Z"));
    args.push(String::from_str("build-std=core"));
    if opts.release {
        args.push(String::from_str("--release"));
    }
    assert(string_views(args@) =~= ebpf_build_args(opts.target, opts.release));
    args
}

} // verus!
