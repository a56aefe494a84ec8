use vstd::prelude::*;

pub mod build_ebpf;
pub mod run;
pub mod channel;
pub mod relay;
pub mod verdict;
pub mod attach;
pub mod supervisor;
pub mod xtask;

verus! {

/// The character sequences held by a list of strings, in order.
pub open spec fn string_views(v: Seq<String>) -> Seq<Seq<char>> {
    v.map_values(|s: String| s@)
}

} // verus!
