//! Command forwarder plumbing: the argument list handed to the external
//! toolchain and the mapping from its exit status to this process's exit
//! code. Spawning the toolchain itself is the shell's job.

use crate::cli::DylibCli;
use vstd::prelude::*;
use vstd::string::StringExecFns;

verus! {

/// The arguments the external toolchain is invoked with: the subcommand, a
/// flag pointing it at the derived manifest, then the pass-through arguments
/// verbatim.
pub open spec fn forwarded_args_of(
    subcommand: Seq<char>,
    manifest_path: Seq<char>,
    extra: Seq<Seq<char>>,
) -> Seq<Seq<char>> {
    seq![subcommand, "--manifest-path"@, manifest_path] + extra
}

/// Builds the toolchain's argument list for one invocation.
pub fn forwarded_args(cli: &DylibCli, derived_manifest_path: &str) -> (r: Vec<String>)
    ensures
        r.deep_view() == forwarded_args_of(
            cli.subcommand@,
            derived_manifest_path@,
            cli.arguments.deep_view(),
        ),
{
    let mut r: Vec<String> = Vec::new();
    r.push(cli.subcommand.clone());
    r.push(String::from_str("--manifest-path"));
    r.push(derived_manifest_path.to_owned());
    let n = cli.arguments.len();
    let mut i: usize = 0;
    while i < n
        invariant
            n == cli.arguments.len(),
            i <= n,
            r@.len() == 3 + i,
            r@[0]@ == cli.subcommand@,
            r@[1]@ == "--manifest-path"@,
            r@[2]@ == derived_manifest_path@,
            forall|k: int| 3 <= k < 3 + i ==> (#[trigger] r@[k])@ == cli.arguments@[k - 3]@,
        decreases n - i,
    {
        let ghost prev = r@;
        r.push(cli.arguments[i].clone());
        proof {
            assert forall|k: int| 3 <= k < 3 + i + 1 implies (#[trigger] r@[k])@
                == cli.arguments@[k - 3]@ by {
                if k < 3 + i {
                    assert(r@[k] == prev[k]);
                }
            }
        }
        i = i + 1;
    }
    proof {
        assert forall|k: int| 0 <= k < r@.len() implies #[trigger] r.deep_view()[k] == r@[k]@ by {}
        assert forall|k: int| 0 <= k < n implies #[trigger] cli.arguments.deep_view()[k]
            == cli.arguments@[k]@ by {}
        assert(r.deep_view() =~= forwarded_args_of(
            cli.subcommand@,
            derived_manifest_path@,
            cli.arguments.deep_view(),
        ));
    }
    r
}

/// Maps the external toolchain's exit status to this process's exit code:
/// an exit code between 0 and 255 is preserved; anything else — no code at
/// all (the process was terminated by a signal) or one out of range — maps
/// to the fixed failure code 1.
pub fn status_to_exitcode(code: Option<i32>) -> (r: u8)
    ensures
        code matches Some(c) ==> (0 <= c <= 255 ==> r as i32 == c) && (!(0 <= c <= 255) ==> r
            == 1),
        code is None ==> r == 1,
{
    match code {
        Some(c) => {
            if 0 <= c && c <= 255 {
                c as u8
            } else {
                1
            }
        },
        None => 1,
    }
}

} // verus!
