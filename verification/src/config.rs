//! The settings of a run, and how arguments change them.

use vstd::prelude::*;
use vstd::string::StringExecFns;

verus! {

/// What a run is told at startup: where the workspace lies and whether anything may
/// be deleted.
#[derive(Clone, Debug, PartialEq, Eq)]
pub struct Config {
    /// The directory whose children are scanned; `None` for the directory
    /// `Developer` below the user's home directory.
    pub root: Option<String>,
    /// Whether the run only reports. A live run also carries out the actions.
    pub dry_run: bool,
}

/// Whether the arguments ask for a dry run: the last of `--live` and `--dry-run`
/// decides, and without either the run is dry.
pub open spec fn dry_run_of(args: Seq<String>) -> bool
    decreases args.len(),
{
    if args.len() == 0 {
        true
    } else if args.last()@ == "--live"@ {
        false
    } else if args.last()@ == "--dry-run"@ {
        true
    } else {
        dry_run_of(args.drop_last())
    }
}

/// The root that the arguments name: the last argument that is neither `--live` nor
/// `--dry-run`, if there is one.
pub open spec fn root_of(args: Seq<String>) -> Option<Seq<char>>
    decreases args.len(),
{
    if args.len() == 0 {
        None
    } else if args.last()@ == "--live"@ || args.last()@ == "--dry-run"@ {
        root_of(args.drop_last())
    } else {
        Some(args.last()@)
    }
}

impl Default for Config {
    /// A dry run over the default workspace.
    fn default() -> (r: Config)
        ensures
            r.root is None,
            r.dry_run,
    {
        Config { root: None, dry_run: true }
    }
}

impl Config {
    /// The name of the default workspace below the user's home directory.
    pub fn default_workspace() -> (r: &'static str)
        ensures
            r@ == "Developer"@,
    {
        "Developer"
    }

    /// Reads the settings from the arguments of the program, its own name left out.
    /// `--live` asks for a live run and `--dry-run` for a dry one; any other argument
    /// names the root. Where arguments disagree the last one counts, and what no
    /// argument sets keeps its default.
    pub fn from_args(args: &Vec<String>) -> (r: Config)
        ensures
            r.dry_run == dry_run_of(args@),
            match r.root {
                Some(root) => root_of(args@) == Some(root@),
                None => root_of(args@) is None,
            },
    {
        let live = String::from_str("--live");
        let dry = String::from_str("--dry-run");
        let mut config = Config { root: None, dry_run: true };
        let mut i: usize = 0;
        while i < args.len()
            invariant
                i <= args.len(),
                live@ == "--live"@,
                dry@ == "--dry-run"@,
                config.dry_run == dry_run_of(args@.take(i as int)),
                match config.root {
                    Some(root) => root_of(args@.take(i as int)) == Some(root@),
                    None => root_of(args@.take(i as int)) is None,
                },
            decreases args.len() - i,
        {
            proof {
                let next = args@.take(i + 1);
                assert(next.drop_last() == args@.take(i as int));
            }
            if args[i] == live {
                config.dry_run = false;
            } else if args[i] == dry {
                config.dry_run = true;
            } else {
                config.root = Some(args[i].clone());
            }
            i = i + 1;
        }
        proof {
            assert(args@.take(i as int) == args@);
        }
        config
    }
}

} // verus!
