//! The command resolver: from the argument list to a command, or to "none
//! provided", or to a usage error — never silently.
//!
//! The grammar is the fixed set of subcommands `init`, `farm`, `wipe`,
//! `info` and `open-logs`; `farm` takes the flags `-v`/`--verbose`,
//! `-e`/`--executor` and `--no-rotation`, `wipe` takes `--farmer` and
//! `--node`, and the rest take none. An empty argument list means the
//! interactive menu should run instead. Anything else is a usage error.

use vstd::prelude::*;
use vstd::string::StringExecFns;
use crate::command::Command;
use crate::prompts::str_eq;

verus! {

/// The invocation was malformed; the description says how.
#[derive(Clone, Debug)]
pub struct UsageError {
    /// Human-readable description of what was wrong.
    pub message: String,
}

/// Whether `a` is one of the flags the farm subcommand recognizes.
pub open spec fn is_farm_flag(a: Seq<char>) -> bool {
    a == "-v"@ || a == "--verbose"@ || a == "-e"@ || a == "--executor"@ || a == "--no-rotation"@
}

/// Whether the farm arguments ask for verbose mode.
pub open spec fn farm_verbose(args: Seq<Seq<char>>) -> bool {
    exists|i: int| 1 <= i < args.len() && (args[i] == "-v"@ || args[i] == "--verbose"@)
}

/// Whether the farm arguments ask for the executor role.
pub open spec fn farm_executor(args: Seq<Seq<char>>) -> bool {
    exists|i: int| 1 <= i < args.len() && (args[i] == "-e"@ || args[i] == "--executor"@)
}

/// Whether the farm arguments disable log rotation.
pub open spec fn farm_no_rotation(args: Seq<Seq<char>>) -> bool {
    exists|i: int| 1 <= i < args.len() && args[i] == "--no-rotation"@
}

/// Whether `a` is one of the flags the wipe subcommand recognizes.
pub open spec fn is_wipe_flag(a: Seq<char>) -> bool {
    a == "--farmer"@ || a == "--node"@
}

/// Whether the wipe arguments name the farmer side.
pub open spec fn wipe_farmer(args: Seq<Seq<char>>) -> bool {
    exists|i: int| 1 <= i < args.len() && args[i] == "--farmer"@
}

/// Whether the wipe arguments name the node side.
pub open spec fn wipe_node(args: Seq<Seq<char>>) -> bool {
    exists|i: int| 1 <= i < args.len() && args[i] == "--node"@
}

/// What the argument list (without the program name) resolves to: `None`
/// for a malformed invocation, `Some(None)` when no command was given, and
/// `Some(Some(c))` for a well-formed invocation of `c`.
pub open spec fn parse_spec(args: Seq<Seq<char>>) -> Option<Option<Command>> {
    if args.len() == 0 {
        Some(None)
    } else if args[0] == "init"@ {
        if args.len() == 1 {
            Some(Some(Command::Init))
        } else {
            None
        }
    } else if args[0] == "farm"@ {
        if forall|i: int| 1 <= i < args.len() ==> is_farm_flag(#[trigger] args[i]) {
            Some(
                Some(
                    Command::Farm {
                        verbose: farm_verbose(args),
                        executor: farm_executor(args),
                        no_rotation: farm_no_rotation(args),
                    },
                ),
            )
        } else {
            None
        }
    } else if args[0] == "wipe"@ {
        if forall|i: int| 1 <= i < args.len() ==> is_wipe_flag(#[trigger] args[i]) {
            Some(Some(Command::Wipe { farmer: wipe_farmer(args), node: wipe_node(args) }))
        } else {
            None
        }
    } else if args[0] == "info"@ {
        if args.len() == 1 {
            Some(Some(Command::Info))
        } else {
            None
        }
    } else if args[0] == "open-logs"@ {
        if args.len() == 1 {
            Some(Some(Command::OpenLogs))
        } else {
            None
        }
    } else {
        None
    }
}

/// The literals of the grammar are pairwise distinct where the resolver
/// needs to tell them apart.
proof fn lemma_flag_literals_distinct()
    ensures
        "-v"@ != "-e"@,
        "-v"@ != "--executor"@,
        "-v"@ != "--no-rotation"@,
        "--verbose"@ != "-e"@,
        "--verbose"@ != "--executor"@,
        "--verbose"@ != "--no-rotation"@,
        "-e"@ != "--no-rotation"@,
        "--executor"@ != "--no-rotation"@,
        "--farmer"@ != "--node"@,
        "init"@ != "farm"@,
        "init"@ != "wipe"@,
        "farm"@ != "wipe"@,
{
    reveal_strlit("-v");
    reveal_strlit("--verbose");
    reveal_strlit("-e");
    reveal_strlit("--executor");
    reveal_strlit("--no-rotation");
    reveal_strlit("--farmer");
    reveal_strlit("--node");
    reveal_strlit("init");
    reveal_strlit("farm");
    reveal_strlit("wipe");
    assert("-v"@.len() == 2);
    assert("--verbose"@.len() == 9);
    assert("-e"@.len() == 2);
    assert("--executor"@.len() == 10);
    assert("--no-rotation"@.len() == 13);
    assert("--farmer"@.len() == 8);
    assert("--node"@.len() == 6);
    assert("-v"@[1] == 'v' && "-e"@[1] == 'e');
    assert("init"@[0] == 'i' && "farm"@[0] == 'f' && "wipe"@[0] == 'w');
}

/// A usage error carrying `msg` and the argument it trips over.
fn usage(msg: &str, arg: &str) -> (e: UsageError) {
    let mut message: String = msg.to_owned();
    message.append(arg);
    UsageError { message }
}

/// Resolve the process's argument list (everything after the program
/// name): `Ok(None)` when no command was given, `Ok(Some(c))` for a
/// well-formed invocation of `c`, and a usage error exactly on the
/// malformed lists — extra arguments after a plain subcommand, a flag the
/// subcommand does not recognize, or an unknown subcommand.
pub fn resolve_args(args: &Vec<String>) -> (r: Result<Option<Command>, UsageError>)
    ensures
        r is Ok <==> parse_spec(args.deep_view()) is Some,
        r matches Ok(c) ==> parse_spec(args.deep_view()) == Some(c),
{
    let ghost dv: Seq<Seq<char>> = args.deep_view();
    if args.len() == 0 {
        return Ok(None);
    }
    proof {
        assert(dv[0] == args@[0]@);
    }
    let first: &str = args[0].as_str();
    if str_eq(first, "init") {
        if args.len() == 1 {
            Ok(Some(Command::Init))
        } else {
            proof {
                assert(dv[1] == args@[1]@);
            }
            Err(usage("unexpected argument after 'init': ", args[1].as_str()))
        }
    } else if str_eq(first, "farm") {
        let mut verbose: bool = false;
        let mut executor: bool = false;
        let mut no_rotation: bool = false;
        let mut i: usize = 1;
        while i < args.len()
            invariant
                1 <= i <= dv.len(),
                dv == args.deep_view(),
                dv.len() == args@.len(),
                dv[0] == "farm"@,
                forall|j: int| 1 <= j < i ==> is_farm_flag(#[trigger] dv[j]),
                verbose == exists|j: int|
                    1 <= j < i && (#[trigger] dv[j] == "-v"@ || dv[j] == "--verbose"@),
                executor == exists|j: int|
                    1 <= j < i && (#[trigger] dv[j] == "-e"@ || dv[j] == "--executor"@),
                no_rotation == exists|j: int| 1 <= j < i && #[trigger] dv[j] == "--no-rotation"@,
            decreases args@.len() - i,
        {
            proof {
                lemma_flag_literals_distinct();
                assert(dv[i as int] == args@[i as int]@);
            }
            let a: &str = args[i].as_str();
            if str_eq(a, "-v") || str_eq(a, "--verbose") {
                verbose = true;
            } else if str_eq(a, "-e") || str_eq(a, "--executor") {
                executor = true;
            } else if str_eq(a, "--no-rotation") {
                no_rotation = true;
            } else {
                return Err(usage("unrecognized argument for 'farm': ", a));
            }
            i = i + 1;
        }
        Ok(Some(Command::Farm { verbose, executor, no_rotation }))
    } else if str_eq(first, "wipe") {
        let mut farmer: bool = false;
        let mut node: bool = false;
        let mut i: usize = 1;
        while i < args.len()
            invariant
                1 <= i <= dv.len(),
                dv == args.deep_view(),
                dv.len() == args@.len(),
                dv[0] == "wipe"@,
                forall|j: int| 1 <= j < i ==> is_wipe_flag(#[trigger] dv[j]),
                farmer == exists|j: int| 1 <= j < i && #[trigger] dv[j] == "--farmer"@,
                node == exists|j: int| 1 <= j < i && #[trigger] dv[j] == "--node"@,
            decreases args@.len() - i,
        {
            proof {
                lemma_flag_literals_distinct();
                assert(dv[i as int] == args@[i as int]@);
            }
            let a: &str = args[i].as_str();
            if str_eq(a, "--farmer") {
                farmer = true;
            } else if str_eq(a, "--node") {
                node = true;
            } else {
                return Err(usage("unrecognized argument for 'wipe': ", a));
            }
            i = i + 1;
        }
        Ok(Some(Command::Wipe { farmer, node }))
    } else if str_eq(first, "info") {
        if args.len() == 1 {
            Ok(Some(Command::Info))
        } else {
            proof {
                assert(dv[1] == args@[1]@);
            }
            Err(usage("unexpected argument after 'info': ", args[1].as_str()))
        }
    } else if str_eq(first, "open-logs") {
        if args.len() == 1 {
            Ok(Some(Command::OpenLogs))
        } else {
            proof {
                assert(dv[1] == args@[1]@);
            }
            Err(usage("unexpected argument after 'open-logs': ", args[1].as_str()))
        }
    } else {
        Err(usage("unrecognized subcommand: ", first))
    }
}

} // verus!

