//! The closed set of commands and their display labels.
//!
//! The enumeration order is the canonical display and selection order of the
//! interactive menu: `Init`, `Farm`, `Wipe`, `Info`, `OpenLogs`.

use vstd::prelude::*;

verus! {

/// Number of command variants, and so the length of the menu's option list.
pub const COMMAND_COUNT: usize = 5;

/// A fully resolved command, ready to dispatch to its external action.
#[derive(Clone, Copy, Debug, PartialEq, Eq, Structural)]
pub enum Command {
    /// Initialize the configuration required for farming.
    Init,
    /// Start the farming process, with the node in the background.
    Farm {
        /// Run the farmer in verbose mode.
        verbose: bool,
        /// Take on the executor role.
        executor: bool,
        /// Disable rotation of the logs.
        no_rotation: bool,
    },
    /// Wipe the node and farm instance.
    Wipe {
        /// Wipe the farmer side.
        farmer: bool,
        /// Wipe the node side.
        node: bool,
    },
    /// Display information about the farmer instance.
    Info,
    /// Open the directory that holds the logs.
    OpenLogs,
}

/// The label shown for the menu entry at `index`, in canonical order.
pub open spec fn option_label(index: int) -> Seq<char> {
    if index == 0 {
        "init"@
    } else if index == 1 {
        "farm"@
    } else if index == 2 {
        "wipe"@
    } else if index == 3 {
        "info"@
    } else if index == 4 {
        "open logs directory"@
    } else {
        Seq::empty()
    }
}

impl Command {
    /// The label of this command's variant.
    pub open spec fn label_spec(self) -> Seq<char> {
        match self {
            Command::Init => "init"@,
            Command::Farm { .. } => "farm"@,
            Command::Wipe { .. } => "wipe"@,
            Command::Info => "info"@,
            Command::OpenLogs => "open logs directory"@,
        }
    }

    /// The canonical position of this command's variant in the menu.
    pub open spec fn index_spec(self) -> int {
        match self {
            Command::Init => 0,
            Command::Farm { .. } => 1,
            Command::Wipe { .. } => 2,
            Command::Info => 3,
            Command::OpenLogs => 4,
        }
    }

    /// Human-readable label of this command, as shown in the menu.
    pub fn label(&self) -> (r: &'static str)
        ensures
            r@ == self.label_spec(),
    {
        match self {
            Command::Init => "init",
            Command::Farm { .. } => "farm",
            Command::Wipe { .. } => "wipe",
            Command::Info => "info",
            Command::OpenLogs => "open logs directory",
        }
    }
}

/// The ordered option list of the menu: one label per command variant,
/// in canonical order.
pub fn menu_options() -> (r: Vec<String>)
    ensures
        r@.len() == COMMAND_COUNT,
        forall|i: int| 0 <= i < r@.len() ==> #[trigger] r@[i]@ == option_label(i),
{
    let mut r: Vec<String> = Vec::new();
    r.push("init".to_owned());
    r.push("farm".to_owned());
    r.push("wipe".to_owned());
    r.push("info".to_owned());
    r.push("open logs directory".to_owned());
    r
}

} // verus!
