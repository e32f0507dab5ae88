//! The connection-listing command of each platform and the shape of its
//! table.
//!
//! The commands and columns are those that the tools print by default. The
//! tools do not promise to keep them, so a new release of one may need new
//! numbers here.

use crate::error::{LookupError, LookupFailure};
use vstd::prelude::*;

verus! {

/// An operating system, as far as the lookup distinguishes them.
#[derive(Debug, Clone, Copy, PartialEq, Eq)]
pub enum Platform {
    MacOs,
    Linux,
    Windows,
    Other,
}

/// A command line as a mathematical value: the view of a [`CommandSpec`].
pub struct CommandLine {
    pub program: Seq<char>,
    pub args: Seq<Seq<char>>,
}

/// A program and the arguments to run it with.
#[derive(Debug, Clone, PartialEq, Eq)]
pub struct CommandSpec {
    pub program: String,
    pub args: Vec<String>,
}

impl View for CommandSpec {
    type V = CommandLine;

    open spec fn view(&self) -> CommandLine {
        CommandLine { program: self.program@, args: self.args.deep_view() }
    }
}

/// Two columns of a row, counted in tokens from zero, as a mathematical
/// value: the view of a [`ColumnLayout`].
pub struct Layout {
    pub port_column: nat,
    pub pid_column: nat,
}

impl Layout {
    /// The process identifier's column lies after the port's.
    pub open spec fn wf(self) -> bool {
        self.port_column < self.pid_column
    }

    /// The number of tokens between the port's token and the process
    /// identifier's.
    pub open spec fn pid_offset(self) -> nat {
        (self.pid_column - self.port_column - 1) as nat
    }
}

/// The column that holds the local address with its port, and the column
/// that holds the process identifier. The second always lies after the
/// first.
#[derive(Debug, Clone, Copy, PartialEq, Eq)]
pub struct ColumnLayout {
    port_column: usize,
    pid_column: usize,
}

impl View for ColumnLayout {
    type V = Layout;

    closed spec fn view(&self) -> Layout {
        Layout { port_column: self.port_column as nat, pid_column: self.pid_column as nat }
    }
}

impl ColumnLayout {
    #[verifier::type_invariant]
    spec fn ordered(self) -> bool {
        self.port_column < self.pid_column
    }

    /// A layout with the given columns, if the second lies after the first.
    pub fn new(port_column: usize, pid_column: usize) -> (r: Option<ColumnLayout>)
        ensures
            r is Some <==> port_column < pid_column,
            r matches Some(layout) ==> layout@ == (Layout {
                port_column: port_column as nat,
                pid_column: pid_column as nat,
            }),
    {
        if port_column < pid_column {
            Some(ColumnLayout { port_column, pid_column })
        } else {
            None
        }
    }

    /// The column of the local address and port.
    pub fn port_column(&self) -> (c: usize)
        ensures
            c == self@.port_column,
            self@.wf(),
    {
        proof {
            use_type_invariant(self);
        }
        self.port_column
    }

    /// The column of the process identifier.
    pub fn pid_column(&self) -> (c: usize)
        ensures
            c == self@.pid_column,
            self@.wf(),
    {
        proof {
            use_type_invariant(self);
        }
        self.pid_column
    }

    /// The number of tokens between the port's token and the process
    /// identifier's.
    pub fn pid_offset(&self) -> (k: usize)
        ensures
            k == self@.pid_offset(),
            self@.wf(),
    {
        proof {
            use_type_invariant(self);
        }
        self.pid_column - self.port_column - 1
    }
}

/// The platform that goes by `name`, where `name` is written as
/// `std::env::consts::OS` writes it.
pub open spec fn platform_named(name: Seq<char>) -> Platform {
    if name == "macos"@ {
        Platform::MacOs
    } else if name == "linux"@ {
        Platform::Linux
    } else if name == "windows"@ {
        Platform::Windows
    } else {
        Platform::Other
    }
}

/// The command that lists the connections on `platform`, if one is known.
pub open spec fn command_for(platform: Platform) -> Option<CommandLine> {
    match platform {
        Platform::MacOs => Some(
            CommandLine { program: "netstat"@, args: seq!["-anvp"@, "tcp"@] },
        ),
        Platform::Linux => Some(CommandLine { program: "ss"@, args: seq!["-tunkp"@] }),
        Platform::Windows => Some(CommandLine { program: "netstat"@, args: seq!["-ano"@] }),
        Platform::Other => None,
    }
}

/// The columns of the table that `command_for(platform)` prints, if a
/// command is known.
pub open spec fn layout_for(platform: Platform) -> Option<Layout> {
    match platform {
        Platform::MacOs => Some(Layout { port_column: 3, pid_column: 8 }),
        Platform::Linux => Some(Layout { port_column: 4, pid_column: 6 }),
        Platform::Windows => Some(Layout { port_column: 1, pid_column: 4 }),
        Platform::Other => None,
    }
}

impl Platform {
    /// The platform that goes by `name`; every name but `macos`, `linux` and
    /// `windows` gives `Other`.
    pub fn from_name(name: &str) -> (platform: Platform)
        ensures
            platform == platform_named(name@),
    {
        let name = name.to_owned();
        if name == "macos".to_owned() {
            Platform::MacOs
        } else if name == "linux".to_owned() {
            Platform::Linux
        } else if name == "windows".to_owned() {
            Platform::Windows
        } else {
            Platform::Other
        }
    }
}

/// Selects the command that lists the connections on `platform`.
pub fn get_cmd(platform: Platform) -> (r: Result<CommandSpec, LookupError>)
    ensures
        match r {
            Ok(cmd) => command_for(platform) == Some(cmd@),
            Err(e) => command_for(platform) is None && e@ == LookupFailure::UnsupportedPlatform,
        },
{
    match platform {
        Platform::MacOs => {
            let mut args: Vec<String> = Vec::new();
            args.push("-anvp".to_owned());
            args.push("tcp".to_owned());
            let cmd = CommandSpec { program: "netstat".to_owned(), args };
            assert(cmd@.args =~= seq!["-anvp"@, "tcp"@]);
            Ok(cmd)
        },
        Platform::Linux => {
            let mut args: Vec<String> = Vec::new();
            args.push("-tunkp".to_owned());
            let cmd = CommandSpec { program: "ss".to_owned(), args };
            assert(cmd@.args =~= seq!["-tunkp"@]);
            Ok(cmd)
        },
        Platform::Windows => {
            let mut args: Vec<String> = Vec::new();
            args.push("-ano".to_owned());
            let cmd = CommandSpec { program: "netstat".to_owned(), args };
            assert(cmd@.args =~= seq!["-ano"@]);
            Ok(cmd)
        },
        Platform::Other => Err(LookupError::UnsupportedPlatform),
    }
}

/// Selects the columns of the table that the command of `platform` prints.
pub fn column_layout(platform: Platform) -> (r: Result<ColumnLayout, LookupError>)
    ensures
        match r {
            Ok(layout) => layout_for(platform) == Some(layout@),
            Err(e) => layout_for(platform) is None && e@ == LookupFailure::UnsupportedPlatform,
        },
{
    match platform {
        Platform::MacOs => Ok(ColumnLayout { port_column: 3, pid_column: 8 }),
        Platform::Linux => Ok(ColumnLayout { port_column: 4, pid_column: 6 }),
        Platform::Windows => Ok(ColumnLayout { port_column: 1, pid_column: 4 }),
        Platform::Other => Err(LookupError::UnsupportedPlatform),
    }
}

} // verus!
