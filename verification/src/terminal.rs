//! The terminal fact, and the decision table for walking parent processes
//! to find the terminal that hosts this one.

use vstd::prelude::*;

use crate::strutil::str_eq;

verus! {

/// The terminal emulator's name, and its version where one is known.
#[derive(Debug, Clone)]
pub struct Terminal {
    pub name: String,
    pub version: Option<String>,
}

/// The line the formatter prints for a terminal: the name, and the version
/// in parentheses when known.
pub open spec fn terminal_seq(t: Terminal) -> Seq<char> {
    t.name@ + match t.version {
        Some(v) => " ("@ + v@ + ")"@,
        None => Seq::<char>::empty(),
    }
}

impl Terminal {
    /// Renders the terminal line.
    pub fn render(&self) -> (r: String)
        ensures
            r@ == terminal_seq(*self),
    {
        let mut r: String = String::new();
        r.append(self.name.as_str());
        match &self.version {
            Some(v) => {
                r.append(" (");
                r.append(v.as_str());
                r.append(")");
            },
            None => {},
        }
        proof {
            assert(r@ =~= terminal_seq(*self));
        }
        r
    }
}

/// What the parent-process walk does with one process name: name the
/// terminal and stop, give up, or climb to the next parent.
#[derive(Debug, Clone, PartialEq, Eq)]
pub enum TermStep {
    Found(String),
    Stop,
    Climb,
}

/// The terminal that a process name maps straight to, where it maps to one.
pub open spec fn spec_term_found(name: Seq<char>) -> Option<Seq<char>> {
    if name == "gnome-terminal-"@ {
        Some("gnome-terminal"@)
    } else if name == "urxvtd"@ {
        Some("urxvtd"@)
    } else if name == "nvim"@ {
        Some("Neovim Terminal"@)
    } else if name == "NeoVimServer"@ {
        Some("VimR Terminal"@)
    } else if name == "node"@ {
        Some("node"@)
    } else {
        None
    }
}

/// Whether a process name marks the top of the walk: a session leader or
/// multiplexer above which no terminal will be found.
pub open spec fn spec_term_stop(name: Seq<char>) -> bool {
    name == "ruby"@ || name == "1"@ || name == "tmux"@ || name == "systemd"@ || name == "sshd"@
        || name == "python"@ || name == "USER"@ || name == "PID"@ || name == "kdeinit"@ || name
        == "launchd"@ || name == "bwrap"@
}

/// Tells the caller what to do with one process name while it walks up the
/// process tree looking for the hosting terminal.
pub fn term_step(name: &str) -> (r: TermStep)
    ensures
        match r {
            TermStep::Found(t) => spec_term_found(name@) == Some(t@),
            TermStep::Stop => spec_term_found(name@) is None && spec_term_stop(name@),
            TermStep::Climb => spec_term_found(name@) is None && !spec_term_stop(name@),
        },
{
    if str_eq(name, "gnome-terminal-") {
        TermStep::Found(String::from_str("gnome-terminal"))
    } else if str_eq(name, "urxvtd") {
        TermStep::Found(String::from_str("urxvtd"))
    } else if str_eq(name, "nvim") {
        TermStep::Found(String::from_str("Neovim Terminal"))
    } else if str_eq(name, "NeoVimServer") {
        TermStep::Found(String::from_str("VimR Terminal"))
    } else if str_eq(name, "node") {
        TermStep::Found(String::from_str("node"))
    } else if str_eq(name, "ruby") || str_eq(name, "1") || str_eq(name, "tmux") || str_eq(
        name,
        "systemd",
    ) || str_eq(name, "sshd") || str_eq(name, "python") || str_eq(name, "USER") || str_eq(
        name,
        "PID",
    ) || str_eq(name, "kdeinit") || str_eq(name, "launchd") || str_eq(name, "bwrap") {
        TermStep::Stop
    } else {
        TermStep::Climb
    }
}

} // verus!
