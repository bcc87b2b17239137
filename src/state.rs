use vstd::prelude::*;
use vstd::string::*;

verus! {

/// Which part of the editor window holds the keyboard.
#[derive(Clone, Copy, PartialEq, Eq, Structural, Debug)]
pub enum LapceFocus {
    Palette,
    Editor,
    FileExplorer,
    SourceControl,
}

/// The editing mode that a keyboard target reports to the key dispatcher.
#[derive(Clone, Copy, PartialEq, Eq, Structural, Debug, Hash)]
pub enum Mode {
    Normal,
    Insert,
    Visual,
    Terminal,
}

/// The kind of a visual selection.
#[derive(Clone, Copy, PartialEq, Eq, Structural, Debug, Hash)]
pub enum VisualMode {
    Normal,
    Linewise,
    Blockwise,
}

impl Default for VisualMode {
    fn default() -> (r: Self)
        ensures
            r == VisualMode::Normal,
    {
        VisualMode::Normal
    }
}

/// Where a workspace lives.
#[derive(Clone, Debug, PartialEq, Eq)]
pub enum LapceWorkspaceType {
    Local,
    RemoteSSH(String, String),
}

/// A folder opened in the editor.
#[derive(Clone, Debug, PartialEq, Eq)]
pub struct LapceWorkspace {
    pub kind: LapceWorkspaceType,
    pub path: String,
    /// Seconds since the Unix epoch at which the workspace was last opened.
    pub last_open: u64,
}

impl LapceWorkspaceType {
    /// The text that names the kind: `Local`, or `ssh://user@host`.
    pub open spec fn spec_text(&self) -> Seq<char> {
        match self {
            LapceWorkspaceType::Local => "Local"@,
            LapceWorkspaceType::RemoteSSH(user, host) => "ssh://"@ + user@ + "@"@ + host@,
        }
    }

    pub fn to_text(&self) -> (r: String)
        ensures
            r@ == self.spec_text(),
    {
        proof {
            reveal_strlit("Local");
            reveal_strlit("ssh://");
            reveal_strlit("@");
        }
        match self {
            LapceWorkspaceType::Local => String::from_str("Local"),
            LapceWorkspaceType::RemoteSSH(user, host) => {
                let mut r = String::from_str("ssh://");
                r.append(user.as_str());
                r.append("@");
                r.append(host.as_str());
                r
            },
        }
    }
}

impl LapceWorkspace {
    /// The text that names the workspace: its kind, a colon, and its path.
    pub open spec fn spec_text(&self) -> Seq<char> {
        self.kind.spec_text() + ":"@ + self.path@
    }

    pub fn to_text(&self) -> (r: String)
        ensures
            r@ == self.spec_text(),
    {
        proof {
            reveal_strlit(":");
        }
        let mut r = self.kind.to_text();
        r.append(":");
        r.append(self.path.as_str());
        r
    }
}

/// A monotonically advancing source of fresh identifiers.
pub struct Counter(u64);

impl Counter {
    /// The value that the next call of `next` hands out.
    pub closed spec fn value(&self) -> u64 {
        self.0
    }

    pub fn new() -> (c: Counter)
        ensures
            c.value() == 1,
    {
        Counter(1)
    }

    /// Hands out the current value and advances by one, wrapping at `u64::MAX`.
    pub fn next(&mut self) -> (r: u64)
        ensures
            r == old(self).value(),
            final(self).value() == (if r == u64::MAX { 0 } else { (r + 1) as u64 }),
    {
        let r = self.0;
        self.0 = if r == u64::MAX { 0 } else { r + 1 };
        r
    }
}

} // verus!
