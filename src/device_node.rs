//! Access modes of device nodes, in the octal notation of file modes.
use vstd::prelude::*;

verus! {

/// One bit of a file mode.
#[derive(Debug, Clone, Copy, PartialEq, Eq, Structural)]
pub enum FileMode {
    UserRead,
    UserWrite,
    UserExec,
    GroupRead,
    GroupWrite,
    GroupExec,
    OtherRead,
    OtherWrite,
    OtherExec,
}

/// The mode bit of each variant.
pub open spec fn mode_bit(m: FileMode) -> u16 {
    match m {
        FileMode::UserRead => 0o400,
        FileMode::UserWrite => 0o200,
        FileMode::UserExec => 0o100,
        FileMode::GroupRead => 0o040,
        FileMode::GroupWrite => 0o020,
        FileMode::GroupExec => 0o010,
        FileMode::OtherRead => 0o004,
        FileMode::OtherWrite => 0o002,
        FileMode::OtherExec => 0o001,
    }
}

impl FileMode {
    /// The mode bit this variant stands for.
    pub fn bits(self) -> (r: u16)
        ensures
            r == mode_bit(self),
    {
        match self {
            FileMode::UserRead => 0o400,
            FileMode::UserWrite => 0o200,
            FileMode::UserExec => 0o100,
            FileMode::GroupRead => 0o040,
            FileMode::GroupWrite => 0o020,
            FileMode::GroupExec => 0o010,
            FileMode::OtherRead => 0o004,
            FileMode::OtherWrite => 0o002,
            FileMode::OtherExec => 0o001,
        }
    }
}

/// Mode and ownership of a device node.
#[derive(Debug, Clone, Copy, PartialEq, Eq, Structural)]
pub struct Permissions {
    pub mode: u16,
    pub uid: u32,
    pub gid: u32,
}

impl Permissions {
    pub fn new(mode: u16, uid: u32, gid: u32) -> (r: Permissions)
        ensures
            r == (Permissions { mode, uid, gid }),
    {
        Permissions { mode, uid, gid }
    }

    /// Mode 0644, owned by root.
    pub fn default() -> (r: Permissions)
        ensures
            r == (Permissions { mode: 0o644, uid: 0, gid: 0 }),
    {
        Permissions { mode: 0o644, uid: 0, gid: 0 }
    }

    /// Whether anyone may read.
    pub fn readable(&self) -> (r: bool)
        ensures
            r == (self.mode & 0o444 != 0),
    {
        self.mode & 0o444 != 0
    }

    /// Whether anyone may write.
    pub fn writable(&self) -> (r: bool)
        ensures
            r == (self.mode & 0o222 != 0),
    {
        self.mode & 0o222 != 0
    }

    /// Whether anyone may execute.
    pub fn executable(&self) -> (r: bool)
        ensures
            r == (self.mode & 0o111 != 0),
    {
        self.mode & 0o111 != 0
    }
}

} // verus!
