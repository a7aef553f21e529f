//! The external command that unmounts a filesystem. It is how the native
//! loop, which may sit in a blocking read, is made to return.

use vstd::prelude::*;

verus! {

/// The kind of host, which decides the unmount program.
#[derive(Clone, Copy, Debug, PartialEq, Eq, Structural)]
pub enum HostOs {
    Linux,
    MacOs,
}

/// A process to start: program, arguments and working directory. Its three
/// standard streams are not connected to anything.
#[derive(Clone, Debug, PartialEq, Eq)]
pub struct UnmountCommand {
    pub program: String,
    /// The arguments after the program name.
    pub args: Vec<Vec<u8>>,
    pub cwd: String,
}

/// An [`UnmountCommand`] as a value.
pub struct UnmountCommandView {
    pub program: Seq<char>,
    pub args: Seq<Seq<u8>>,
    pub cwd: Seq<char>,
}

/// The content of each of a list of byte strings.
pub open spec fn contents(strings: Seq<Vec<u8>>) -> Seq<Seq<u8>> {
    strings.map_values(|s: Vec<u8>| s@)
}

impl View for UnmountCommand {
    type V = UnmountCommandView;

    open spec fn view(&self) -> UnmountCommandView {
        UnmountCommandView { program: self.program@, args: contents(self.args@), cwd: self.cwd@ }
    }
}

/// The name of the unmount program of a host.
pub open spec fn unmount_program(os: HostOs) -> Seq<char> {
    match os {
        HostOs::Linux => "fusermount"@,
        HostOs::MacOs => "umount"@,
    }
}

/// The arguments of the unmount program of a host, to unmount the
/// filesystem at `mount_point`: on Linux the option `-u` and the mount
/// point, on macOS the mount point alone.
pub open spec fn unmount_args(os: HostOs, mount_point: Seq<u8>) -> Seq<Seq<u8>> {
    match os {
        HostOs::Linux => seq![seq![0x2du8, 0x75u8], mount_point],
        HostOs::MacOs => seq![mount_point],
    }
}

/// The command that unmounts the filesystem at `mount_point`: the unmount
/// program of the host with its arguments, run in the root directory.
pub open spec fn unmount_command(os: HostOs, mount_point: Seq<u8>) -> UnmountCommandView {
    UnmountCommandView {
        program: unmount_program(os),
        args: unmount_args(os, mount_point),
        cwd: "/"@,
    }
}

/// Computes [`unmount_program`].
pub fn ext_unmount_prog(os: HostOs) -> (prog: &'static str)
    ensures
        prog@ == unmount_program(os),
{
    match os {
        HostOs::Linux => "fusermount",
        HostOs::MacOs => "umount",
    }
}

/// Computes [`unmount_args`].
pub fn ext_unmount_args(os: HostOs, mount_point: &Vec<u8>) -> (args: Vec<Vec<u8>>)
    ensures
        contents(args@) == unmount_args(os, mount_point@),
{
    let mut args: Vec<Vec<u8>> = Vec::new();
    match os {
        HostOs::Linux => {
            let mut option: Vec<u8> = Vec::new();
            option.push(0x2du8);
            option.push(0x75u8);
            assert(option@ == seq![0x2du8, 0x75u8]);
            args.push(option);
        },
        HostOs::MacOs => {},
    }
    let path = mount_point.clone();
    assert(path@ == mount_point@);
    args.push(path);
    assert(contents(args@) =~= unmount_args(os, mount_point@));
    args
}

/// Computes [`unmount_command`].
pub fn unmount_via_external_process(os: HostOs, mount_point: &Vec<u8>) -> (command:
    UnmountCommand)
    ensures
        command@ == unmount_command(os, mount_point@),
{
    let args = ext_unmount_args(os, mount_point);
    let cwd = "/";
    UnmountCommand { program: ext_unmount_prog(os).to_owned(), args, cwd: cwd.to_owned() }
}

} // verus!
