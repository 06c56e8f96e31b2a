//! The command line of a server of file descriptors.
//!
//! The server is handed open files and directories by descriptor number: each
//! number is named in an argument of its own, after a flag that says what it
//! may be used for, and is inherited by the server's process.

use vstd::prelude::*;
use vstd::string::*;
use crate::fd_path::{decimal_int, decimal_string};

verus! {

/// Which files and directories a server of file descriptors is to expose,
/// by descriptor number.
#[derive(Clone, Debug, Default)]
pub struct FdServerConfig {
    /// List of file FDs exposed for read-only operations.
    pub ro_file_fds: Vec<i32>,
    /// List of file FDs exposed for read-write operations.
    pub rw_file_fds: Vec<i32>,
    /// List of directory FDs exposed for read-only operations.
    pub ro_dir_fds: Vec<i32>,
    /// List of directory FDs exposed for read-write operations.
    pub rw_dir_fds: Vec<i32>,
}

/// How the server's process is to be started.
#[derive(Clone, Debug)]
pub struct SpawnPlan {
    /// The arguments, the first of which is the path of the program.
    pub args: Vec<String>,
    /// The descriptor numbers that the process inherits.
    pub inheritable_fds: Vec<i32>,
}

/// The strings of a list, each taken as a sequence of characters.
pub open spec fn strings_view(strings: Seq<String>) -> Seq<Seq<char>> {
    Seq::new(strings.len(), |i: int| strings[i]@)
}

/// The path of the server's program.
pub const FD_SERVER_BIN: &'static str = "/apex/com.android.virt/bin/fd_server";

/// The path of the server's program, as a sequence of characters.
pub open spec fn fd_server_bin() -> Seq<char> {
    "/apex/com.android.virt/bin/fd_server"@
}

/// The arguments that name the descriptors `fds`: for each, in order, the
/// flag and the number in decimal.
pub open spec fn flag_args(flag: Seq<char>, fds: Seq<i32>) -> Seq<Seq<char>>
    decreases fds.len(),
{
    if fds.len() == 0 {
        Seq::empty()
    } else {
        flag_args(flag, fds.drop_last()).push(flag).push(decimal_int(fds.last() as int))
    }
}

impl FdServerConfig {
    /// The arguments of a server for this configuration that reports that it
    /// is ready on descriptor `ready_fd`.
    pub open spec fn spec_args(self, ready_fd: i32) -> Seq<Seq<char>> {
        seq![fd_server_bin()] + flag_args("--ro-fds"@, self.ro_file_fds@) + flag_args(
            "--rw-fds"@,
            self.rw_file_fds@,
        ) + flag_args("--ro-dirs"@, self.ro_dir_fds@) + flag_args("--rw-dirs"@, self.rw_dir_fds@)
            + seq!["--ready-fd"@, decimal_int(ready_fd as int)]
    }

    /// The descriptors that such a server inherits: all that the
    /// configuration names, in the order of its arguments, and `ready_fd`.
    pub open spec fn spec_inheritable_fds(self, ready_fd: i32) -> Seq<i32> {
        self.ro_file_fds@ + self.rw_file_fds@ + self.ro_dir_fds@ + self.rw_dir_fds@
            + seq![ready_fd]
    }

    /// Says how to start a server for this configuration that reports that
    /// it is ready on descriptor `ready_fd`.
    pub fn spawn_plan(&self, ready_fd: i32) -> (plan: SpawnPlan)
        ensures
            strings_view(plan.args@) == self.spec_args(ready_fd),
            plan.inheritable_fds@ == self.spec_inheritable_fds(ready_fd),
    {
        let mut args: Vec<String> = Vec::new();
        let mut inheritable_fds: Vec<i32> = Vec::new();
        args.push(String::from_str(FD_SERVER_BIN));
        assert(strings_view(args@) =~= seq![fd_server_bin()]);
        push_flag_args(&mut args, &mut inheritable_fds, "--ro-fds", &self.ro_file_fds);
        push_flag_args(&mut args, &mut inheritable_fds, "--rw-fds", &self.rw_file_fds);
        push_flag_args(&mut args, &mut inheritable_fds, "--ro-dirs", &self.ro_dir_fds);
        push_flag_args(&mut args, &mut inheritable_fds, "--rw-dirs", &self.rw_dir_fds);
        let ghost before = strings_view(args@);
        args.push(String::from_str("--ready-fd"));
        args.push(decimal_string(ready_fd));
        inheritable_fds.push(ready_fd);
        assert(strings_view(args@) =~= before + seq![
            "--ready-fd"@,
            decimal_int(ready_fd as int),
        ]);
        assert(inheritable_fds@ =~= self.spec_inheritable_fds(ready_fd));
        SpawnPlan { args, inheritable_fds }
    }
}

fn push_flag_args(args: &mut Vec<String>, inheritable_fds: &mut Vec<i32>, flag: &str, fds: &Vec<i32>)
    ensures
        strings_view(final(args)@) == strings_view(old(args)@) + flag_args(flag@, fds@),
        final(inheritable_fds)@ == old(inheritable_fds)@ + fds@,
{
    let mut i: usize = 0;
    assert(fds@.take(0) =~= Seq::empty());
    assert(strings_view(args@) =~= strings_view(old(args)@) + flag_args(flag@, fds@.take(0)));
    assert(inheritable_fds@ =~= old(inheritable_fds)@ + fds@.take(0));
    while i < fds.len()
        invariant
            i <= fds.len(),
            strings_view(args@) == strings_view(old(args)@) + flag_args(flag@, fds@.take(i as int)),
            inheritable_fds@ == old(inheritable_fds)@ + fds@.take(i as int),
        decreases fds.len() - i,
    {
        let fd = fds[i];
        let ghost before = strings_view(args@);
        args.push(String::from_str(flag));
        args.push(decimal_string(fd));
        inheritable_fds.push(fd);
        proof {
            let taken = fds@.take(i as int + 1);
            assert(taken.drop_last() =~= fds@.take(i as int));
            assert(taken.last() == fd);
            assert(strings_view(args@) =~= before.push(flag@).push(decimal_int(fd as int)));
            assert(strings_view(args@) =~= strings_view(old(args)@) + flag_args(flag@, taken));
            assert(inheritable_fds@ =~= old(inheritable_fds)@ + taken);
        }
        i += 1;
    }
    assert(fds@.take(i as int) =~= fds@);
}

} // verus!
