//! The identity of a system call: its number and its canonical name.

use vstd::prelude::*;

verus! {

/// A system call, by number and by name.
#[derive(Debug, Clone, PartialEq, Eq)]
pub struct Syscall {
    /// The number by which the kernel knows the call.
    pub num: i32,
    /// The canonical name of the call.
    pub name: String,
}

/// The mathematical content of a `Syscall`.
pub struct SyscallView {
    pub num: int,
    pub name: Seq<char>,
}

impl View for Syscall {
    type V = SyscallView;

    open spec fn view(&self) -> SyscallView {
        SyscallView { num: self.num as int, name: self.name@ }
    }
}

impl SyscallView {
    /// Whether the call ends the calling process or thread group, so that it never returns:
    /// `exit` and `exit_group`.
    pub open spec fn is_exit(self) -> bool {
        self.name == "exit"@ || self.name == "exit_group"@
    }
}

/// Asks the `syscalls` crate for the call with this number (`Sysno::new`) and, where it knows
/// one, for its name (`Sysno::name`). The table is that of the architecture the crate was
/// built for, so nothing is claimed of which numbers are known or what they are called.
#[verifier::external_body]
fn sysno_name(num: usize) -> (name: Option<String>) {
    syscalls::Sysno::new(num).map(|sysno| sysno.name().to_owned())
}

impl Syscall {
    /// The call with the given number and name.
    pub fn new(num: i32, name: String) -> (syscall: Syscall)
        ensures
            syscall@ == (SyscallView { num: num as int, name: name@ }),
    {
        Syscall { num, name }
    }

    /// The call that the given table entry stands for: none for a negative number, which no
    /// call has, or without a name, and else the call of that number and name.
    pub fn from_entry(num: i32, name: Option<String>) -> (syscall: Option<Syscall>)
        ensures
            match syscall {
                Some(call) => num >= 0 && name.is_some() && call@ == (SyscallView {
                    num: num as int,
                    name: name.unwrap()@,
                }),
                None => num < 0 || name.is_none(),
            },
    {
        if num < 0 {
            return None;
        }
        match name {
            Some(name) => Some(Syscall::new(num, name)),
            None => None,
        }
    }

    /// Looks a call up by its number in the system call table of this architecture. A number
    /// that the table does not hold gives `None`; a call that is found has the number asked
    /// for.
    pub fn lookup(num: i32) -> (syscall: Option<Syscall>)
        ensures
            num < 0 ==> syscall.is_none(),
            syscall matches Some(call) ==> call@.num == num,
    {
        if num < 0 {
            return None;
        }
        Syscall::from_entry(num, sysno_name(num as usize))
    }

    /// Whether the call is `exit` or `exit_group`.
    pub fn is_exit(&self) -> (exit: bool)
        ensures
            exit == self@.is_exit(),
    {
        let exit = String::from_str("exit");
        let exit_group = String::from_str("exit_group");
        self.name == exit || self.name == exit_group
    }
}

} // verus!
