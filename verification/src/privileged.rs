//! Commands that change files of the system for a user without the right to.

use vstd::prelude::*;
use vstd::string::*;

use crate::text::{digit_char, push_text, string_of, texts};

verus! {

/// A command of the operating system.
#[derive(Clone, Debug)]
pub struct HostCommand {
    pub program: String,
    pub args: Vec<String>,
}

/// A command by the characters it holds.
pub ghost struct HostCommandView {
    pub program: Seq<char>,
    pub args: Seq<Seq<char>>,
}

impl View for HostCommand {
    type V = HostCommandView;

    open spec fn view(&self) -> HostCommandView {
        HostCommandView { program: self.program@, args: texts(self.args@) }
    }
}

/// Whether a change is made directly: by the user `root`, and where there is no
/// other way to ask for the right.
pub fn changes_directly(unix: bool, user_is_root: bool) -> (directly: bool)
    ensures
        directly == (!unix || user_is_root),
{
    !unix || user_is_root
}

/// The digits of a number in octal.
pub open spec fn octal_digits(n: nat) -> Seq<char>
    decreases n,
{
    if n < 8 {
        seq![digit_char(n)]
    } else {
        octal_digits(n / 8).push(digit_char(n % 8))
    }
}

fn octal_digit(d: u32) -> (c: char)
    requires
        d < 8,
    ensures
        c == digit_char(d as nat),
{
    match d {
        0 => '0',
        1 => '1',
        2 => '2',
        3 => '3',
        4 => '4',
        5 => '5',
        6 => '6',
        _ => '7',
    }
}

fn octal_chars(n: u32) -> (digits: Vec<char>)
    ensures
        digits@ == octal_digits(n as nat),
    decreases n,
{
    if n < 8 {
        let mut digits: Vec<char> = Vec::new();
        digits.push(octal_digit(n));
        proof {
            assert(digits@ =~= octal_digits(n as nat));
        }
        digits
    } else {
        let mut digits = octal_chars(n / 8);
        digits.push(octal_digit(n % 8));
        digits
    }
}

/// The permission bits of a mode in octal.
pub open spec fn mode_text(mode: u32) -> Seq<char> {
    octal_digits((mode & 0o7777u32) as nat)
}

/// The permission bits of the mode in octal.
pub fn octal_mode(mode: u32) -> (text: String)
    ensures
        text@ == mode_text(mode),
{
    string_of(octal_chars(mode & 0o7777u32).as_slice())
}

fn sudo(first: &str) -> (args: Vec<String>)
    ensures
        texts(args@) == seq!["-n"@, first@],
{
    let mut args: Vec<String> = Vec::new();
    push_text(&mut args, "-n");
    push_text(&mut args, first);
    proof {
        assert(texts(args@) =~= seq!["-n"@, first@]);
    }
    args
}

/// Makes a directory and those above it.
pub fn make_directory_command(path: &str) -> (command: HostCommand)
    ensures
        command@ == (HostCommandView {
            program: "sudo"@,
            args: seq!["-n"@, "mkdir"@, "-p"@, path@],
        }),
{
    let mut args = sudo("mkdir");
    push_text(&mut args, "-p");
    push_text(&mut args, path);
    proof {
        assert(texts(args@) =~= seq!["-n"@, "mkdir"@, "-p"@, path@]);
    }
    HostCommand { program: "sudo".to_owned(), args }
}

/// Puts a file in its place, readable for all.
pub fn install_command(from: &str, to: &str) -> (command: HostCommand)
    ensures
        command@ == (HostCommandView {
            program: "sudo"@,
            args: seq!["-n"@, "install"@, "-m"@, "0644"@, "--"@, from@, to@],
        }),
{
    let mut args = sudo("install");
    push_text(&mut args, "-m");
    push_text(&mut args, "0644");
    push_text(&mut args, "--");
    push_text(&mut args, from);
    push_text(&mut args, to);
    proof {
        assert(texts(args@) =~= seq!["-n"@, "install"@, "-m"@, "0644"@, "--"@, from@, to@]);
    }
    HostCommand { program: "sudo".to_owned(), args }
}

/// Moves a file.
pub fn move_command(from: &str, to: &str) -> (command: HostCommand)
    ensures
        command@ == (HostCommandView {
            program: "sudo"@,
            args: seq!["-n"@, "mv"@, "--"@, from@, to@],
        }),
{
    let mut args = sudo("mv");
    push_text(&mut args, "--");
    push_text(&mut args, from);
    push_text(&mut args, to);
    proof {
        assert(texts(args@) =~= seq!["-n"@, "mv"@, "--"@, from@, to@]);
    }
    HostCommand { program: "sudo".to_owned(), args }
}

/// Removes a file.
pub fn remove_command(path: &str) -> (command: HostCommand)
    ensures
        command@ == (HostCommandView {
            program: "sudo"@,
            args: seq!["-n"@, "rm"@, "-f"@, "--"@, path@],
        }),
{
    let mut args = sudo("rm");
    push_text(&mut args, "-f");
    push_text(&mut args, "--");
    push_text(&mut args, path);
    proof {
        assert(texts(args@) =~= seq!["-n"@, "rm"@, "-f"@, "--"@, path@]);
    }
    HostCommand { program: "sudo".to_owned(), args }
}

/// Sets the permission bits of a file.
pub fn mode_command(path: &str, mode: u32) -> (command: HostCommand)
    ensures
        command@ == (HostCommandView {
            program: "sudo"@,
            args: seq!["-n"@, "chmod"@, mode_text(mode), path@],
        }),
{
    let mut args = sudo("chmod");
    let text = octal_mode(mode);
    push_text(&mut args, text.as_str());
    push_text(&mut args, path);
    proof {
        assert(texts(args@) =~= seq!["-n"@, "chmod"@, mode_text(mode), path@]);
    }
    HostCommand { program: "sudo".to_owned(), args }
}

/// Restarts the resolver.
pub fn restart_resolver_command(user_is_root: bool) -> (command: HostCommand)
    ensures
        command@ == if user_is_root {
            HostCommandView {
                program: "systemctl"@,
                args: seq!["restart"@, "systemd-resolved"@],
            }
        } else {
            HostCommandView {
                program: "sudo"@,
                args: seq!["-n"@, "systemctl"@, "restart"@, "systemd-resolved"@],
            }
        },
{
    if user_is_root {
        let mut args: Vec<String> = Vec::new();
        push_text(&mut args, "restart");
        push_text(&mut args, "systemd-resolved");
        proof {
            assert(texts(args@) =~= seq!["restart"@, "systemd-resolved"@]);
        }
        HostCommand { program: "systemctl".to_owned(), args }
    } else {
        let mut args = sudo("systemctl");
        push_text(&mut args, "restart");
        push_text(&mut args, "systemd-resolved");
        proof {
            assert(texts(args@) =~= seq!["-n"@, "systemctl"@, "restart"@, "systemd-resolved"@]);
        }
        HostCommand { program: "sudo".to_owned(), args }
    }
}

/// The mode of a file that anyone may run who could not before.
pub fn executable_mode(mode: u32) -> (result: u32)
    ensures
        result == mode | 0o111u32,
{
    mode | 0o111u32
}

} // verus!
