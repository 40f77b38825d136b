use vstd::prelude::*;

verus! {

/// A process for the dock to start: a program and its arguments.
#[derive(Clone)]
pub struct ProcessRequest {
    pub program: String,
    pub args: Vec<String>,
}

/// The characters of a process request.
pub struct ProcessView {
    pub program: Seq<char>,
    pub args: Seq<Seq<char>>,
}

impl View for ProcessRequest {
    type V = ProcessView;

    open spec fn view(&self) -> ProcessView {
        ProcessView { program: self.program@, args: self.args@.map_values(|a: String| a@) }
    }
}

/// `hyprctl dispatch focuswindow address:<address>`.
pub open spec fn spec_focus_window(address: Seq<char>) -> ProcessView {
    ProcessView {
        program: "hyprctl"@,
        args: seq!["dispatch"@, "focuswindow"@, "address:"@ + address],
    }
}

/// `hyprctl dispatch closewindow address:<address>`.
pub open spec fn spec_close_window(address: Seq<char>) -> ProcessView {
    ProcessView {
        program: "hyprctl"@,
        args: seq!["dispatch"@, "closewindow"@, "address:"@ + address],
    }
}

/// `sh -c <command>`: a new instance of an application.
pub open spec fn spec_launch(command: Seq<char>) -> ProcessView {
    ProcessView { program: "sh"@, args: seq!["-c"@, command] }
}

fn hyprctl_dispatch(dispatcher: &str, address: &str) -> (r: ProcessRequest)
    ensures
        r@ == (ProcessView {
            program: "hyprctl"@,
            args: seq!["dispatch"@, dispatcher@, "address:"@ + address@],
        }),
{
    let mut target = String::from_str("address:");
    target.append(address);
    let mut args: Vec<String> = Vec::new();
    args.push(String::from_str("dispatch"));
    args.push(String::from_str(dispatcher));
    args.push(target);
    let r = ProcessRequest { program: String::from_str("hyprctl"), args };
    assert(r@.args =~= seq!["dispatch"@, dispatcher@, "address:"@ + address@]);
    r
}

/// The request that brings the window at `address` to the front.
pub fn focus_window(address: &str) -> (r: ProcessRequest)
    ensures
        r@ == spec_focus_window(address@),
{
    hyprctl_dispatch("focuswindow", address)
}

/// The request that closes the window at `address`.
pub fn close_window(address: &str) -> (r: ProcessRequest)
    ensures
        r@ == spec_close_window(address@),
{
    hyprctl_dispatch("closewindow", address)
}

/// The request that runs `command` through the shell.
pub fn launch(command: &str) -> (r: ProcessRequest)
    ensures
        r@ == spec_launch(command@),
{
    let mut args: Vec<String> = Vec::new();
    args.push(String::from_str("-c"));
    args.push(String::from_str(command));
    let r = ProcessRequest { program: String::from_str("sh"), args };
    assert(r@.args =~= seq!["-c"@, command@]);
    r
}

} // verus!
