//! Host utility invocations as plain data.
//!
//! The side-effect managers never run anything themselves: they return the
//! exact program and argument list to run, and the unverified shell around
//! the library executes them best-effort.

use vstd::prelude::*;

verus! {

/// One invocation of a host utility: the program and its arguments.
#[derive(Clone, Debug)]
pub struct HostCommand {
    pub program: String,
    pub args: Vec<String>,
}

impl HostCommand {
    /// The argument list as character sequences.
    pub open spec fn args_view(&self) -> Seq<Seq<char>> {
        self.args.deep_view()
    }
}

/// The platform the surrounding shell runs on, as far as choosing host
/// utilities cares.
#[derive(Clone, Copy, Debug, PartialEq, Eq, Structural)]
pub enum HostPlatform {
    Linux,
    Windows,
    MacOs,
}

/// The invocation that opens a page in the user's browser on the given
/// platform.
pub fn open_url_command(platform: HostPlatform, url: &str) -> (r: HostCommand)
    ensures
        platform == HostPlatform::Linux ==> r.program@ == "xdg-open"@ && r.args_view() == seq![
            url@,
        ],
        platform == HostPlatform::MacOs ==> r.program@ == "open"@ && r.args_view() == seq![url@],
        platform == HostPlatform::Windows ==> r.program@ == "powershell"@ && r.args_view()
            == seq!["-Command"@, "Start-Process '"@ + url@ + "'"@],
{
    match platform {
        HostPlatform::Linux => {
            let mut args: Vec<String> = Vec::new();
            args.push(url.to_owned());
            let r = HostCommand { program: String::from_str("xdg-open"), args };
            proof {
                assert(r.args_view() =~= seq![url@]);
            }
            r
        },
        HostPlatform::MacOs => {
            let mut args: Vec<String> = Vec::new();
            args.push(url.to_owned());
            let r = HostCommand { program: String::from_str("open"), args };
            proof {
                assert(r.args_view() =~= seq![url@]);
            }
            r
        },
        HostPlatform::Windows => {
            let script = String::from_str("Start-Process '").concat(url).concat("'");
            let mut args: Vec<String> = Vec::new();
            args.push(String::from_str("-Command"));
            args.push(script);
            let r = HostCommand { program: String::from_str("powershell"), args };
            proof {
                assert(r.args_view() =~= seq!["-Command"@, "Start-Process '"@ + url@ + "'"@]);
            }
            r
        },
    }
}

} // verus!
