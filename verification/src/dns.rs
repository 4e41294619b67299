//! DNS override for full-tunnel mode, and its exact restoration.

use vstd::prelude::*;
use crate::host_cmd::HostCommand;

verus! {

/// Captured DNS resolver configuration from before any mutation.  `None`
/// means the prior state could not be determined: nothing to restore, not
/// an error.
#[derive(Clone, Debug)]
pub struct DnsSnapshot {
    pub resolv_conf: Option<String>,
}

/// Capture the resolver configuration as read from the host, verbatim.
pub fn snapshot_dns(resolv_conf: Option<String>) -> (r: DnsSnapshot)
    ensures
        r.resolv_conf == resolv_conf,
{
    DnsSnapshot { resolv_conf }
}

/// The resolver invocations that point DNS at the tunnel interface: set its
/// servers, then route every domain through it.  Applying them twice sets
/// the same state twice and does not compound.
pub fn apply_full_tunnel_dns(ifname: &str) -> (r: Vec<HostCommand>)
    ensures
        r@.len() == 2,
        r@[0].program@ == "resolvectl"@,
        r@[0].args_view() == seq!["dns"@, ifname@, "1.1.1.1"@, "8.8.8.8"@],
        r@[1].program@ == "resolvectl"@,
        r@[1].args_view() == seq!["domain"@, ifname@, "~."@],
{
    let mut dns_args: Vec<String> = Vec::new();
    dns_args.push(String::from_str("dns"));
    dns_args.push(ifname.to_owned());
    dns_args.push(String::from_str("1.1.1.1"));
    dns_args.push(String::from_str("8.8.8.8"));
    let mut domain_args: Vec<String> = Vec::new();
    domain_args.push(String::from_str("domain"));
    domain_args.push(ifname.to_owned());
    domain_args.push(String::from_str("~."));
    let dns_cmd = HostCommand { program: String::from_str("resolvectl"), args: dns_args };
    let domain_cmd = HostCommand { program: String::from_str("resolvectl"), args: domain_args };
    let mut r: Vec<HostCommand> = Vec::new();
    r.push(dns_cmd);
    r.push(domain_cmd);
    proof {
        assert(r@[0].args_view() =~= seq!["dns"@, ifname@, "1.1.1.1"@, "8.8.8.8"@]);
        assert(r@[1].args_view() =~= seq!["domain"@, ifname@, "~."@]);
    }
    r
}

/// The resolver content to write back when restoring: exactly what the
/// snapshot captured, or nothing where nothing was captured.
pub fn restore_dns(snapshot: &DnsSnapshot) -> (r: Option<String>)
    ensures
        r == snapshot.resolv_conf,
{
    match &snapshot.resolv_conf {
        None => None,
        Some(content) => Some(content.clone()),
    }
}

/// The invocation that sets the tunnel's DNS servers on a Windows host,
/// best-effort.
pub fn apply_full_tunnel_dns_windows(ifname: &str) -> (r: Vec<HostCommand>)
    ensures
        r@.len() == 1,
        r@[0].program@ == "powershell"@,
        r@[0].args_view() == seq![
            "-Command"@,
            "Set-DnsClientServerAddress -InterfaceAlias '"@ + ifname@
                + "' -ServerAddresses @('1.1.1.1','8.8.8.8')"@,
        ],
{
    let script = String::from_str("Set-DnsClientServerAddress -InterfaceAlias '").concat(
        ifname,
    ).concat("' -ServerAddresses @('1.1.1.1','8.8.8.8')");
    let mut args: Vec<String> = Vec::new();
    args.push(String::from_str("-Command"));
    args.push(script);
    let cmd = HostCommand { program: String::from_str("powershell"), args };
    let mut r: Vec<HostCommand> = Vec::new();
    r.push(cmd);
    proof {
        assert(r@[0].args_view() =~= seq![
            "-Command"@,
            "Set-DnsClientServerAddress -InterfaceAlias '"@ + ifname@
                + "' -ServerAddresses @('1.1.1.1','8.8.8.8')"@,
        ]);
    }
    r
}

/// The invocation that resets the interface's DNS servers on a Windows
/// host, where no resolver file snapshot exists to write back.
pub fn restore_dns_windows(ifname: &str) -> (r: Vec<HostCommand>)
    ensures
        r@.len() == 1,
        r@[0].program@ == "powershell"@,
        r@[0].args_view() == seq![
            "-Command"@,
            "Set-DnsClientServerAddress -InterfaceAlias '"@ + ifname@
                + "' -ResetServerAddresses"@,
        ],
{
    let script = String::from_str("Set-DnsClientServerAddress -InterfaceAlias '").concat(
        ifname,
    ).concat("' -ResetServerAddresses");
    let mut args: Vec<String> = Vec::new();
    args.push(String::from_str("-Command"));
    args.push(script);
    let cmd = HostCommand { program: String::from_str("powershell"), args };
    let mut r: Vec<HostCommand> = Vec::new();
    r.push(cmd);
    proof {
        assert(r@[0].args_view() =~= seq![
            "-Command"@,
            "Set-DnsClientServerAddress -InterfaceAlias '"@ + ifname@
                + "' -ResetServerAddresses"@,
        ]);
    }
    r
}

} // verus!
