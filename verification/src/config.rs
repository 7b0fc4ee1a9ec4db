use vstd::prelude::*;

use crate::ip::ClientIp;
use crate::text::{spec_decimal, u32_to_decimal};

verus! {

/// The address the server is told to bind: an IP and a port.
#[derive(Clone, Copy, Debug, PartialEq, Eq, Structural)]
pub struct BindAddr {
    pub ip: ClientIp,
    pub port: u16,
}

/// The command-line configuration: the socket address to serve on.
#[derive(Clone, Copy, Debug, PartialEq, Eq, Structural)]
pub struct Cli {
    pub addr: BindAddr,
}

/// What the build and the running process report about themselves, for the
/// startup banner.
pub struct CargoInfo {
    /// The package version.
    pub version: String,
    /// The package repository URL.
    pub repo: String,
    /// The path of the running executable.
    pub exe: String,
    /// The process id.
    pub pid: u32,
}

/// The startup banner for the build and process information.
pub open spec fn spec_banner(version: Seq<char>, repo: Seq<char>, exe: Seq<char>, pid: int) -> Seq<
    char,
> {
    "\n-* filetransfer v"@ + version + " *-\n-----------------------------\n"@ + repo + "\n"@ + exe
        + "\nPID:"@ + spec_decimal(pid) + "\n"@
}

impl CargoInfo {
    /// The startup banner: the package version, the repository, the path
    /// of the executable and the process id, each on its own line.
    pub fn banner(&self) -> (text: String)
        ensures
            text@ == spec_banner(self.version@, self.repo@, self.exe@, self.pid as int),
    {
        let mut text = String::from_str("\n-* filetransfer v");
        text.append(self.version.as_str());
        text.append(" *-\n-----------------------------\n");
        text.append(self.repo.as_str());
        text.append("\n");
        text.append(self.exe.as_str());
        text.append("\nPID:");
        let pid = u32_to_decimal(self.pid);
        text.append(pid.as_str());
        text.append("\n");
        proof {
            assert(text@ =~= spec_banner(self.version@, self.repo@, self.exe@, self.pid as int));
        }
        text
    }
}

/// Everything the program knows about itself once started: build and
/// process information, and the parsed command line.
pub struct ProgramData {
    pub cargo: CargoInfo,
    pub cli: Cli,
}

/// An address that names no particular interface: 0.0.0.0, or `::`.
pub open spec fn spec_is_unspecified(ip: ClientIp) -> bool {
    match ip {
        ClientIp::V4(a, b, c, d) => a == 0 && b == 0 && c == 0 && d == 0,
        ClientIp::V6(s0, s1, s2, s3, s4, s5, s6, s7) => s0 == 0 && s1 == 0 && s2 == 0 && s3
            == 0 && s4 == 0 && s5 == 0 && s6 == 0 && s7 == 0,
    }
}

/// Whether the address names no particular interface.
pub fn is_unspecified(ip: &ClientIp) -> (unspecified: bool)
    ensures
        unspecified == spec_is_unspecified(*ip),
{
    match ip {
        ClientIp::V4(a, b, c, d) => *a == 0 && *b == 0 && *c == 0 && *d == 0,
        ClientIp::V6(s0, s1, s2, s3, s4, s5, s6, s7) => *s0 == 0 && *s1 == 0 && *s2 == 0 && *s3
            == 0 && *s4 == 0 && *s5 == 0 && *s6 == 0 && *s7 == 0,
    }
}

/// The address the banner advertises for reaching the server: the bind
/// address itself where it names an interface; where it is unspecified,
/// the machine's detected local address — or nothing, when none could be
/// determined.
pub fn choose_advertised_ip(bind_ip: &ClientIp, detected: &Option<ClientIp>) -> (advertised:
    Option<ClientIp>)
    ensures
        !spec_is_unspecified(*bind_ip) ==> advertised == Some(*bind_ip),
        spec_is_unspecified(*bind_ip) ==> advertised == *detected,
{
    if !is_unspecified(bind_ip) {
        Some(*bind_ip)
    } else {
        *detected
    }
}

} // verus!
