//! The configuration surface: the timeout, the bind address and the hooks.

use crate::registry::HookRegistry;
use vstd::prelude::*;
use vstd::string::StringExecFns;

verus! {

/// How long a hook's process may run, in whole seconds. Zero is the sentinel
/// for "no limit": such a process is waited for indefinitely.
#[derive(Clone, Copy, Debug, PartialEq, Eq, Structural)]
pub struct Timeout {
    pub secs: u64,
}

impl Timeout {
    /// A timeout of `secs` whole seconds.
    pub fn from_secs(secs: u64) -> (t: Timeout)
        ensures
            t.secs == secs,
    {
        Timeout { secs }
    }

    /// The number of whole seconds.
    pub fn as_secs(&self) -> (secs: u64)
        ensures
            secs == self.secs,
    {
        self.secs
    }

    /// Whether this timeout never expires.
    pub open spec fn unlimited(&self) -> bool {
        self.secs == 0
    }

    /// Whether this timeout never expires.
    pub fn is_unlimited(&self) -> (b: bool)
        ensures
            b == self.unlimited(),
    {
        self.secs == 0
    }
}

/// The timeout that applies when the configuration names none: one minute.
pub fn default_timeout() -> (t: Timeout)
    ensures
        t.secs == 60,
{
    Timeout::from_secs(60)
}

/// An internet address in host-independent form.
#[derive(Clone, Copy, Debug, PartialEq, Eq)]
pub enum IpAddress {
    /// The four octets of an IPv4 address.
    V4([u8; 4]),
    /// The sixteen octets of an IPv6 address.
    V6([u8; 16]),
}

/// The address and port that the server listens on.
#[derive(Clone, Copy, Debug, PartialEq, Eq)]
pub struct BindAddress {
    pub ip: IpAddress,
    pub port: u16,
}

/// An external program bound to a request path.
#[non_exhaustive]
pub struct Hook {
    /// The executable's name or path.
    pub program: String,
    /// The arguments handed to it, in order.
    pub args: Option<Vec<String>>,
    /// The shared secret that signs request bodies, where the hook wants one.
    pub secret: Option<String>,
}

/// The arguments of a command line, each behind one space.
pub open spec fn spaced(args: Seq<String>) -> Seq<char>
    decreases args.len(),
{
    if args.len() == 0 {
        Seq::empty()
    } else {
        spaced(args.drop_last()) + seq![' '] + args.last()@
    }
}

impl Hook {
    /// A hook that runs `program` with `args`, guarded by `secret` if there is one.
    pub fn new(program: String, args: Option<Vec<String>>, secret: Option<String>) -> (hook: Hook)
        ensures
            hook.program == program,
            hook.args == args,
            hook.secret == secret,
    {
        Hook { program, args, secret }
    }

    /// The program and its arguments as one line, parted by single spaces.
    pub open spec fn command_line_text(&self) -> Seq<char> {
        match self.args {
            Some(args) => self.program@ + spaced(args@),
            None => self.program@,
        }
    }

    /// The command that this hook runs, as it is shown in messages.
    pub fn command_line(&self) -> (line: String)
        ensures
            line@ == self.command_line_text(),
    {
        let mut line = self.program.clone();
        match &self.args {
            Some(args) => {
                let n = args.len();
                let mut i: usize = 0;
                while i < n
                    invariant
                        i <= n,
                        n == args@.len(),
                        line@ == self.program@ + spaced(args@.take(i as int)),
                    decreases n - i,
                {
                    proof {
                        reveal_strlit(" ");
                        assert(args@.take(i + 1).drop_last() =~= args@.take(i as int));
                        assert(" "@ =~= seq![' ']);
                    }
                    line.append(" ");
                    line.append(args[i].as_str());
                    i += 1;
                    assert(line@ =~= self.program@ + spaced(args@.take(i as int)));
                }
                assert(args@.take(n as int) =~= args@);
            },
            None => {},
        }
        line
    }
}

/// One hook as the configuration lists it: the path it answers to and what it runs.
pub struct HookDefinition {
    /// The request path that triggers the hook.
    pub location: String,
    /// The executable's name or path.
    pub program: String,
    /// The arguments handed to it, in order.
    pub args: Option<Vec<String>>,
    /// The shared secret that signs request bodies, where the hook wants one.
    pub secret: Option<String>,
}

impl HookDefinition {
    /// The hook that this definition describes.
    pub open spec fn hook(self) -> Hook {
        Hook { program: self.program, args: self.args, secret: self.secret }
    }
}

/// The server's configuration.
#[non_exhaustive]
pub struct Config {
    /// Where to listen; `None` leaves the choice to an inherited descriptor.
    pub bind: Option<BindAddress>,
    /// The limit on each hook's run time.
    pub timeout: Timeout,
    /// The hooks, by request path.
    pub hook: HookRegistry,
}

impl Config {
    /// A configuration of these three parts.
    pub fn new(bind: Option<BindAddress>, timeout: Timeout, hook: HookRegistry) -> (config: Config)
        ensures
            config.bind == bind,
            config.timeout == timeout,
            config.hook == hook,
    {
        Config { bind, timeout, hook }
    }
}

} // verus!
