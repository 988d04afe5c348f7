//! Startup settings from the positional arguments.
use vstd::prelude::*;
use vstd::string::*;

verus! {

pub const DEFAULT_LISTEN_PORT: &'static str = "10514";

pub const DEFAULT_FORWARD_HOST: &'static str = "127.0.0.1";

pub const DEFAULT_FORWARD_PORT: &'static str = "80";

/// The address the listener binds to, on the loopback interface.
pub const LISTEN_HOST: &'static str = "127.0.0.1";

/// Where the daemon writes its process id.
pub const PID_FILE: &'static str = "/tmp/wresters-adapter.pid";

/// The `k`-th argument, or `default` where there are fewer.
pub open spec fn arg_or(args: Seq<String>, k: int, default: Seq<char>) -> Seq<char> {
    if 0 <= k < args.len() {
        args[k]@
    } else {
        default
    }
}

fn arg_or_default(args: &Vec<String>, k: usize, default: &str) -> (r: String)
    ensures
        r@ == arg_or(args@, k as int, default@),
{
    if k < args.len() {
        String::from_str(args[k].as_str())
    } else {
        String::from_str(default)
    }
}

/// The listen port, the forward host and the forward port, from the
/// positional arguments (the program name excluded), with their defaults.
pub fn parse_opts(args: &Vec<String>) -> (r: (String, String, String))
    ensures
        r.0@ == arg_or(args@, 0, DEFAULT_LISTEN_PORT@),
        r.1@ == arg_or(args@, 1, DEFAULT_FORWARD_HOST@),
        r.2@ == arg_or(args@, 2, DEFAULT_FORWARD_PORT@),
{
    (
        arg_or_default(args, 0, DEFAULT_LISTEN_PORT),
        arg_or_default(args, 1, DEFAULT_FORWARD_HOST),
        arg_or_default(args, 2, DEFAULT_FORWARD_PORT),
    )
}

/// `{host}:{port}`.
pub open spec fn socket_text(host: Seq<char>, port: Seq<char>) -> Seq<char> {
    host + seq![':'] + port
}

/// Joins a host and a port into one socket address.
pub fn socket_address(host: &str, port: &str) -> (r: String)
    ensures
        r@ == socket_text(host@, port@),
{
    proof {
        reveal_strlit(":");
    }
    let mut s = String::from_str(host);
    s.append(":");
    s.append(port);
    proof {
        assert(s@ =~= socket_text(host@, port@));
    }
    s
}

/// The address the listener binds to for `port`.
pub fn listen_socket(port: &str) -> (r: String)
    ensures
        r@ == socket_text(LISTEN_HOST@, port@),
{
    socket_address(LISTEN_HOST, port)
}

} // verus!
