//! Startup configuration: which role the process takes and where it connects
//! or listens, decided from the command-line arguments. Only the decision is
//! made here; binding, dialing and key-file writing are carried out by the
//! caller according to the returned plan.

use vstd::prelude::*;
use vstd::string::StringExecFns;

verus! {

/// Whether this process waits for the peer or initiates the connection.
#[derive(Clone, Copy, PartialEq, Eq, Structural, Debug)]
pub enum Role {
    Listener,
    Dialer,
}

/// What the process should do, as decided from its arguments.
pub enum ArgPlan {
    /// Run a chat session in the given role against `conn_id`, an
    /// "ip:port" endpoint address.
    Session { role: Role, conn_id: String },
    /// Generate a key pair and write it to the two named files.
    WriteKeys { priv_file: String, pub_file: String },
    /// The arguments fit no mode: show the usage text and stop.
    ShowUsage,
}

/// Check the arguments and decide how to start: "-S ip port" listens,
/// "-C ip port" dials, "-K privfile pubfile" writes a fresh key pair, and
/// anything else shows the usage text.
pub fn check_args(args: &Vec<String>) -> (r: ArgPlan)
    ensures
        args@.len() == 4 && args@[1]@ == "-S"@ ==> ({
            &&& r matches ArgPlan::Session { role, conn_id }
            &&& role is Listener
            &&& conn_id@ == args@[2]@ + ":"@ + args@[3]@
        }),
        args@.len() == 4 && args@[1]@ == "-C"@ ==> ({
            &&& r matches ArgPlan::Session { role, conn_id }
            &&& role is Dialer
            &&& conn_id@ == args@[2]@ + ":"@ + args@[3]@
        }),
        args@.len() == 4 && args@[1]@ == "-K"@ ==> ({
            &&& r matches ArgPlan::WriteKeys { priv_file, pub_file }
            &&& priv_file@ == args@[2]@
            &&& pub_file@ == args@[3]@
        }),
        args@.len() != 4 || (args@[1]@ != "-S"@ && args@[1]@ != "-C"@ && args@[1]@ != "-K"@)
            ==> r is ShowUsage,
{
    proof {
        reveal_strlit("-S");
        reveal_strlit("-C");
        reveal_strlit("-K");
        assert("-S"@[1] == 'S' && "-C"@[1] == 'C' && "-K"@[1] == 'K');
        assert("-S"@ != "-C"@ && "-S"@ != "-K"@ && "-C"@ != "-K"@);
    }
    if args.len() == 4 {
        let serve_flag = String::from_str("-S");
        let dial_flag = String::from_str("-C");
        let keys_flag = String::from_str("-K");
        let flag = &args[1];
        if flag.eq(&serve_flag) {
            ArgPlan::Session { role: Role::Listener, conn_id: conn_id_of(&args[2], &args[3]) }
        } else if flag.eq(&dial_flag) {
            ArgPlan::Session { role: Role::Dialer, conn_id: conn_id_of(&args[2], &args[3]) }
        } else if flag.eq(&keys_flag) {
            ArgPlan::WriteKeys { priv_file: args[2].clone(), pub_file: args[3].clone() }
        } else {
            ArgPlan::ShowUsage
        }
    } else {
        ArgPlan::ShowUsage
    }
}

/// The "ip:port" endpoint address a session plan carries.
pub fn conn_id_of(host: &String, port: &String) -> (r: String)
    ensures
        r@ == host@ + ":"@ + port@,
{
    let joined = host.clone().concat(":").concat(port.as_str());
    proof {
        assert(joined@ =~= host@ + ":"@ + port@);
    }
    joined
}

} // verus!
