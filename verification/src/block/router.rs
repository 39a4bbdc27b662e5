//! Addresses of workers.

use crate::proto::WorkerNetAddress;
use crate::text::{decimal, signed_decimal, signed_decimal_string};
use vstd::prelude::*;
use vstd::string::*;

verus! {

/// Where a worker is reached that does not say on which host it runs.
pub const DEFAULT_WORKER_HOST: &'static str = "127.0.0.1";

/// The RPC port of a worker that does not name one.
pub const DEFAULT_WORKER_RPC_PORT: i32 = 9203;

/// The endpoint `host:port` of a worker.
pub open spec fn endpoint(addr: WorkerNetAddress) -> Seq<char> {
    (match addr.host {
        Some(h) => h@,
        None => DEFAULT_WORKER_HOST@,
    }) + seq![':'] + signed_decimal(
        match addr.rpc_port {
            Some(p) => p as int,
            None => DEFAULT_WORKER_RPC_PORT as int,
        },
    )
}

/// The endpoint `host:port` of a worker.
pub fn rpc_endpoint(addr: &WorkerNetAddress) -> (r: String)
    ensures
        r@ == endpoint(*addr),
{
    let mut out: String = match &addr.host {
        Some(h) => h.as_str().to_owned(),
        None => DEFAULT_WORKER_HOST.to_owned(),
    };
    let port: i32 = match addr.rpc_port {
        Some(p) => p,
        None => DEFAULT_WORKER_RPC_PORT,
    };
    out.push(':');
    let digits: String = signed_decimal_string(port as i64);
    out.append(&digits);
    assert(out@ =~= endpoint(*addr));
    out
}

/// An endpoint is the host of the worker, a colon and its port: two workers with the same host
/// and different ports have different endpoints.
pub proof fn law_endpoint_is_host_and_port(addr: WorkerNetAddress, host: String, port: i32)
    requires
        addr.host == Some(host),
        addr.rpc_port == Some(port),
    ensures
        port >= 0 ==> endpoint(addr) == host@ + seq![':'] + decimal(port as nat),
        port < 0 ==> endpoint(addr) == host@ + seq![':', '-'] + decimal((-port) as nat),
{
    if port < 0 {
        assert(host@ + seq![':'] + (seq!['-'] + decimal((-port) as nat)) =~= host@ + seq![':', '-']
            + decimal((-port) as nat));
    }
}

/// A worker that names neither host nor port is looked for on this host, at port 9203.
pub proof fn law_endpoint_of_an_unnamed_worker(addr: WorkerNetAddress)
    requires
        addr.host is None,
        addr.rpc_port is None,
    ensures
        endpoint(addr) == "127.0.0.1:9203"@,
{
    reveal_strlit("127.0.0.1");
    reveal_strlit("127.0.0.1:9203");
    reveal_with_fuel(decimal, 5);
    assert(endpoint(addr) =~= "127.0.0.1:9203"@);
}

} // verus!
