//! The settings of the remote prover's server.

use std::time::Duration;

use vstd::prelude::*;

use crate::count::PositiveCount;
use crate::text::{decimal, decimal_value, decimals_are_canonical, push_decimal};

verus! {

/// The port that the server listens on unless another one is given.
pub const DEFAULT_PORT: u16 = 50051;

/// How many seconds a proof request may take unless another timeout is given.
pub const DEFAULT_TIMEOUT_SECONDS: u64 = 60;

/// How many proof requests may be under way unless another capacity is given.
pub const DEFAULT_CAPACITY: usize = 1;

/// A gRPC server providing a proving service for the Miden blockchain.
#[derive(Debug)]
pub struct Server<K> {
    /// The port the gRPC server will be hosted on. With port zero the system picks one.
    pub port: u16,
    /// The proof type that the prover will be handling.
    pub kind: K,
    /// Maximum time allowed for a proof request to complete. Once exceeded, the request is
    /// aborted.
    pub timeout: Duration,
    /// Maximum number of concurrent proof requests that the prover will allow.
    ///
    /// Note that the prover only proves one request at a time; the rest are queued. This capacity
    /// is used to limit the number of requests that can be queued at any given time, and includes
    /// the one request that is currently being processed.
    pub capacity: PositiveCount,
}

/// The address that stands for a port on every interface.
pub open spec fn any_interface(port: u16) -> Seq<char> {
    "0.0.0.0:"@ + decimal(port as nat)
}

impl<K> Server<K> {
    /// The address that the server listens on: the port, on every interface.
    pub open spec fn spec_bind_address(&self) -> Seq<char> {
        any_interface(self.port)
    }

    /// The address that the server listens on: the port, on every interface.
    pub fn bind_address(&self) -> (r: String)
        ensures
            r@ == self.spec_bind_address(),
    {
        let mut address = "0.0.0.0:".to_owned();
        push_decimal(&mut address, self.port as u64);
        address
    }
}

/// The address of a port is the unspecified address, a colon and digits that stand for the port,
/// without a superfluous zero.
pub proof fn addresses_name_the_port(port: u16)
    ensures
        ({
            let address = any_interface(port);
            let digits = address.skip(8);
            &&& address.len() > 8
            &&& address.take(8) == seq!['0', '.', '0', '.', '0', '.', '0', ':']
            &&& decimal_value(digits) == port
            &&& forall|i: int| 0 <= i < digits.len() ==> '0' <= #[trigger] digits[i] <= '9'
            &&& digits.len() > 1 ==> digits[0] != '0'
        }),
{
    reveal_strlit("0.0.0.0:");
    decimals_are_canonical(port as nat);
    assert(any_interface(port).skip(8) =~= decimal(port as nat));
    assert(any_interface(port).take(8) =~= seq!['0', '.', '0', '.', '0', '.', '0', ':']);
}

/// A server listens on its own port.
pub proof fn servers_listen_on_their_port<K>(server: Server<K>)
    ensures
        server.spec_bind_address() == any_interface(server.port),
{
}

} // verus!
