//! A container with the key/value store, for tests.

use vstd::prelude::*;
use vstd::string::*;

use crate::text::{decimal, u64_text};

verus! {

/// The port that the server listens on.
pub const ETCD_PORT: u16 = 2379;

/// A local server as clients reach it.
pub open spec fn local_endpoint_text(port: u16) -> Seq<char> {
    "http://localhost:"@ + decimal(port as nat)
}

/// The endpoint of a container whose port is mapped to a local one.
pub fn local_endpoint(port: u16) -> (r: String)
    ensures
        r@ == local_endpoint_text(port),
{
    let mut endpoint: String = "http://localhost:".to_owned();
    endpoint.append(u64_text(port as u64).as_str());
    endpoint
}

/// The container image of the server.
#[derive(Clone, Copy, Debug, PartialEq, Eq, Structural)]
pub struct EtcdServer;

impl EtcdServer {
    pub fn name(&self) -> (r: &'static str)
        ensures
            r@ == "gcr.io/etcd-development/etcd"@,
    {
        "gcr.io/etcd-development/etcd"
    }

    pub fn tag(&self) -> (r: &'static str)
        ensures
            r@ == "v3.5.33"@,
    {
        "v3.5.33"
    }

    /// The texts that the server logs, on either stream, once it is ready.
    pub fn ready_conditions(&self) -> (r: Vec<&'static str>)
        ensures
            r@.len() == 1,
            r@[0]@ == "serving client traffic insecurely"@,
    {
        let mut conditions: Vec<&'static str> = Vec::new();
        conditions.push("serving client traffic insecurely");
        conditions
    }

    pub fn cmd(&self) -> (r: Vec<&'static str>)
        ensures
            r@.len() == 3,
            r@[0]@ == "/usr/local/bin/etcd"@,
            r@[1]@ == "--listen-client-urls=http://0.0.0.0:2379"@,
            r@[2]@ == "--advertise-client-urls=http://0.0.0.0:2379"@,
    {
        let mut cmd: Vec<&'static str> = Vec::new();
        cmd.push("/usr/local/bin/etcd");
        cmd.push("--listen-client-urls=http://0.0.0.0:2379");
        cmd.push("--advertise-client-urls=http://0.0.0.0:2379");
        cmd
    }

    pub fn expose_ports(&self) -> (r: Vec<u16>)
        ensures
            r@ == seq![ETCD_PORT],
    {
        let mut ports: Vec<u16> = Vec::new();
        ports.push(ETCD_PORT);
        assert(ports@ =~= seq![ETCD_PORT]);
        ports
    }
}

pub fn etcd_server_container() -> (r: EtcdServer)
    ensures
        r == EtcdServer,
{
    EtcdServer
}

/// Law: a local server is reached over HTTP on this machine, at its port in
/// decimal.
pub proof fn local_endpoint_names_its_port(port: u16)
    ensures
        local_endpoint_text(port) == "http://localhost:"@ + decimal(port as nat),
{
}

}
