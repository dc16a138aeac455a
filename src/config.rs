use vstd::prelude::*;

verus! {

/// The address a server binds to when none is given.
pub const DEFAULT_ADDRESS: &'static str = "127.0.0.1";

/// The endpoint served when none is given.
pub const DEFAULT_ENDPOINT: &'static str = "/";

/// Parameters of a streaming server; unchanged once built.
#[derive(Clone, PartialEq, PartialOrd, Eq, Ord, Debug, Hash)]
pub struct ServerConfiguration {
    /// TCP port to listen on.
    pub port: u16,
    /// Address to bind, for example `127.0.0.1`.
    pub address: String,
    /// Path of the stream, e.g. `/x/point2`; requests for any other path
    /// are rejected. `None` stands for `/`.
    pub endpoint: Option<String>,
}

/// The path that requests must name, given the configured endpoint.
pub open spec fn endpoint_chars(endpoint: Option<String>) -> Seq<char> {
    match endpoint {
        Some(e) => e@,
        None => DEFAULT_ENDPOINT@,
    }
}

impl ServerConfiguration {
    /// Builds a configuration; `None` takes the default address
    /// `127.0.0.1`, and for the endpoint stands for `/`.
    pub fn new(port: u16, address: Option<String>, endpoint: Option<String>) -> (r: ServerConfiguration)
        ensures
            r.port == port,
            r.address@ == match address {
                Some(a) => a@,
                None => DEFAULT_ADDRESS@,
            },
            r.endpoint == endpoint,
    {
        let address = match address {
            Some(a) => a,
            None => DEFAULT_ADDRESS.to_owned(),
        };
        ServerConfiguration { port: port, address: address, endpoint: endpoint }
    }

    /// The path that a request must name to be served.
    pub fn endpoint_path(&self) -> (r: String)
        ensures
            r@ == endpoint_chars(self.endpoint),
    {
        match &self.endpoint {
            Some(e) => e.clone(),
            None => DEFAULT_ENDPOINT.to_owned(),
        }
    }
}

} // verus!
