use vstd::prelude::*;
use vstd::string::StringExecFns;

verus! {

/// Where user accounts live: this process's own store, or a named remote
/// credential service.
#[derive(Debug, Clone, PartialEq, Eq, Hash)]
pub enum Server {
    Local,
    MainAuth(String),
}

/// The host name of `s`; the local store is called `local`.
pub open spec fn host_of(s: Server) -> Seq<char> {
    match s {
        Server::Local => "local"@,
        Server::MainAuth(h) => h@,
    }
}

/// `r` is the server that the host name `s` names.
pub open spec fn names_server(r: Server, s: Seq<char>) -> bool {
    if s == "local"@ {
        r is Local
    } else {
        r matches Server::MainAuth(h) && h@ == s
    }
}

impl Server {
    /// The server named `s`: `local` is the local store, any other name a
    /// remote host.
    pub fn from_string(s: &str) -> (r: Self)
        ensures
            names_server(r, s@),
    {
        let name = String::from_str(s);
        if name == String::from_str("local") {
            Server::Local
        } else {
            Server::MainAuth(name)
        }
    }

    /// The host name; `local` for the local store.
    pub fn get_host(&self) -> (r: &str)
        ensures
            r@ == host_of(*self),
    {
        match self {
            Server::Local => "local",
            Server::MainAuth(host) => host.as_str(),
        }
    }

    /// An equal server.
    pub fn copy(&self) -> (r: Self)
        ensures
            r == *self,
    {
        match self {
            Server::Local => Server::Local,
            Server::MainAuth(h) => Server::MainAuth(h.clone()),
        }
    }

    pub fn is_local(&self) -> (r: bool)
        ensures
            r == (*self is Local),
    {
        match self {
            Server::Local => true,
            Server::MainAuth(_) => false,
        }
    }

    /// The base address to contact: plain HTTP on `binding` for the local
    /// store, HTTPS on the host name otherwise.
    pub fn get_address(&self, binding: &str) -> (r: String)
        ensures
            *self is Local ==> r@ == "http://"@ + binding@,
            *self is MainAuth ==> r@ == "https://"@ + host_of(*self),
    {
        match self {
            Server::Local => String::from_str("http://").concat(binding),
            Server::MainAuth(host) => String::from_str("https://").concat(host.as_str()),
        }
    }
}

} // verus!
