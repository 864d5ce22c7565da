//! The stored connection endpoint of the shell's simple variant: an
//! address, a port and a credential, replaced together and summarized as
//! one `address:port:credential` string.

use vstd::prelude::*;

use crate::strutil::concat2;

verus! {

/// The remembered endpoint triple.
#[derive(Clone, Debug)]
pub struct StoredEndpoint {
    pub ip: String,
    pub port: String,
    pub password: String,
}

impl StoredEndpoint {
    /// An empty endpoint: nothing stored yet.
    pub fn new() -> (e: Self)
        ensures
            e.ip@ == Seq::<char>::empty(),
            e.port@ == Seq::<char>::empty(),
            e.password@ == Seq::<char>::empty(),
    {
        StoredEndpoint { ip: String::new(), port: String::new(), password: String::new() }
    }

    /// Replaces all three parts at once.
    pub fn store_server_info(&mut self, new_ip: &str, new_port: &str, new_password: &str)
        ensures
            final(self).ip@ == new_ip@,
            final(self).port@ == new_port@,
            final(self).password@ == new_password@,
    {
        self.ip = new_ip.to_owned();
        self.port = new_port.to_owned();
        self.password = new_password.to_owned();
    }

    /// The stored triple as `address:port:credential`.
    pub fn get_server_info(&self) -> (r: String)
        ensures
            r@ == self.ip@ + ":"@ + self.port@ + ":"@ + self.password@,
    {
        let head = concat2(self.ip.as_str(), ":");
        let mid = concat2(head.as_str(), self.port.as_str());
        let tail = concat2(":", self.password.as_str());
        concat2(mid.as_str(), tail.as_str())
    }
}

} // verus!
