use vstd::prelude::*;

verus! {

/// The mail section of the server configuration: the mail servers clients
/// may, or may not, connect to.
#[derive(Debug)]
pub struct Mail {
    pub allowed_servers: Option<Vec<String>>,
    pub disallowed_servers: Option<Vec<String>>,
}

impl Mail {
    pub fn allowed_servers(&self) -> (r: Option<&Vec<String>>)
        ensures
            match r {
                Some(v) => self.allowed_servers == Some(*v),
                None => self.allowed_servers is None,
            },
    {
        self.allowed_servers.as_ref()
    }

    pub fn disallowed_servers(&self) -> (r: Option<&Vec<String>>)
        ensures
            match r {
                Some(v) => self.disallowed_servers == Some(*v),
                None => self.disallowed_servers is None,
            },
    {
        self.disallowed_servers.as_ref()
    }
}

impl Default for Mail {
    /// No server lists: every mail server is allowed.
    fn default() -> (r: Self)
        ensures
            r.allowed_servers is None,
            r.disallowed_servers is None,
    {
        Mail { allowed_servers: None, disallowed_servers: None }
    }
}

} // verus!
