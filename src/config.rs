use vstd::prelude::*;

verus! {

/// The whole configuration: the default destination's name, the log level and
/// the configured destinations in order.
pub struct Config {
    pub default: String,
    pub log: LogConfig,
    pub servers: Vec<Server>,
}

pub struct LogConfig {
    pub level: String,
}

/// An object-storage destination.
pub struct S3Server {
    pub name: String,
    pub access_key: String,
    pub secret_key: String,
    pub bucket: String,
    pub region: String,
    pub endpoint: Option<String>,
    pub default_path: String,
}

/// A remote-filesystem destination reached over a secure shell.
pub struct SSHServer {
    pub name: String,
    pub username: String,
    pub password: String,
    pub server: String,
    pub port: u16,
    pub default_path: String,
}

/// A destination: exactly one of the two kinds.
pub enum Server {
    S3(S3Server),
    SSH(SSHServer),
}

/// The name that identifies a destination.
pub open spec fn server_name(s: Server) -> Seq<char> {
    match s {
        Server::S3(t) => t.name@,
        Server::SSH(t) => t.name@,
    }
}

/// The remote prefix used when none is given.
pub open spec fn server_default_path(s: Server) -> Seq<char> {
    match s {
        Server::S3(t) => t.default_path@,
        Server::SSH(t) => t.default_path@,
    }
}

/// The first destination of `servers` whose name is `name`, if any.
pub open spec fn find_server(servers: Seq<Server>, name: Seq<char>) -> Option<Server>
    decreases servers.len(),
{
    if servers.len() == 0 {
        None
    } else if server_name(servers[0]) == name {
        Some(servers[0])
    } else {
        find_server(servers.drop_first(), name)
    }
}

fn copy_opt_string(o: &Option<String>) -> (r: Option<String>)
    ensures
        r == *o,
{
    match o {
        Some(s) => Some(s.clone()),
        None => None,
    }
}

impl S3Server {
    pub fn copy(&self) -> (r: S3Server)
        ensures
            r == *self,
    {
        S3Server {
            name: self.name.clone(),
            access_key: self.access_key.clone(),
            secret_key: self.secret_key.clone(),
            bucket: self.bucket.clone(),
            region: self.region.clone(),
            endpoint: copy_opt_string(&self.endpoint),
            default_path: self.default_path.clone(),
        }
    }
}

impl SSHServer {
    pub fn copy(&self) -> (r: SSHServer)
        ensures
            r == *self,
    {
        SSHServer {
            name: self.name.clone(),
            username: self.username.clone(),
            password: self.password.clone(),
            server: self.server.clone(),
            port: self.port,
            default_path: self.default_path.clone(),
        }
    }
}

impl Server {
    pub fn copy(&self) -> (r: Server)
        ensures
            r == *self,
    {
        match self {
            Server::S3(t) => Server::S3(t.copy()),
            Server::SSH(t) => Server::SSH(t.copy()),
        }
    }

    pub fn get_name(&self) -> (r: String)
        ensures
            r@ == server_name(*self),
    {
        match self {
            Server::S3(t) => t.name.clone(),
            Server::SSH(t) => t.name.clone(),
        }
    }

    pub fn get_default_path(&self) -> (r: String)
        ensures
            r@ == server_default_path(*self),
    {
        match self {
            Server::S3(t) => t.default_path.clone(),
            Server::SSH(t) => t.default_path.clone(),
        }
    }

    fn name_ref(&self) -> (r: &String)
        ensures
            r@ == server_name(*self),
    {
        match self {
            Server::S3(t) => &t.name,
            Server::SSH(t) => &t.name,
        }
    }
}

impl Config {
    /// The destination named by `default`, if it is configured.
    pub fn get_default(&self) -> (r: Option<Server>)
        ensures
            r == find_server(self.servers@, self.default@),
    {
        self.get(Some(&self.default))
    }

    /// The first configured destination with the given name; `None` when no
    /// name is given or none matches.
    pub fn get(&self, name: Option<&String>) -> (r: Option<Server>)
        ensures
            name.is_none() ==> r.is_none(),
            name.is_some() ==> r == find_server(self.servers@, name.unwrap()@),
    {
        match name {
            None => None,
            Some(n) => {
                let mut i: usize = 0;
                assert(self.servers@.subrange(0, self.servers@.len() as int) =~= self.servers@);
                while i < self.servers.len()
                    invariant
                        i <= self.servers@.len(),
                        name == Some(n),
                        find_server(self.servers@, n@) == find_server(
                            self.servers@.subrange(i as int, self.servers@.len() as int),
                            n@,
                        ),
                    decreases self.servers@.len() - i,
                {
                    let ghost rest = self.servers@.subrange(i as int, self.servers@.len() as int);
                    assert(rest[0] == self.servers@[i as int]);
                    assert(rest.drop_first() =~= self.servers@.subrange(
                        i + 1,
                        self.servers@.len() as int,
                    ));
                    if *self.servers[i].name_ref() == *n {
                        return Some(self.servers[i].copy());
                    }
                    i = i + 1;
                }
                assert(self.servers@.subrange(i as int, self.servers@.len() as int) =~= Seq::<
                    Server,
                >::empty());
                None
            },
        }
    }
}

} // verus!
