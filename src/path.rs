//! Actor paths: the canonical identity of every receiver, local or distant.
use vstd::prelude::*;

verus! {

/// Abstract content of a path.
pub enum PathModel {
    Local { logical: Seq<char> },
    Distant { logical: Seq<char>, endpoint: Seq<char> },
}

pub open spec fn contains_slash(s: Seq<char>) -> bool {
    exists|i: int| 0 <= i < s.len() && s[i] == '/'
}

/// The logical path of a child named `name` under `parent`.
pub open spec fn child_logical(parent: Seq<char>, name: Seq<char>) -> Seq<char> {
    parent + seq!['/'] + name
}

/// How to reach a distant actor: its logical path there and its `host:port`.
pub struct ConnectionInfo {
    distant_logical_path: String,
    addr_port: String,
}

impl ConnectionInfo {
    pub closed spec fn spec_logical(&self) -> Seq<char> {
        self.distant_logical_path@
    }

    pub closed spec fn spec_endpoint(&self) -> Seq<char> {
        self.addr_port@
    }

    /// Distant logical path, such as `/user/distant/actor`.
    pub fn distant_logical_path(&self) -> (r: &String)
        ensures
            r@ == self.spec_logical(),
    {
        &self.distant_logical_path
    }

    /// Address and port of the distant actor, such as `127.0.0.1:12345`.
    pub fn addr_port(&self) -> (r: &String)
        ensures
            r@ == self.spec_endpoint(),
    {
        &self.addr_port
    }
}

impl Clone for ConnectionInfo {
    fn clone(&self) -> (r: Self)
        ensures
            r == *self,
    {
        ConnectionInfo {
            distant_logical_path: self.distant_logical_path.clone(),
            addr_port: self.addr_port.clone(),
        }
    }
}

/// Path to an actor, whether it lives in this process or in another one.
pub enum ActorPath {
    /// Logical path to a local actor.
    Local(String),
    /// Logical path and connection information for a distant actor.
    Distant(ConnectionInfo),
}

impl View for ActorPath {
    type V = PathModel;

    open spec fn view(&self) -> PathModel {
        match self {
            ActorPath::Local(s) => PathModel::Local { logical: s@ },
            ActorPath::Distant(c) => PathModel::Distant {
                logical: c.spec_logical(),
                endpoint: c.spec_endpoint(),
            },
        }
    }
}

impl PathModel {
    pub open spec fn logical(self) -> Seq<char> {
        match self {
            PathModel::Local { logical } => logical,
            PathModel::Distant { logical, .. } => logical,
        }
    }
}

/// Why a child path could not be formed.
#[derive(Clone, Copy, Debug, PartialEq, Eq, Structural)]
pub enum PathError {
    /// Actors are always created locally: a distant path has no children.
    DistantParent,
    /// A name holds a `/`, which would let it reach outside its parent.
    SlashInName,
}

/// Whether `s` holds a `/`.
pub fn has_slash(s: &String) -> (r: bool)
    ensures
        r == contains_slash(s@),
{
    let n = s.as_str().unicode_len();
    let mut i: usize = 0;
    while i < n
        invariant
            n == s@.len(),
            i <= n,
            forall|j: int| 0 <= j < i ==> s@[j] != '/',
        decreases n - i,
    {
        if s.as_str().get_char(i) == '/' {
            return true;
        }
        i = i + 1;
    }
    false
}

impl ActorPath {
    /// Creates a local path with the given logical path.
    pub fn new_local(path: String) -> (r: ActorPath)
        ensures
            r@ == (PathModel::Local { logical: path@ }),
    {
        ActorPath::Local(path)
    }

    /// Creates a distant path: a logical path on the peer, and the peer's `host:port`.
    pub fn new_distant(distant_logical_path: String, addr_port: String) -> (r: ActorPath)
        ensures
            r@ == (PathModel::Distant { logical: distant_logical_path@, endpoint: addr_port@ }),
    {
        ActorPath::Distant(ConnectionInfo { distant_logical_path, addr_port })
    }

    /// The logical path, local or distant.
    pub fn logical_path(&self) -> (r: &String)
        ensures
            r@ == self@.logical(),
    {
        match self {
            ActorPath::Local(s) => s,
            ActorPath::Distant(c) => &c.distant_logical_path,
        }
    }

    /// Whether this path names an actor of this process.
    pub fn is_local(&self) -> (r: bool)
        ensures
            r == (self@ is Local),
    {
        match self {
            ActorPath::Local(_) => true,
            ActorPath::Distant(_) => false,
        }
    }

    /// The path of a child called `name`: this path, a `/`, then the name.
    pub fn child(&self, name: String) -> (r: Result<ActorPath, PathError>)
        ensures
            self@ is Distant ==> r == Err::<ActorPath, PathError>(PathError::DistantParent),
            self@ is Local && contains_slash(name@) ==> r == Err::<ActorPath, PathError>(
                PathError::SlashInName,
            ),
            self@ is Local && !contains_slash(name@) ==> (r matches Ok(p) && p@ == (PathModel::Local {
                logical: child_logical(self@.logical(), name@),
            })),
    {
        match self {
            ActorPath::Local(s) => {
                if has_slash(&name) {
                    return Err(PathError::SlashInName);
                }
                let mut p = s.clone();
                let sep = "/";
                proof {
                    reveal_strlit("/");
                    assert(sep@ =~= seq!['/']);
                }
                p.append(sep);
                p.append(name.as_str());
                assert(p@ =~= child_logical(s@, name@));
                Ok(ActorPath::Local(p))
            },
            ActorPath::Distant(_) => Err(PathError::DistantParent),
        }
    }

    /// Structural equality of two paths.
    pub fn equals(&self, other: &ActorPath) -> (r: bool)
        ensures
            r == (self@ == other@),
    {
        match (self, other) {
            (ActorPath::Local(a), ActorPath::Local(b)) => a.eq(b),
            (ActorPath::Distant(a), ActorPath::Distant(b)) => {
                a.distant_logical_path.eq(&b.distant_logical_path) && a.addr_port.eq(&b.addr_port)
            },
            _ => false,
        }
    }
}

impl Clone for ActorPath {
    fn clone(&self) -> (r: Self)
        ensures
            r == *self,
    {
        match self {
            ActorPath::Local(s) => ActorPath::Local(s.clone()),
            ActorPath::Distant(c) => ActorPath::Distant(c.clone()),
        }
    }
}

} // verus!
