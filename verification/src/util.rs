//! Small helpers that fit no other module: directory-scoped values, data
//! sources, rounding division, and result flattening.

use vstd::prelude::*;
use vstd::string::{StrSliceExecFns, StringExecFns};

verus! {

/// A node id, reduced to a plain identity.
pub type NodeId = u64;

/// Divides `numerator` by `denominator`, rounding half up.
pub fn div_round(numerator: u64, denominator: u64) -> (r: u64)
    requires
        denominator > 0,
        numerator + denominator / 2 <= u64::MAX,
    ensures
        r == (numerator as int + denominator as int / 2) / (denominator as int),
{
    (numerator + denominator / 2) / denominator
}

/// With-directory context: associates a value with a working directory.
pub struct WithDir<T> {
    dir: String,
    value: T,
}

impl<T> WithDir<T> {
    /// Creates a new with-directory context.
    pub fn new(path: String, value: T) -> (r: WithDir<T>)
        ensures
            r.spec_dir() == path@,
            r.spec_value() == value,
    {
        WithDir { dir: path, value }
    }

    /// The directory, as a spec value.
    pub closed spec fn spec_dir(&self) -> Seq<char> {
        self.dir@
    }

    /// The inner value, as a spec value.
    pub closed spec fn spec_value(&self) -> T {
        self.value
    }

    /// Returns a reference to the inner path.
    pub fn dir(&self) -> (r: &String)
        ensures
            r@ == self.spec_dir(),
    {
        &self.dir
    }

    /// Deconstructs the context into its directory and value.
    pub fn into_parts(self) -> (r: (String, T))
        ensures
            r.0@ == self.spec_dir(),
            r.1 == self.spec_value(),
    {
        (self.dir, self.value)
    }

    /// Gets a reference to the inner value.
    pub fn value(&self) -> (r: &T)
        ensures
            r == &self.spec_value(),
    {
        &self.value
    }

    /// Gets a mutable reference to the inner value.
    pub fn value_mut(&mut self) -> (r: &mut T)
        ensures
            *r == old(self).spec_value(),
            final(self).spec_value() == *final(r),
            final(self).spec_dir() == old(self).spec_dir(),
    {
        &mut self.value
    }

    /// Adds the directory as a parent if `path` is relative — it does not
    /// begin with the path separator — and returns `path` unchanged
    /// otherwise.
    pub fn with_dir(&self, path: String) -> (r: String)
        ensures
            (path@.len() > 0 && path@[0] == '/') ==> r@ == path@,
            !(path@.len() > 0 && path@[0] == '/') ==> r@ == self.spec_dir() + seq!['/'] + path@,
    {
        let n = path.as_str().unicode_len();
        let absolute = if n > 0 {
            path.as_str().get_char(0) == '/'
        } else {
            false
        };
        if absolute {
            path
        } else {
            let mut out = String::from_str(self.dir.as_str());
            out.append("/");
            out.append(path.as_str());
            proof {
                reveal_strlit("/");
                assert("/"@ =~= seq!['/']);
                assert(out@ =~= self.spec_dir() + seq!['/'] + path@);
            }
            out
        }
    }

    /// Maps the inner value onto a reference through `f`, keeping the
    /// directory.
    pub fn map_ref<U, F: FnOnce(&T) -> U>(&self, f: F) -> (r: WithDir<U>)
        requires
            call_requires(f, (&self.spec_value(),)),
        ensures
            r.spec_dir() == self.spec_dir(),
            call_ensures(f, (&self.spec_value(),), r.spec_value()),
    {
        let value = f(&self.value);
        WithDir { dir: self.dir.clone(), value }
    }
}

/// The source of a piece of data.
#[derive(Clone, Copy, PartialEq, Eq, Debug)]
pub enum Source {
    /// A peer that gossiped it.
    PeerGossiped(NodeId),
    /// A peer that sent it directly.
    Peer(NodeId),
    /// A client.
    Client,
    /// A client, via the speculative execution endpoint.
    SpeculativeExec,
    /// This node.
    Ourself,
}

impl Source {
    /// Whether the data came from a client.
    pub fn is_client(&self) -> (r: bool)
        ensures
            r == (self is Client || self is SpeculativeExec),
    {
        match self {
            Source::Client | Source::SpeculativeExec => true,
            Source::PeerGossiped(_) | Source::Peer(_) | Source::Ourself => false,
        }
    }

    /// The peer's id, where the source is a peer.
    pub fn node_id(&self) -> (r: Option<NodeId>)
        ensures
            forall|n: NodeId| *self == Source::Peer(n) ==> r == Some(n),
            forall|n: NodeId| *self == Source::PeerGossiped(n) ==> r == Some(n),
            (self is Client || self is SpeculativeExec || self is Ourself) ==> r is None,
    {
        match self {
            Source::Peer(node_id) | Source::PeerGossiped(node_id) => Some(*node_id),
            Source::Client | Source::SpeculativeExec | Source::Ourself => None,
        }
    }
}

/// Why a network address failed to resolve.
#[derive(Clone, Copy, PartialEq, Eq, Debug)]
pub enum ResolveAddressErrorKind {
    /// Resolution itself returned an error.
    ErrorResolving,
    /// Resolution yielded no address.
    NoAddressFound,
}

/// A name-resolution error: the address that failed, and why.
pub struct ResolveAddressError {
    pub address: String,
    pub kind: ResolveAddressErrorKind,
}

/// Flattening of one level of nested results.
pub trait FlattenResult {
    /// What is left after flattening.
    type Output;

    /// Flattens one level.
    fn flatten_result(self) -> Self::Output;
}

impl<T, E> FlattenResult for Result<Result<T, E>, E> {
    type Output = Result<T, E>;

    fn flatten_result(self) -> (r: Result<T, E>)
        ensures
            match self {
                Ok(Ok(v)) => r == Ok::<T, E>(v),
                Ok(Err(e)) => r == Err::<T, E>(e),
                Err(e) => r == Err::<T, E>(e),
            },
    {
        match self {
            Ok(Ok(v)) => Ok(v),
            Ok(Err(e)) => Err(e),
            Err(e) => Err(e),
        }
    }
}

} // verus!
