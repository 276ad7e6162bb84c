use vstd::prelude::*;

verus! {

/// An action exchanged between mesh nodes; each action names the one response type that
/// answers it.
pub trait RqMeshProtocolAction {
    type ResponseType;
}

/// Envelope pairing an action with the identity of the node that requests it.
pub struct RqMeshFrame<T: RqMeshProtocolAction> {
    contents: T,
    requestor: String,
}

impl<T: RqMeshProtocolAction> RqMeshFrame<T> {
    pub closed spec fn spec_contents(&self) -> T {
        self.contents
    }

    pub closed spec fn spec_requestor(&self) -> Seq<char> {
        self.requestor@
    }

    pub fn new(contents: T, requestor: &str) -> (r: RqMeshFrame<T>)
        ensures
            r.spec_contents() == contents,
            r.spec_requestor() == requestor@,
    {
        RqMeshFrame { contents, requestor: requestor.to_owned() }
    }

    /// Builds a frame from the values that a decoder read back.
    pub fn from_parts(contents: T, requestor: String) -> (r: RqMeshFrame<T>)
        ensures
            r.spec_contents() == contents,
            r.spec_requestor() == requestor@,
    {
        RqMeshFrame { contents, requestor }
    }

    /// Takes the frame apart into the values that an encoder writes.
    pub fn into_parts(self) -> (r: (T, String))
        ensures
            r.0 == self.spec_contents(),
            r.1@ == self.spec_requestor(),
    {
        (self.contents, self.requestor)
    }

    pub fn contents(&self) -> (r: &T)
        ensures
            *r == self.spec_contents(),
    {
        &self.contents
    }

    pub fn requestor(&self) -> (r: &str)
        ensures
            r@ == self.spec_requestor(),
    {
        self.requestor.as_str()
    }
}

/// A capability that a node announces to its peers.
#[derive(Debug, Clone, PartialEq, Eq, PartialOrd, Ord)]
pub struct CapabilityBroadcast {
    pub capability_type: String,
}

/// Asks a node to describe itself.
#[derive(Debug, Copy, Clone, PartialEq, Eq, PartialOrd, Ord, Default)]
pub struct DescribeAgentRequest {}

/// What a node says of itself: its version, where its store lives and when it was set up.
#[derive(Debug, Clone, PartialEq, Eq, PartialOrd, Ord)]
pub struct DescribeAgentResponse {
    version: String,
    storage_location: String,
    initialized_at: String,
}

impl View for DescribeAgentResponse {
    type V = (Seq<char>, Seq<char>, Seq<char>);

    closed spec fn view(&self) -> (Seq<char>, Seq<char>, Seq<char>) {
        (self.version@, self.storage_location@, self.initialized_at@)
    }
}

impl DescribeAgentResponse {
    pub fn new(version: &str, storage_location: &str, initialized_at: &str) -> (r:
        DescribeAgentResponse)
        ensures
            r@ == (version@, storage_location@, initialized_at@),
    {
        DescribeAgentResponse {
            version: version.to_owned(),
            storage_location: storage_location.to_owned(),
            initialized_at: initialized_at.to_owned(),
        }
    }

    /// Builds a response from the values that a decoder read back.
    pub fn from_parts(version: String, storage_location: String, initialized_at: String) -> (r:
        DescribeAgentResponse)
        ensures
            r@ == (version@, storage_location@, initialized_at@),
    {
        DescribeAgentResponse { version, storage_location, initialized_at }
    }

    /// Takes the response apart into the values that an encoder writes, in field order.
    pub fn into_parts(self) -> (r: (String, String, String))
        ensures
            (r.0@, r.1@, r.2@) == self@,
    {
        (self.version, self.storage_location, self.initialized_at)
    }

    pub fn version(&self) -> (r: &str)
        ensures
            r@ == self@.0,
    {
        self.version.as_str()
    }

    pub fn storage_location(&self) -> (r: &str)
        ensures
            r@ == self@.1,
    {
        self.storage_location.as_str()
    }

    pub fn initialized_at(&self) -> (r: &str)
        ensures
            r@ == self@.2,
    {
        self.initialized_at.as_str()
    }
}

impl RqMeshProtocolAction for DescribeAgentRequest {
    type ResponseType = DescribeAgentResponse;
}

} // verus!
