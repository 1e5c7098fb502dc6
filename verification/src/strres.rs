//! Immutable text payloads that are cheap to hand around.

use std::sync::Arc;
use vstd::prelude::*;

verus! {

/// A text payload: nothing at all, bytes held in memory, or the bytes of a
/// file together with the path they were read from. The bytes never change
/// after construction, and every clone points at the same allocation.
#[derive(Debug, PartialEq, Eq)]
pub enum StrRes {
    Empty,
    InMemory(Arc<Vec<u8>>),
    FileBacked(String, Arc<Vec<u8>>),
}

impl View for StrRes {
    type V = Seq<u8>;

    /// The bytes of the payload.
    open spec fn view(&self) -> Seq<u8> {
        match self {
            StrRes::Empty => Seq::empty(),
            StrRes::InMemory(content) => content@,
            StrRes::FileBacked(_, content) => content@,
        }
    }
}

/// `Arc::clone`: a second handle to the same allocation, so the value behind
/// it is the value behind the first.
#[verifier::external_body]
fn share(content: &Arc<Vec<u8>>) -> (r: Arc<Vec<u8>>)
    ensures
        r == *content,
{
    Arc::clone(content)
}

impl StrRes {
    /// The path of the file behind the payload, when there is one.
    pub open spec fn path(&self) -> Option<Seq<char>> {
        match self {
            StrRes::FileBacked(path, _) => Some(path@),
            _ => None,
        }
    }

    /// A payload held in memory.
    pub fn from_bytes(content: Vec<u8>) -> (r: StrRes)
        ensures
            r@ == content@,
            r is InMemory,
    {
        StrRes::InMemory(Arc::new(content))
    }

    /// A payload that holds what was read from the file at `path`.
    pub fn from_file(path: String, content: Vec<u8>) -> (r: StrRes)
        ensures
            r@ == content@,
            r.path() == Some(path@),
    {
        StrRes::FileBacked(path, Arc::new(content))
    }

    /// The payload's bytes, borrowed.
    pub fn as_slice(&self) -> (s: &[u8])
        ensures
            s@ == self@,
    {
        match self {
            StrRes::Empty => {
                let nothing: &[u8] = &[];
                nothing
            },
            StrRes::InMemory(content) => content.as_slice(),
            StrRes::FileBacked(_, content) => content.as_slice(),
        }
    }

    /// The number of bytes in the payload.
    pub fn len(&self) -> (n: usize)
        ensures
            n == self@.len(),
    {
        self.as_slice().len()
    }

    /// The payload written out again, byte for byte.
    pub fn get_bytes(&self) -> (text: Vec<u8>)
        ensures
            text@ == self@,
    {
        let source = self.as_slice();
        let mut text: Vec<u8> = Vec::new();
        let mut i: usize = 0;
        while i < source.len()
            invariant
                i <= source.len(),
                text@ == source@.take(i as int),
            decreases source.len() - i,
        {
            text.push(source[i]);
            i += 1;
        }
        text
    }
}

impl Clone for StrRes {
    /// Another handle to the same payload; no byte is copied.
    fn clone(&self) -> (r: StrRes)
        ensures
            r == *self,
    {
        match self {
            StrRes::Empty => StrRes::Empty,
            StrRes::InMemory(content) => StrRes::InMemory(share(content)),
            StrRes::FileBacked(path, content) => StrRes::FileBacked(path.clone(), share(content)),
        }
    }
}

/// A payload over the content of a file views as exactly that content, and
/// remembers the path, whatever the bytes are. With what `from_file` and
/// `get_bytes` promise, text read from a file comes out as it went in.
pub proof fn lemma_file_round_trip(path: String, content: Arc<Vec<u8>>)
    ensures
        StrRes::FileBacked(path, content)@ == content@,
        StrRes::FileBacked(path, content).path() == Some(path@),
{
}

} // verus!
