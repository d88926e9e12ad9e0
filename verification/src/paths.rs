//! File paths as the bytes that name them, whatever their encoding.

use vstd::prelude::*;
use vstd::utf8::encode_utf8;

verus! {

/// A file path.
#[derive(Debug, PartialEq, Eq)]
pub struct FilePath {
    bytes: Vec<u8>,
}

impl View for FilePath {
    type V = Seq<u8>;

    closed spec fn view(&self) -> Seq<u8> {
        self.bytes@
    }
}

/// The path of the file named `name` in the directory `dir`.
pub open spec fn path_in(dir: Seq<u8>, name: Seq<char>) -> Seq<u8> {
    if dir.len() == 0 || dir.last() == 0x2f {
        dir + encode_utf8(name)
    } else {
        dir.push(0x2f) + encode_utf8(name)
    }
}

fn append_all(to: &mut Vec<u8>, from: &[u8])
    ensures
        final(to)@ == old(to)@ + from@,
{
    let ghost before = to@;
    for i in 0..from.len()
        invariant
            to@ == before + from@.take(i as int),
    {
        to.push(from[i]);
        assert(from@.take(i + 1) =~= from@.take(i as int).push(from@[i as int]));
    }
    assert(from@.take(from@.len() as int) =~= from@);
}

impl FilePath {
    /// The path made of these bytes.
    pub fn from_bytes(bytes: Vec<u8>) -> (r: Self)
        ensures
            r@ == bytes@,
    {
        FilePath { bytes }
    }

    /// The path written as `text`.
    pub fn from_text(text: &str) -> (r: Self)
        ensures
            r@ == encode_utf8(text@),
    {
        let mut bytes: Vec<u8> = Vec::new();
        append_all(&mut bytes, text.as_bytes());
        FilePath { bytes }
    }

    /// The bytes of the path.
    pub fn as_bytes(&self) -> (r: &[u8])
        ensures
            r@ == self@,
    {
        self.bytes.as_slice()
    }

    /// The path of the file named `name` in this directory.
    pub fn file(&self, name: &str) -> (r: Self)
        ensures
            r@ == path_in(self@, name@),
    {
        let mut bytes: Vec<u8> = Vec::new();
        append_all(&mut bytes, self.bytes.as_slice());
        let len = bytes.len();
        if len > 0 && bytes[len - 1] != 0x2f {
            bytes.push(0x2f);
        }
        append_all(&mut bytes, name.as_bytes());
        FilePath { bytes }
    }
}

impl Clone for FilePath {
    fn clone(&self) -> (r: Self)
        ensures
            r@ == self@,
    {
        let mut bytes: Vec<u8> = Vec::new();
        append_all(&mut bytes, self.bytes.as_slice());
        FilePath { bytes }
    }
}

} // verus!
