//! A duplex endpoint made of a separate reader and writer.
use vstd::prelude::*;

verus! {

/// A reader and a writer used together as one duplex endpoint: reads come
/// from `reader`, writes, flushes and shutdowns go to `writer`.
#[derive(Debug)]
pub struct Unsplit<A, B> {
    pub reader: A,
    pub writer: B,
}

impl<A, B> Unsplit<A, B> {
    /// Pairs a reader with a writer.
    pub fn new(reader: A, writer: B) -> (r: Self)
        ensures
            r.reader == reader,
            r.writer == writer,
    {
        Unsplit { reader, writer }
    }

    /// Takes the endpoint apart again.
    pub fn into_parts(self) -> (r: (A, B))
        ensures
            r.0 == self.reader,
            r.1 == self.writer,
    {
        (self.reader, self.writer)
    }
}

} // verus!
