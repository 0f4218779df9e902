use vstd::prelude::*;

verus! {

/// Accumulates the bytes of a response body, in arrival order.
#[derive(Debug)]
pub struct ResponseHandler {
    data: Vec<u8>,
}

impl View for ResponseHandler {
    type V = Seq<u8>;

    closed spec fn view(&self) -> Seq<u8> {
        self.data@
    }
}

impl Default for ResponseHandler {
    /// An empty accumulator.
    fn default() -> (r: ResponseHandler)
        ensures
            r@ == Seq::<u8>::empty(),
    {
        ResponseHandler { data: Vec::new() }
    }
}

impl ResponseHandler {
    /// Creates an empty accumulator.
    pub fn new() -> (r: ResponseHandler)
        ensures
            r@ == Seq::<u8>::empty(),
    {
        ResponseHandler { data: Vec::new() }
    }

    /// Appends one chunk of response bytes to the accumulated body, in
    /// arrival order, and reports how many bytes were taken: always the
    /// whole chunk, so the engine never treats a write as short.
    pub fn write_chunk(&mut self, chunk: &[u8]) -> (written: usize)
        ensures
            final(self)@ == old(self)@ + chunk@,
            written == chunk@.len(),
    {
        let mut i: usize = 0;
        while i < chunk.len()
            invariant
                i <= chunk@.len(),
                self@ == old(self)@ + chunk@.subrange(0, i as int),
            decreases chunk@.len() - i,
        {
            let b = chunk[i];
            self.data.push(b);
            proof {
                assert(old(self)@ + chunk@.subrange(0, i + 1 as int) =~= (old(self)@
                    + chunk@.subrange(0, i as int)).push(chunk@[i as int]));
            }
            i = i + 1;
        }
        proof {
            assert(self@ =~= old(self)@ + chunk@);
        }
        chunk.len()
    }

    /// Consumes the accumulator and hands the collected bytes to the caller.
    pub fn get_data(self) -> (r: Vec<u8>)
        ensures
            r@ == self@,
    {
        self.data
    }
}

} // verus!
