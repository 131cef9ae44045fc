//! Buffers backing the streaming parsers: they keep the input that is not parsed yet.
use vstd::prelude::*;
use vstd::slice::slice_subrange;

verus! {

/// The buffer backing a streaming parser: it keeps only the unparsed input.
pub trait StreamBuffer: Sized {
    /// The unparsed input held by the buffer.
    spec fn unparsed(&self) -> Seq<u8>;

    /// An empty buffer.
    fn new() -> (r: Self)
        ensures
            r.unparsed() == Seq::<u8>::empty();

    /// Adds unparsed data at the end of the buffer.
    fn write(&mut self, unparsed_bytes: &[u8])
        ensures
            final(self).unparsed() == old(self).unparsed() + unparsed_bytes@;

    /// The unparsed data.
    fn get(&self) -> (r: &[u8])
        ensures
            r@ == self.unparsed();

    /// Marks the first `parsed_size` unparsed bytes as parsed.
    fn clear(&mut self, parsed_size: usize)
        requires
            parsed_size <= old(self).unparsed().len(),
        ensures
            final(self).unparsed() == old(self).unparsed().skip(parsed_size as int);
}

/// Stream buffer backed by a `Vec<u8>`: the bytes before `parsed` are parsed.
pub struct FlatBuffer {
    parsed: usize,
    inner: Vec<u8>,
}

impl FlatBuffer {
    #[verifier::type_invariant]
    spec fn well_formed(self) -> bool {
        self.parsed <= self.inner@.len()
    }
}

impl StreamBuffer for FlatBuffer {
    closed spec fn unparsed(&self) -> Seq<u8> {
        self.inner@.skip(self.parsed as int)
    }

    fn new() -> (r: Self) {
        let r = FlatBuffer { parsed: 0, inner: Vec::new() };
        proof {
            assert(r.inner@.skip(0) =~= Seq::<u8>::empty());
        }
        r
    }

    fn write(&mut self, unparsed_bytes: &[u8]) {
        let mut taken = FlatBuffer { parsed: 0, inner: Vec::new() };
        std::mem::swap(self, &mut taken);
        proof {
            use_type_invariant(&taken);
        }
        let FlatBuffer { parsed, mut inner } = taken;
        let ghost before = inner@;
        inner.extend_from_slice(unparsed_bytes);
        proof {
            assert(inner@ =~= before + unparsed_bytes@);
            assert(inner@.skip(parsed as int) =~= before.skip(parsed as int) + unparsed_bytes@);
        }
        *self = FlatBuffer { parsed, inner };
    }

    fn get(&self) -> (r: &[u8]) {
        proof {
            use_type_invariant(self);
        }
        slice_subrange(self.inner.as_slice(), self.parsed, self.inner.len())
    }

    fn clear(&mut self, parsed_size: usize) {
        proof {
            use_type_invariant(&*self);
        }
        let ghost before = self.inner@.skip(self.parsed as int);
        assert(self.parsed + parsed_size <= self.inner.len());
        self.parsed = self.parsed + parsed_size;
        proof {
            assert(self.inner@.skip(self.parsed as int) =~= before.skip(parsed_size as int));
        }
    }
}

/// What is read back from a buffer is what was written to it, less what was marked as
/// parsed: writing appends, clearing drops a prefix.
pub proof fn lemma_buffer_write_clear<B: StreamBuffer>(
    before: B,
    written: B,
    cleared: B,
    bytes: Seq<u8>,
    n: int,
)
    requires
        written.unparsed() == before.unparsed() + bytes,
        0 <= n <= written.unparsed().len(),
        cleared.unparsed() == written.unparsed().skip(n),
    ensures
        n <= before.unparsed().len() ==> cleared.unparsed() == before.unparsed().skip(n) + bytes,
        n >= before.unparsed().len() ==> cleared.unparsed() == bytes.skip(n - before.unparsed().len()),
{
    if n <= before.unparsed().len() {
        assert(cleared.unparsed() =~= before.unparsed().skip(n) + bytes);
    } else {
        assert(cleared.unparsed() =~= bytes.skip(n - before.unparsed().len()));
    }
}

} // verus!
