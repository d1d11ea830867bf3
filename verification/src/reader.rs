//! Reading a byte string from front to back.

use vstd::prelude::*;
use vstd::slice::slice_subrange;

use crate::text::join;

verus! {

/// A place in a byte string. `what` is what the bytes are called.
pub struct Reader<'a> {
    bytes: &'a [u8],
    offset: usize,
    what: &'a str,
}

impl<'a> Reader<'a> {
    #[verifier::type_invariant]
    spec fn inside(self) -> bool {
        self.offset <= self.bytes@.len()
    }

    /// The bytes that are still to be read.
    pub closed spec fn rest(&self) -> Seq<u8> {
        self.bytes@.skip(self.offset as int)
    }

    /// What the bytes are called.
    pub closed spec fn name(&self) -> Seq<char> {
        self.what@
    }

    /// A reader at the front.
    pub fn new(bytes: &'a [u8], what: &'a str) -> (r: Reader<'a>)
        ensures
            r.rest() == bytes@,
            r.name() == what@,
    {
        assert(bytes@.skip(0) =~= bytes@);
        Reader { bytes, offset: 0, what }
    }

    /// Reads the next `length` bytes.
    pub fn take(&mut self, length: usize) -> (r: Result<&'a [u8], String>)
        ensures
            final(self).name() == old(self).name(),
            match r {
                Ok(value) => {
                    &&& length <= old(self).rest().len()
                    &&& value@ == old(self).rest().take(length as int)
                    &&& final(self).rest() == old(self).rest().skip(length as int)
                },
                Err(message) => {
                    &&& length > old(self).rest().len()
                    &&& message@ == old(self).name() + " is truncated"@
                    &&& final(self).rest() == old(self).rest()
                },
            },
    {
        proof {
            use_type_invariant(&*self);
        }
        if length > self.bytes.len() - self.offset {
            return Err(join(self.what, " is truncated"));
        }
        let end: usize = self.offset + length;
        let value = slice_subrange(self.bytes, self.offset, end);
        proof {
            assert(value@ =~= self.rest().take(length as int));
            assert(self.bytes@.skip(end as int) =~= self.rest().skip(length as int));
        }
        self.offset = end;
        Ok(value)
    }

    /// Reads the next `N` bytes.
    pub fn array<const N: usize>(&mut self) -> (r: Result<[u8; N], String>)
        ensures
            final(self).name() == old(self).name(),
            match r {
                Ok(value) => {
                    &&& N <= old(self).rest().len()
                    &&& value@ == old(self).rest().take(N as int)
                    &&& final(self).rest() == old(self).rest().skip(N as int)
                },
                Err(message) => {
                    &&& N > old(self).rest().len()
                    &&& message@ == old(self).name() + " is truncated"@
                    &&& final(self).rest() == old(self).rest()
                },
            },
    {
        let value = self.take(N)?;
        let mut array = [0u8;N];
        let mut index: usize = 0;
        while index < N
            invariant
                index <= N == value@.len(),
                array@.len() == N,
                forall|i: int| 0 <= i < index ==> array@[i] == value@[i],
            decreases N - index,
        {
            array[index] = value[index];
            index = index + 1;
        }
        assert(array@ =~= value@);
        Ok(array)
    }

    /// Whether everything has been read.
    pub fn is_empty(&self) -> (r: bool)
        ensures
            r == (self.rest().len() == 0),
    {
        proof {
            use_type_invariant(&*self);
        }
        self.offset == self.bytes.len()
    }
}

} // verus!
