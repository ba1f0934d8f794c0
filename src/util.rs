use vstd::prelude::*;

verus! {

/// A cursor over a byte buffer that hands its bytes out in order.
pub struct InputStream {
    pub buf: Vec<u8>,
    pub pos: usize,
}

impl InputStream {
    pub open spec fn wf(&self) -> bool {
        self.pos <= self.buf@.len()
    }

    pub fn new(bytes: Vec<u8>) -> (r: InputStream)
        ensures
            r.wf(),
            r.buf@ == bytes@,
            r.pos == 0,
    {
        InputStream { buf: bytes, pos: 0 }
    }

    /// True when every byte has been read.
    pub fn reach_end(&self) -> (r: bool)
        ensures
            r == (self.pos >= self.buf@.len()),
    {
        self.pos >= self.buf.len()
    }

    /// Copies the next unread bytes into the front of `out`, as many as fit,
    /// and returns how many were copied.
    pub fn read(&mut self, out: &mut Vec<u8>) -> (n: usize)
        requires
            old(self).wf(),
        ensures
            final(self).wf(),
            final(self).buf@ == old(self).buf@,
            n == if old(out)@.len() <= old(self).buf@.len() - old(self).pos {
                old(out)@.len() as int
            } else {
                old(self).buf@.len() - old(self).pos
            },
            final(self).pos == old(self).pos + n,
            final(out)@.len() == old(out)@.len(),
            final(out)@.subrange(0, n as int) == old(self).buf@.subrange(old(self).pos as int, old(self).pos + n),
            final(out)@.subrange(n as int, final(out)@.len() as int) == old(out)@.subrange(n as int, old(out)@.len() as int),
    {
        let remaining = self.buf.len() - self.pos;
        let n: usize = if out.len() <= remaining {
            out.len()
        } else {
            remaining
        };
        let mut i: usize = 0;
        while i < n
            invariant
                0 <= i <= n,
                n <= out.len(),
                self.pos + n <= self.buf.len(),
                self.buf@ == old(self).buf@,
                self.pos == old(self).pos,
                out@.len() == old(out)@.len(),
                forall|k: int| 0 <= k < i ==> out@[k] == self.buf@[self.pos + k],
                forall|k: int| i <= k < out@.len() ==> out@[k] == old(out)@[k],
            decreases n - i,
        {
            let b = self.buf[self.pos + i];
            out.set(i, b);
            i = i + 1;
        }
        self.pos = self.pos + n;
        proof {
            assert(out@.subrange(0, n as int) =~= old(self).buf@.subrange(old(self).pos as int, old(self).pos + n));
            assert(out@.subrange(n as int, out@.len() as int) =~= old(out)@.subrange(n as int, old(out)@.len() as int));
        }
        n
    }
}

} // verus!
