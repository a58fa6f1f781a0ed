use vstd::prelude::*;

verus! {

/// The capacity of the loaded program buffer, in bytes.
pub const MEMORY_SIZE: usize = 1048576;

/// A byte buffer with a read cursor; only the first `bytes_loaded` bytes are valid.
pub struct InstructionBuffer {
    pub buf: Vec<u8>,
    pub last_read: usize,
    pub bytes_loaded: usize,
}

/// A read past the loaded bytes, or a cursor move before the start of the buffer.
#[derive(Debug, Clone, Copy, PartialEq, Eq, Structural)]
pub struct BufferEndReachedError;

/// How many bytes of the buffer can be read: the loaded ones that the buffer holds.
pub open spec fn readable(buf: Seq<u8>, bytes_loaded: usize) -> int {
    if (bytes_loaded as int) < buf.len() {
        bytes_loaded as int
    } else {
        buf.len() as int
    }
}

impl InstructionBuffer {
    pub open spec fn is_at_end(&self) -> bool {
        self.last_read >= self.bytes_loaded
    }

    pub open spec fn limit(&self) -> int {
        readable(self.buf@, self.bytes_loaded)
    }

    /// A buffer over `bytes`, all of them loaded, with the cursor at the start.
    pub fn from_bytes(bytes: Vec<u8>) -> (r: Self)
        ensures
            r.buf@ == bytes@,
            r.last_read == 0,
            r.bytes_loaded == bytes@.len(),
    {
        let n = bytes.len();
        InstructionBuffer { buf: bytes, last_read: 0, bytes_loaded: n }
    }

    /// The next `n` bytes; fails, moving nothing, when fewer than `n` remain.
    pub fn next_n_bytes(&mut self, n: usize) -> (r: Result<Vec<u8>, BufferEndReachedError>)
        ensures
            final(self).buf == old(self).buf,
            final(self).bytes_loaded == old(self).bytes_loaded,
            old(self).last_read + n <= old(self).limit() ==> r is Ok && r->Ok_0@ == old(
                self,
            ).buf@.subrange(old(self).last_read as int, old(self).last_read + n)
                && final(self).last_read == old(self).last_read + n,
            old(self).last_read + n > old(self).limit() ==> r == Err::<
                Vec<u8>,
                BufferEndReachedError,
            >(BufferEndReachedError) && final(self).last_read == old(self).last_read,
    {
        let limit = if self.bytes_loaded < self.buf.len() {
            self.bytes_loaded
        } else {
            self.buf.len()
        };
        if n > limit || self.last_read > limit - n {
            return Err(BufferEndReachedError);
        }
        let start = self.last_read;
        let mut out: Vec<u8> = Vec::new();
        let mut i: usize = 0;
        while i < n
            invariant
                0 <= i <= n,
                start + n <= limit,
                limit <= self.buf@.len(),
                out@ == self.buf@.subrange(start as int, start + i),
            decreases n - i,
        {
            out.push(self.buf[start + i]);
            i += 1;
            assert(out@ =~= self.buf@.subrange(start as int, start + i));
        }
        self.last_read = start + n;
        Ok(out)
    }

    /// The next byte, or an error when none remains.
    pub fn next_byte(&mut self) -> (r: Result<u8, BufferEndReachedError>)
        ensures
            final(self).buf == old(self).buf,
            final(self).bytes_loaded == old(self).bytes_loaded,
            old(self).last_read < old(self).limit() ==> r == Ok::<u8, BufferEndReachedError>(
                old(self).buf@[old(self).last_read as int],
            ) && final(self).last_read == old(self).last_read + 1,
            old(self).last_read >= old(self).limit() ==> r == Err::<u8, BufferEndReachedError>(
                BufferEndReachedError,
            ) && final(self).last_read == old(self).last_read,
    {
        let bytes = self.next_n_bytes(1)?;
        Ok(bytes[0])
    }

    /// Moves the cursor by a signed offset.
    pub fn jump_by(&mut self, n: i16)
        requires
            0 <= old(self).last_read + n <= usize::MAX,
        ensures
            final(self).buf == old(self).buf,
            final(self).bytes_loaded == old(self).bytes_loaded,
            final(self).last_read == old(self).last_read + n,
    {
        if n < 0 {
            self.last_read = self.last_read - ((0 - (n as i32)) as usize);
        } else {
            self.last_read = self.last_read + (n as usize);
        }
    }

    pub fn is_at_the_end(&self) -> (r: bool)
        ensures
            r == self.is_at_end(),
    {
        self.last_read >= self.bytes_loaded
    }
}

} // verus!
