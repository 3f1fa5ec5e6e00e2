//! The bus capability the driver needs, and an in-memory transport that
//! replays scripted replies.

use vstd::prelude::*;

verus! {

/// One completed bus transaction: the bytes shifted out, and the bytes
/// shifted in at the same time.
pub type Exchange = (Seq<u8>, Seq<u8>);

/// A byte transport to the chip that runs exclusive transactions.
pub trait Transport {
    type Error;

    /// Every transaction completed so far, oldest first. The default says
    /// nothing of it; an implementation checked against `transfer`'s
    /// contract has to define it by what it records.
    open spec fn log(&self) -> Seq<Exchange> {
        arbitrary()
    }

    /// Every failure reported so far, oldest first. The default says
    /// nothing of it, as for `log`.
    open spec fn failures(&self) -> Seq<Self::Error> {
        arbitrary()
    }

    /// Runs one transaction with the chip selected for its whole length:
    /// shifts out every byte of `buf` and replaces each by the byte shifted
    /// in at the same time. A completed transaction is logged; a failed one
    /// is not, and its error is recorded as reported.
    fn transfer(&mut self, buf: &mut [u8]) -> (r: Result<(), Self::Error>)
        ensures
            final(buf)@.len() == old(buf)@.len(),
            match r {
                Ok(()) => {
                    &&& final(self).log() == old(self).log().push((old(buf)@, final(buf)@))
                    &&& final(self).failures() == old(self).failures()
                },
                Err(e) => {
                    &&& final(self).log() == old(self).log()
                    &&& final(self).failures() == old(self).failures().push(e)
                },
            },
    ;
}

/// The script of a [`ScriptedTransport`] has no reply left.
#[derive(Clone, Copy, Debug, PartialEq, Eq, Structural)]
pub struct ScriptExhausted;

/// A transport that answers transaction `i` with reply `i` of its script
/// (cut or padded with zeros to the transaction's length), fails once the
/// script is used up, and keeps every buffer it was asked to shift out.
pub struct ScriptedTransport {
    replies: Vec<Vec<u8>>,
    next: usize,
    sent: Vec<Vec<u8>>,
    exchanges: Ghost<Seq<Exchange>>,
    errors: Ghost<Seq<ScriptExhausted>>,
}

impl ScriptedTransport {
    /// The scripted replies.
    pub closed spec fn script(&self) -> Seq<Vec<u8>> {
        self.replies@
    }

    /// Number of replies handed out so far.
    pub closed spec fn used(&self) -> nat {
        self.next as nat
    }

    /// The buffers shifted out so far, oldest first.
    pub closed spec fn history(&self) -> Seq<Vec<u8>> {
        self.sent@
    }

    pub fn new(replies: Vec<Vec<u8>>) -> (r: Self)
        ensures
            r.used() == 0,
            r.script() == replies@,
            r.history().len() == 0,
            r.log().len() == 0,
            r.failures().len() == 0,
    {
        ScriptedTransport {
            replies,
            next: 0,
            sent: Vec::new(),
            exchanges: Ghost(Seq::empty()),
            errors: Ghost(Seq::empty()),
        }
    }

    /// The buffers shifted out so far, oldest first.
    pub fn sent(&self) -> (r: &Vec<Vec<u8>>)
        ensures
            r@ == self.history(),
    {
        &self.sent
    }

    /// Number of scripted replies not used yet.
    pub fn remaining(&self) -> (r: usize)
        ensures
            r == if self.used() <= self.script().len() {
                self.script().len() - self.used()
            } else {
                0
            },
    {
        if self.next <= self.replies.len() {
            self.replies.len() - self.next
        } else {
            0
        }
    }
}

impl Transport for ScriptedTransport {
    type Error = ScriptExhausted;

    closed spec fn log(&self) -> Seq<Exchange> {
        self.exchanges@
    }

    closed spec fn failures(&self) -> Seq<ScriptExhausted> {
        self.errors@
    }

    fn transfer(&mut self, buf: &mut [u8]) -> (r: Result<(), ScriptExhausted>) {
        let ghost before = buf@;
        let mut copy: Vec<u8> = Vec::new();
        let mut i: usize = 0;
        while i < buf.len()
            invariant
                i <= buf@.len(),
                buf@ == before,
                copy@ == buf@.subrange(0, i as int),
            decreases buf@.len() - i,
        {
            copy.push(buf[i]);
            i = i + 1;
        }
        self.sent.push(copy);
        if self.next >= self.replies.len() {
            self.errors = Ghost(self.errors@.push(ScriptExhausted));
            return Err(ScriptExhausted);
        }
        let n = buf.len();
        let mut j: usize = 0;
        while j < n
            invariant
                n == buf@.len(),
                n == old(buf)@.len(),
                j <= n,
                self.next < self.replies@.len(),
                self.exchanges@ == old(self).exchanges@,
                self.errors@ == old(self).errors@,
            decreases n - j,
        {
            let reply = &self.replies[self.next];
            let b: u8 = if j < reply.len() {
                reply[j]
            } else {
                0
            };
            buf[j] = b;
            j = j + 1;
        }
        self.next = self.next + 1;
        self.exchanges = Ghost(self.exchanges@.push((before, buf@)));
        Ok(())
    }
}

} // verus!
