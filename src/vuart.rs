//! Byte ring buffers and the virtual UART that carries them.

use vstd::prelude::*;

verus! {

/// Capacity of each UART buffer.
pub const BUF_CAP: usize = 256;

/// A virtual UART: a transmit and a receive byte buffer and two status words.
#[derive(Clone, Debug)]
pub struct Vuart {
    /// UART id.
    pub id: usize,
    /// Bytes the guest sent.
    pub transmit_fifo: Bufqueue<BUF_CAP>,
    /// Bytes waiting for the guest.
    pub receive_fifo: Bufqueue<BUF_CAP>,
    /// Raw interrupt status.
    pub ris: u32,
    /// Interrupt clear register.
    pub icr: u32,
}

impl Vuart {
    /// A UART with both buffers empty.
    pub fn new(id: usize) -> (r: Self)
        ensures
            r.id == id,
            r.transmit_fifo.wf(),
            r.receive_fifo.wf(),
            r.transmit_fifo@.len() == 0,
            r.receive_fifo@.len() == 0,
            r.ris == 0,
            r.icr == 0,
    {
        Vuart {
            id,
            transmit_fifo: Bufqueue::new(),
            receive_fifo: Bufqueue::new(),
            ris: 0,
            icr: 0,
        }
    }
}

/// The queue `q` of capacity `cap` after pushing `x`: the oldest byte is
/// dropped when the queue is full.
pub open spec fn push_model(q: Seq<u8>, x: u8, cap: nat) -> Seq<u8> {
    if q.len() < cap {
        q.push(x)
    } else {
        q.subrange(1, cap as int).push(x)
    }
}

/// The queue `q` after pushing each byte of `xs` in order.
pub open spec fn push_all(q: Seq<u8>, xs: Seq<u8>, cap: nat) -> Seq<u8>
    decreases xs.len(),
{
    if xs.len() == 0 {
        q
    } else {
        push_model(push_all(q, xs.drop_last(), cap), xs.last(), cap)
    }
}

/// Pushing any number of bytes keeps exactly the newest `cap` bytes of
/// everything queued, oldest first: pushing past capacity overwrites the
/// oldest bytes.
pub proof fn lemma_push_keeps_newest(q: Seq<u8>, xs: Seq<u8>, cap: nat)
    requires
        cap > 0,
        q.len() <= cap,
    ensures
        ({
            let all = q + xs;
            let start = if all.len() > cap {
                all.len() - cap
            } else {
                0
            };
            push_all(q, xs, cap) == all.subrange(start, all.len() as int)
        }),
    decreases xs.len(),
{
    let all = q + xs;
    if xs.len() == 0 {
        assert(all =~= q);
        assert(all.subrange(0, all.len() as int) =~= q);
    } else {
        let t = q + xs.drop_last();
        lemma_push_keeps_newest(q, xs.drop_last(), cap);
        let n = t.len();
        let start = if n > cap {
            n - cap
        } else {
            0
        };
        let prev = t.subrange(start, n as int);
        assert(all =~= t.push(xs.last()));
        if n < cap {
            assert(prev.push(xs.last()) =~= all.subrange(0, all.len() as int));
        } else {
            assert(prev.len() == cap);
            assert(prev.subrange(1, cap as int).push(xs.last()) =~= all.subrange(all.len() - cap, all.len() as int));
        }
    }
}

/// A FIFO of at most `CAP` bytes; pushing onto a full queue drops the oldest byte.
#[derive(Clone, Debug)]
pub struct Bufqueue<const CAP: usize> {
    buffer: [u8; CAP],
    buffer_len: usize,
    buffer_head: usize,
    buffer_tail: usize,
}

impl<const CAP: usize> View for Bufqueue<CAP> {
    type V = Seq<u8>;

    /// The queued bytes, oldest first.
    closed spec fn view(&self) -> Seq<u8> {
        Seq::new(
            self.buffer_len as nat,
            |k: int| self.buffer@[(self.buffer_tail + k) % (CAP as int)],
        )
    }
}

impl<const CAP: usize> Bufqueue<CAP> {
    /// The ring's indices agree: the head sits `len` places after the tail.
    pub closed spec fn wf(&self) -> bool {
        &&& CAP > 0
        &&& self.buffer_len <= CAP
        &&& self.buffer_tail < CAP
        &&& self.buffer_head < CAP
        &&& self.buffer_head == (self.buffer_tail + self.buffer_len) % (CAP as int)
    }

    /// An empty queue.
    pub fn new() -> (r: Self)
        requires
            CAP > 0,
        ensures
            r.wf(),
            r@.len() == 0,
    {
        proof {
            vstd::arithmetic::div_mod::lemma_small_mod(0, CAP as nat);
        }
        Bufqueue { buffer: [0; CAP], buffer_len: 0, buffer_head: 0, buffer_tail: 0 }
    }

    /// Appends `item`; when the queue is full its oldest byte is dropped first.
    pub fn push(&mut self, item: u8)
        requires
            old(self).wf(),
        ensures
            final(self).wf(),
            old(self)@.len() < CAP ==> final(self)@ == old(self)@.push(item),
            old(self)@.len() == CAP ==> final(self)@ == old(self)@.subrange(1, CAP as int).push(
                item,
            ),
            final(self)@ == push_model(old(self)@, item, CAP as nat),
    {
        let ghost old_view = self@;
        let ghost tail0 = self.buffer_tail as int;
        let ghost len0 = self.buffer_len as int;
        if self.buffer_len == CAP {
            self.buffer_tail = (self.buffer_tail + 1) % CAP;
        } else {
            self.buffer_len += 1;
        }
        let h = self.buffer_head;
        self.buffer[h] = item;
        self.buffer_head = (self.buffer_head + 1) % CAP;
        proof {
            let c = CAP as int;
            let t = self.buffer_tail as int;
            assert(self.buffer_head == (t + self.buffer_len) % c) by {
                lemma_mod_step(tail0, len0, c);
                if len0 == c {
                    lemma_mod_step(tail0, c - 1, c);
                }
            }
            if len0 == c {
                let expect = old_view.subrange(1, c).push(item);
                assert forall|k: int| 0 <= k < self.buffer_len implies #[trigger] self@[k]
                    == expect[k] by {
                    lemma_mod_shift(tail0, k, c);
                    if k < c - 1 {
                        lemma_mod_distinct(tail0, k + 1, len0, c);
                    } else {
                        lemma_mod_wrap(tail0, c);
                        vstd::arithmetic::div_mod::lemma_small_mod(tail0 as nat, c as nat);
                    }
                }
                assert(self@ =~= expect);
            } else {
                let expect = old_view.push(item);
                assert forall|k: int| 0 <= k < self.buffer_len implies #[trigger] self@[k]
                    == expect[k] by {
                    if k < len0 {
                        lemma_mod_distinct(tail0, k, len0, c);
                    }
                }
                assert(self@ =~= expect);
            }
        }
    }

    /// Removes and returns the oldest byte; `None` when the queue is empty.
    pub fn pop(&mut self) -> (r: Option<u8>)
        requires
            old(self).wf(),
        ensures
            final(self).wf(),
            old(self)@.len() == 0 ==> r is None && final(self)@ == old(self)@,
            old(self)@.len() > 0 ==> r == Some(old(self)@[0]) && final(self)@ == old(self)@.subrange(
                1,
                old(self)@.len() as int,
            ),
    {
        if self.buffer_len == 0 {
            None
        } else {
            let ghost old_view = self@;
            let ghost tail0 = self.buffer_tail as int;
            let item = self.buffer[self.buffer_tail];
            proof {
                vstd::arithmetic::div_mod::lemma_small_mod(tail0 as nat, CAP as nat);
            }
            self.buffer_tail = (self.buffer_tail + 1) % CAP;
            self.buffer_len -= 1;
            proof {
                let c = CAP as int;
                lemma_mod_step(tail0, self.buffer_len as int, c);
                assert forall|k: int| 0 <= k < self.buffer_len implies #[trigger] self@[k]
                    == old_view[k + 1] by {
                    lemma_mod_shift(tail0, k, c);
                }
                assert(self@ =~= old_view.subrange(1, old_view.len() as int));
            }
            Some(item)
        }
    }

    /// Whether the queue holds no byte.
    pub fn is_empty(&self) -> (r: bool)
        requires
            self.wf(),
        ensures
            r == (self@.len() == 0),
    {
        self.buffer_len == 0
    }
}

proof fn lemma_mod_step(t: int, n: int, c: int)
    requires
        c > 0,
    ensures
        ((t + n) % c + 1) % c == (t + n + 1) % c,
        ((t + 1) % c + n) % c == (t + n + 1) % c,
{
    vstd::arithmetic::div_mod::lemma_add_mod_noop_right(1, t + n, c);
    vstd::arithmetic::div_mod::lemma_add_mod_noop_right(n, t + 1, c);
}

proof fn lemma_mod_shift(t: int, k: int, c: int)
    requires
        c > 0,
    ensures
        ((t + 1) % c + k) % c == (t + (k + 1)) % c,
{
    lemma_mod_step(t, k, c);
}

proof fn lemma_mod_distinct(t: int, k: int, n: int, c: int)
    requires
        c > 0,
        0 <= k < n,
        n - k < c,
    ensures
        (t + k) % c != (t + n) % c,
{
    vstd::arithmetic::div_mod::lemma_fundamental_div_mod(t + k, c);
    vstd::arithmetic::div_mod::lemma_fundamental_div_mod(t + n, c);
    if (t + k) % c == (t + n) % c {
        let q1 = (t + k) / c;
        let q2 = (t + n) / c;
        assert(c * (q2 - q1) == n - k) by (nonlinear_arith)
            requires
                t + k == c * q1 + (t + k) % c,
                t + n == c * q2 + (t + n) % c,
                (t + k) % c == (t + n) % c,
        ;
        if q2 - q1 >= 1 {
            assert(c * (q2 - q1) >= c) by (nonlinear_arith)
                requires
                    q2 - q1 >= 1,
                    c > 0,
            ;
        } else {
            assert(c * (q2 - q1) <= 0) by (nonlinear_arith)
                requires
                    q2 - q1 <= 0,
                    c > 0,
            ;
        }
    }
}

proof fn lemma_mod_wrap(t: int, c: int)
    requires
        c > 0,
    ensures
        (t + c) % c == t % c,
{
    vstd::arithmetic::div_mod::lemma_mod_add_multiples_vanish(t, c);
}

} // verus!
