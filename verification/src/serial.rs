//! The console bridge: adapts a blocking byte source into a one-slot,
//! pollable mailbox. A producer (normally a dedicated background thread)
//! delivers bytes with `notify_char`; the trap-handling consumer observes
//! them with `try_read`. The mailbox holds at most one byte, and a producer
//! may not overwrite an undrained byte: it must wait until the consumer pops
//! or the bridge is closed. Output toward the underlying sink is collected
//! in a buffer that the surrounding program drains.

use vstd::prelude::*;

verus! {

/// Mathematical state of a console bridge: the one-slot mailbox, its
/// occupancy and teardown flags, and the bytes written toward the
/// underlying sink but not yet drained.
pub ghost struct ConsoleState {
    pub buffered: Option<u8>,
    pub full: bool,
    pub closed: bool,
    pub output: Seq<u8>,
}

/// A producer may deliver a byte only into a mailbox that is not occupied,
/// unless the bridge has been closed (teardown releases a waiting producer).
pub open spec fn can_accept(v: ConsoleState) -> bool {
    !v.full || v.closed
}

/// The state after the consumer pops the mailbox.
pub open spec fn popped(v: ConsoleState) -> ConsoleState {
    ConsoleState { buffered: None, full: false, ..v }
}

/// The state after a producer delivers `chr`.
pub open spec fn notified(v: ConsoleState, chr: u8) -> ConsoleState {
    ConsoleState { buffered: Some(chr), full: true, ..v }
}

/// The interface between the serial emulation and user input: a pollable
/// one-slot mailbox plus a pass-through write path.
pub trait Console {
    /// The mailbox and output state this console presents.
    spec fn cview(&self) -> ConsoleState;

    /// Observes the buffered byte without blocking; with `pop`, also clears
    /// the mailbox, releasing a waiting producer.
    fn try_read(&mut self, pop: bool) -> (r: Option<u8>)
        ensures
            r == old(self).cview().buffered,
            pop ==> final(self).cview() == popped(old(self).cview()),
            !pop ==> final(self).cview() == old(self).cview(),
    ;

    /// Queues `chr` for the underlying sink.
    fn write(&mut self, chr: u8)
        ensures
            final(self).cview() == (ConsoleState {
                output: old(self).cview().output.push(chr),
                ..old(self).cview()
            }),
    ;

    /// Delivers one byte into the mailbox. A producer must wait (not
    /// overwrite) while the mailbox is occupied and the bridge is open, so
    /// delivery demands an acceptable mailbox.
    fn notify_char(&mut self, chr: u8)
        requires
            can_accept(old(self).cview()),
        ensures
            final(self).cview() == notified(old(self).cview(), chr),
    ;
}

/// A blocking byte source and sink, implemented outside this crate (for a
/// host serial port, a pipe, and the like). `getc` blocks until a byte is
/// available, so the read loop that feeds a bridge must run on its own
/// thread, started through `start_task`.
pub trait BlockingConsole: Sized {
    fn getc(&self) -> u8;

    fn putc(&self, chr: u8);

    fn start_task<F: FnOnce() + Send + 'static>(f: F);
}

/// The one-slot bridge between a blocking byte source and the UART
/// emulation. The background delivery loop pushes bytes in with
/// `notify_char` once `can_notify` grants; the trap-handling thread polls
/// with `try_read`.
pub struct SingleCharBufferedConsole {
    buffer: Option<u8>,
    full: bool,
    closed: bool,
    output: Vec<u8>,
}

impl View for SingleCharBufferedConsole {
    type V = ConsoleState;

    closed spec fn view(&self) -> ConsoleState {
        ConsoleState {
            buffered: self.buffer,
            full: self.full,
            closed: self.closed,
            output: self.output@,
        }
    }
}

impl SingleCharBufferedConsole {
    /// A fresh bridge: empty mailbox, open, nothing written.
    pub fn new() -> (r: Self)
        ensures
            r@ == (ConsoleState {
                buffered: None,
                full: false,
                closed: false,
                output: Seq::<u8>::empty(),
            }),
    {
        SingleCharBufferedConsole { buffer: None, full: false, closed: false, output: Vec::new() }
    }

    /// Observes the buffered byte without consuming it.
    pub fn peek(&self) -> (r: Option<u8>)
        ensures
            r == self@.buffered,
    {
        self.buffer
    }

    /// Whether a producer may deliver a byte right now. A producer that
    /// finds the mailbox occupied and the bridge open must poll again: this
    /// is the wait that gives the bridge its backpressure.
    pub fn can_notify(&self) -> (r: bool)
        ensures
            r == can_accept(self@),
    {
        !self.full || self.closed
    }

    /// Teardown: releases a producer that is waiting on an occupied mailbox.
    /// The mailbox contents stay observable to the consumer.
    pub fn close(&mut self)
        ensures
            final(self)@ == (ConsoleState { closed: true, ..old(self)@ }),
    {
        self.closed = true;
    }

    /// Hands the queued output bytes to the caller, emptying the queue.
    pub fn take_output(&mut self) -> (r: Vec<u8>)
        ensures
            r@ == old(self)@.output,
            final(self)@ == (ConsoleState { output: Seq::<u8>::empty(), ..old(self)@ }),
    {
        let mut out: Vec<u8> = Vec::new();
        core::mem::swap(&mut out, &mut self.output);
        out
    }
}

impl Console for SingleCharBufferedConsole {
    open spec fn cview(&self) -> ConsoleState {
        self@
    }

    fn try_read(&mut self, pop: bool) -> (r: Option<u8>) {
        let ch = self.buffer;
        if pop {
            self.buffer = None;
            self.full = false;
        }
        ch
    }

    fn write(&mut self, chr: u8) {
        self.output.push(chr);
    }

    fn notify_char(&mut self, chr: u8) {
        self.buffer = Some(chr);
        self.full = true;
    }
}

/// Backpressure law: an occupied, open mailbox accepts no delivery, so a
/// producer must wait; once the consumer pops, delivery is possible again
/// and the delivered byte becomes the observable mailbox contents.
pub proof fn lemma_backpressure(v: ConsoleState, chr: u8)
    requires
        v.full,
        !v.closed,
    ensures
        !can_accept(v),
        can_accept(popped(v)),
        notified(popped(v), chr).buffered == Some(chr),
        notified(popped(v), chr).full,
{
}

} // verus!
