//! The character input and output that the machine sees.
//!
//! A `Console` holds the keys that have arrived and have not been read yet,
//! and the bytes that the machine has written and nobody has collected
//! yet. Whoever drives the machine feeds the former and drains the latter.

use std::collections::VecDeque;
use vstd::prelude::*;

verus! {

/// The mathematical content of a console.
#[verifier::ext_equal]
pub struct ConsoleView {
    /// Keys that are available to the machine, oldest first.
    pub pending: Seq<u8>,
    /// Bytes written by the machine, oldest first.
    pub output: Seq<u8>,
}

impl ConsoleView {
    /// A console without keys and without output.
    pub open spec fn empty() -> ConsoleView {
        ConsoleView { pending: Seq::empty(), output: Seq::empty() }
    }

    /// Whether a key is available.
    pub open spec fn has_key(self) -> bool {
        self.pending.len() > 0
    }

    /// The oldest available key.
    pub open spec fn key(self) -> u8 {
        self.pending[0]
    }

    /// The console after the oldest key has been taken.
    pub open spec fn take_key(self) -> ConsoleView {
        ConsoleView { pending: self.pending.subrange(1, self.pending.len() as int), ..self }
    }

    /// The console after a further key has arrived.
    pub open spec fn feed(self, key: u8) -> ConsoleView {
        ConsoleView { pending: self.pending.push(key), ..self }
    }

    /// The console after one byte has been written.
    pub open spec fn emit(self, byte: u8) -> ConsoleView {
        ConsoleView { output: self.output.push(byte), ..self }
    }

    /// The console after a run of bytes has been written.
    pub open spec fn emit_all(self, bytes: Seq<u8>) -> ConsoleView {
        ConsoleView { output: self.output + bytes, ..self }
    }
}

/// Keys waiting to be read and output waiting to be collected.
pub struct Console {
    pending: VecDeque<u8>,
    output: Vec<u8>,
}

impl View for Console {
    type V = ConsoleView;

    closed spec fn view(&self) -> ConsoleView {
        ConsoleView { pending: self.pending@, output: self.output@ }
    }
}

impl Console {
    /// A console without keys and without output.
    pub fn new() -> (console: Console)
        ensures
            console@ == ConsoleView::empty(),
    {
        Console { pending: VecDeque::new(), output: Vec::new() }
    }

    /// Makes one more key available to the machine.
    pub fn feed(&mut self, key: u8)
        ensures
            final(self)@ == old(self)@.feed(key),
    {
        self.pending.push_back(key);
    }

    /// Makes a run of keys available to the machine, in order.
    pub fn feed_all(&mut self, keys: &[u8])
        ensures
            final(self)@.pending == old(self)@.pending + keys@,
            final(self)@.output == old(self)@.output,
    {
        let mut i: usize = 0;
        while i < keys.len()
            invariant
                i <= keys.len(),
                self@.pending == old(self)@.pending + keys@.subrange(0, i as int),
                self@.output == old(self)@.output,
            decreases keys.len() - i,
        {
            self.pending.push_back(keys[i]);
            i += 1;
        }
        assert(keys@.subrange(0, i as int) == keys@);
    }

    /// Whether a key is available.
    pub fn has_input(&self) -> (available: bool)
        ensures
            available == self@.has_key(),
    {
        self.pending.len() > 0
    }

    /// Takes the oldest available key, if there is one.
    pub fn read(&mut self) -> (key: Option<u8>)
        ensures
            old(self)@.has_key() ==> key == Some(old(self)@.key()) && final(self)@ == old(
                self,
            )@.take_key(),
            !old(self)@.has_key() ==> key.is_none() && final(self)@ == old(self)@,
    {
        self.pending.pop_front()
    }

    /// Writes one byte.
    pub fn write(&mut self, byte: u8)
        ensures
            final(self)@ == old(self)@.emit(byte),
    {
        self.output.push(byte);
    }

    /// Writes a run of bytes, in order.
    pub fn write_all(&mut self, bytes: &[u8])
        ensures
            final(self)@ == old(self)@.emit_all(bytes@),
    {
        let mut i: usize = 0;
        while i < bytes.len()
            invariant
                i <= bytes.len(),
                self@ == old(self)@.emit_all(bytes@.subrange(0, i as int)),
            decreases bytes.len() - i,
        {
            self.output.push(bytes[i]);
            i += 1;
        }
        assert(bytes@.subrange(0, i as int) == bytes@);
    }

    /// The bytes written so far and not yet collected.
    pub fn output(&self) -> (bytes: &Vec<u8>)
        ensures
            bytes@ == self@.output,
    {
        &self.output
    }

    /// Hands out the bytes written so far and forgets them.
    pub fn take_output(&mut self) -> (bytes: Vec<u8>)
        ensures
            bytes@ == old(self)@.output,
            final(self)@.output == Seq::<u8>::empty(),
            final(self)@.pending == old(self)@.pending,
    {
        let mut bytes: Vec<u8> = Vec::new();
        std::mem::swap(&mut self.output, &mut bytes);
        bytes
    }
}

} // verus!
