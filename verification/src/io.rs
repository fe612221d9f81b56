//! The two writers that a command reports to.

use vstd::prelude::*;

verus! {

/// Which of the two writers a line goes to.
#[derive(Clone, Copy, Debug, PartialEq, Eq, Structural)]
pub enum Stream {
    Stdout,
    Stderr,
}

/// A line of output, without the line break that ends it.
#[derive(Debug, PartialEq)]
pub struct Line {
    pub stream: Stream,
    pub text: String,
}

/// A pair of writers: one for what a command has to say, one for what went
/// wrong. A program hands in its standard streams, a test hands in buffers.
pub struct IO<Stdout, Stderr> {
    stdout: Stdout,
    stderr: Stderr,
}

impl<Stdout, Stderr> IO<Stdout, Stderr> {
    /// The writer for ordinary output.
    pub closed spec fn out(&self) -> Stdout {
        self.stdout
    }

    /// The writer for errors.
    pub closed spec fn err(&self) -> Stderr {
        self.stderr
    }

    /// Pairs the two writers.
    pub fn new(stdout: Stdout, stderr: Stderr) -> (io: Self)
        ensures
            io.out() == stdout,
            io.err() == stderr,
    {
        IO { stdout, stderr }
    }

    /// Lends the writer for ordinary output. What the caller does to it is
    /// what becomes of it in the pair; the writer for errors is left alone.
    pub fn stdout(&mut self) -> (writer: &mut Stdout)
        ensures
            *writer == old(self).out(),
            final(self).out() == *final(writer),
            final(self).err() == old(self).err(),
    {
        &mut self.stdout
    }

    /// Lends the writer for errors. What the caller does to it is what
    /// becomes of it in the pair; the writer for ordinary output is left alone.
    pub fn stderr(&mut self) -> (writer: &mut Stderr)
        ensures
            *writer == old(self).err(),
            final(self).err() == *final(writer),
            final(self).out() == old(self).out(),
    {
        &mut self.stderr
    }
}

} // verus!
