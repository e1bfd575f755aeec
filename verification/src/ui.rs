//! The command-line user interface: writing bytes to the standard output
//! and error streams, with a buffered variant for batch printing and with
//! tolerance for a closed pipe on standard output.

use vstd::prelude::*;

verus! {

#[verifier::external_type_specification]
#[verifier::external_body]
pub struct ExStdout(std::io::Stdout);

#[verifier::external_type_specification]
#[verifier::external_body]
pub struct ExStderr(std::io::Stderr);

/// Why a write to a stream failed: the reader went away, or anything else,
/// reported by its message bytes.
#[derive(Debug, PartialEq, Eq)]
pub enum IoFailure {
    /// The other end of the stream was closed.
    BrokenPipe,
    /// Any other failure, carrying the failure's message.
    Other(Vec<u8>),
}

/// The kind of user interface error.
#[derive(Debug, PartialEq, Eq)]
pub enum UiError {
    /// The standard output stream cannot be written to.
    StdoutError(IoFailure),
    /// The standard error stream cannot be written to.
    StderrError(IoFailure),
}

/// The command-line user interface.
pub struct Ui {
    pub(crate) stdout: std::io::Stdout,
    pub(crate) stderr: std::io::Stderr,
}

/// A buffered writer to standard output for faster batch printing: bytes
/// accumulate in memory until [`StdoutBuffer::flush`] writes them out.
pub struct StdoutBuffer {
    pub(crate) out: std::io::Stdout,
    pub(crate) buf: Vec<u8>,
}

/// Relies on `std::io::stdout`: returns a handle to the process's standard
/// output stream.
#[verifier::external_body]
fn fetch_stdout() -> std::io::Stdout {
    std::io::stdout()
}

/// Relies on `std::io::stderr`: returns a handle to the process's standard
/// error stream.
#[verifier::external_body]
fn fetch_stderr() -> std::io::Stderr {
    std::io::stderr()
}

/// Relies on `Write::write_all` for `&Stdout`: writes the whole buffer or
/// reports the first failure.  Nothing can be promised about the outcome —
/// it depends on where the stream leads — so the result is only converted
/// to plain data: a closed pipe, or the failure's message bytes.
#[verifier::external_body]
fn stdout_write_all(out: &std::io::Stdout, bytes: &[u8]) -> Result<(), IoFailure> {
    let mut handle = out;
    match std::io::Write::write_all(&mut handle, bytes) {
        Ok(()) => Ok(()),
        Err(e) => {
            if e.kind() == std::io::ErrorKind::BrokenPipe {
                Err(IoFailure::BrokenPipe)
            } else {
                Err(IoFailure::Other(e.to_string().into_bytes()))
            }
        },
    }
}

/// Relies on `Write::flush` for `&Stdout`: pushes buffered bytes to the
/// stream.  As with writing, only the failure is converted to plain data.
#[verifier::external_body]
fn stdout_flush(out: &std::io::Stdout) -> Result<(), IoFailure> {
    let mut handle = out;
    match std::io::Write::flush(&mut handle) {
        Ok(()) => Ok(()),
        Err(e) => {
            if e.kind() == std::io::ErrorKind::BrokenPipe {
                Err(IoFailure::BrokenPipe)
            } else {
                Err(IoFailure::Other(e.to_string().into_bytes()))
            }
        },
    }
}

/// Relies on `Write::write_all` for `&Stderr`: writes the whole buffer or
/// reports the first failure, converted to plain data.
#[verifier::external_body]
fn stderr_write_all(err: &std::io::Stderr, bytes: &[u8]) -> Result<(), IoFailure> {
    let mut handle = err;
    match std::io::Write::write_all(&mut handle, bytes) {
        Ok(()) => Ok(()),
        Err(e) => {
            if e.kind() == std::io::ErrorKind::BrokenPipe {
                Err(IoFailure::BrokenPipe)
            } else {
                Err(IoFailure::Other(e.to_string().into_bytes()))
            }
        },
    }
}

/// Relies on `Write::flush` for `&Stderr`: pushes buffered bytes to the
/// stream, with the failure converted to plain data.
#[verifier::external_body]
fn stderr_flush(err: &std::io::Stderr) -> Result<(), IoFailure> {
    let mut handle = err;
    match std::io::Write::flush(&mut handle) {
        Ok(()) => Ok(()),
        Err(e) => {
            if e.kind() == std::io::ErrorKind::BrokenPipe {
                Err(IoFailure::BrokenPipe)
            } else {
                Err(IoFailure::Other(e.to_string().into_bytes()))
            }
        },
    }
}

/// The bytes announcing an abort on the standard error stream.
pub open spec fn abort_prefix() -> Seq<u8> {
    seq![97u8, 98u8, 111u8, 114u8, 116u8, 58u8, 32u8]
}

/// Append all of `src` to `dst`.
fn append_bytes(dst: &mut Vec<u8>, src: &[u8])
    ensures
        final(dst)@ == old(dst)@ + src@,
{
    let mut i: usize = 0;
    while i < src.len()
        invariant
            i <= src@.len(),
            dst@ == old(dst)@ + src@.subrange(0, i as int),
        decreases src@.len() - i,
    {
        dst.push(src[i]);
        proof {
            assert(dst@ =~= old(dst)@ + src@.subrange(0, i as int + 1));
        }
        i = i + 1;
    }
    proof {
        assert(dst@ =~= old(dst)@ + src@);
    }
}

/// The line written to standard error when standard output failed:
/// `abort: `, the failure's message, and a newline.
fn abort_line(message: &Vec<u8>) -> (line: Vec<u8>)
    ensures
        line@ == abort_prefix() + message@ + seq![10u8],
{
    let mut line: Vec<u8> = Vec::new();
    // "abort: " in ASCII
    line.push(97);
    line.push(98);
    line.push(111);
    line.push(114);
    line.push(116);
    line.push(58);
    line.push(32);
    proof {
        assert(line@ =~= abort_prefix());
    }
    append_bytes(&mut line, message.as_slice());
    line.push(10);
    proof {
        assert(line@ =~= abort_prefix() + message@ + seq![10u8]);
    }
    line
}

/// Sometimes writing to stdout is not possible: a closed pipe is tolerated
/// — this makes piping into a pager that quits early work — while any other
/// failure is announced on standard error and reported to the caller.
pub fn handle_stdout_error(error: IoFailure) -> (r: Result<(), UiError>)
    ensures
        r is Ok <==> error is BrokenPipe,
        r matches Err(UiError::StdoutError(f)) ==> f == error,
{
    match error {
        IoFailure::BrokenPipe => Ok(()),
        IoFailure::Other(message) => {
            let line = abort_line(&message);
            let stderr = fetch_stderr();
            match stderr_write_all(&stderr, line.as_slice()) {
                Err(e) => {
                    return Err(UiError::StderrError(e));
                },
                Ok(()) => {},
            }
            match stderr_flush(&stderr) {
                Err(e) => {
                    return Err(UiError::StderrError(e));
                },
                Ok(()) => {},
            }
            Err(UiError::StdoutError(IoFailure::Other(message)))
        },
    }
}

/// A failure on standard error itself: a closed pipe is tolerated, anything
/// else is reported — there is nowhere left to announce it.
pub fn handle_stderr_error(error: IoFailure) -> (r: Result<(), UiError>)
    ensures
        r is Ok <==> error is BrokenPipe,
        r matches Err(UiError::StderrError(f)) ==> f == error,
        r is Err ==> (r matches Err(e) && e is StderrError),
{
    match error {
        IoFailure::BrokenPipe => Ok(()),
        other => Err(UiError::StderrError(other)),
    }
}

impl Ui {
    /// A user interface over the process's standard output and error
    /// streams.
    pub fn new() -> Self {
        Ui { stdout: fetch_stdout(), stderr: fetch_stderr() }
    }

    /// Returns a buffered handle on stdout for faster batch printing
    /// operations.
    pub fn stdout_buffer(&self) -> (b: StdoutBuffer)
        ensures
            b.buffered() == Seq::<u8>::empty(),
    {
        StdoutBuffer::new(fetch_stdout())
    }

    /// Write bytes to stdout.  A closed pipe is tolerated; any other
    /// failure of stdout is announced on stderr and reported as
    /// `StdoutError`.
    pub fn write_stdout(&self, bytes: &[u8]) -> (r: Result<(), UiError>)
        ensures
            r matches Err(UiError::StdoutError(f)) ==> !(f is BrokenPipe),
    {
        match stdout_write_all(&self.stdout, bytes) {
            Err(e) => match handle_stdout_error(e) {
                Err(u) => {
                    return Err(u);
                },
                Ok(()) => {},
            },
            Ok(()) => {},
        }
        match stdout_flush(&self.stdout) {
            Err(e) => handle_stdout_error(e),
            Ok(()) => Ok(()),
        }
    }

    /// Write bytes to stderr.  A closed pipe during the write is tolerated;
    /// every reported failure concerns stderr itself.
    pub fn write_stderr(&self, bytes: &[u8]) -> (r: Result<(), UiError>)
        ensures
            r is Err ==> (r matches Err(e) && e is StderrError),
    {
        match stderr_write_all(&self.stderr, bytes) {
            Err(e) => match handle_stderr_error(e) {
                Err(u) => {
                    return Err(u);
                },
                Ok(()) => {},
            },
            Ok(()) => {},
        }
        match stderr_flush(&self.stderr) {
            Err(e) => Err(UiError::StderrError(e)),
            Ok(()) => Ok(()),
        }
    }
}

impl StdoutBuffer {
    /// The bytes accumulated and not yet flushed.
    pub open(crate) spec fn buffered(self) -> Seq<u8> {
        self.buf@
    }

    /// A buffered writer over the given stdout handle, starting empty.
    pub fn new(writer: std::io::Stdout) -> (b: Self)
        ensures
            b.buffered() == Seq::<u8>::empty(),
    {
        StdoutBuffer { out: writer, buf: Vec::new() }
    }

    /// Append bytes to the buffer.  Nothing reaches the stream yet, so this
    /// cannot fail.
    pub fn write_all(&mut self, bytes: &[u8]) -> (r: Result<(), UiError>)
        ensures
            r == Ok::<(), UiError>(()),
            final(self).buffered() == old(self).buffered() + bytes@,
    {
        append_bytes(&mut self.buf, bytes);
        Ok(())
    }

    /// Write the buffered bytes to stdout and empty the buffer.  A closed
    /// pipe is tolerated; any other failure of stdout is announced on
    /// stderr and reported as `StdoutError`.
    pub fn flush(&mut self) -> (r: Result<(), UiError>)
        ensures
            final(self).buffered() == Seq::<u8>::empty(),
            r matches Err(UiError::StdoutError(f)) ==> !(f is BrokenPipe),
    {
        let write_result = stdout_write_all(&self.out, self.buf.as_slice());
        self.buf.clear();
        match write_result {
            Err(e) => match handle_stdout_error(e) {
                Err(u) => {
                    return Err(u);
                },
                Ok(()) => {},
            },
            Ok(()) => {},
        }
        match stdout_flush(&self.out) {
            Err(e) => handle_stdout_error(e),
            Ok(()) => Ok(()),
        }
    }
}

} // verus!
