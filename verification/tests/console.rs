//! The console-writer component: broken pipes tolerated on stdout, other
//! failures reported, and the buffered writer accumulating until flushed.

use ref_sharing::ui::{handle_stderr_error, handle_stdout_error, IoFailure, Ui, UiError};

#[test]
fn broken_pipe_on_stdout_is_tolerated() {
    assert_eq!(handle_stdout_error(IoFailure::BrokenPipe), Ok(()));
}

#[test]
fn other_stdout_failure_is_reported_as_stdout_error() {
    let message = vec![b'b', b'o', b'o', b'm'];
    let r = handle_stdout_error(IoFailure::Other(message.clone()));
    assert_eq!(r, Err(UiError::StdoutError(IoFailure::Other(message))));
}

#[test]
fn broken_pipe_on_stderr_is_tolerated() {
    assert_eq!(handle_stderr_error(IoFailure::BrokenPipe), Ok(()));
}

#[test]
fn other_stderr_failure_is_reported_as_stderr_error() {
    let message = vec![b'b', b'a', b'd'];
    let r = handle_stderr_error(IoFailure::Other(message.clone()));
    assert_eq!(r, Err(UiError::StderrError(IoFailure::Other(message))));
}

#[test]
fn writing_to_the_real_streams_succeeds() {
    let ui = Ui::new();
    assert!(ui.write_stdout(b"hello from stdout\n").is_ok());
    assert!(ui.write_stderr(b"hello from stderr\n").is_ok());
}

#[test]
fn buffered_writer_accumulates_and_flushes() {
    let ui = Ui::new();
    let mut buffer = ui.stdout_buffer();
    assert!(buffer.write_all(b"first part, ").is_ok());
    assert!(buffer.write_all(b"second part\n").is_ok());
    assert!(buffer.flush().is_ok());
    // Flushing an already-empty buffer is fine too.
    assert!(buffer.flush().is_ok());
}
