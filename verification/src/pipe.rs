//! The one-shot error channel from child to parent. The child writes either
//! nothing — it reached `execve`, whose close-on-exec closed the write end —
//! or one diagnostic naming the step that failed. The parent reads to end of
//! file and classifies: empty payload means success, anything else is the
//! child's error.

use vstd::prelude::*;
use crate::fdio;
use crate::sys;

verus! {

/// The write end, held by the child alone after the clone.
pub struct PipeTx {
    fd: i32,
}

/// The read end, held by the parent alone after the clone.
pub struct PipeRx {
    fd: i32,
}

/// Make the channel: a connected close-on-exec stream pair.
pub fn create() -> (r: Result<(PipeTx, PipeRx), i32>) {
    let (rx_fd, tx_fd) = sys::sys_socketpair_stream()?;
    Ok((PipeTx { fd: tx_fd }, PipeRx { fd: rx_fd }))
}

impl PipeTx {
    /// Send the diagnostic and close the write end. A diagnostic is never
    /// empty, so the parent cannot mistake it for success.
    pub fn write_error(self, msg: &str) -> (r: Result<(), i32>)
        requires
            msg@.len() > 0,
    {
        let ret = fdio::write_str_all(self.fd, msg);
        fdio::close_quiet(self.fd);
        ret
    }

    /// Close the write end without writing, as the parent does with its
    /// inherited copy right after the clone.
    pub fn close(self) {
        fdio::close_quiet(self.fd);
    }
}

/// What a payload means: an empty one is the success sentinel, a nonempty
/// one carries the child's diagnostic.
pub open spec fn classified(payload: Seq<u8>) -> Result<(), Seq<u8>> {
    if payload.len() == 0 {
        Ok(())
    } else {
        Err(payload)
    }
}

/// Classify a received payload.
pub fn classify_payload(payload: Vec<u8>) -> (r: Result<(), Vec<u8>>)
    ensures
        r matches Ok(u) ==> classified(payload@) == Ok::<(), Seq<u8>>(u),
        r matches Err(m) ==> classified(payload@) == Err::<(), Seq<u8>>(m@),
{
    if payload.len() == 0 {
        Ok(())
    } else {
        Err(payload)
    }
}

impl PipeRx {
    /// Read the payload to end of file, close the read end, and classify.
    /// The outer error is a failure of the read itself. A reported child
    /// failure always carries a nonempty diagnostic: an empty payload can
    /// only classify as success.
    pub fn read_result(self) -> (r: Result<Result<(), Vec<u8>>, i32>)
        ensures
            r matches Ok(Err(m)) ==> classified(m@) == Err::<(), Seq<u8>>(m@) && m@.len() > 0,
    {
        let payload = match fdio::read_all(self.fd) {
            Ok(p) => p,
            Err(e) => {
                fdio::close_quiet(self.fd);
                return Err(e);
            },
        };
        fdio::close_quiet(self.fd);
        Ok(classify_payload(payload))
    }

    /// Close the read end without reading, as the child does with its
    /// inherited copy right after the clone.
    pub fn close(self) {
        fdio::close_quiet(self.fd);
    }
}

/// The pipe protocol, both directions: a payload classifies as success
/// exactly when it is empty, and a diagnostic the child sent — never
/// empty — comes back out unchanged. So `execve` success (an empty
/// payload) is never reported together with an error, and a preparation
/// failure is never reported as success.
pub proof fn lemma_error_pipe_protocol(payload: Seq<u8>, diagnostic: Seq<u8>)
    requires
        diagnostic.len() > 0,
    ensures
        classified(payload) is Ok <==> payload.len() == 0,
        classified(diagnostic) == Err::<(), Seq<u8>>(diagnostic),
{
}

} // verus!
