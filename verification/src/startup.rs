//! Startup fail-fast rules: the gateway serves only after the one
//! channel to the producer has been opened and every configured
//! inbound address has bound. A connect failure or any bind failure
//! aborts the whole startup with a non-zero exit status; a partial
//! bind is never a valid end state.

use vstd::prelude::*;

verus! {

/// Why a startup was aborted.
#[derive(Clone, Copy, Debug, PartialEq, Eq, Structural)]
pub enum StartupError {
    /// The one channel to the producer could not be opened.
    ConnectFailed,
    /// The inbound address at this position in the bind set could not
    /// be bound.
    BindFailed(usize),
}

/// Decides whether the gateway may begin serving, from the outcome of
/// the channel open and the outcome of each bind, in bind-set order.
///
/// Serving is allowed exactly when the connect and every bind
/// succeeded. The connect is decided first — a gateway that cannot
/// reach the producer must not bind any address — and a bind failure
/// is reported at the first failed address.
pub fn startup_outcome(connect_ok: bool, bind_ok: &Vec<bool>) -> (r: Result<(), StartupError>)
    ensures
        r is Ok <==> (connect_ok && forall|i: int| 0 <= i < bind_ok@.len() ==> bind_ok@[i]),
        r == Err::<(), StartupError>(StartupError::ConnectFailed) <==> !connect_ok,
        r matches Err(StartupError::BindFailed(i)) ==> connect_ok && i < bind_ok@.len()
            && !bind_ok@[i as int] && forall|j: int| 0 <= j < i ==> bind_ok@[j],
{
    if !connect_ok {
        return Err(StartupError::ConnectFailed);
    }
    let n = bind_ok.len();
    let mut i: usize = 0;
    while i < n
        invariant
            n == bind_ok@.len(),
            i <= n,
            connect_ok,
            forall|j: int| 0 <= j < i ==> bind_ok@[j],
        decreases n - i,
    {
        if !bind_ok[i] {
            return Err(StartupError::BindFailed(i));
        }
        i = i + 1;
    }
    Ok(())
}

/// The process exit status for a startup outcome: zero exactly on a
/// startup that reached serving, non-zero on every abort.
pub fn startup_exit_code(r: &Result<(), StartupError>) -> (c: u8)
    ensures
        c == 0 <==> r is Ok,
{
    match r {
        Ok(_) => 0,
        Err(_) => 1,
    }
}

} // verus!
