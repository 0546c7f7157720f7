use vstd::prelude::*;

verus! {

/// Puts the two halves of a newly opened channel in place of the old ones,
/// or, when opening failed, leaves both old halves in place and hands the
/// error back. Callers hold both halves at once, so no one sees one half
/// replaced without the other.
pub fn swap_halves<W, R, E>(sender: &mut W, receiver: &mut R, opened: Result<(W, R), E>) -> (r:
    Result<(), E>)
    ensures
        match opened {
            Ok((w, rr)) => r is Ok && *final(sender) == w && *final(receiver) == rr,
            Err(e) => r == Err::<(), E>(e) && *final(sender) == *old(sender) && *final(receiver)
                == *old(receiver),
        },
{
    match opened {
        Ok((w, rr)) => {
            *sender = w;
            *receiver = rr;
            Ok(())
        },
        Err(e) => Err(e),
    }
}

} // verus!
