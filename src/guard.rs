use vstd::prelude::*;
use crate::errors::MushiStakeVaultError;
use crate::pubkey::Pubkey;

verus! {

/// The calls of the current call sequence, as the host reports them: the
/// program that issued each one, and the position of the current call.
#[derive(Clone, Debug)]
pub struct ExecutionTrace {
    pub current_index: usize,
    pub program_ids: Vec<Pubkey>,
}

impl ExecutionTrace {
    /// The current call is one of the sequence.
    pub open spec fn wf(&self) -> bool {
        self.current_index < self.program_ids@.len()
    }

    /// The current call was issued by `upstream`, or is not the first one and
    /// the call just before it was.
    pub open spec fn authorizes(&self, upstream: Pubkey) -> bool {
        let i = self.current_index as int;
        ||| self.program_ids@[i] == upstream
        ||| (i > 0 && self.program_ids@[i - 1] == upstream)
    }
}

/// Lets a privileged call through only where the trace shows the upstream
/// authority as its issuer or as the issuer of the call just before it.
pub fn verify_caller(trace: &ExecutionTrace, upstream: &Pubkey) -> (r: Result<(), MushiStakeVaultError>)
    requires
        trace.wf(),
    ensures
        r is Ok <==> trace.authorizes(*upstream),
        r is Err ==> r == Err::<(), MushiStakeVaultError>(MushiStakeVaultError::UnauthorizedProgramCall),
{
    let current_index = trace.current_index;
    let current = &trace.program_ids[current_index];
    if !current.same_key(upstream) {
        if current_index == 0 {
            return Err(MushiStakeVaultError::UnauthorizedProgramCall);
        }
        let prev = &trace.program_ids[current_index - 1];
        if !prev.same_key(upstream) {
            return Err(MushiStakeVaultError::UnauthorizedProgramCall);
        }
    }
    Ok(())
}

} // verus!
