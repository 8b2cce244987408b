//! Shaders: one compiled unit of GPU code for one pipeline stage.

use vstd::prelude::*;

use crate::diag::DiagState;
use crate::error::CompileError;
use crate::stage::StageKind;

verus! {

/// Whether a source text is free of interior NUL bytes, and so can be handed
/// to the driver as a NUL-terminated string.
pub open spec fn nul_free(s: Seq<u8>) -> bool {
    forall|j: int| 0 <= j < s.len() ==> s[j] != 0
}

/// A compiled shader: the handle the driver assigned to it, and the pipeline
/// stage it targets.
#[derive(Debug)]
pub struct Shader {
    id: u32,
    kind: StageKind,
}

/// Source text made ready for the driver, which takes NUL-terminated
/// strings: the text with a terminator appended, or nothing if the text
/// holds an interior NUL byte and cannot be terminated.
pub fn prepare_source(source: &Vec<u8>) -> (r: Option<Vec<u8>>)
    ensures
        r is Some <==> nul_free(source@),
        r matches Some(v) ==> v@ == source@.push(0u8),
{
    let mut out: Vec<u8> = Vec::new();
    let mut i: usize = 0;
    while i < source.len()
        invariant
            i <= source@.len(),
            out@ == source@.take(i as int),
            forall|j: int| 0 <= j < i ==> source@[j] != 0,
        decreases source@.len() - i,
    {
        let b = source[i];
        if b == 0 {
            proof {
                assert(!nul_free(source@)) by {
                    assert(source@[i as int] == 0);
                }
            }
            return None;
        }
        out.push(b);
        i += 1;
        proof {
            assert(out@ =~= source@.take(i as int));
        }
    }
    out.push(0u8);
    proof {
        assert(out@ =~= source@.push(0u8));
    }
    Some(out)
}

impl Shader {
    /// The handle the driver knows this shader by.
    pub closed spec fn spec_id(self) -> u32 {
        self.id
    }

    /// The pipeline stage this shader targets.
    pub closed spec fn spec_kind(self) -> StageKind {
        self.kind
    }

    /// The handle the driver knows this shader by.
    pub fn id(&self) -> (r: u32)
        ensures
            r == self.spec_id(),
    {
        self.id
    }

    /// The pipeline stage this shader targets.
    pub fn kind(&self) -> (k: StageKind)
        ensures
            k == self.spec_kind(),
    {
        self.kind
    }

    /// Conclude a compilation: the driver assigned `id` to the shader, the
    /// source was submitted, and the status-and-log protocol ran to its end.
    /// Success yields the shader owning that handle; failure yields the
    /// driver's diagnostic log, verbatim and never swallowed.
    pub fn compile(id: u32, kind: StageKind, outcome: DiagState) -> (r: Result<
        Shader,
        CompileError,
    >)
        requires
            outcome.is_terminal(),
        ensures
            outcome is Succeeded ==> (r matches Ok(s) && s.spec_id() == id && s.spec_kind()
                == kind),
            outcome matches DiagState::Failed { log } ==> (r matches Err(e) && e.log == log),
    {
        match outcome {
            DiagState::Succeeded => Ok(Shader { id, kind }),
            DiagState::Failed { log } => Err(CompileError { log }),
            _ => vstd::pervasive::unreached(),
        }
    }
}

} // verus!
