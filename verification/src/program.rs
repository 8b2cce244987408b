//! Programs: shader stages linked into one executable GPU pipeline.

use vstd::prelude::*;

use crate::diag::DiagState;
use crate::error::LinkError;
use crate::shader::Shader;

verus! {

/// A program object: the handle the driver assigned to it and the handles of
/// the shaders attached to it, in attachment order. The shaders themselves
/// are not owned: they are recorded only so that each can be detached after
/// a successful link.
#[derive(Debug)]
pub struct Program {
    id: u32,
    shader_ids: Vec<u32>,
}

/// A successful link: the program, its attached-shader list now empty, and
/// the handles the host must detach from it, in attachment order.
#[derive(Debug)]
pub struct LinkSuccess {
    pub program: Program,
    pub detached: Vec<u32>,
}

/// A failed link: the program unchanged — every shader still attached — and
/// the driver's diagnostic log.
#[derive(Debug)]
pub struct LinkFailure {
    pub program: Program,
    pub error: LinkError,
}

impl Program {
    /// The handle the driver knows this program by.
    pub closed spec fn spec_id(self) -> u32 {
        self.id
    }

    /// The attached shaders' handles, in attachment order.
    pub closed spec fn attached(self) -> Seq<u32> {
        self.shader_ids@
    }

    /// A fresh program around the handle the driver assigned: nothing is
    /// attached yet.
    pub fn new(id: u32) -> (p: Program)
        ensures
            p.spec_id() == id,
            p.attached() == Seq::<u32>::empty(),
    {
        let p = Program { id, shader_ids: Vec::new() };
        proof {
            assert(p.attached() =~= Seq::<u32>::empty());
        }
        p
    }

    /// The handle the driver knows this program by.
    pub fn id(&self) -> (r: u32)
        ensures
            r == self.spec_id(),
    {
        self.id
    }

    /// The attached shaders' handles, in attachment order.
    pub fn attached_ids(&self) -> (v: &Vec<u32>)
        ensures
            v@ == self.attached(),
    {
        &self.shader_ids
    }

    /// Record a shader as attached, for the host to mirror with the driver.
    /// The shader's handle joins the end of the attached list; the shader
    /// itself stays with the caller.
    pub fn attach_shader(self, shader: &Shader) -> (p: Program)
        ensures
            p.spec_id() == self.spec_id(),
            p.attached() == self.attached().push(shader.spec_id()),
    {
        let mut shader_ids = self.shader_ids;
        shader_ids.push(shader.id());
        Program { id: self.id, shader_ids }
    }

    /// Conclude a link: the driver was asked to link the attached shaders
    /// and the status-and-log protocol ran to its end.
    ///
    /// On success every attached shader is due for detachment: the program
    /// comes back with an empty attached list, beside exactly the handles
    /// that were attached, in order, for the host to detach. On failure
    /// nothing is detached: the program comes back unchanged, beside the
    /// driver's diagnostic log, verbatim.
    pub fn link(self, outcome: DiagState) -> (r: Result<LinkSuccess, LinkFailure>)
        requires
            outcome.is_terminal(),
        ensures
            outcome is Succeeded ==> (r matches Ok(ok) && {
                &&& ok.program.spec_id() == self.spec_id()
                &&& ok.program.attached() == Seq::<u32>::empty()
                &&& ok.detached@ == self.attached()
            }),
            outcome matches DiagState::Failed { log } ==> (r matches Err(f) && {
                &&& f.program == self
                &&& f.error.log == log
            }),
    {
        match outcome {
            DiagState::Succeeded => {
                let program = Program::new(self.id);
                Ok(LinkSuccess { program, detached: self.shader_ids })
            },
            DiagState::Failed { log } => {
                Err(LinkFailure { program: self, error: LinkError { log } })
            },
            _ => vstd::pervasive::unreached(),
        }
    }

    /// The activation decision: installing a program means handing the
    /// driver this program's handle, which this returns.
    pub fn set_used(&self) -> (h: u32)
        ensures
            h == self.spec_id(),
    {
        self.id
    }
}

} // verus!
