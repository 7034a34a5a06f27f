use vstd::prelude::*;

use crate::error::{GlError, ShaderStage};

verus! {

/// The driver's global binding state: which vertex array, which array buffer
/// and which program are current. Only one object per target can be bound at
/// a time, so callers must sequence bind calls; this model makes that state
/// explicit so that operations on the bound object can require it. A zero
/// entry means nothing is bound to that target.
#[derive(Clone, Copy, Debug, PartialEq, Eq, Structural)]
pub struct BindingState {
    pub bound_vertex_array: u32,
    pub bound_array_buffer: u32,
    pub active_program: u32,
}

impl BindingState {
    /// The state of a fresh context: nothing bound, no program active.
    pub fn new() -> (b: BindingState)
        ensures
            b.bound_vertex_array == 0,
            b.bound_array_buffer == 0,
            b.active_program == 0,
    {
        BindingState { bound_vertex_array: 0, bound_array_buffer: 0, active_program: 0 }
    }
}

/// The buffer target a bind or upload acts on; supplied per call, never
/// stored. This renderer only ever uses the array-buffer target.
#[derive(Clone, Copy, Debug, PartialEq, Eq, Structural)]
pub enum BufferTarget {
    ArrayBuffer,
}

/// A vertex array object: one non-zero handle naming a configuration of
/// vertex attribute bindings.
#[derive(Debug)]
pub struct VertexArray {
    handle: u32,
}

impl VertexArray {
    /// The wrapped handle; never zero for a constructed wrapper.
    pub closed spec fn id(&self) -> u32 {
        self.handle
    }

    /// Wrap the handle the driver returned for a vertex-array creation call.
    /// The zero handle signals creation failure and never ends up wrapped.
    pub fn new(raw: u32) -> (r: Result<VertexArray, GlError>)
        ensures
            raw != 0 ==> (r matches Ok(v) && v.id() == raw),
            raw == 0 ==> r == Err::<VertexArray, GlError>(GlError::VertexArrayCreation),
    {
        if raw == 0 {
            Err(GlError::VertexArrayCreation)
        } else {
            Ok(VertexArray { handle: raw })
        }
    }

    /// The handle to hand to driver calls that act on this object.
    pub fn handle(&self) -> (h: u32)
        ensures
            h == self.id(),
    {
        self.handle
    }

    /// Make this vertex array current.
    pub fn bind(&self, bindings: &mut BindingState)
        ensures
            final(bindings).bound_vertex_array == self.id(),
            final(bindings).bound_array_buffer == old(bindings).bound_array_buffer,
            final(bindings).active_program == old(bindings).active_program,
    {
        bindings.bound_vertex_array = self.handle;
    }

    /// Clear the current vertex-array binding.
    pub fn unbind(&self, bindings: &mut BindingState)
        ensures
            final(bindings).bound_vertex_array == 0,
            final(bindings).bound_array_buffer == old(bindings).bound_array_buffer,
            final(bindings).active_program == old(bindings).active_program,
    {
        bindings.bound_vertex_array = 0;
    }
}

/// A buffer object: one non-zero handle, plus the size of the allocation its
/// last upload made on the GPU (`None` before the first upload).
#[derive(Debug)]
pub struct Buffer {
    handle: u32,
    allocated: Option<usize>,
}

impl Buffer {
    /// The wrapped handle; never zero for a constructed wrapper.
    pub closed spec fn id(&self) -> u32 {
        self.handle
    }

    /// The byte size of the buffer's current GPU allocation, if any.
    pub closed spec fn allocation(&self) -> Option<usize> {
        self.allocated
    }

    /// The buffer after an upload of `len` bytes: the same handle, with the
    /// previous allocation replaced outright by one of `len` bytes.
    pub closed spec fn after_upload(self, len: usize) -> Buffer {
        Buffer { handle: self.handle, allocated: Some(len) }
    }

    /// Wrap the handle the driver returned for a buffer creation call. The
    /// zero handle signals creation failure and never ends up wrapped.
    pub fn new(raw: u32) -> (r: Result<Buffer, GlError>)
        ensures
            raw != 0 ==> (r matches Ok(b) && b.id() == raw && b.allocation() is None),
            raw == 0 ==> r == Err::<Buffer, GlError>(GlError::BufferCreation),
    {
        if raw == 0 {
            Err(GlError::BufferCreation)
        } else {
            Ok(Buffer { handle: raw, allocated: None })
        }
    }

    /// The handle to hand to driver calls that act on this object.
    pub fn handle(&self) -> (h: u32)
        ensures
            h == self.id(),
    {
        self.handle
    }

    /// The byte size of the buffer's current GPU allocation, if any.
    pub fn allocation_size(&self) -> (r: Option<usize>)
        ensures
            r == self.allocation(),
    {
        self.allocated
    }

    /// Bind this buffer to the given target.
    pub fn bind(&self, target: BufferTarget, bindings: &mut BindingState)
        ensures
            final(bindings).bound_array_buffer == self.id(),
            final(bindings).bound_vertex_array == old(bindings).bound_vertex_array,
            final(bindings).active_program == old(bindings).active_program,
    {
        match target {
            BufferTarget::ArrayBuffer => {
                bindings.bound_array_buffer = self.handle;
            },
        }
    }

    /// Clear the binding of the given target.
    pub fn unbind(&self, target: BufferTarget, bindings: &mut BindingState)
        ensures
            final(bindings).bound_array_buffer == 0,
            final(bindings).bound_vertex_array == old(bindings).bound_vertex_array,
            final(bindings).active_program == old(bindings).active_program,
    {
        match target {
            BufferTarget::ArrayBuffer => {
                bindings.bound_array_buffer = 0;
            },
        }
    }

    /// Record an upload of `bytes` into this buffer's storage. The driver's
    /// upload call acts on the buffer currently bound to the target, so this
    /// buffer must be the bound one. The new allocation is exactly as large
    /// as the data and replaces any previous one; the handle never changes.
    pub fn data(&mut self, target: BufferTarget, bindings: &BindingState, bytes: &Vec<u8>)
        requires
            bindings.bound_array_buffer == old(self).id(),
        ensures
            *final(self) == old(self).after_upload(bytes@.len() as usize),
            final(self).id() == old(self).id(),
            final(self).allocation() == Some(bytes@.len() as usize),
    {
        match target {
            BufferTarget::ArrayBuffer => {
                self.allocated = Some(bytes.len());
            },
        }
    }
}

/// Re-uploading replaces the previous allocation instead of adding a second
/// one: after two uploads the buffer records only the second size, and its
/// handle never changes.
pub proof fn lemma_reupload_replaces(b: Buffer, first_len: usize, second_len: usize)
    ensures
        b.after_upload(first_len).after_upload(second_len) == b.after_upload(second_len),
        b.after_upload(second_len).allocation() == Some(second_len),
        b.after_upload(second_len).id() == b.id(),
{
}

/// A shader object: a non-zero handle that is only ever wrapped after the
/// driver reported a successful compile, together with its stage.
#[derive(Debug)]
pub struct Shader {
    handle: u32,
    stage: ShaderStage,
}

impl Shader {
    /// The wrapped handle; never zero for a constructed wrapper.
    pub closed spec fn id(&self) -> u32 {
        self.handle
    }

    /// The pipeline stage this shader was compiled for.
    pub closed spec fn stage(&self) -> ShaderStage {
        self.stage
    }

    /// Judge the driver's compile outcome for one shader of the given stage:
    /// `raw` is the handle the creation call returned, `compiled` the
    /// compile-status flag, and `log` the diagnostic text retrieved from the
    /// driver. A zero handle is a creation failure; a failed compile yields
    /// an error carrying the stage and the log verbatim; only a successful
    /// compile of a real handle yields a shader.
    pub fn from_compile_result(stage: ShaderStage, raw: u32, compiled: bool, log: String) -> (r:
        Result<Shader, GlError>)
        ensures
            raw == 0 ==> r == Err::<Shader, GlError>(GlError::ShaderCreation(stage)),
            raw != 0 && compiled ==> (r matches Ok(s) && s.id() == raw && s.stage() == stage),
            raw != 0 && !compiled ==> (r matches Err(e)
                && e matches GlError::CompileFailed(failed_stage, text)
                && failed_stage == stage && text@ == log@),
    {
        if raw == 0 {
            Err(GlError::ShaderCreation(stage))
        } else if compiled {
            Ok(Shader { handle: raw, stage })
        } else {
            Err(GlError::CompileFailed(stage, log))
        }
    }

    /// The handle to hand to driver calls that act on this object.
    pub fn handle(&self) -> (h: u32)
        ensures
            h == self.id(),
    {
        self.handle
    }

    /// The pipeline stage this shader was compiled for.
    pub fn kind(&self) -> (k: ShaderStage)
        ensures
            k == self.stage(),
    {
        self.stage
    }

    /// Release the shader: consuming the wrapper makes release happen at most
    /// once. Returns the handle the binary must pass to the driver's delete
    /// call. Safe after linking, since the program keeps the compiled code.
    pub fn delete(self) -> (h: u32)
        ensures
            h == self.id(),
    {
        self.handle
    }
}

/// A program object: a non-zero handle, which stages have been attached so
/// far, and whether it has been linked into an executable pipeline.
#[derive(Debug)]
pub struct Program {
    handle: u32,
    has_vertex: bool,
    has_fragment: bool,
    linked: bool,
}

impl Program {
    /// The wrapped handle; never zero for a constructed wrapper.
    pub closed spec fn id(&self) -> u32 {
        self.handle
    }

    /// Whether a vertex-stage shader has been attached.
    pub closed spec fn has_vertex_attached(&self) -> bool {
        self.has_vertex
    }

    /// Whether a fragment-stage shader has been attached.
    pub closed spec fn has_fragment_attached(&self) -> bool {
        self.has_fragment
    }

    /// Whether the program has been linked successfully.
    pub closed spec fn is_linked(&self) -> bool {
        self.linked
    }

    /// Wrap the handle the driver returned for a program creation call. The
    /// zero handle signals creation failure and never ends up wrapped.
    pub fn new(raw: u32) -> (r: Result<Program, GlError>)
        ensures
            raw != 0 ==> (r matches Ok(p) && p.id() == raw && !p.has_vertex_attached()
                && !p.has_fragment_attached() && !p.is_linked()),
            raw == 0 ==> r == Err::<Program, GlError>(GlError::ProgramCreation),
    {
        if raw == 0 {
            Err(GlError::ProgramCreation)
        } else {
            Ok(Program { handle: raw, has_vertex: false, has_fragment: false, linked: false })
        }
    }

    /// The handle to hand to driver calls that act on this object.
    pub fn handle(&self) -> (h: u32)
        ensures
            h == self.id(),
    {
        self.handle
    }

    /// Whether a vertex-stage shader has been attached so far.
    pub fn vertex_attached(&self) -> (r: bool)
        ensures
            r == self.has_vertex_attached(),
    {
        self.has_vertex
    }

    /// Whether a fragment-stage shader has been attached so far.
    pub fn fragment_attached(&self) -> (r: bool)
        ensures
            r == self.has_fragment_attached(),
    {
        self.has_fragment
    }

    /// Whether the program has been linked successfully.
    pub fn linked(&self) -> (r: bool)
        ensures
            r == self.is_linked(),
    {
        self.linked
    }

    /// Record that a compiled shader was attached. Programs are linked once,
    /// so attaching happens before linking.
    pub fn attach(&mut self, shader: &Shader)
        requires
            !old(self).is_linked(),
        ensures
            final(self).id() == old(self).id(),
            final(self).has_vertex_attached() == (old(self).has_vertex_attached()
                || shader.stage() == ShaderStage::Vertex),
            final(self).has_fragment_attached() == (old(self).has_fragment_attached()
                || shader.stage() == ShaderStage::Fragment),
            !final(self).is_linked(),
    {
        match shader.stage {
            ShaderStage::Vertex => {
                self.has_vertex = true;
            },
            ShaderStage::Fragment => {
                self.has_fragment = true;
            },
        }
    }

    /// Judge the driver's link outcome. A program needs at least one vertex
    /// and one fragment shader attached before it can be linked, and is
    /// linked only once. Linking either succeeds — the program becomes
    /// executable — or fails with an error carrying the linker's log
    /// verbatim; it is never silent.
    pub fn link(&mut self, link_ok: bool, log: String) -> (r: Result<(), GlError>)
        requires
            old(self).has_vertex_attached(),
            old(self).has_fragment_attached(),
            !old(self).is_linked(),
        ensures
            final(self).id() == old(self).id(),
            final(self).has_vertex_attached() == old(self).has_vertex_attached(),
            final(self).has_fragment_attached() == old(self).has_fragment_attached(),
            final(self).is_linked() == link_ok,
            r is Ok <==> link_ok,
            !link_ok ==> (r matches Err(e) && e matches GlError::LinkFailed(text)
                && text@ == log@),
    {
        if link_ok {
            self.linked = true;
            Ok(())
        } else {
            Err(GlError::LinkFailed(log))
        }
    }

    /// Make this program the active one for subsequent draw calls. Only a
    /// linked program can be activated.
    pub fn use_program(&self, bindings: &mut BindingState)
        requires
            self.is_linked(),
        ensures
            final(bindings).active_program == self.id(),
            final(bindings).bound_vertex_array == old(bindings).bound_vertex_array,
            final(bindings).bound_array_buffer == old(bindings).bound_array_buffer,
    {
        bindings.active_program = self.handle;
    }
}

} // verus!
