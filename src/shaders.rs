use vstd::prelude::*;

verus! {

/// A compiled shader stage, by its backend handle.
pub struct Shader {
    id: u32,
}

impl Shader {
    pub closed spec fn spec_id(&self) -> u32 {
        self.id
    }

    /// Accepts the stage `id` when the backend reports it compiled; otherwise
    /// hands back the compiler's diagnostic, since a program cannot be built
    /// from it.
    pub fn from_compiled(id: u32, compiled: bool, log: String) -> (r: Result<Shader, String>)
        ensures
            r is Ok <==> compiled,
            r matches Ok(s) ==> s.spec_id() == id,
            r matches Err(e) ==> e@ == log@,
    {
        if compiled {
            Ok(Shader { id })
        } else {
            Err(log)
        }
    }

    pub fn id(&self) -> (r: u32)
        ensures
            r == self.spec_id(),
    {
        self.id
    }
}

/// A linked shader program, by its backend handle.
pub struct ShaderProgram {
    id: u32,
}

impl ShaderProgram {
    pub closed spec fn spec_id(&self) -> u32 {
        self.id
    }

    /// Accepts the program `id` when the backend reports it linked; otherwise
    /// hands back the linker's diagnostic.
    pub fn from_linked(id: u32, linked: bool, log: String) -> (r: Result<ShaderProgram, String>)
        ensures
            r is Ok <==> linked,
            r matches Ok(p) ==> p.spec_id() == id,
            r matches Err(e) ==> e@ == log@,
    {
        if linked {
            Ok(ShaderProgram { id })
        } else {
            Err(log)
        }
    }

    pub fn id(&self) -> (r: u32)
        ensures
            r == self.spec_id(),
    {
        self.id
    }
}

} // verus!
