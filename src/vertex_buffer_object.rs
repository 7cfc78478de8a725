use vstd::prelude::*;

use crate::gl_command::GlCommand;

verus! {

/// Owner of at most one GL buffer holding vertex data. The empty value is a
/// placeholder that holds no GPU object.
#[derive(Debug)]
pub struct VertexBufferObject {
    vbo: Option<u32>,
}

impl VertexBufferObject {
    /// The buffer owned, if any.
    pub closed spec fn handle(&self) -> Option<u32> {
        self.vbo
    }

    pub fn empty() -> (r: Self)
        ensures
            r.handle() == None::<u32>,
    {
        VertexBufferObject { vbo: None }
    }

    /// Takes ownership of a buffer that the host has just generated.
    pub fn new(vbo: u32) -> (r: Self)
        ensures
            r.handle() == Some(vbo),
    {
        VertexBufferObject { vbo: Some(vbo) }
    }

    pub fn inner_value(&self) -> (r: Option<u32>)
        ensures
            r == self.handle(),
    {
        self.vbo
    }

    /// The call that binds this buffer as the array buffer; an error when empty.
    pub fn activate(&self) -> (r: Result<GlCommand, ()>)
        ensures
            match self.handle() {
                Some(h) => r == Ok::<GlCommand, ()>(GlCommand::BindArrayBuffer(h)),
                None => r == Err::<GlCommand, ()>(()),
            },
    {
        match self.vbo {
            Some(vbo) => Ok(GlCommand::BindArrayBuffer(vbo)),
            None => Err(()),
        }
    }

    /// The calls that bind this buffer and upload `values` for static drawing;
    /// an error when empty.
    pub fn assign(&self, values: Vec<i8>) -> (r: Result<Vec<GlCommand>, ()>)
        ensures
            match self.handle() {
                Some(h) => r is Ok && r->Ok_0@ == seq![
                    GlCommand::BindArrayBuffer(h),
                    GlCommand::BufferStaticDraw { values },
                ],
                None => r == Err::<Vec<GlCommand>, ()>(()),
            },
    {
        match self.activate() {
            Ok(bind) => {
                let mut r: Vec<GlCommand> = Vec::new();
                r.push(bind);
                r.push(GlCommand::BufferStaticDraw { values });
                Ok(r)
            },
            Err(()) => Err(()),
        }
    }

    /// Gives the buffer up: the call that deletes it, once; afterwards the
    /// value is empty and a second release deletes nothing.
    pub fn release(&mut self) -> (r: Option<GlCommand>)
        ensures
            final(self).handle() == None::<u32>,
            match old(self).handle() {
                Some(h) => r == Some(GlCommand::DeleteBuffer(h)),
                None => r == None::<GlCommand>,
            },
    {
        match self.vbo.take() {
            Some(vbo) => Some(GlCommand::DeleteBuffer(vbo)),
            None => None,
        }
    }
}

} // verus!
