use vstd::prelude::*;

use crate::gl_command::GlCommand;

verus! {

/// Owner of at most one GL vertex array. The empty value is a placeholder
/// that holds no GPU object yet (or no longer).
#[derive(Debug)]
pub struct VertexArrayObject {
    vao: Option<u32>,
}

impl VertexArrayObject {
    /// The vertex array owned, if any.
    pub closed spec fn handle(&self) -> Option<u32> {
        self.vao
    }

    pub fn empty() -> (r: Self)
        ensures
            r.handle() == None::<u32>,
    {
        VertexArrayObject { vao: None }
    }

    /// Takes ownership of a vertex array that the host has just generated.
    pub fn new(vao: u32) -> (r: Self)
        ensures
            r.handle() == Some(vao),
    {
        VertexArrayObject { vao: Some(vao) }
    }

    pub fn inner_value(&self) -> (r: Option<u32>)
        ensures
            r == self.handle(),
    {
        self.vao
    }

    /// The call that makes this vertex array current; an error when empty.
    pub fn activate(&self) -> (r: Result<GlCommand, ()>)
        ensures
            match self.handle() {
                Some(h) => r == Ok::<GlCommand, ()>(GlCommand::BindVertexArray(h)),
                None => r == Err::<GlCommand, ()>(()),
            },
    {
        match self.vao {
            Some(vao) => Ok(GlCommand::BindVertexArray(vao)),
            None => Err(()),
        }
    }

    /// The calls that describe float attribute `index` of `size` components,
    /// normalized or not, `stride` floats apart, starting `offset` floats into
    /// each vertex, and enable it.
    pub fn append(index: u32, size: i32, normalized: bool, stride: i32, offset: i32) -> (r: Vec<
        GlCommand,
    >)
        ensures
            r@ == seq![
                GlCommand::VertexAttribPointer { index, size, normalized, stride, offset },
                GlCommand::EnableVertexAttribArray(index),
            ],
    {
        let mut r: Vec<GlCommand> = Vec::new();
        r.push(GlCommand::VertexAttribPointer { index, size, normalized, stride, offset });
        r.push(GlCommand::EnableVertexAttribArray(index));
        r
    }

    /// Gives the vertex array up: the call that deletes it, once; afterwards
    /// the value is empty and a second release deletes nothing.
    pub fn release(&mut self) -> (r: Option<GlCommand>)
        ensures
            final(self).handle() == None::<u32>,
            match old(self).handle() {
                Some(h) => r == Some(GlCommand::DeleteVertexArray(h)),
                None => r == None::<GlCommand>,
            },
    {
        match self.vao.take() {
            Some(vao) => Some(GlCommand::DeleteVertexArray(vao)),
            None => None,
        }
    }
}

} // verus!
