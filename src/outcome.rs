use vstd::prelude::*;
use crate::handle::{BufferHandle, HandleState};

verus! {

/// Whether a call that reports failure with a message has failed (loading a
/// file or standard input, assembling, disassembling, appending metadata,
/// linking a module): any code other than zero means failure.
pub fn message_call_failed(return_code: i32) -> (r: bool)
    ensures
        r == (return_code != 0),
{
    return_code != 0
}

/// Reads a native yes/no answer (a size-limit check, an object-format check):
/// any code other than zero means yes.
pub fn answer_from_code(return_code: i32) -> (r: bool)
    ensures
        r == (return_code != 0),
{
    return_code != 0
}

/// Decides the result of a call that writes a new buffer through an output
/// parameter and reports failure by a non-zero code: on failure there is no
/// buffer (the caller then takes the error message), else the output handle
/// is owned by the caller from now on.
pub fn produced_buffer(return_code: i32, output: usize) -> (r: Option<BufferHandle>)
    requires
        return_code != 0 || output != 0,
    ensures
        r is None <==> return_code != 0,
        r matches Some(h) ==> h@.address == output as nat && h@.state == HandleState::Owned,
{
    if message_call_failed(return_code) {
        None
    } else {
        Some(BufferHandle::new(output))
    }
}

/// Decides the result of parsing a buffer into an object file: the native
/// runtime returns a null object when it cannot parse the contents.
pub fn parsed_object(object: usize) -> (r: Result<usize, ()>)
    ensures
        r is Err <==> object == 0,
        r matches Ok(o) ==> o == object,
{
    if object == 0 {
        Err(())
    } else {
        Ok(object)
    }
}

/// Decides the result of linking a deploy and runtime pair: a zero status is
/// a failure without detail, else both output handles are owned by the caller.
pub fn linked_pair(status: i32, deploy: usize, runtime: usize) -> (r: Result<
    (BufferHandle, BufferHandle),
    (),
>)
    requires
        status == 0 || (deploy != 0 && runtime != 0),
    ensures
        r is Err <==> status == 0,
        r matches Ok(p) ==> p.0@.address == deploy as nat && p.0@.state == HandleState::Owned
            && p.1@.address == runtime as nat && p.1@.state == HandleState::Owned,
{
    if status == 0 {
        Err(())
    } else {
        Ok((BufferHandle::new(deploy), BufferHandle::new(runtime)))
    }
}

/// The code-generation backends that offer buffer operations of their own.
#[derive(PartialEq, Eq, Structural, Clone, Copy, Debug)]
pub enum Backend {
    EraVM,
    Evm,
}

/// The backend-specific operations on buffers.
#[derive(PartialEq, Eq, Structural, Clone, Copy, Debug)]
pub enum Operation {
    Assemble,
    Disassemble,
    IsElf,
    AppendMetadata,
    ExceedsSizeLimit,
    UndefinedSymbols,
    LinkModule,
    LinkPair,
}

/// An operation was asked of a backend that does not offer it.
#[derive(PartialEq, Eq, Structural, Clone, Copy, Debug)]
pub struct Unsupported {
    pub backend: Backend,
    pub operation: Operation,
}

/// Which backend offers which operation: linking a deploy and runtime pair
/// belongs to EVM, every other operation to EraVM.
pub open spec fn offers(backend: Backend, operation: Operation) -> bool {
    match backend {
        Backend::Evm => operation == Operation::LinkPair,
        Backend::EraVM => operation != Operation::LinkPair,
    }
}

impl Backend {
    /// Whether this backend offers `operation`.
    pub fn supports(&self, operation: Operation) -> (r: bool)
        ensures
            r == offers(*self, operation),
    {
        match self {
            Backend::Evm => operation == Operation::LinkPair,
            Backend::EraVM => operation != Operation::LinkPair,
        }
    }

    /// Succeeds exactly when this backend offers `operation`, and names the
    /// pair otherwise.
    pub fn check(&self, operation: Operation) -> (r: Result<(), Unsupported>)
        ensures
            r is Ok <==> offers(*self, operation),
            r matches Err(e) ==> e.backend == *self && e.operation == operation,
    {
        if self.supports(operation) {
            Ok(())
        } else {
            Err(Unsupported { backend: *self, operation })
        }
    }
}

} // verus!
