//! A function declaration as plain data, independent of any syntax tree.
use vstd::prelude::*;

verus! {

/// How a parameter is bound.
pub enum ParamPattern {
    /// A plain name, as in `peripherals: Peripherals`.
    Name(String),
    /// A `self` receiver.
    Receiver,
    /// Any other pattern, such as a tuple or struct destructuring.
    Destructure,
}

/// One parameter of a function declaration.
pub struct Param {
    pub pattern: ParamPattern,
    /// The parameter's type, as source text.
    pub ty: String,
}

/// The declared return type of a function.
pub enum ReturnType {
    /// No return type was written: the function returns `()`.
    Default,
    /// A return type was written; it is held as source text.
    Type(String),
}

/// The signature of a function that an attribute was applied to.
///
/// The function's body is not part of this record: it is carried through
/// to the generated code unchanged.
pub struct FunctionDecl {
    pub is_async: bool,
    pub is_unsafe: bool,
    pub params: Vec<Param>,
    pub output: ReturnType,
}

impl FunctionDecl {
    /// The number of parameters.
    pub fn arity(&self) -> (r: usize)
        ensures
            r == self.params@.len(),
    {
        self.params.len()
    }
}

} // verus!
