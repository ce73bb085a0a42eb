use vstd::prelude::*;

verus! {

/// Everything that can go wrong while building a block. Both variants arise
/// at construction time only; once a block exists, its operations are total.
#[derive(Clone, Copy, PartialEq, Eq, Structural, Debug)]
pub enum BlockError {
    /// An interval length or the round count in the configuration is zero.
    ConfigurationError,
    /// The format string holds a malformed or unrecognized placeholder.
    TemplateError,
}

} // verus!
