use vstd::prelude::*;

verus! {

/// The shape of a sandbox value, named in type-mismatch reports.
#[derive(Clone, Copy, Debug, PartialEq, Eq, Structural)]
pub enum Shape {
    Str,
    Bool,
    Int,
    Float,
    Arr,
    Obj,
    Other,
}

/// Typed failures of the extraction core. Structural failures are never
/// swallowed: every one is returned to the immediate caller, and nothing is
/// retried internally.
#[derive(Clone, Copy, Debug, PartialEq, Eq, Structural)]
pub enum ExtractError {
    /// A network or IO failure, reported by the caller's transport and
    /// deferred through the page iterator.
    Transport,
    /// A malformed structured payload or a bad character encoding.
    Decode,
    /// A selector string does not parse.
    Selector,
    /// An expected markup node or attribute is absent.
    MissingNode,
    /// An anchor carries no resolvable URL attribute.
    MissingLink,
    /// An expected pattern capture is absent, or the pattern does not parse.
    PatternMatch,
    /// The script sandbox failed to evaluate a snippet.
    Script,
    /// A sandbox value had an unexpected shape: expected, then actual.
    TypeMismatch(Shape, Shape),
}

} // verus!
