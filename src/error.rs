use vstd::prelude::*;

verus! {

/// Why a parse or a field lookup failed.
#[derive(Clone, Copy, Debug, PartialEq, Eq, Structural)]
pub enum EbmlError {
    /// The input ended before a length field's demand was met; `offset` is
    /// where the element being read starts.
    TruncatedInput { offset: u64 },
    /// The stream does not start with the EBML signature.
    BadSignature,
    /// A text field of element `id` is not well-formed UTF-8.
    InvalidEncoding { id: u64 },
    /// A mandatory child element `id` is absent.
    MissingField { id: u64 },
    /// The element at `offset` does not fit in what is left of its parent.
    SpanMismatch { offset: u64 },
}

} // verus!
