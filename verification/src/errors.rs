//! The parse failure taxonomy: malformed JSON, a schema mismatch at a named
//! field path, or an integer-encoded boolean outside {0, 1}.

use vstd::prelude::*;

verus! {

/// Spec-level form of a parse failure: the kind, and the breadcrumb path of
/// the offending field where one is known.
#[verifier::ext_equal]
pub ghost enum ErrV {
    Malformed,
    Schema { path: Seq<char> },
    BadBool { path: Seq<char> },
}

/// A failed parse.  The whole document is rejected: callers never see a
/// half-populated model.
#[derive(Clone, Debug, PartialEq, Eq)]
pub enum ParseError {
    /// The input text is not syntactically valid JSON, or holds a number
    /// beyond the library's exact decimal range.
    MalformedDocument,
    /// A required field is missing or carries the wrong JSON type; `path` is
    /// the dotted breadcrumb of the field, `menu.bm.stats.memoryOD` style.
    SchemaMismatch { path: String },
    /// A wire-integer boolean field holds a value other than 0 or 1.
    InvalidBooleanEncoding { path: String },
}

impl View for ParseError {
    type V = ErrV;

    open spec fn view(&self) -> ErrV {
        match self {
            ParseError::MalformedDocument => ErrV::Malformed,
            ParseError::SchemaMismatch { path } => ErrV::Schema { path: path@ },
            ParseError::InvalidBooleanEncoding { path } => ErrV::BadBool { path: path@ },
        }
    }
}

impl ParseError {
    /// The breadcrumb path carried by the failure, empty for a malformed
    /// document.
    pub fn path_text(&self) -> (r: &str)
        ensures
            (match self@ {
                ErrV::Malformed => r@ == Seq::<char>::empty(),
                ErrV::Schema { path } => r@ == path,
                ErrV::BadBool { path } => r@ == path,
            }),
    {
        match self {
            ParseError::MalformedDocument => {
                proof {
                    reveal_strlit("");
                }
                ""
            },
            ParseError::SchemaMismatch { path } => path.as_str(),
            ParseError::InvalidBooleanEncoding { path } => path.as_str(),
        }
    }
}

/// A result whose error is seen through its view, for contracts that speak of
/// plain payloads.
pub open spec fn res_p<T>(r: Result<T, ParseError>) -> Result<T, ErrV> {
    match r {
        Ok(t) => Ok(t),
        Err(e) => Err(e@),
    }
}

/// A result seen through the views of both its payload and its error.
pub open spec fn res_v<T: View>(r: Result<T, ParseError>) -> Result<T::V, ErrV> {
    match r {
        Ok(t) => Ok(t@),
        Err(e) => Err(e@),
    }
}

} // verus!
