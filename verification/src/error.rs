use vstd::prelude::*;

verus! {

/// Number of additional input units that a streaming parser needs to make progress.
#[derive(Clone, Copy, Debug, PartialEq, Eq, Structural)]
pub enum Needed {
    /// The parser cannot tell how much more input it needs.
    Unknown,
    /// The parser needs this many more units (bytes, or bits for bit parsers).
    Size(usize),
}

/// Failure of a parser.
#[derive(Clone, Copy, Debug, PartialEq, Eq, Structural)]
pub enum ParseError {
    /// The input ended before the parser could finish.
    Incomplete(Needed),
    /// The input does not match the grammar.
    Error,
}

/// Result of a byte parser: the remaining input and the parsed value.
pub type PResult<'a, T> = Result<(&'a [u8], T), ParseError>;

/// Specification-level result of a byte parser: the parsed value and the remaining input.
pub type SpecResult<V> = Result<(V, Seq<u8>), ParseError>;

/// A byte parser's result agrees with its specification.
pub open spec fn parsed_as<T: DeepView>(r: PResult<T>, spec: SpecResult<T::V>) -> bool {
    match (r, spec) {
        (Ok((rest, v)), Ok((m, srest))) => rest@ == srest && v.deep_view() == m,
        (Err(e1), Err(e2)) => e1 == e2,
        _ => false,
    }
}

/// A parser that knows that its input is complete: running short of input is an error.
pub open spec fn spec_complete<V>(r: SpecResult<V>) -> SpecResult<V> {
    match r {
        Err(ParseError::Incomplete(_)) => Err(ParseError::Error),
        _ => r,
    }
}

/// Exec counterpart of `spec_complete`.
pub fn complete<'a, T>(r: PResult<'a, T>) -> (o: PResult<'a, T>)
    ensures
        o == match r {
            Err(ParseError::Incomplete(_)) => Err(ParseError::Error),
            _ => r,
        },
{
    match r {
        Err(ParseError::Incomplete(_)) => Err(ParseError::Error),
        _ => r,
    }
}

/// Sequencing of specification-level parsers: runs `f` on the value and the rest of `r`.
pub open spec fn sbind<A, B>(r: SpecResult<A>, f: spec_fn(A, Seq<u8>) -> SpecResult<B>) -> SpecResult<B> {
    match r {
        Ok((a, rest)) => f(a, rest),
        Err(e) => Err(e),
    }
}

/// Optional field: the result of `r` when `c` holds, else no value and no input consumed.
pub open spec fn sopt<A>(c: bool, s: Seq<u8>, r: SpecResult<A>) -> SpecResult<Option<A>> {
    if c {
        match r {
            Ok((a, rest)) => Ok((Some(a), rest)),
            Err(e) => Err(e),
        }
    } else {
        Ok((None, s))
    }
}

} // verus!
