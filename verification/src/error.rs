//! Why a schema cannot be rendered as source text.

use vstd::prelude::*;

verus! {

/// A part of a schema that cannot stand in source text.
#[derive(Debug)]
pub enum EmitError {
    /// A table or field name that is not an identifier.
    InvalidIdentifier(String),
    /// A member type whose text is not a type.
    InvalidType(String),
}

/// An emission error as plain text.
pub enum EmitErrorView {
    InvalidIdentifier(Seq<char>),
    InvalidType(Seq<char>),
}

impl View for EmitError {
    type V = EmitErrorView;

    open spec fn view(&self) -> EmitErrorView {
        match self {
            EmitError::InvalidIdentifier(name) => EmitErrorView::InvalidIdentifier(name@),
            EmitError::InvalidType(text) => EmitErrorView::InvalidType(text@),
        }
    }
}

/// The view of an optional error.
pub open spec fn error_view(e: Option<EmitError>) -> Option<EmitErrorView> {
    match e {
        Some(e) => Some(e@),
        None => None,
    }
}

/// The message of an emission error.
pub open spec fn error_message(e: EmitErrorView) -> Seq<char> {
    match e {
        EmitErrorView::InvalidIdentifier(name) => "not a valid identifier: "@ + name,
        EmitErrorView::InvalidType(text) => "not a valid type: "@ + text,
    }
}

/// The first error in a list of checks, in list order.
pub open spec fn first_error(checks: Seq<Option<EmitErrorView>>) -> Option<EmitErrorView>
    decreases checks.len(),
{
    if checks.len() == 0 {
        None
    } else {
        match first_error(checks.drop_last()) {
            Some(e) => Some(e),
            None => checks.last(),
        }
    }
}

/// An error found among the first `k` checks is the first error of all.
pub proof fn lemma_first_error_prefix(checks: Seq<Option<EmitErrorView>>, k: int)
    requires
        0 <= k <= checks.len(),
        first_error(checks.take(k)) is Some,
    ensures
        first_error(checks) == first_error(checks.take(k)),
    decreases checks.len() - k,
{
    if k == checks.len() {
        assert(checks.take(k) =~= checks);
    } else {
        assert(checks.drop_last().take(k) =~= checks.take(k));
        lemma_first_error_prefix(checks.drop_last(), k);
    }
}

/// Extending a list of passed checks by one: the first error of the longer
/// list is whatever the added check says.
pub proof fn lemma_first_error_step(checks: Seq<Option<EmitErrorView>>, k: int)
    requires
        0 <= k < checks.len(),
        first_error(checks.take(k)) is None,
    ensures
        first_error(checks.take(k + 1)) == checks[k],
{
    assert(checks.take(k + 1).drop_last() =~= checks.take(k));
}

/// A list of checks has no first error exactly when every check passed.
pub proof fn lemma_first_error_none(checks: Seq<Option<EmitErrorView>>)
    ensures
        first_error(checks) is None <==> forall|i: int|
            0 <= i < checks.len() ==> (#[trigger] checks[i]) is None,
    decreases checks.len(),
{
    if checks.len() > 0 {
        let rest = checks.drop_last();
        lemma_first_error_none(rest);
        if first_error(checks) is None {
            assert forall|i: int| 0 <= i < checks.len() implies (#[trigger] checks[i]) is None by {
                if i < rest.len() {
                    assert(rest[i] == checks[i]);
                }
            }
        }
        if forall|i: int| 0 <= i < checks.len() ==> (#[trigger] checks[i]) is None {
            assert forall|i: int| 0 <= i < rest.len() implies (#[trigger] rest[i]) is None by {
                assert(rest[i] == checks[i]);
            }
            assert(checks.last() == checks[checks.len() - 1]);
        }
    }
}

impl EmitError {
    /// Renders the error as a message.
    pub fn message(&self) -> (out: String)
        ensures
            out@ == error_message(self@),
    {
        match self {
            EmitError::InvalidIdentifier(name) => {
                let mut out = String::from_str("not a valid identifier: ");
                out.append(name.as_str());
                out
            },
            EmitError::InvalidType(text) => {
                let mut out = String::from_str("not a valid type: ");
                out.append(text.as_str());
                out
            },
        }
    }
}

} // verus!
