//! Checks on what a caller sent, before anything is looked up.

use vstd::prelude::*;

verus! {

/// Whether `text` is an e-mail address as `validator::validate_email`
/// judges it.
pub uninterp spec fn valid_email(text: Seq<char>) -> bool;

/// `validator::validate_email`.
///
/// Trusted: the result is what `valid_email` names.
#[verifier::external_body]
pub(crate) fn email_is_valid(text: &str) -> (r: bool)
    ensures
        r == valid_email(text@),
{
    validator::validate_email(text)
}

/// Whether a text of `len` characters is within the bounds, each of
/// which may be absent.
pub open spec fn within(len: nat, min: Option<u64>, max: Option<u64>) -> bool {
    &&& (min matches Some(m) ==> len >= m)
    &&& (max matches Some(m) ==> len <= m)
}

/// `validator::validate_length` without an exact length: counts the
/// characters of the text and holds the count against the bounds.
///
/// Trusted: the result says whether the number of characters is within
/// the bounds.
#[verifier::external_body]
pub(crate) fn length_is_within(text: &str, min: Option<u64>, max: Option<u64>) -> (r: bool)
    ensures
        r == within(text@.len(), min, max),
{
    validator::validate_length(text, min, max, None)
}

/// What is wrong with one field of a request.
#[derive(Debug)]
pub struct FieldError {
    pub field: String,
    pub message: String,
}

/// Mathematical content of a field error.
pub struct FieldErrorView {
    pub field: Seq<char>,
    pub message: Seq<char>,
}

impl View for FieldError {
    type V = FieldErrorView;

    open spec fn view(&self) -> FieldErrorView {
        FieldErrorView { field: self.field@, message: self.message@ }
    }
}

/// Mathematical content of a list of field errors.
pub open spec fn errors_of(v: Seq<FieldError>) -> Seq<FieldErrorView> {
    v.map_values(|e: FieldError| e@)
}

/// `field: message` for each error, joined by `, `.
pub open spec fn joined(errors: Seq<FieldErrorView>) -> Seq<char>
    decreases errors.len(),
{
    if errors.len() == 0 {
        Seq::<char>::empty()
    } else if errors.len() == 1 {
        errors[0].field + ": "@ + errors[0].message
    } else {
        joined(errors.drop_last()) + ", "@ + errors.last().field + ": "@ + errors.last().message
    }
}

/// `field: message` for each error, joined by `, `.
pub fn join_errors(errors: &Vec<FieldError>) -> (r: String)
    ensures
        r@ == joined(errors_of(errors@)),
{
    let mut out = String::new();
    let mut i: usize = 0;
    proof {
        assert(errors_of(errors@).take(0) =~= Seq::<FieldErrorView>::empty());
    }
    while i < errors.len()
        invariant
            i <= errors.len(),
            out@ == joined(errors_of(errors@).take(i as int)),
        decreases errors.len() - i,
    {
        let ghost done = errors_of(errors@).take(i as int);
        let ghost next = errors_of(errors@).take(i + 1);
        proof {
            assert(next.drop_last() =~= done);
            assert(next.last() == errors@[i as int]@);
        }
        if i > 0 {
            out.append(", ");
        }
        out.append(errors[i].field.as_str());
        out.append(": ");
        out.append(errors[i].message.as_str());
        proof {
            if i == 0 {
                assert(next[0] == errors@[0]@);
                assert(out@ =~= joined(next));
            }
        }
        i = i + 1;
    }
    proof {
        assert(errors_of(errors@).take(errors@.len() as int) =~= errors_of(errors@));
    }
    out
}

} // verus!
