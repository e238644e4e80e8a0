//! Field validation of incoming requests: length, range and e-mail checks that
//! collect one error per failing field.
use vstd::prelude::*;
use validator::ValidateEmail;

verus! {

/// One failing field: its name, the kind of check that failed (`length`, `range`
/// or `email`) and the message configured for the check, if any.
#[derive(Debug)]
pub struct FieldError {
    /// Name of the field.
    pub field: String,
    /// Kind of check that failed.
    pub code: String,
    /// Message configured for the check.
    pub message: Option<String>,
}

/// The failing fields of a request, in the order of its fields.
#[derive(Debug)]
pub struct ValidationErrors {
    /// One entry per failing field.
    pub errors: Vec<FieldError>,
}

/// The names of the fields in a list of errors.
pub open spec fn field_names(errs: Seq<FieldError>) -> Seq<Seq<char>> {
    errs.map_values(|e: FieldError| e.field@)
}

/// Whether a length `n` lies within the optional bounds.
pub open spec fn length_ok(n: nat, min: Option<usize>, max: Option<usize>) -> bool {
    &&& (match min { Some(m) => n >= m, None => true })
    &&& (match max { Some(m) => n <= m, None => true })
}

/// Whether an optional string passes a length check: absent strings pass,
/// present ones are measured in characters.
pub open spec fn opt_length_ok(s: Option<String>, min: Option<usize>, max: Option<usize>) -> bool {
    match s {
        Some(v) => length_ok(v@.len(), min, max),
        None => true,
    }
}

/// Whether an optional number passes a range check: absent numbers pass.
pub open spec fn opt_range_ok(v: Option<u64>, min: u64, max: u64) -> bool {
    match v {
        Some(x) => min <= x <= max,
        None => true,
    }
}

/// The field `name` as a one-element list when `ok` fails, else nothing.
pub open spec fn failing(ok: bool, name: Seq<char>) -> Seq<Seq<char>> {
    if ok { Seq::empty() } else { seq![name] }
}

/// Whether `errs` is `old` with, when `ok` fails, one error for `field` of kind
/// `code` with the message `message`.
pub open spec fn recorded(
    errs: Seq<FieldError>,
    old: Seq<FieldError>,
    ok: bool,
    field: Seq<char>,
    code: Seq<char>,
    message: Option<Seq<char>>,
) -> bool {
    if ok {
        errs == old
    } else {
        &&& errs.len() == old.len() + 1
        &&& errs.subrange(0, old.len() as int) == old
        &&& errs.last().field@ == field
        &&& errs.last().code@ == code
        &&& match (errs.last().message, message) {
            (Some(a), Some(b)) => a@ == b,
            (None, None) => true,
            _ => false,
        }
    }
}

/// The view of an optional message.
pub open spec fn opt_view(m: Option<&str>) -> Option<Seq<char>> {
    match m {
        Some(s) => Some(s@),
        None => None,
    }
}

proof fn lemma_field_names_push(old: Seq<FieldError>, e: FieldError)
    ensures
        field_names(old.push(e)) == field_names(old).push(e.field@),
{
    assert(field_names(old.push(e)) =~= field_names(old).push(e.field@));
}

fn push_error(errs: &mut Vec<FieldError>, field: &str, code: &str, message: Option<&str>)
    ensures
        recorded(final(errs)@, old(errs)@, false, field@, code@, opt_view(message)),
        field_names(final(errs)@) == field_names(old(errs)@) + seq![field@],
{
    let m = match message {
        Some(s) => Some(s.to_string()),
        None => None,
    };
    let e = FieldError { field: field.to_string(), code: code.to_string(), message: m };
    proof {
        lemma_field_names_push(errs@, e);
    }
    errs.push(e);
    assert(errs@.subrange(0, old(errs)@.len() as int) =~= old(errs)@);
    assert(field_names(old(errs)@).push(field@) =~= field_names(old(errs)@) + seq![field@]);
}

/// Checks the character length of `value` against the bounds and records a
/// `length` error for `field` when it is out of them.
pub fn check_length(
    errs: &mut Vec<FieldError>,
    field: &str,
    value: &str,
    min: Option<usize>,
    max: Option<usize>,
    message: Option<&str>,
)
    ensures
        recorded(
            final(errs)@,
            old(errs)@,
            length_ok(value@.len(), min, max),
            field@,
            "length"@,
            opt_view(message),
        ),
        field_names(final(errs)@) == field_names(old(errs)@) + failing(
            length_ok(value@.len(), min, max),
            field@,
        ),
{
    let n = value.unicode_len();
    let ok_min = match min {
        Some(m) => n >= m,
        None => true,
    };
    let ok_max = match max {
        Some(m) => n <= m,
        None => true,
    };
    if !(ok_min && ok_max) {
        push_error(errs, field, "length", message);
    } else {
        assert(field_names(errs@) + failing(true, field@) =~= field_names(errs@));
    }
}

/// Like `check_length`, for an optional string: an absent one passes.
pub fn check_opt_length(
    errs: &mut Vec<FieldError>,
    field: &str,
    value: &Option<String>,
    min: Option<usize>,
    max: Option<usize>,
    message: Option<&str>,
)
    ensures
        recorded(
            final(errs)@,
            old(errs)@,
            opt_length_ok(*value, min, max),
            field@,
            "length"@,
            opt_view(message),
        ),
        field_names(final(errs)@) == field_names(old(errs)@) + failing(
            opt_length_ok(*value, min, max),
            field@,
        ),
{
    match value {
        Some(v) => check_length(errs, field, v.as_str(), min, max, message),
        None => {
            assert(field_names(errs@) + failing(true, field@) =~= field_names(errs@));
        },
    }
}

/// Checks that an optional number lies within `min..=max`, recording a `range`
/// error for `field` when it does not; an absent number passes.
pub fn check_opt_range(
    errs: &mut Vec<FieldError>,
    field: &str,
    value: Option<u64>,
    min: u64,
    max: u64,
    message: Option<&str>,
)
    ensures
        recorded(final(errs)@, old(errs)@, opt_range_ok(value, min, max), field@, "range"@, opt_view(message)),
        field_names(final(errs)@) == field_names(old(errs)@) + failing(opt_range_ok(value, min, max), field@),
{
    let ok = match value {
        Some(x) => min <= x && x <= max,
        None => true,
    };
    if !ok {
        push_error(errs, field, "range", message);
    } else {
        assert(field_names(errs@) + failing(true, field@) =~= field_names(errs@));
    }
}

/// What `ValidateEmail::validate_email` of the validator crate answers for a
/// string: the user part must match its user pattern and the domain part its
/// domain pattern (after IDNA conversion when needed).
pub uninterp spec fn email_accepted(s: Seq<char>) -> bool;

/// Calls `ValidateEmail::validate_email` on a string. The crate's source refuses an
/// empty string and one without `@` before anything else; the rest is named.
#[verifier::external_body]
fn validate_email_str(s: &str) -> (ok: bool)
    ensures
        ok == email_accepted(s@),
        (s@.len() == 0 || !s@.contains('@')) ==> !ok,
{
    s.validate_email()
}

/// Whether an optional address passes the e-mail check: absent ones pass.
pub open spec fn opt_email_ok(s: Option<String>) -> bool {
    match s {
        Some(v) => email_accepted(v@),
        None => true,
    }
}

/// Checks an optional e-mail address, recording an `email` error for `field` when
/// it is present and refused.
pub fn check_opt_email(errs: &mut Vec<FieldError>, field: &str, value: &Option<String>, message: Option<&str>)
    ensures
        recorded(final(errs)@, old(errs)@, opt_email_ok(*value), field@, "email"@, opt_view(message)),
        field_names(final(errs)@) == field_names(old(errs)@) + failing(opt_email_ok(*value), field@),
{
    let ok = match value {
        Some(v) => validate_email_str(v.as_str()),
        None => true,
    };
    if !ok {
        push_error(errs, field, "email", message);
    } else {
        assert(field_names(errs@) + failing(true, field@) =~= field_names(errs@));
    }
}

/// `Ok` when no error was recorded, else the errors.
pub fn finish(errs: Vec<FieldError>) -> (r: Result<(), ValidationErrors>)
    ensures
        r is Ok <==> errs@.len() == 0,
        r matches Err(e) ==> e.errors@ == errs@,
{
    if errs.len() == 0 {
        Ok(())
    } else {
        Err(ValidationErrors { errors: errs })
    }
}

} // verus!
