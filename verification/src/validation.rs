use vstd::prelude::*;

verus! {

#[verifier::external_type_specification]
#[verifier::external_body]
pub struct ExValidationErrors(validator::ValidationErrors);

/// The field-level entries of a `validator::ValidationErrors`: for each field,
/// the codes of its errors in the order they were added.
pub uninterp spec fn field_error_codes(e: validator::ValidationErrors) -> Map<Seq<char>, Seq<Seq<char>>>;

/// The fields of a `validator::ValidationErrors` that hold nested errors in
/// place of a list of field-level errors.
pub uninterp spec fn nested_error_fields(e: validator::ValidationErrors) -> Set<Seq<char>>;

/// Whether the text is an e-mail address by `validator`'s rules (the HTML5
/// form of a user part, `@` and a domain, with length limits on both parts).
pub uninterp spec fn is_email_text(s: Seq<char>) -> bool;

/// Whether the text parses as a URL (`url::Url::parse`, as `validator` checks it).
pub uninterp spec fn is_url_text(s: Seq<char>) -> bool;

/// `validator::ValidateEmail::validate_email` on a `String`. Its result is named;
/// its source rejects the empty text and any text without `@` before anything else.
#[verifier::external_body]
pub(crate) fn validate_email(s: &String) -> (r: bool)
    ensures
        r == is_email_text(s@),
        s@.len() == 0 ==> !r,
        !s@.contains('@') ==> !r,
{
    validator::ValidateEmail::validate_email(s)
}

/// `validator::ValidateUrl::validate_url` on a `String`: whether `url::Url::parse`
/// accepts it. Its result is named.
#[verifier::external_body]
pub(crate) fn validate_url(s: &String) -> (r: bool)
    ensures
        r == is_url_text(s@),
{
    validator::ValidateUrl::validate_url(s)
}

/// `validator::ValidateLength::validate_length` on a `String` with only a minimum:
/// the length it measures is the number of `char`s.
#[verifier::external_body]
pub(crate) fn validate_min_length(s: &String, min: u64) -> (r: bool)
    ensures
        r == (s@.len() >= min),
{
    validator::ValidateLength::validate_length(s, Some(min), None, None)
}

/// The fields of a `validator::ValidationErrors` whose first field-level error
/// carries no custom message, so that its display text is generated from its
/// code and parameters.
pub uninterp spec fn message_free_fields(e: validator::ValidationErrors) -> Set<Seq<char>>;

/// The text contains `part` somewhere.
pub open spec fn contains_text(text: Seq<char>, part: Seq<char>) -> bool {
    exists|i: int| 0 <= i && i + part.len() <= text.len() && #[trigger] text.subrange(i, i + part.len()) == part
}

/// How the display text of field errors begins for a field whose first error
/// has the given code and no custom message; its parameters follow the bracket.
pub open spec fn field_error_head(field: Seq<char>, code: Seq<char>) -> Seq<char> {
    field + ": Validation error: "@ + code + " ["@
}

/// The text mentions, for each field of `m` that has an error, the field and
/// the code of its first error.
pub open spec fn reports_field_errors(text: Seq<char>, m: Map<Seq<char>, Seq<Seq<char>>>) -> bool {
    forall|f: Seq<char>|
        #![trigger m[f]]
        m.dom().contains(f) && m[f].len() > 0 ==> contains_text(text, field_error_head(f, m[f][0]))
}

/// `validator::ValidationErrors::new`: no entries.
#[verifier::external_body]
pub(crate) fn new_validation_errors() -> (r: validator::ValidationErrors)
    ensures
        field_error_codes(r).dom().is_empty(),
        nested_error_fields(r).is_empty(),
        message_free_fields(r).is_empty(),
{
    validator::ValidationErrors::new()
}

/// `ValidationErrors::add` under `field` of `ValidationError::new(code)` with
/// the checked text as its `value` parameter, as `validator`'s derive reports a
/// failed `email` or `url` check. `add` panics when the field holds nested
/// errors, so that is excluded.
#[verifier::external_body]
pub(crate) fn add_value_error(
    errors: &mut validator::ValidationErrors,
    field: &'static str,
    code: &'static str,
    value: &String,
)
    requires
        !nested_error_fields(*old(errors)).contains(field@),
    ensures
        field_error_codes(*final(errors)) == field_error_codes(*old(errors)).insert(
            field@,
            if field_error_codes(*old(errors)).contains_key(field@) {
                field_error_codes(*old(errors))[field@].push(code@)
            } else {
                seq![code@]
            },
        ),
        nested_error_fields(*final(errors)) == nested_error_fields(*old(errors)),
        message_free_fields(*final(errors)) == if field_error_codes(*old(errors)).contains_key(field@) {
            message_free_fields(*old(errors))
        } else {
            message_free_fields(*old(errors)).insert(field@)
        },
{
    let mut error = validator::ValidationError::new(code);
    error.add_param(std::borrow::Cow::from("value"), value);
    errors.add(field, error)
}

/// `ValidationErrors::add` under `field` of `ValidationError::new(code)` with
/// the `min` and `value` parameters, as `validator`'s derive reports a failed
/// `length(min = ..)` check. `add` panics when the field holds nested errors,
/// so that is excluded.
#[verifier::external_body]
pub(crate) fn add_length_error(
    errors: &mut validator::ValidationErrors,
    field: &'static str,
    code: &'static str,
    min: u64,
    value: &String,
)
    requires
        !nested_error_fields(*old(errors)).contains(field@),
    ensures
        field_error_codes(*final(errors)) == field_error_codes(*old(errors)).insert(
            field@,
            if field_error_codes(*old(errors)).contains_key(field@) {
                field_error_codes(*old(errors))[field@].push(code@)
            } else {
                seq![code@]
            },
        ),
        nested_error_fields(*final(errors)) == nested_error_fields(*old(errors)),
        message_free_fields(*final(errors)) == if field_error_codes(*old(errors)).contains_key(field@) {
            message_free_fields(*old(errors))
        } else {
            message_free_fields(*old(errors)).insert(field@)
        },
{
    let mut error = validator::ValidationError::new(code);
    error.add_param(std::borrow::Cow::from("min"), &min);
    error.add_param(std::borrow::Cow::from("value"), value);
    errors.add(field, error)
}

/// `ValidationErrors::add` under `field` of `ValidationError::new(code)` with
/// the checked list as its `value` parameter, as `validator`'s derive reports a
/// failed `custom` check on a list. `add` panics when the field holds nested
/// errors, so that is excluded.
#[verifier::external_body]
pub(crate) fn add_list_error(
    errors: &mut validator::ValidationErrors,
    field: &'static str,
    code: &'static str,
    value: &Vec<String>,
)
    requires
        !nested_error_fields(*old(errors)).contains(field@),
    ensures
        field_error_codes(*final(errors)) == field_error_codes(*old(errors)).insert(
            field@,
            if field_error_codes(*old(errors)).contains_key(field@) {
                field_error_codes(*old(errors))[field@].push(code@)
            } else {
                seq![code@]
            },
        ),
        nested_error_fields(*final(errors)) == nested_error_fields(*old(errors)),
        message_free_fields(*final(errors)) == if field_error_codes(*old(errors)).contains_key(field@) {
            message_free_fields(*old(errors))
        } else {
            message_free_fields(*old(errors)).insert(field@)
        },
{
    let mut error = validator::ValidationError::new(code);
    error.add_param(std::borrow::Cow::from("value"), value);
    errors.add(field, error)
}

/// The display text of `validator::ValidationErrors`: one line per entry, in
/// the order of a hash map that each process seeds, a field's line being its
/// name, `: ` and its errors. An error without a custom message shows as
/// `Validation error: `, its code, and its parameters in brackets in their
/// `Debug` form (again a seeded hash map). What is stated is what holds in any
/// order: the text holds, for each field whose first error has no custom
/// message, the field's name and that error's code up to the bracket. The
/// parameters, custom messages and the order of the lines are left unsaid.
#[verifier::external_body]
pub(crate) fn validation_errors_text(errors: &validator::ValidationErrors) -> (r: String)
    ensures
        reports_field_errors(r@, field_error_codes(*errors).restrict(message_free_fields(*errors))),
{
    errors.to_string()
}

} // verus!
