//! Commands that arrive as an `application/x-www-form-urlencoded` body.
//!
//! The body is decoded by `serde_urlencoded`; picking the command out of
//! the decoded fields is done here.

use vstd::prelude::*;

verus! {

/// Name of the form field that carries the command text.
pub const COMMAND_FIELD: &'static str = "message";

/// Why a command was turned away.
#[derive(Clone, Copy, Debug, PartialEq, Eq, Structural)]
pub enum ValidationError {
    /// The command text is longer than the bridge allows.
    TooLong,
    /// The body is no form that could be decoded.
    Malformed,
    /// The form has no field with the command text.
    MissingField,
    /// The form has more than one field with the command text.
    DuplicateField,
}

/// The error type of `serde_urlencoded::from_bytes`. It is carried from the
/// decoder to the place that turns it into `Malformed`; nothing is read
/// from it.
#[verifier::external_type_specification]
#[verifier::external_body]
pub struct ExFormDecodeError(serde_urlencoded::de::Error);

/// The fields, as names and values in the order of the body, that
/// `serde_urlencoded::from_bytes` decodes from `body`, or `None` where it
/// reports an error.
pub uninterp spec fn decoded_form(body: Seq<u8>) -> Option<Seq<(Seq<char>, Seq<char>)>>;

/// What a list of decoded fields stands for.
pub open spec fn field_views(fields: Seq<(String, String)>) -> Seq<(Seq<char>, Seq<char>)> {
    fields.map_values(|field: (String, String)| (field.0@, field.1@))
}

/// Decodes `body` with `serde_urlencoded::from_bytes` into its fields.
/// Nothing is proved of the decoding; the contract only names its result,
/// which depends on the bytes of `body` alone.
#[verifier::external_body]
fn decode_form(body: &[u8]) -> (decoded: Result<Vec<(String, String)>, serde_urlencoded::de::Error>)
    ensures
        match decoded {
            Ok(fields) => decoded_form(body@) == Some(field_views(fields@)),
            Err(_) => decoded_form(body@) is None,
        },
{
    serde_urlencoded::from_bytes::<Vec<(String, String)>>(body)
}

/// The values of all fields called `name`, in the order of the form.
pub open spec fn field_values(fields: Seq<(Seq<char>, Seq<char>)>, name: Seq<char>) -> Seq<
    Seq<char>,
>
    decreases fields.len(),
{
    if fields.len() == 0 {
        Seq::empty()
    } else if fields.last().0 == name {
        field_values(fields.drop_last(), name).push(fields.last().1)
    } else {
        field_values(fields.drop_last(), name)
    }
}

/// The value of the one field called `name`; a form without such a field,
/// or with several, is refused.
pub open spec fn single_field(fields: Seq<(Seq<char>, Seq<char>)>, name: Seq<char>) -> Result<
    Seq<char>,
    ValidationError,
> {
    let values = field_values(fields, name);
    if values.len() == 0 {
        Err(ValidationError::MissingField)
    } else if values.len() == 1 {
        Ok(values[0])
    } else {
        Err(ValidationError::DuplicateField)
    }
}

/// The command text of a decoded form, or the reason why it has none.
pub open spec fn command_text(decoded: Option<Seq<(Seq<char>, Seq<char>)>>) -> Result<
    Seq<char>,
    ValidationError,
> {
    match decoded {
        Some(fields) => single_field(fields, COMMAND_FIELD@),
        None => Err(ValidationError::Malformed),
    }
}

/// What the outcome of a decoding stands for.
pub open spec fn decoded_fields(decoded: Option<Vec<(String, String)>>) -> Option<
    Seq<(Seq<char>, Seq<char>)>,
> {
    match decoded {
        Some(fields) => Some(field_views(fields@)),
        None => None,
    }
}

/// Picks the value of the one field called `name` out of decoded fields.
pub fn find_field(fields: &Vec<(String, String)>, name: &str) -> (value: Result<
    String,
    ValidationError,
>)
    ensures
        match value {
            Ok(text) => single_field(field_views(fields@), name@) == Ok::<
                Seq<char>,
                ValidationError,
            >(text@),
            Err(e) => single_field(field_views(fields@), name@) == Err::<
                Seq<char>,
                ValidationError,
            >(e),
        },
{
    let wanted: String = name.to_owned();
    let ghost views = field_views(fields@);
    let mut first: Option<String> = None;
    let mut several: bool = false;
    let mut i: usize = 0;
    assert(views.take(0) =~= Seq::empty());
    while i < fields.len()
        invariant
            i <= fields.len(),
            views == field_views(fields@),
            wanted@ == name@,
            first is None <==> field_values(views.take(i as int), name@).len() == 0,
            first matches Some(text) ==> text@ == field_values(views.take(i as int), name@)[0],
            several <==> field_values(views.take(i as int), name@).len() >= 2,
        decreases fields.len() - i,
    {
        proof {
            assert(views.take(i + 1).drop_last() =~= views.take(i as int));
            assert(views.take(i + 1).last() == (fields@[i as int].0@, fields@[i as int].1@));
        }
        if fields[i].0 == wanted {
            if first.is_none() {
                first = Some(fields[i].1.clone());
            } else {
                several = true;
            }
        }
        i = i + 1;
    }
    assert(views.take(i as int) =~= views);
    match first {
        None => Err(ValidationError::MissingField),
        Some(text) => {
            if several {
                Err(ValidationError::DuplicateField)
            } else {
                Ok(text)
            }
        },
    }
}

/// The command text of a decoded form; `None` stands for a body that
/// could not be decoded.
pub fn command_from_fields(decoded: Option<Vec<(String, String)>>) -> (command: Result<
    String,
    ValidationError,
>)
    ensures
        match command {
            Ok(text) => command_text(decoded_fields(decoded)) == Ok::<Seq<char>, ValidationError>(
                text@,
            ),
            Err(e) => command_text(decoded_fields(decoded)) == Err::<Seq<char>, ValidationError>(e),
        },
{
    match decoded {
        Some(fields) => find_field(&fields, COMMAND_FIELD),
        None => Err(ValidationError::Malformed),
    }
}

/// The command text that `body` carries, or the reason why it carries
/// none.
pub fn command_from_form(body: &[u8]) -> (command: Result<String, ValidationError>)
    ensures
        match command {
            Ok(text) => command_text(decoded_form(body@)) == Ok::<Seq<char>, ValidationError>(
                text@,
            ),
            Err(e) => command_text(decoded_form(body@)) == Err::<Seq<char>, ValidationError>(e),
        },
{
    let decoded = match decode_form(body) {
        Ok(fields) => Some(fields),
        Err(_) => None,
    };
    command_from_fields(decoded)
}

} // verus!
