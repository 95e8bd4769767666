//! Validation of a submitted poll: the rules on its name, its end date and
//! the number of its choices, and the errors that report a broken rule.

use crate::domain::{is_clock_reading, utc_now, NewPoll, Timestamp};
use vstd::prelude::*;
use vstd::string::*;

verus! {

/// One broken rule of a field: a code that names the rule and, where the
/// rule gives one, the message shown to the user.
#[derive(Clone, Copy, Debug, PartialEq, Eq)]
pub struct ValidationError {
    pub code: &'static str,
    pub message: Option<&'static str>,
}

impl ValidationError {
    /// An error with the given code and no message.
    pub open spec fn new_spec(code: &'static str) -> ValidationError {
        ValidationError { code, message: None }
    }

    /// An error with the given code and no message.
    pub fn new(code: &'static str) -> (e: ValidationError)
        ensures
            e == Self::new_spec(code),
    {
        ValidationError { code, message: None }
    }
}

/// The broken rules of one field, in the order in which they were checked.
#[derive(Debug, PartialEq, Eq)]
pub struct FieldErrors {
    pub field: &'static str,
    pub errors: Vec<ValidationError>,
}

/// The broken rules of a submitted value, one entry per field that broke a
/// rule, in the order of the value's fields.
#[derive(Debug, PartialEq, Eq)]
pub struct ValidationErrors {
    pub fields: Vec<FieldErrors>,
}

impl ValidationErrors {
    /// The fields and their errors as plain sequences.
    pub open spec fn shape(self) -> Seq<(&'static str, Seq<ValidationError>)> {
        self.fields@.map_values(|f: FieldErrors| (f.field, f.errors@))
    }

    /// No rule was broken.
    pub fn is_empty(&self) -> (r: bool)
        ensures
            r == (self.fields@.len() == 0),
    {
        self.fields.len() == 0
    }
}

/// Whether a length lies within the given bounds; an exact length, where one
/// is given, overrides the bounds.
pub open spec fn spec_validate_length(
    length: u64,
    min: Option<u64>,
    max: Option<u64>,
    equal: Option<u64>,
) -> bool {
    match equal {
        Some(eq) => length == eq,
        None => {
            &&& (min matches Some(m) ==> length >= m)
            &&& (max matches Some(m) ==> length <= m)
        },
    }
}

/// Checks a length against optional bounds, as `validator::validate_length`
/// does once it has the length of the value.
pub fn validate_length(length: u64, min: Option<u64>, max: Option<u64>, equal: Option<u64>) -> (r:
    bool)
    ensures
        r == spec_validate_length(length, min, max, equal),
{
    if let Some(eq) = equal {
        return length == eq;
    }
    if let Some(m) = min {
        if length < m {
            return false;
        }
    }
    if let Some(m) = max {
        if length > m {
            return false;
        }
    }
    true
}

/// The fewest and the most characters of a poll's name.
pub const NAME_MIN_CHARS: u64 = 5;

pub const NAME_MAX_CHARS: u64 = 100;

/// The fewest and the most choices of a poll.
pub const CHOICES_MIN: u64 = 2;

pub const CHOICES_MAX: u64 = 20;

/// The error that a name of the wrong length gives.
pub open spec fn name_error() -> ValidationError {
    ValidationError {
        code: "length",
        message: Some("Poll name must be between 5 and 100 characters."),
    }
}

/// The error that an end date in the past gives, with its message.
pub open spec fn end_date_error() -> ValidationError {
    ValidationError { code: "end_date", message: Some("End date must be in the future.") }
}

/// The error that a wrong number of choices gives.
pub open spec fn choices_error() -> ValidationError {
    ValidationError { code: "length", message: Some("Must provide between 2 to 20 choices.") }
}

/// The name has between 5 and 100 characters.
pub open spec fn name_is_valid(p: NewPoll) -> bool {
    NAME_MIN_CHARS <= p.name@.len() <= NAME_MAX_CHARS
}

/// The end date is not before `now`.
pub open spec fn end_date_is_valid(end_date: Timestamp, now: Timestamp) -> bool {
    !end_date.spec_before(now)
}

/// The poll has between 2 and 20 choices.
pub open spec fn choices_are_valid(p: NewPoll) -> bool {
    CHOICES_MIN <= p.choices@.len() <= CHOICES_MAX
}

/// A poll is valid at `now` when all three rules hold.
pub open spec fn poll_is_valid(p: NewPoll, now: Timestamp) -> bool {
    name_is_valid(p) && end_date_is_valid(p.end_date, now) && choices_are_valid(p)
}

/// The entries that validating `p` at `now` reports: one for each field that
/// breaks its rule, in the order name, end date, choices.
pub open spec fn expected_errors(p: NewPoll, now: Timestamp) -> Seq<
    (&'static str, Seq<ValidationError>),
> {
    (if name_is_valid(p) {
        Seq::empty()
    } else {
        seq![("name", seq![name_error()])]
    }) + (if end_date_is_valid(p.end_date, now) {
        Seq::empty()
    } else {
        seq![("end_date", seq![end_date_error()])]
    }) + (if choices_are_valid(p) {
        Seq::empty()
    } else {
        seq![("choices", seq![choices_error()])]
    })
}

/// What validating `p` at `now` gives: `Ok` exactly when the poll is valid,
/// else the errors of `expected_errors`.
pub open spec fn validation_outcome(
    p: NewPoll,
    now: Timestamp,
    r: Result<(), ValidationErrors>,
) -> bool {
    &&& (r is Ok <==> poll_is_valid(p, now))
    &&& (r matches Err(e) ==> e.shape() == expected_errors(p, now))
}

/// Checks an end date against the instant `now`: an end date before it is
/// refused with the code `end_date` and no message.
pub fn check_end_date(end_date: &Timestamp, now: &Timestamp) -> (r: Result<(), ValidationError>)
    ensures
        r is Ok <==> end_date_is_valid(*end_date, *now),
        r matches Err(e) ==> e == ValidationError::new_spec("end_date"),
{
    if end_date.before(now) {
        return Err(ValidationError::new("end_date"));
    }
    Ok(())
}

/// Checks an end date against the current time, read from the system clock.
/// Whatever the clock reads, the result is `Ok` or the `end_date` error, and
/// it is what `check_end_date` gives for an instant that the clock can give.
pub fn end_date_greater_than_utc_now(end_date: &Timestamp) -> (r: Result<(), ValidationError>)
    ensures
        exists|now: Timestamp|
            is_clock_reading(now) && (#[trigger] end_date_is_valid(*end_date, now)) == (r is Ok),
        r matches Err(e) ==> e == ValidationError::new_spec("end_date"),
{
    let now = utc_now();
    check_end_date(end_date, &now)
}

fn single_field(field: &'static str, error: ValidationError) -> (f: FieldErrors)
    ensures
        f.field == field,
        f.errors@ == seq![error],
{
    let mut errors = Vec::new();
    errors.push(error);
    FieldErrors { field, errors }
}

impl NewPoll {
    /// Validates the poll against the instant `now`: the name must have 5 to
    /// 100 characters, the end date must not lie before `now`, and there must
    /// be 2 to 20 choices.
    pub fn validate_at(&self, now: &Timestamp) -> (r: Result<(), ValidationErrors>)
        ensures
            validation_outcome(*self, *now, r),
    {
        let mut fields: Vec<FieldErrors> = Vec::new();
        let name_len = self.name.as_str().unicode_len() as u64;
        let name_ok = validate_length(name_len, Some(NAME_MIN_CHARS), Some(NAME_MAX_CHARS), None);
        if !name_ok {
            let mut err = ValidationError::new("length");
            err.message = Some("Poll name must be between 5 and 100 characters.");
            fields.push(single_field("name", err));
        }
        let ghost after_name = fields@.map_values(|f: FieldErrors| (f.field, f.errors@));
        let end_ok = check_end_date(&self.end_date, now);
        if let Err(mut err) = end_ok {
            err.message = Some("End date must be in the future.");
            fields.push(single_field("end_date", err));
        }
        let ghost after_end = fields@.map_values(|f: FieldErrors| (f.field, f.errors@));
        let choices_len = self.choices.len() as u64;
        let choices_ok = validate_length(choices_len, Some(CHOICES_MIN), Some(CHOICES_MAX), None);
        if !choices_ok {
            let mut err = ValidationError::new("length");
            err.message = Some("Must provide between 2 to 20 choices.");
            fields.push(single_field("choices", err));
        }
        let errs = ValidationErrors { fields };
        proof {
            let a: Seq<(&'static str, Seq<ValidationError>)> = if name_is_valid(*self) {
                Seq::empty()
            } else {
                seq![("name", seq![name_error()])]
            };
            let b: Seq<(&'static str, Seq<ValidationError>)> = if end_date_is_valid(
                self.end_date,
                *now,
            ) {
                Seq::empty()
            } else {
                seq![("end_date", seq![end_date_error()])]
            };
            let c: Seq<(&'static str, Seq<ValidationError>)> = if choices_are_valid(*self) {
                Seq::empty()
            } else {
                seq![("choices", seq![choices_error()])]
            };
            assert(after_name =~= a);
            assert(after_end =~= a + b);
            assert(errs.shape() =~= a + b + c);
        }
        if errs.is_empty() {
            Ok(())
        } else {
            Err(errs)
        }
    }

    /// Validates the poll against the current time, read from the system
    /// clock: the result is what `validate_at` gives for an instant that the
    /// clock can give.
    pub fn validate(&self) -> (r: Result<(), ValidationErrors>)
        ensures
            exists|now: Timestamp|
                is_clock_reading(now) && #[trigger] validation_outcome(*self, now, r),
    {
        let now = utc_now();
        self.validate_at(&now)
    }
}

/// The sequences joined, with `sep` between each two of them.
pub open spec fn join(parts: Seq<Seq<char>>, sep: Seq<char>) -> Seq<char>
    decreases parts.len(),
{
    if parts.len() == 0 {
        Seq::empty()
    } else if parts.len() == 1 {
        parts[0]
    } else {
        join(parts.drop_last(), sep) + sep + parts.last()
    }
}

/// How one error reads: its message, or, without one, its code.
pub open spec fn error_text(e: ValidationError) -> Seq<char> {
    match e.message {
        Some(m) => m@,
        None => "Validation error: "@ + e.code@ + " [{}]"@,
    }
}

/// How the errors of one field read: the field's name, a colon, and the
/// errors' texts separated by commas.
pub open spec fn field_text(f: FieldErrors) -> Seq<char> {
    f.field@ + ": "@ + join(f.errors@.map_values(|e: ValidationError| error_text(e)), ", "@)
}

/// How all errors read: one line per field.
pub open spec fn errors_text(errs: ValidationErrors) -> Seq<char> {
    join(errs.fields@.map_values(|f: FieldErrors| field_text(f)), "\n"@)
}

proof fn lemma_join_step(parts: Seq<Seq<char>>, sep: Seq<char>, i: int)
    requires
        1 <= i < parts.len(),
    ensures
        join(parts.take(i + 1), sep) == join(parts.take(i), sep) + sep + parts[i],
{
    assert(parts.take(i + 1).drop_last() =~= parts.take(i));
}

impl ValidationError {
    /// The text of the error.
    pub fn to_message(&self) -> (s: String)
        ensures
            s@ == error_text(*self),
    {
        match self.message {
            Some(m) => m.to_string(),
            None => {
                let mut s = String::new();
                s.append("Validation error: ");
                s.append(self.code);
                s.append(" [{}]");
                s
            },
        }
    }
}

impl FieldErrors {
    /// The text of the field's errors.
    pub fn to_message(&self) -> (s: String)
        ensures
            s@ == field_text(*self),
    {
        let ghost texts = self.errors@.map_values(|e: ValidationError| error_text(e));
        let mut s = String::new();
        s.append(self.field);
        s.append(": ");
        let ghost head = s@;
        let n = self.errors.len();
        for i in 0..n
            invariant
                n == self.errors@.len(),
                texts == self.errors@.map_values(|e: ValidationError| error_text(e)),
                head == self.field@ + ": "@,
                s@ == head + join(texts.take(i as int), ", "@),
        {
            let t = self.errors[i].to_message();
            proof {
                if i > 0 {
                    lemma_join_step(texts, ", "@, i as int);
                } else {
                    assert(texts.take(1) =~= seq![texts[0]]);
                }
            }
            if i > 0 {
                s.append(", ");
            }
            s.append(t.as_str());
            assert(s@ =~= head + join(texts.take(i + 1), ", "@));
        }
        assert(texts.take(n as int) =~= texts);
        s
    }
}

impl ValidationErrors {
    /// The text of all errors, as `validator` displays them.
    pub fn to_message(&self) -> (s: String)
        ensures
            s@ == errors_text(*self),
    {
        let ghost texts = self.fields@.map_values(|f: FieldErrors| field_text(f));
        let mut s = String::new();
        let n = self.fields.len();
        for i in 0..n
            invariant
                n == self.fields@.len(),
                texts == self.fields@.map_values(|f: FieldErrors| field_text(f)),
                s@ == join(texts.take(i as int), "\n"@),
        {
            let t = self.fields[i].to_message();
            proof {
                if i > 0 {
                    lemma_join_step(texts, "\n"@, i as int);
                } else {
                    assert(texts.take(1) =~= seq![texts[0]]);
                    assert(texts.take(0) =~= Seq::<Seq<char>>::empty());
                }
            }
            if i > 0 {
                s.append("\n");
            }
            s.append(t.as_str());
            assert(s@ =~= join(texts.take(i + 1), "\n"@));
        }
        assert(texts.take(n as int) =~= texts);
        s
    }
}

} // verus!
