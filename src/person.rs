//! Persons: the input form, the stored record, validation and the
//! repository capability that persists them.

use vstd::prelude::*;
use vstd::string::StringExecFns;
use crate::schema::{require_field, validated, cleaned};
use crate::text::{opt_text, sanitize};

verus! {

/// A person as received: every text field optional.
#[derive(Debug, Clone, PartialEq, Eq, Default)]
pub struct PersonDto {
    pub name: Option<String>,
    pub patronymic: Option<String>,
    pub surname: Option<String>,
    pub snils: Option<String>,
    pub email: Option<String>,
    pub address_id: i64,
}

impl PersonDto {
    /// The text fields in declaration order.
    pub open spec fn fields(&self) -> Seq<Option<Seq<char>>> {
        seq![
            opt_text(self.name),
            opt_text(self.patronymic),
            opt_text(self.surname),
            opt_text(self.snils),
            opt_text(self.email),
        ]
    }
}

/// A stored person.
#[derive(Debug, Clone, PartialEq, Eq)]
pub struct Person {
    pub id: i64,
    pub name: String,
    pub patronymic: Option<String>,
    pub surname: String,
    pub snils: String,
    pub email: String,
    pub address_id: i64,
}

/// A failure reported by a person repository: a message only.
#[derive(Debug, Clone, PartialEq, Eq)]
pub enum PersonRepositoryError {
    Storage(String),
}

impl PersonRepositoryError {
    /// A storage failure carrying `message`.
    pub fn storage(message: &str) -> (r: Self)
        ensures
            r->Storage_0@ == message@,
    {
        PersonRepositoryError::Storage(message.to_owned())
    }

    /// The message carried by the error.
    pub fn message(&self) -> (r: String)
        ensures
            r@ == self->Storage_0@,
    {
        match self {
            PersonRepositoryError::Storage(m) => m.clone(),
        }
    }
}

/// Persistence of persons, provided by the storage layer.
pub trait PersonRepository {
    /// `r` is an outcome this repository may give when asked to store `dto`.
    closed spec fn created(&self, dto: PersonDto, r: Result<i64, PersonRepositoryError>) -> bool {
        true
    }

    /// `r` is an outcome this repository may give when asked for its records.
    closed spec fn listed(&self, r: Result<Vec<Person>, PersonRepositoryError>) -> bool {
        true
    }

    /// Stores a validated person and returns its new identifier.
    fn create(&self, dto: &PersonDto) -> (r: Result<i64, PersonRepositoryError>)
        ensures
            self.created(*dto, r),
    ;

    /// Every stored person, by identifier.
    fn list(&self) -> (r: Result<Vec<Person>, PersonRepositoryError>)
        ensures
            self.listed(r),
    ;
}

/// Why a person could not be created.
#[derive(Debug, Clone, PartialEq, Eq)]
pub enum PersonError {
    MissingName,
    MissingSurname,
    MissingSnils,
    MissingEmail,
    Repository(PersonRepositoryError),
}

/// For each person text field, the error reported when it is required and missing.
pub open spec fn person_schema() -> Seq<Option<PersonError>> {
    seq![
        Some(PersonError::MissingName),
        None,
        Some(PersonError::MissingSurname),
        Some(PersonError::MissingSnils),
        Some(PersonError::MissingEmail),
    ]
}

/// The human-readable text of a person error.
pub open spec fn person_error_text(e: PersonError) -> Seq<char> {
    match e {
        PersonError::MissingName => "Name is required"@,
        PersonError::MissingSurname => "Surname is required"@,
        PersonError::MissingSnils => "SNILS is required"@,
        PersonError::MissingEmail => "Email is required"@,
        PersonError::Repository(inner) => "Repository error: "@ + inner->Storage_0@,
    }
}

impl PersonError {
    /// The human-readable text of the error.
    pub fn message(&self) -> (r: String)
        ensures
            r@ == person_error_text(*self),
    {
        match self {
            PersonError::MissingName => String::from_str("Name is required"),
            PersonError::MissingSurname => String::from_str("Surname is required"),
            PersonError::MissingSnils => String::from_str("SNILS is required"),
            PersonError::MissingEmail => String::from_str("Email is required"),
            PersonError::Repository(inner) => {
                let mut text = String::from_str("Repository error: ");
                let m = inner.message();
                text.append(m.as_str());
                text
            },
        }
    }
}

/// Sanitises every field of a person and checks the required ones in declaration order.
pub fn sanitize_person(dto: &PersonDto) -> (r: Result<PersonDto, PersonError>)
    ensures
        match validated(dto.fields(), person_schema()) {
            Ok(out) => r matches Ok(d) && d.fields() == out && d.address_id == dto.address_id,
            Err(e) => r == Err::<PersonDto, PersonError>(e),
        },
{
    proof {
        reveal_with_fuel(crate::schema::first_missing_from, 10);
    }
    let name = match require_field(&dto.name, PersonError::MissingName) {
        Ok(v) => v,
        Err(e) => {
            return Err(e);
        },
    };
    let surname = match require_field(&dto.surname, PersonError::MissingSurname) {
        Ok(v) => v,
        Err(e) => {
            return Err(e);
        },
    };
    let snils = match require_field(&dto.snils, PersonError::MissingSnils) {
        Ok(v) => v,
        Err(e) => {
            return Err(e);
        },
    };
    let email = match require_field(&dto.email, PersonError::MissingEmail) {
        Ok(v) => v,
        Err(e) => {
            return Err(e);
        },
    };
    let d = PersonDto {
        name: Some(name),
        patronymic: sanitize(&dto.patronymic),
        surname: Some(surname),
        snils: Some(snils),
        email: Some(email),
        address_id: dto.address_id,
    };
    assert(d.fields() =~= cleaned(dto.fields()));
    Ok(d)
}

/// The outcome of creating a person once the repository has answered `c`:
/// its identifier, or its error wrapped in `PersonError::Repository`.
pub open spec fn person_outcome(c: Result<i64, PersonRepositoryError>) -> Result<i64, PersonError> {
    match c {
        Ok(id) => Ok(id),
        Err(e) => Err(PersonError::Repository(e)),
    }
}

/// Validates a person and hands the sanitised form to the repository.
///
/// A validation error is returned as it is, and the repository is not called.
/// Otherwise the repository is asked once to store the sanitised person, and
/// its answer is passed on: the identifier as it is, an error wrapped in
/// `PersonError::Repository`.
pub fn create_person<R: PersonRepository>(repository: &R, dto: &PersonDto) -> (r: Result<
    i64,
    PersonError,
>)
    ensures
        match validated(dto.fields(), person_schema()) {
            Ok(out) => exists|d: PersonDto, c: Result<i64, PersonRepositoryError>|
                #[trigger] repository.created(d, c) && d.fields() == out && d.address_id == dto.address_id && r == person_outcome(c),
            Err(e) => r == Err::<i64, PersonError>(e),
        },
{
    let sanitized = match sanitize_person(dto) {
        Ok(d) => d,
        Err(e) => {
            return Err(e);
        },
    };
    let outcome = repository.create(&sanitized);
    let ghost c = outcome;
    let r = match outcome {
        Ok(id) => Ok(id),
        Err(e) => Err(PersonError::Repository(e)),
    };
    assert(repository.created(sanitized, c) && r == person_outcome(c));
    r
}

/// Every stored person, exactly as the repository reports it, or its error unchanged.
pub fn list_persons<R: PersonRepository>(repository: &R) -> (r: Result<
    Vec<Person>,
    PersonRepositoryError,
>)
    ensures
        repository.listed(r),
{
    repository.list()
}

} // verus!
