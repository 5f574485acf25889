//! Sole proprietors: the input form, the stored record, validation and the
//! repository capability that persists them.

use vstd::prelude::*;
use vstd::string::StringExecFns;
use crate::schema::{require_field, validated, cleaned};
use crate::text::{opt_text, sanitize};

verus! {

/// A sole proprietor as received: every text field optional.
#[derive(Debug, Clone, PartialEq, Eq, Default)]
pub struct EntrepreneurDto {
    pub surname: Option<String>,
    pub name: Option<String>,
    pub patronymic: Option<String>,
    pub ogrnip: Option<String>,
    pub inn: Option<String>,
    pub address_id: i64,
    pub email: Option<String>,
}

impl EntrepreneurDto {
    /// The text fields in declaration order.
    pub open spec fn fields(&self) -> Seq<Option<Seq<char>>> {
        seq![
            opt_text(self.surname),
            opt_text(self.name),
            opt_text(self.patronymic),
            opt_text(self.ogrnip),
            opt_text(self.inn),
            opt_text(self.email),
        ]
    }
}

/// A stored sole proprietor.
#[derive(Debug, Clone, PartialEq, Eq)]
pub struct Entrepreneur {
    pub id: i64,
    pub surname: String,
    pub name: String,
    pub patronymic: Option<String>,
    pub ogrnip: String,
    pub inn: String,
    pub address_id: i64,
    pub email: Option<String>,
}

/// A failure reported by a sole proprietor repository: a message only.
#[derive(Debug, Clone, PartialEq, Eq)]
pub enum EntrepreneurRepositoryError {
    Storage(String),
}

impl EntrepreneurRepositoryError {
    /// A storage failure carrying `message`.
    pub fn storage(message: &str) -> (r: Self)
        ensures
            r->Storage_0@ == message@,
    {
        EntrepreneurRepositoryError::Storage(message.to_owned())
    }

    /// The message carried by the error.
    pub fn message(&self) -> (r: String)
        ensures
            r@ == self->Storage_0@,
    {
        match self {
            EntrepreneurRepositoryError::Storage(m) => m.clone(),
        }
    }
}

/// Persistence of sole proprietors, provided by the storage layer.
pub trait EntrepreneurRepository {
    /// `r` is an outcome this repository may give when asked to store `dto`.
    closed spec fn created(&self, dto: EntrepreneurDto, r: Result<i64, EntrepreneurRepositoryError>) -> bool {
        true
    }

    /// `r` is an outcome this repository may give when asked for its records.
    closed spec fn listed(&self, r: Result<Vec<Entrepreneur>, EntrepreneurRepositoryError>) -> bool {
        true
    }

    /// Stores a validated sole proprietor and returns its new identifier.
    fn create(&self, dto: &EntrepreneurDto) -> (r: Result<i64, EntrepreneurRepositoryError>)
        ensures
            self.created(*dto, r),
    ;

    /// Every stored sole proprietor, by identifier.
    fn list(&self) -> (r: Result<Vec<Entrepreneur>, EntrepreneurRepositoryError>)
        ensures
            self.listed(r),
    ;
}

/// Why a sole proprietor could not be created.
#[derive(Debug, Clone, PartialEq, Eq)]
pub enum EntrepreneurError {
    MissingSurname,
    MissingName,
    MissingOgrnip,
    MissingInn,
    Repository(EntrepreneurRepositoryError),
}

/// For each sole proprietor text field, the error reported when it is required and missing.
pub open spec fn entrepreneur_schema() -> Seq<Option<EntrepreneurError>> {
    seq![
        Some(EntrepreneurError::MissingSurname),
        Some(EntrepreneurError::MissingName),
        None,
        Some(EntrepreneurError::MissingOgrnip),
        Some(EntrepreneurError::MissingInn),
        None,
    ]
}

/// The human-readable text of a sole proprietor error.
pub open spec fn entrepreneur_error_text(e: EntrepreneurError) -> Seq<char> {
    match e {
        EntrepreneurError::MissingSurname => "Surname is required"@,
        EntrepreneurError::MissingName => "Name is required"@,
        EntrepreneurError::MissingOgrnip => "OGRNIP is required"@,
        EntrepreneurError::MissingInn => "INN is required"@,
        EntrepreneurError::Repository(inner) => "Repository error: "@ + inner->Storage_0@,
    }
}

impl EntrepreneurError {
    /// The human-readable text of the error.
    pub fn message(&self) -> (r: String)
        ensures
            r@ == entrepreneur_error_text(*self),
    {
        match self {
            EntrepreneurError::MissingSurname => String::from_str("Surname is required"),
            EntrepreneurError::MissingName => String::from_str("Name is required"),
            EntrepreneurError::MissingOgrnip => String::from_str("OGRNIP is required"),
            EntrepreneurError::MissingInn => String::from_str("INN is required"),
            EntrepreneurError::Repository(inner) => {
                let mut text = String::from_str("Repository error: ");
                let m = inner.message();
                text.append(m.as_str());
                text
            },
        }
    }
}

/// Sanitises every field of a sole proprietor and checks the required ones in declaration order.
pub fn sanitize_entrepreneur(dto: &EntrepreneurDto) -> (r: Result<EntrepreneurDto, EntrepreneurError>)
    ensures
        match validated(dto.fields(), entrepreneur_schema()) {
            Ok(out) => r matches Ok(d) && d.fields() == out && d.address_id == dto.address_id,
            Err(e) => r == Err::<EntrepreneurDto, EntrepreneurError>(e),
        },
{
    proof {
        reveal_with_fuel(crate::schema::first_missing_from, 10);
    }
    let surname = match require_field(&dto.surname, EntrepreneurError::MissingSurname) {
        Ok(v) => v,
        Err(e) => {
            return Err(e);
        },
    };
    let name = match require_field(&dto.name, EntrepreneurError::MissingName) {
        Ok(v) => v,
        Err(e) => {
            return Err(e);
        },
    };
    let ogrnip = match require_field(&dto.ogrnip, EntrepreneurError::MissingOgrnip) {
        Ok(v) => v,
        Err(e) => {
            return Err(e);
        },
    };
    let inn = match require_field(&dto.inn, EntrepreneurError::MissingInn) {
        Ok(v) => v,
        Err(e) => {
            return Err(e);
        },
    };
    let d = EntrepreneurDto {
        surname: Some(surname),
        name: Some(name),
        patronymic: sanitize(&dto.patronymic),
        ogrnip: Some(ogrnip),
        inn: Some(inn),
        address_id: dto.address_id,
        email: sanitize(&dto.email),
    };
    assert(d.fields() =~= cleaned(dto.fields()));
    Ok(d)
}

/// The outcome of creating a sole proprietor once the repository has answered `c`:
/// its identifier, or its error wrapped in `EntrepreneurError::Repository`.
pub open spec fn entrepreneur_outcome(c: Result<i64, EntrepreneurRepositoryError>) -> Result<i64, EntrepreneurError> {
    match c {
        Ok(id) => Ok(id),
        Err(e) => Err(EntrepreneurError::Repository(e)),
    }
}

/// Validates a sole proprietor and hands the sanitised form to the repository.
///
/// A validation error is returned as it is, and the repository is not called.
/// Otherwise the repository is asked once to store the sanitised sole proprietor, and
/// its answer is passed on: the identifier as it is, an error wrapped in
/// `EntrepreneurError::Repository`.
pub fn create_entrepreneur<R: EntrepreneurRepository>(repository: &R, dto: &EntrepreneurDto) -> (r: Result<
    i64,
    EntrepreneurError,
>)
    ensures
        match validated(dto.fields(), entrepreneur_schema()) {
            Ok(out) => exists|d: EntrepreneurDto, c: Result<i64, EntrepreneurRepositoryError>|
                #[trigger] repository.created(d, c) && d.fields() == out && d.address_id == dto.address_id && r == entrepreneur_outcome(c),
            Err(e) => r == Err::<i64, EntrepreneurError>(e),
        },
{
    let sanitized = match sanitize_entrepreneur(dto) {
        Ok(d) => d,
        Err(e) => {
            return Err(e);
        },
    };
    let outcome = repository.create(&sanitized);
    let ghost c = outcome;
    let r = match outcome {
        Ok(id) => Ok(id),
        Err(e) => Err(EntrepreneurError::Repository(e)),
    };
    assert(repository.created(sanitized, c) && r == entrepreneur_outcome(c));
    r
}

/// Every stored sole proprietor, exactly as the repository reports it, or its error unchanged.
pub fn list_entrepreneurs<R: EntrepreneurRepository>(repository: &R) -> (r: Result<
    Vec<Entrepreneur>,
    EntrepreneurRepositoryError,
>)
    ensures
        repository.listed(r),
{
    repository.list()
}

} // verus!
