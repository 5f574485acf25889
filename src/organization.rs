//! Organizations: the input form, the stored record, validation and the
//! repository capability that persists them.

use vstd::prelude::*;
use vstd::string::StringExecFns;
use crate::schema::{require_field, validated, cleaned};
use crate::text::{opt_text, sanitize};

verus! {

/// An organization as received: every text field optional.
#[derive(Debug, Clone, PartialEq, Eq, Default)]
pub struct OrganizationDto {
    pub full_name: Option<String>,
    pub abbreviated_name: Option<String>,
    pub ogrn: Option<String>,
    pub rafp: Option<String>,
    pub inn: Option<String>,
    pub kpp: Option<String>,
    pub address_id: i64,
    pub email: Option<String>,
}

impl OrganizationDto {
    /// The text fields in declaration order.
    pub open spec fn fields(&self) -> Seq<Option<Seq<char>>> {
        seq![
            opt_text(self.full_name),
            opt_text(self.abbreviated_name),
            opt_text(self.ogrn),
            opt_text(self.rafp),
            opt_text(self.inn),
            opt_text(self.kpp),
            opt_text(self.email),
        ]
    }
}

/// A stored organization.
#[derive(Debug, Clone, PartialEq, Eq)]
pub struct Organization {
    pub id: i64,
    pub full_name: String,
    pub abbreviated_name: String,
    pub ogrn: Option<String>,
    pub rafp: Option<String>,
    pub inn: String,
    pub kpp: String,
    pub address_id: i64,
    pub email: String,
}

/// A failure reported by an organization repository: a message only.
#[derive(Debug, Clone, PartialEq, Eq)]
pub enum OrganizationRepositoryError {
    Storage(String),
}

impl OrganizationRepositoryError {
    /// A storage failure carrying `message`.
    pub fn storage(message: &str) -> (r: Self)
        ensures
            r->Storage_0@ == message@,
    {
        OrganizationRepositoryError::Storage(message.to_owned())
    }

    /// The message carried by the error.
    pub fn message(&self) -> (r: String)
        ensures
            r@ == self->Storage_0@,
    {
        match self {
            OrganizationRepositoryError::Storage(m) => m.clone(),
        }
    }
}

/// Persistence of organizations, provided by the storage layer.
pub trait OrganizationRepository {
    /// `r` is an outcome this repository may give when asked to store `dto`.
    closed spec fn created(&self, dto: OrganizationDto, r: Result<i64, OrganizationRepositoryError>) -> bool {
        true
    }

    /// `r` is an outcome this repository may give when asked for its records.
    closed spec fn listed(&self, r: Result<Vec<Organization>, OrganizationRepositoryError>) -> bool {
        true
    }

    /// Stores a validated organization and returns its new identifier.
    fn create(&self, dto: &OrganizationDto) -> (r: Result<i64, OrganizationRepositoryError>)
        ensures
            self.created(*dto, r),
    ;

    /// Every stored organization, by identifier.
    fn list(&self) -> (r: Result<Vec<Organization>, OrganizationRepositoryError>)
        ensures
            self.listed(r),
    ;
}

/// Why an organization could not be created.
#[derive(Debug, Clone, PartialEq, Eq)]
pub enum OrganizationError {
    MissingFullName,
    MissingAbbreviatedName,
    MissingInn,
    MissingKpp,
    MissingEmail,
    Repository(OrganizationRepositoryError),
}

/// For each organization text field, the error reported when it is required and missing.
pub open spec fn organization_schema() -> Seq<Option<OrganizationError>> {
    seq![
        Some(OrganizationError::MissingFullName),
        Some(OrganizationError::MissingAbbreviatedName),
        None,
        None,
        Some(OrganizationError::MissingInn),
        Some(OrganizationError::MissingKpp),
        Some(OrganizationError::MissingEmail),
    ]
}

/// The human-readable text of an organization error.
pub open spec fn organization_error_text(e: OrganizationError) -> Seq<char> {
    match e {
        OrganizationError::MissingFullName => "Full name is required"@,
        OrganizationError::MissingAbbreviatedName => "Abbreviated name is required"@,
        OrganizationError::MissingInn => "INN is required"@,
        OrganizationError::MissingKpp => "KPP is required"@,
        OrganizationError::MissingEmail => "Email is required"@,
        OrganizationError::Repository(inner) => "Repository error: "@ + inner->Storage_0@,
    }
}

impl OrganizationError {
    /// The human-readable text of the error.
    pub fn message(&self) -> (r: String)
        ensures
            r@ == organization_error_text(*self),
    {
        match self {
            OrganizationError::MissingFullName => String::from_str("Full name is required"),
            OrganizationError::MissingAbbreviatedName => String::from_str("Abbreviated name is required"),
            OrganizationError::MissingInn => String::from_str("INN is required"),
            OrganizationError::MissingKpp => String::from_str("KPP is required"),
            OrganizationError::MissingEmail => String::from_str("Email is required"),
            OrganizationError::Repository(inner) => {
                let mut text = String::from_str("Repository error: ");
                let m = inner.message();
                text.append(m.as_str());
                text
            },
        }
    }
}

/// Sanitises every field of an organization and checks the required ones in declaration order.
pub fn sanitize_organization(dto: &OrganizationDto) -> (r: Result<OrganizationDto, OrganizationError>)
    ensures
        match validated(dto.fields(), organization_schema()) {
            Ok(out) => r matches Ok(d) && d.fields() == out && d.address_id == dto.address_id,
            Err(e) => r == Err::<OrganizationDto, OrganizationError>(e),
        },
{
    proof {
        reveal_with_fuel(crate::schema::first_missing_from, 10);
    }
    let full_name = match require_field(&dto.full_name, OrganizationError::MissingFullName) {
        Ok(v) => v,
        Err(e) => {
            return Err(e);
        },
    };
    let abbreviated_name = match require_field(&dto.abbreviated_name, OrganizationError::MissingAbbreviatedName) {
        Ok(v) => v,
        Err(e) => {
            return Err(e);
        },
    };
    let inn = match require_field(&dto.inn, OrganizationError::MissingInn) {
        Ok(v) => v,
        Err(e) => {
            return Err(e);
        },
    };
    let kpp = match require_field(&dto.kpp, OrganizationError::MissingKpp) {
        Ok(v) => v,
        Err(e) => {
            return Err(e);
        },
    };
    let email = match require_field(&dto.email, OrganizationError::MissingEmail) {
        Ok(v) => v,
        Err(e) => {
            return Err(e);
        },
    };
    let d = OrganizationDto {
        full_name: Some(full_name),
        abbreviated_name: Some(abbreviated_name),
        ogrn: sanitize(&dto.ogrn),
        rafp: sanitize(&dto.rafp),
        inn: Some(inn),
        kpp: Some(kpp),
        address_id: dto.address_id,
        email: Some(email),
    };
    assert(d.fields() =~= cleaned(dto.fields()));
    Ok(d)
}

/// The outcome of creating an organization once the repository has answered `c`:
/// its identifier, or its error wrapped in `OrganizationError::Repository`.
pub open spec fn organization_outcome(c: Result<i64, OrganizationRepositoryError>) -> Result<i64, OrganizationError> {
    match c {
        Ok(id) => Ok(id),
        Err(e) => Err(OrganizationError::Repository(e)),
    }
}

/// Validates an organization and hands the sanitised form to the repository.
///
/// A validation error is returned as it is, and the repository is not called.
/// Otherwise the repository is asked once to store the sanitised organization, and
/// its answer is passed on: the identifier as it is, an error wrapped in
/// `OrganizationError::Repository`.
pub fn create_organization<R: OrganizationRepository>(repository: &R, dto: &OrganizationDto) -> (r: Result<
    i64,
    OrganizationError,
>)
    ensures
        match validated(dto.fields(), organization_schema()) {
            Ok(out) => exists|d: OrganizationDto, c: Result<i64, OrganizationRepositoryError>|
                #[trigger] repository.created(d, c) && d.fields() == out && d.address_id == dto.address_id && r == organization_outcome(c),
            Err(e) => r == Err::<i64, OrganizationError>(e),
        },
{
    let sanitized = match sanitize_organization(dto) {
        Ok(d) => d,
        Err(e) => {
            return Err(e);
        },
    };
    let outcome = repository.create(&sanitized);
    let ghost c = outcome;
    let r = match outcome {
        Ok(id) => Ok(id),
        Err(e) => Err(OrganizationError::Repository(e)),
    };
    assert(repository.created(sanitized, c) && r == organization_outcome(c));
    r
}

/// Every stored organization, exactly as the repository reports it, or its error unchanged.
pub fn list_organizations<R: OrganizationRepository>(repository: &R) -> (r: Result<
    Vec<Organization>,
    OrganizationRepositoryError,
>)
    ensures
        repository.listed(r),
{
    repository.list()
}

} // verus!
