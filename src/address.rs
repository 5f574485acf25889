//! Addresses: the input form, the stored record, validation, formatting and
//! the repository capability that persists them.

use vstd::prelude::*;
use vstd::string::StringExecFns;
use crate::schema::{require_field, validated, cleaned};
use crate::text::{
    join, join_texts, lemma_present_take_step, opt_text, present, push_if_present,
    sanitize, texts,
};

verus! {

/// An address as received: every field optional.
#[derive(Debug, Clone, PartialEq, Eq, Default)]
pub struct AddressDto {
    pub region_code: Option<String>,
    pub note: Option<String>,
    pub country: Option<String>,
    pub district: Option<String>,
    pub city: Option<String>,
    pub settlement: Option<String>,
    pub street: Option<String>,
    pub building: Option<String>,
    pub room: Option<String>,
}

impl AddressDto {
    /// The text fields in declaration order.
    pub open spec fn fields(&self) -> Seq<Option<Seq<char>>> {
        seq![
            opt_text(self.region_code),
            opt_text(self.note),
            opt_text(self.country),
            opt_text(self.district),
            opt_text(self.city),
            opt_text(self.settlement),
            opt_text(self.street),
            opt_text(self.building),
            opt_text(self.room),
        ]
    }

    /// The field at position `i` of the declaration order.
    pub fn text_field(&self, i: usize) -> (r: &Option<String>)
        requires
            i < 9,
        ensures
            opt_text(*r) == self.fields()[i as int],
    {
        match i {
            0 => &self.region_code,
            1 => &self.note,
            2 => &self.country,
            3 => &self.district,
            4 => &self.city,
            5 => &self.settlement,
            6 => &self.street,
            7 => &self.building,
            _ => &self.room,
        }
    }
}

/// The separator between formatted address parts.
pub open spec fn address_separator() -> Seq<char> {
    seq![',', ' ']
}

/// The display form of address fields: the present ones, trimmed, joined by `", "`.
pub open spec fn formatted_address(fields: Seq<Option<Seq<char>>>) -> Seq<char> {
    join(present(fields), address_separator())
}

/// Joins the present, trimmed fields of an address with `", "`, in declaration order.
pub fn format_address(dto: &AddressDto) -> (r: String)
    ensures
        r@ == formatted_address(dto.fields()),
{
    let mut parts: Vec<String> = Vec::new();
    let mut i: usize = 0;
    while i < 9
        invariant
            i <= 9,
            texts(parts@) == present(dto.fields().take(i as int)),
        decreases 9 - i,
    {
        push_if_present(&mut parts, dto.text_field(i));
        proof {
            lemma_present_take_step(dto.fields(), i as int);
        }
        i += 1;
    }
    assert(dto.fields().take(9) =~= dto.fields());
    let sep = ", ";
    proof {
        reveal_strlit(", ");
    }
    assert(sep@ =~= address_separator());
    join_texts(&parts, sep)
}

/// A stored address.
#[derive(Debug, Clone, PartialEq, Eq)]
pub struct Address {
    pub id: i64,
    pub region_code: String,
    pub note: Option<String>,
    pub country: Option<String>,
    pub district: Option<String>,
    pub city: Option<String>,
    pub settlement: Option<String>,
    pub street: Option<String>,
    pub building: Option<String>,
    pub room: Option<String>,
}

/// A failure reported by an address repository: a message only.
#[derive(Debug, Clone, PartialEq, Eq)]
pub enum AddressRepositoryError {
    Storage(String),
}

impl AddressRepositoryError {
    /// A storage failure carrying `message`.
    pub fn storage(message: &str) -> (r: Self)
        ensures
            r->Storage_0@ == message@,
    {
        AddressRepositoryError::Storage(message.to_owned())
    }

    /// The message carried by the error.
    pub fn message(&self) -> (r: String)
        ensures
            r@ == self->Storage_0@,
    {
        match self {
            AddressRepositoryError::Storage(m) => m.clone(),
        }
    }
}

/// Persistence of addresses, provided by the storage layer.
pub trait AddressRepository {
    /// `r` is an outcome this repository may give when asked to store `dto`.
    closed spec fn created(&self, dto: AddressDto, r: Result<i64, AddressRepositoryError>) -> bool {
        true
    }

    /// `r` is an outcome this repository may give when asked for its records.
    closed spec fn listed(&self, r: Result<Vec<Address>, AddressRepositoryError>) -> bool {
        true
    }

    /// Stores a validated address and returns its new identifier.
    fn create(&self, dto: &AddressDto) -> (r: Result<i64, AddressRepositoryError>)
        ensures
            self.created(*dto, r),
    ;

    /// Every stored address, by identifier.
    fn list(&self) -> (r: Result<Vec<Address>, AddressRepositoryError>)
        ensures
            self.listed(r),
    ;
}

/// Why an address could not be created.
#[derive(Debug, Clone, PartialEq, Eq)]
pub enum AddressError {
    MissingRegionCode,
    Repository(AddressRepositoryError),
}

/// For each address field, the error reported when it is required and missing.
pub open spec fn address_schema() -> Seq<Option<AddressError>> {
    seq![
        Some(AddressError::MissingRegionCode),
        None,
        None,
        None,
        None,
        None,
        None,
        None,
        None,
    ]
}

/// The human-readable text of an address error.
pub open spec fn address_error_text(e: AddressError) -> Seq<char> {
    match e {
        AddressError::MissingRegionCode => "Region code is required"@,
        AddressError::Repository(inner) => "Repository error: "@ + inner->Storage_0@,
    }
}

impl AddressError {
    /// The human-readable text of the error.
    pub fn message(&self) -> (r: String)
        ensures
            r@ == address_error_text(*self),
    {
        match self {
            AddressError::MissingRegionCode => String::from_str("Region code is required"),
            AddressError::Repository(inner) => {
                let mut text = String::from_str("Repository error: ");
                let m = inner.message();
                text.append(m.as_str());
                text
            },
        }
    }
}

/// Sanitises every field of an address and checks that the region code is present.
pub fn sanitize_address(dto: &AddressDto) -> (r: Result<AddressDto, AddressError>)
    ensures
        match validated(dto.fields(), address_schema()) {
            Ok(out) => r matches Ok(d) && d.fields() == out,
            Err(e) => r == Err::<AddressDto, AddressError>(e),
        },
{
    proof {
        reveal_with_fuel(crate::schema::first_missing_from, 10);
    }
    let region_code = match require_field(&dto.region_code, AddressError::MissingRegionCode) {
        Ok(v) => v,
        Err(e) => {
            return Err(e);
        },
    };
    let d = AddressDto {
        region_code: Some(region_code),
        note: sanitize(&dto.note),
        country: sanitize(&dto.country),
        district: sanitize(&dto.district),
        city: sanitize(&dto.city),
        settlement: sanitize(&dto.settlement),
        street: sanitize(&dto.street),
        building: sanitize(&dto.building),
        room: sanitize(&dto.room),
    };
    assert(d.fields() =~= cleaned(dto.fields()));
    Ok(d)
}

/// The outcome of creating an address once the repository has answered `c`:
/// its identifier, or its error wrapped in `AddressError::Repository`.
pub open spec fn address_outcome(c: Result<i64, AddressRepositoryError>) -> Result<i64, AddressError> {
    match c {
        Ok(id) => Ok(id),
        Err(e) => Err(AddressError::Repository(e)),
    }
}

/// Validates an address and hands the sanitised form to the repository.
///
/// A validation error is returned as it is, and the repository is not called.
/// Otherwise the repository is asked once to store the sanitised address, and
/// its answer is passed on: the identifier as it is, an error wrapped in
/// `AddressError::Repository`.
pub fn create_address<R: AddressRepository>(repository: &R, dto: &AddressDto) -> (r: Result<
    i64,
    AddressError,
>)
    ensures
        match validated(dto.fields(), address_schema()) {
            Ok(out) => exists|d: AddressDto, c: Result<i64, AddressRepositoryError>|
                #[trigger] repository.created(d, c) && d.fields() == out && r == address_outcome(c),
            Err(e) => r == Err::<i64, AddressError>(e),
        },
{
    let sanitized = match sanitize_address(dto) {
        Ok(d) => d,
        Err(e) => {
            return Err(e);
        },
    };
    let outcome = repository.create(&sanitized);
    let ghost c = outcome;
    let r = match outcome {
        Ok(id) => Ok(id),
        Err(e) => Err(AddressError::Repository(e)),
    };
    assert(repository.created(sanitized, c) && r == address_outcome(c));
    r
}

/// Every stored address, exactly as the repository reports it, or its error unchanged.
pub fn list_addresses<R: AddressRepository>(repository: &R) -> (r: Result<
    Vec<Address>,
    AddressRepositoryError,
>)
    ensures
        repository.listed(r),
{
    repository.list()
}

} // verus!
