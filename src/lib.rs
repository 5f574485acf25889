//! Registration of legal entities: field sanitising, per-entity validation,
//! storage row preparation and the byte-level boundary used by host runtimes.

pub mod address;
pub mod boundary;
pub mod entrepreneur;
pub mod number;
pub mod organization;
pub mod person;
pub mod schema;
pub mod storage;
pub mod text;

pub use address::{
    create_address, format_address, list_addresses, sanitize_address, Address, AddressDto,
    AddressError, AddressRepository, AddressRepositoryError,
};
pub use boundary::{
    create_address_buffers, decode_field, encode_text, format_address_buffers, report_created,
    AddressBuffers, FfiConversionError,
};
pub use entrepreneur::{
    create_entrepreneur, list_entrepreneurs, sanitize_entrepreneur, Entrepreneur, EntrepreneurDto,
    EntrepreneurError, EntrepreneurRepository, EntrepreneurRepositoryError,
};
pub use organization::{
    create_organization, list_organizations, sanitize_organization, Organization,
    OrganizationDto, OrganizationError, OrganizationRepository, OrganizationRepositoryError,
};
pub use person::{
    create_person, list_persons, sanitize_person, Person, PersonDto, PersonError,
    PersonRepository, PersonRepositoryError,
};
pub use storage::{
    AddressValues, EntrepreneurRow, EntrepreneurValues, Migrations, MigrationsError,
    MigrationsResult, OrganizationRow, OrganizationValues, PersonRow, PersonValues,
    SqliteAddressRepository, SqliteEntrepreneurRepository, SqliteMigrations,
    SqliteOrganizationRepository, SqlitePersonRepository, DEFAULT_DATABASE_FILE_NAME,
};
pub use text::sanitize;

use vstd::prelude::*;

verus! {

/// The sum of two unsigned numbers.
pub fn add(left: u64, right: u64) -> (r: u64)
    requires
        left + right <= u64::MAX,
    ensures
        r == left + right,
{
    left + right
}

/// The sum of two signed numbers.
pub fn add_i32(left: i32, right: i32) -> (r: i32)
    requires
        i32::MIN <= left + right <= i32::MAX,
    ensures
        r == left + right,
{
    left + right
}

} // verus!
