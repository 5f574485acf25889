//! The SQLite storage layer's own logic: where the database lives, which
//! values one insert binds, and how stored rows become records.
//!
//! Opening the database and running statements belong to the host; every
//! decision about what is bound and what is read back is made here.

use vstd::prelude::*;
use vstd::string::StringExecFns;
use crate::address::{AddressDto, AddressRepositoryError};
use crate::entrepreneur::{Entrepreneur, EntrepreneurDto, EntrepreneurRepositoryError};
use crate::number::{decimal, decimal_text, int_parse_message, parse_i64, parsed_i64};
use crate::organization::{Organization, OrganizationDto, OrganizationRepositoryError};
use crate::person::{Person, PersonDto, PersonRepositoryError};
use crate::text::{opt_text, trim_text, trimmed};

verus! {

/// The database file used when no other name is given.
pub const DEFAULT_DATABASE_FILE_NAME: &'static str = "zdnp.sqlite";

/// Why the schema migrations failed: a message only.
#[derive(Debug, Clone, PartialEq, Eq)]
pub struct MigrationsError {
    pub message: String,
}

/// The outcome of running the schema migrations.
pub type MigrationsResult<T> = Result<T, MigrationsError>;

/// Brings the database schema up to date; running it again changes nothing.
pub trait Migrations {
    fn run(&self) -> MigrationsResult<()>;
}

/// Settings of the schema migrations of the SQLite database.
pub struct SqliteMigrations {
    database_file_name: String,
}

impl SqliteMigrations {
    /// The name of the database file.
    pub closed spec fn file_name(&self) -> Seq<char> {
        self.database_file_name@
    }

    /// Settings that use the default database file name.
    pub fn new() -> (r: Self)
        ensures
            r.file_name() == DEFAULT_DATABASE_FILE_NAME@,
    {
        SqliteMigrations { database_file_name: DEFAULT_DATABASE_FILE_NAME.to_owned() }
    }

    /// Settings that use the database file `file_name`.
    pub fn with_file_name(file_name: &str) -> (r: Self)
        ensures
            r.file_name() == file_name@,
    {
        SqliteMigrations { database_file_name: file_name.to_owned() }
    }

    /// The name of the database file, resolved by the host against its own directory.
    pub fn database_file_name(&self) -> (r: &str)
        ensures
            r@ == self.file_name(),
    {
        self.database_file_name.as_str()
    }
}

impl Default for SqliteMigrations {
    fn default() -> (r: Self)
        ensures
            r.file_name() == DEFAULT_DATABASE_FILE_NAME@,
    {
        SqliteMigrations::new()
    }
}

/// Settings of the SQLite-backed address repository.
pub struct SqliteAddressRepository {
    database_file_name: String,
}

impl SqliteAddressRepository {
    /// The name of the database file.
    pub closed spec fn file_name(&self) -> Seq<char> {
        self.database_file_name@
    }

    /// Settings that use the default database file name.
    pub fn new() -> (r: Self)
        ensures
            r.file_name() == DEFAULT_DATABASE_FILE_NAME@,
    {
        SqliteAddressRepository { database_file_name: DEFAULT_DATABASE_FILE_NAME.to_owned() }
    }

    /// Settings that use the database file `file_name`.
    pub fn with_file_name(file_name: &str) -> (r: Self)
        ensures
            r.file_name() == file_name@,
    {
        SqliteAddressRepository { database_file_name: file_name.to_owned() }
    }

    /// The name of the database file, resolved by the host against its own directory.
    pub fn database_file_name(&self) -> (r: &str)
        ensures
            r@ == self.file_name(),
    {
        self.database_file_name.as_str()
    }
}

impl Default for SqliteAddressRepository {
    fn default() -> (r: Self)
        ensures
            r.file_name() == DEFAULT_DATABASE_FILE_NAME@,
    {
        SqliteAddressRepository::new()
    }
}

/// Settings of the SQLite-backed organization repository.
pub struct SqliteOrganizationRepository {
    database_file_name: String,
}

impl SqliteOrganizationRepository {
    /// The name of the database file.
    pub closed spec fn file_name(&self) -> Seq<char> {
        self.database_file_name@
    }

    /// Settings that use the default database file name.
    pub fn new() -> (r: Self)
        ensures
            r.file_name() == DEFAULT_DATABASE_FILE_NAME@,
    {
        SqliteOrganizationRepository { database_file_name: DEFAULT_DATABASE_FILE_NAME.to_owned() }
    }

    /// Settings that use the database file `file_name`.
    pub fn with_file_name(file_name: &str) -> (r: Self)
        ensures
            r.file_name() == file_name@,
    {
        SqliteOrganizationRepository { database_file_name: file_name.to_owned() }
    }

    /// The name of the database file, resolved by the host against its own directory.
    pub fn database_file_name(&self) -> (r: &str)
        ensures
            r@ == self.file_name(),
    {
        self.database_file_name.as_str()
    }
}

impl Default for SqliteOrganizationRepository {
    fn default() -> (r: Self)
        ensures
            r.file_name() == DEFAULT_DATABASE_FILE_NAME@,
    {
        SqliteOrganizationRepository::new()
    }
}

/// Settings of the SQLite-backed sole proprietor repository.
pub struct SqliteEntrepreneurRepository {
    database_file_name: String,
}

impl SqliteEntrepreneurRepository {
    /// The name of the database file.
    pub closed spec fn file_name(&self) -> Seq<char> {
        self.database_file_name@
    }

    /// Settings that use the default database file name.
    pub fn new() -> (r: Self)
        ensures
            r.file_name() == DEFAULT_DATABASE_FILE_NAME@,
    {
        SqliteEntrepreneurRepository { database_file_name: DEFAULT_DATABASE_FILE_NAME.to_owned() }
    }

    /// Settings that use the database file `file_name`.
    pub fn with_file_name(file_name: &str) -> (r: Self)
        ensures
            r.file_name() == file_name@,
    {
        SqliteEntrepreneurRepository { database_file_name: file_name.to_owned() }
    }

    /// The name of the database file, resolved by the host against its own directory.
    pub fn database_file_name(&self) -> (r: &str)
        ensures
            r@ == self.file_name(),
    {
        self.database_file_name.as_str()
    }
}

impl Default for SqliteEntrepreneurRepository {
    fn default() -> (r: Self)
        ensures
            r.file_name() == DEFAULT_DATABASE_FILE_NAME@,
    {
        SqliteEntrepreneurRepository::new()
    }
}

/// Settings of the SQLite-backed person repository.
pub struct SqlitePersonRepository {
    database_file_name: String,
}

impl SqlitePersonRepository {
    /// The name of the database file.
    pub closed spec fn file_name(&self) -> Seq<char> {
        self.database_file_name@
    }

    /// Settings that use the default database file name.
    pub fn new() -> (r: Self)
        ensures
            r.file_name() == DEFAULT_DATABASE_FILE_NAME@,
    {
        SqlitePersonRepository { database_file_name: DEFAULT_DATABASE_FILE_NAME.to_owned() }
    }

    /// Settings that use the database file `file_name`.
    pub fn with_file_name(file_name: &str) -> (r: Self)
        ensures
            r.file_name() == file_name@,
    {
        SqlitePersonRepository { database_file_name: file_name.to_owned() }
    }

    /// The name of the database file, resolved by the host against its own directory.
    pub fn database_file_name(&self) -> (r: &str)
        ensures
            r@ == self.file_name(),
    {
        self.database_file_name.as_str()
    }
}

impl Default for SqlitePersonRepository {
    fn default() -> (r: Self)
        ensures
            r.file_name() == DEFAULT_DATABASE_FILE_NAME@,
    {
        SqlitePersonRepository::new()
    }
}

/// The message of the first absent value, from position `i` on.
pub open spec fn first_absent_from(
    values: Seq<Option<Seq<char>>>,
    messages: Seq<Seq<char>>,
    i: int,
) -> Option<Seq<char>>
    decreases values.len() - i,
{
    if i < 0 || i >= values.len() {
        None
    } else if values[i] is None {
        Some(messages[i])
    } else {
        first_absent_from(values, messages, i + 1)
    }
}

/// The message of the first absent value.
pub open spec fn first_absent(values: Seq<Option<Seq<char>>>, messages: Seq<Seq<char>>) -> Option<
    Seq<char>,
> {
    first_absent_from(values, messages, 0)
}

/// An optional numeric column: the trimmed text's value, or `None` when the
/// text is absent or is not an `i64`.
pub open spec fn optional_number(v: Option<Seq<char>>) -> Option<i64> {
    match v {
        Some(s) => parsed_i64(trimmed(s)),
        None => None,
    }
}

/// A required numeric column: the trimmed text's value, or `prefix` followed
/// by the parser's message.
pub open spec fn required_number(text: Seq<char>, prefix: Seq<char>) -> Result<i64, Seq<char>> {
    match parsed_i64(trimmed(text)) {
        Some(n) => Ok(n),
        None => Err(prefix + int_parse_message(trimmed(text))),
    }
}

/// The decimal text of an optional stored number.
pub open spec fn optional_decimal(v: Option<i64>) -> Option<Seq<char>> {
    match v {
        Some(n) => Some(decimal_text(n as int)),
        None => None,
    }
}

fn copy_text(v: &Option<String>) -> (r: Option<String>)
    ensures
        opt_text(r) == opt_text(*v),
{
    match v {
        Some(s) => Some(s.clone()),
        None => None,
    }
}

fn number_or_none(v: &Option<String>) -> (r: Option<i64>)
    ensures
        r == optional_number(opt_text(*v)),
{
    match v {
        Some(s) => match parse_i64(trim_text(s.as_str())) {
            Ok(n) => Some(n),
            Err(_) => None,
        },
        None => None,
    }
}

fn parse_number(text: &str, prefix: &str) -> (r: Result<i64, String>)
    ensures
        match required_number(text@, prefix@) {
            Ok(n) => r == Ok::<i64, String>(n),
            Err(m) => r matches Err(s) && s@ == m,
        },
{
    match parse_i64(trim_text(text)) {
        Ok(n) => Ok(n),
        Err(e) => {
            let mut m = prefix.to_owned();
            m.append(e.as_str());
            Err(m)
        },
    }
}

fn optional_decimal_text(v: Option<i64>) -> (r: Option<String>)
    ensures
        opt_text(r) == optional_decimal(v),
{
    match v {
        Some(n) => Some(decimal(n)),
        None => None,
    }
}

/// The values that one address insert binds, in column order.
pub struct AddressValues {
    pub region_code: String,
    pub note: Option<String>,
    pub country: Option<String>,
    pub district: Option<String>,
    pub city: Option<String>,
    pub settlement: Option<String>,
    pub street: Option<String>,
    pub building: Option<String>,
    pub room: Option<String>,
}

impl SqliteAddressRepository {
    /// The values of one insert: the fields as given, with the region code required.
    pub fn insert_values(dto: &AddressDto) -> (r: Result<AddressValues, AddressRepositoryError>)
        ensures
            match dto.region_code {
                None => r matches Err(e) && e->Storage_0@ == "Region code is required"@,
                Some(code) => r matches Ok(v) && v.region_code@ == code@ && opt_text(v.note)
                    == opt_text(dto.note) && opt_text(v.country) == opt_text(dto.country)
                    && opt_text(v.district) == opt_text(dto.district) && opt_text(v.city)
                    == opt_text(dto.city) && opt_text(v.settlement) == opt_text(dto.settlement)
                    && opt_text(v.street) == opt_text(dto.street) && opt_text(v.building)
                    == opt_text(dto.building) && opt_text(v.room) == opt_text(dto.room),
            },
    {
        let region_code = match &dto.region_code {
            Some(v) => v,
            None => {
                return Err(AddressRepositoryError::storage("Region code is required"));
            },
        };
        Ok(
            AddressValues {
                region_code: region_code.clone(),
                note: copy_text(&dto.note),
                country: copy_text(&dto.country),
                district: copy_text(&dto.district),
                city: copy_text(&dto.city),
                settlement: copy_text(&dto.settlement),
                street: copy_text(&dto.street),
                building: copy_text(&dto.building),
                room: copy_text(&dto.room),
            },
        )
    }
}

/// The values that one organization insert binds, in column order.
pub struct OrganizationValues {
    pub full_name: String,
    pub abbreviated_name: String,
    pub ogrn: Option<i64>,
    pub rafp: Option<i64>,
    pub inn: i64,
    pub kpp: i64,
    pub address_id: i64,
    pub email: String,
}

/// A stored organization as the database returns it.
pub struct OrganizationRow {
    pub id: i64,
    pub full_name: String,
    pub abbreviated_name: String,
    pub ogrn: Option<i64>,
    pub rafp: Option<i64>,
    pub inn: i64,
    pub kpp: i64,
    pub address_id: i64,
    pub email: String,
}

/// The required text values of an organization insert, in the order they are checked.
pub open spec fn organization_required_values(dto: OrganizationDto) -> Seq<Option<Seq<char>>> {
    seq![
        opt_text(dto.full_name),
        opt_text(dto.abbreviated_name),
        opt_text(dto.inn),
        opt_text(dto.kpp),
        opt_text(dto.email),
    ]
}

/// The storage error for each absent required organization value.
pub open spec fn organization_required_messages() -> Seq<Seq<char>> {
    seq![
        "Full name is required"@,
        "Abbreviated name is required"@,
        "INN is required"@,
        "KPP is required"@,
        "Email is required"@,
    ]
}

impl SqliteOrganizationRepository {
    /// The values of one insert: the required texts as given, the optional
    /// numbers parsed or dropped, and the required numbers parsed or rejected.
    pub fn insert_values(dto: &OrganizationDto) -> (r: Result<
        OrganizationValues,
        OrganizationRepositoryError,
    >)
        ensures
            match first_absent(organization_required_values(*dto), organization_required_messages()) {
                Some(m) => r matches Err(e) && e->Storage_0@ == m,
                None => match (
                    required_number(dto.inn->0@, "Invalid INN: "@),
                    required_number(dto.kpp->0@, "Invalid KPP: "@),
                ) {
                    (Err(m), _) => r matches Err(e) && e->Storage_0@ == m,
                    (Ok(_), Err(m)) => r matches Err(e) && e->Storage_0@ == m,
                    (Ok(inn), Ok(kpp)) => r matches Ok(v) && v.full_name@ == dto.full_name->0@
                        && v.abbreviated_name@ == dto.abbreviated_name->0@ && v.ogrn
                        == optional_number(opt_text(dto.ogrn)) && v.rafp == optional_number(
                        opt_text(dto.rafp),
                    ) && v.inn == inn && v.kpp == kpp && v.address_id == dto.address_id
                        && v.email@ == dto.email->0@,
                },
            },
    {
        proof {
            reveal_with_fuel(first_absent_from, 6);
        }
        let full_name = match &dto.full_name {
            Some(v) => v,
            None => {
                return Err(OrganizationRepositoryError::storage("Full name is required"));
            },
        };
        let abbreviated_name = match &dto.abbreviated_name {
            Some(v) => v,
            None => {
                return Err(OrganizationRepositoryError::storage("Abbreviated name is required"));
            },
        };
        let inn = match &dto.inn {
            Some(v) => v,
            None => {
                return Err(OrganizationRepositoryError::storage("INN is required"));
            },
        };
        let kpp = match &dto.kpp {
            Some(v) => v,
            None => {
                return Err(OrganizationRepositoryError::storage("KPP is required"));
            },
        };
        let email = match &dto.email {
            Some(v) => v,
            None => {
                return Err(OrganizationRepositoryError::storage("Email is required"));
            },
        };
        let ogrn = number_or_none(&dto.ogrn);
        let rafp = number_or_none(&dto.rafp);
        let inn = match parse_number(inn.as_str(), "Invalid INN: ") {
            Ok(n) => n,
            Err(m) => {
                return Err(OrganizationRepositoryError::Storage(m));
            },
        };
        let kpp = match parse_number(kpp.as_str(), "Invalid KPP: ") {
            Ok(n) => n,
            Err(m) => {
                return Err(OrganizationRepositoryError::Storage(m));
            },
        };
        Ok(
            OrganizationValues {
                full_name: full_name.clone(),
                abbreviated_name: abbreviated_name.clone(),
                ogrn,
                rafp,
                inn,
                kpp,
                address_id: dto.address_id,
                email: email.clone(),
            },
        )
    }

    /// The record of a stored row, with its numbers written back as decimal text.
    pub fn record_from_row(row: OrganizationRow) -> (r: Organization)
        ensures
            r.id == row.id,
            r.full_name == row.full_name,
            r.abbreviated_name == row.abbreviated_name,
            opt_text(r.ogrn) == optional_decimal(row.ogrn),
            opt_text(r.rafp) == optional_decimal(row.rafp),
            r.inn@ == decimal_text(row.inn as int),
            r.kpp@ == decimal_text(row.kpp as int),
            r.address_id == row.address_id,
            r.email == row.email,
    {
        Organization {
            id: row.id,
            full_name: row.full_name,
            abbreviated_name: row.abbreviated_name,
            ogrn: optional_decimal_text(row.ogrn),
            rafp: optional_decimal_text(row.rafp),
            inn: decimal(row.inn),
            kpp: decimal(row.kpp),
            address_id: row.address_id,
            email: row.email,
        }
    }
}

/// The values that one sole proprietor insert binds, in column order.
pub struct EntrepreneurValues {
    pub surname: String,
    pub name: String,
    pub patronymic: Option<String>,
    pub ogrnip: i64,
    pub inn: i64,
    pub address_id: i64,
    pub email: Option<String>,
}

/// A stored sole proprietor as the database returns it.
pub struct EntrepreneurRow {
    pub id: i64,
    pub surname: String,
    pub name: String,
    pub patronymic: Option<String>,
    pub ogrnip: i64,
    pub inn: i64,
    pub address_id: i64,
    pub email: Option<String>,
}

/// The required text values of a sole proprietor insert, in the order they are checked.
pub open spec fn entrepreneur_required_values(dto: EntrepreneurDto) -> Seq<Option<Seq<char>>> {
    seq![opt_text(dto.surname), opt_text(dto.name), opt_text(dto.ogrnip), opt_text(dto.inn)]
}

/// The storage error for each absent required sole proprietor value.
pub open spec fn entrepreneur_required_messages() -> Seq<Seq<char>> {
    seq![
        "Surname is required"@,
        "Name is required"@,
        "OGRNIP is required"@,
        "INN is required"@,
    ]
}

impl SqliteEntrepreneurRepository {
    /// The values of one insert: the texts as given, and the required numbers
    /// parsed or rejected.
    pub fn insert_values(dto: &EntrepreneurDto) -> (r: Result<
        EntrepreneurValues,
        EntrepreneurRepositoryError,
    >)
        ensures
            match first_absent(entrepreneur_required_values(*dto), entrepreneur_required_messages()) {
                Some(m) => r matches Err(e) && e->Storage_0@ == m,
                None => match (
                    required_number(dto.ogrnip->0@, "Invalid OGRNIP: "@),
                    required_number(dto.inn->0@, "Invalid INN: "@),
                ) {
                    (Err(m), _) => r matches Err(e) && e->Storage_0@ == m,
                    (Ok(_), Err(m)) => r matches Err(e) && e->Storage_0@ == m,
                    (Ok(ogrnip), Ok(inn)) => r matches Ok(v) && v.surname@ == dto.surname->0@
                        && v.name@ == dto.name->0@ && opt_text(v.patronymic) == opt_text(
                        dto.patronymic,
                    ) && v.ogrnip == ogrnip && v.inn == inn && v.address_id == dto.address_id
                        && opt_text(v.email) == opt_text(dto.email),
                },
            },
    {
        proof {
            reveal_with_fuel(first_absent_from, 5);
        }
        let surname = match &dto.surname {
            Some(v) => v,
            None => {
                return Err(EntrepreneurRepositoryError::storage("Surname is required"));
            },
        };
        let name = match &dto.name {
            Some(v) => v,
            None => {
                return Err(EntrepreneurRepositoryError::storage("Name is required"));
            },
        };
        let ogrnip = match &dto.ogrnip {
            Some(v) => v,
            None => {
                return Err(EntrepreneurRepositoryError::storage("OGRNIP is required"));
            },
        };
        let inn = match &dto.inn {
            Some(v) => v,
            None => {
                return Err(EntrepreneurRepositoryError::storage("INN is required"));
            },
        };
        let ogrnip = match parse_number(ogrnip.as_str(), "Invalid OGRNIP: ") {
            Ok(n) => n,
            Err(m) => {
                return Err(EntrepreneurRepositoryError::Storage(m));
            },
        };
        let inn = match parse_number(inn.as_str(), "Invalid INN: ") {
            Ok(n) => n,
            Err(m) => {
                return Err(EntrepreneurRepositoryError::Storage(m));
            },
        };
        Ok(
            EntrepreneurValues {
                surname: surname.clone(),
                name: name.clone(),
                patronymic: copy_text(&dto.patronymic),
                ogrnip,
                inn,
                address_id: dto.address_id,
                email: copy_text(&dto.email),
            },
        )
    }

    /// The record of a stored row, with its numbers written back as decimal text.
    pub fn record_from_row(row: EntrepreneurRow) -> (r: Entrepreneur)
        ensures
            r.id == row.id,
            r.surname == row.surname,
            r.name == row.name,
            r.patronymic == row.patronymic,
            r.ogrnip@ == decimal_text(row.ogrnip as int),
            r.inn@ == decimal_text(row.inn as int),
            r.address_id == row.address_id,
            r.email == row.email,
    {
        Entrepreneur {
            id: row.id,
            surname: row.surname,
            name: row.name,
            patronymic: row.patronymic,
            ogrnip: decimal(row.ogrnip),
            inn: decimal(row.inn),
            address_id: row.address_id,
            email: row.email,
        }
    }
}

/// The values that one person insert binds, in column order.
pub struct PersonValues {
    pub name: String,
    pub patronymic: Option<String>,
    pub surname: String,
    pub snils: i64,
    pub email: String,
    pub address_id: i64,
}

/// A stored person as the database returns it.
pub struct PersonRow {
    pub id: i64,
    pub name: String,
    pub patronymic: Option<String>,
    pub surname: String,
    pub snils: i64,
    pub email: String,
    pub address_id: i64,
}

/// The required text values of a person insert, in the order they are checked.
pub open spec fn person_required_values(dto: PersonDto) -> Seq<Option<Seq<char>>> {
    seq![opt_text(dto.name), opt_text(dto.surname), opt_text(dto.snils), opt_text(dto.email)]
}

/// The storage error for each absent required person value.
pub open spec fn person_required_messages() -> Seq<Seq<char>> {
    seq![
        "Name is required"@,
        "Surname is required"@,
        "SNILS is required"@,
        "Email is required"@,
    ]
}

impl SqlitePersonRepository {
    /// The values of one insert: the texts as given, and the national
    /// insurance number parsed or rejected.
    pub fn insert_values(dto: &PersonDto) -> (r: Result<PersonValues, PersonRepositoryError>)
        ensures
            match first_absent(person_required_values(*dto), person_required_messages()) {
                Some(m) => r matches Err(e) && e->Storage_0@ == m,
                None => match required_number(dto.snils->0@, "Invalid SNILS: "@) {
                    Err(m) => r matches Err(e) && e->Storage_0@ == m,
                    Ok(snils) => r matches Ok(v) && v.name@ == dto.name->0@ && opt_text(
                        v.patronymic,
                    ) == opt_text(dto.patronymic) && v.surname@ == dto.surname->0@ && v.snils
                        == snils && v.email@ == dto.email->0@ && v.address_id == dto.address_id,
                },
            },
    {
        proof {
            reveal_with_fuel(first_absent_from, 5);
        }
        let name = match &dto.name {
            Some(v) => v,
            None => {
                return Err(PersonRepositoryError::storage("Name is required"));
            },
        };
        let surname = match &dto.surname {
            Some(v) => v,
            None => {
                return Err(PersonRepositoryError::storage("Surname is required"));
            },
        };
        let snils = match &dto.snils {
            Some(v) => v,
            None => {
                return Err(PersonRepositoryError::storage("SNILS is required"));
            },
        };
        let email = match &dto.email {
            Some(v) => v,
            None => {
                return Err(PersonRepositoryError::storage("Email is required"));
            },
        };
        let snils = match parse_number(snils.as_str(), "Invalid SNILS: ") {
            Ok(n) => n,
            Err(m) => {
                return Err(PersonRepositoryError::Storage(m));
            },
        };
        Ok(
            PersonValues {
                name: name.clone(),
                patronymic: copy_text(&dto.patronymic),
                surname: surname.clone(),
                snils,
                email: email.clone(),
                address_id: dto.address_id,
            },
        )
    }

    /// The record of a stored row, with its number written back as decimal text.
    pub fn record_from_row(row: PersonRow) -> (r: Person)
        ensures
            r.id == row.id,
            r.name == row.name,
            r.patronymic == row.patronymic,
            r.surname == row.surname,
            r.snils@ == decimal_text(row.snils as int),
            r.email == row.email,
            r.address_id == row.address_id,
    {
        Person {
            id: row.id,
            name: row.name,
            patronymic: row.patronymic,
            surname: row.surname,
            snils: decimal(row.snils),
            email: row.email,
            address_id: row.address_id,
        }
    }
}

} // verus!
