use zdnp::{
    AddressDto, EntrepreneurDto, EntrepreneurRow, OrganizationDto, OrganizationRow, PersonDto,
    PersonRow, SqliteAddressRepository, SqliteEntrepreneurRepository, SqliteMigrations,
    SqliteOrganizationRepository, SqlitePersonRepository, DEFAULT_DATABASE_FILE_NAME,
};

fn some(s: &str) -> Option<String> {
    Some(s.to_string())
}

fn organization() -> OrganizationDto {
    OrganizationDto {
        full_name: some("Horns and Hooves LLC"),
        abbreviated_name: some("HH"),
        ogrn: some("1027700132195"),
        rafp: some(" 42 "),
        inn: some(" 7707083893 "),
        kpp: some("773601001"),
        address_id: 5,
        email: some("info@hh.example"),
    }
}

#[test]
fn settings_use_default_or_given_file_name() {
    assert_eq!(DEFAULT_DATABASE_FILE_NAME, "zdnp.sqlite");
    assert_eq!(SqliteMigrations::new().database_file_name(), "zdnp.sqlite");
    assert_eq!(SqliteAddressRepository::new().database_file_name(), "zdnp.sqlite");
    assert_eq!(SqliteOrganizationRepository::default().database_file_name(), "zdnp.sqlite");
    assert_eq!(SqliteEntrepreneurRepository::new().database_file_name(), "zdnp.sqlite");
    assert_eq!(SqlitePersonRepository::default().database_file_name(), "zdnp.sqlite");
    assert_eq!(SqliteMigrations::with_file_name("test.db").database_file_name(), "test.db");
    assert_eq!(SqliteAddressRepository::with_file_name("a.db").database_file_name(), "a.db");
    assert_eq!(SqlitePersonRepository::with_file_name("p.db").database_file_name(), "p.db");
}

#[test]
fn address_insert_requires_region_code() {
    let err = SqliteAddressRepository::insert_values(&AddressDto::default()).err().unwrap();
    assert_eq!(err.message(), "Region code is required");
    let dto = AddressDto { region_code: some("77"), city: some("Moscow"), ..Default::default() };
    let values = SqliteAddressRepository::insert_values(&dto).ok().unwrap();
    assert_eq!(values.region_code, "77");
    assert_eq!(values.city.as_deref(), Some("Moscow"));
    assert_eq!(values.room, None);
}

#[test]
fn organization_insert_parses_numbers() {
    let values = SqliteOrganizationRepository::insert_values(&organization()).ok().unwrap();
    assert_eq!(values.ogrn, Some(1027700132195));
    assert_eq!(values.rafp, Some(42));
    assert_eq!(values.inn, 7707083893);
    assert_eq!(values.kpp, 773601001);
    assert_eq!(values.address_id, 5);
    assert_eq!(values.full_name, "Horns and Hooves LLC");
}

#[test]
fn optional_number_with_text_is_dropped_silently() {
    let mut dto = organization();
    dto.ogrn = some("not a number");
    dto.rafp = some("");
    let values = SqliteOrganizationRepository::insert_values(&dto).ok().unwrap();
    assert_eq!(values.ogrn, None);
    assert_eq!(values.rafp, None);
}

#[test]
fn required_number_with_text_fails_insert() {
    let mut dto = organization();
    dto.inn = some("77O7");
    let err = SqliteOrganizationRepository::insert_values(&dto).err().unwrap();
    assert_eq!(err.message(), "Invalid INN: invalid digit found in string");
    let mut dto = organization();
    dto.kpp = some("99999999999999999999");
    let err = SqliteOrganizationRepository::insert_values(&dto).err().unwrap();
    assert_eq!(err.message(), "Invalid KPP: number too large to fit in target type");
}

#[test]
fn organization_insert_reports_first_absent_value() {
    let mut dto = organization();
    dto.email = None;
    dto.kpp = None;
    let err = SqliteOrganizationRepository::insert_values(&dto).err().unwrap();
    assert_eq!(err.message(), "KPP is required");
    dto.full_name = None;
    let err = SqliteOrganizationRepository::insert_values(&dto).err().unwrap();
    assert_eq!(err.message(), "Full name is required");
}

#[test]
fn organization_row_numbers_become_decimal_text() {
    let row = OrganizationRow {
        id: 7,
        full_name: "A".to_string(),
        abbreviated_name: "B".to_string(),
        ogrn: Some(-15),
        rafp: None,
        inn: 7707083893,
        kpp: 0,
        address_id: 2,
        email: "e".to_string(),
    };
    let record = SqliteOrganizationRepository::record_from_row(row);
    assert_eq!(record.id, 7);
    assert_eq!(record.ogrn.as_deref(), Some("-15"));
    assert_eq!(record.rafp, None);
    assert_eq!(record.inn, "7707083893");
    assert_eq!(record.kpp, "0");
}

#[test]
fn entrepreneur_insert_and_row() {
    let dto = EntrepreneurDto {
        surname: some("Ivanov"),
        name: some("Ivan"),
        patronymic: None,
        ogrnip: some("+304500116000157"),
        inn: some("500100732259"),
        address_id: 1,
        email: None,
    };
    let values = SqliteEntrepreneurRepository::insert_values(&dto).ok().unwrap();
    assert_eq!(values.ogrnip, 304500116000157);
    assert_eq!(values.inn, 500100732259);
    let mut bad = dto.clone();
    bad.ogrnip = some("  ");
    let err = SqliteEntrepreneurRepository::insert_values(&bad).err().unwrap();
    assert_eq!(err.message(), "Invalid OGRNIP: cannot parse integer from empty string");
    let mut absent = dto.clone();
    absent.name = None;
    let err = SqliteEntrepreneurRepository::insert_values(&absent).err().unwrap();
    assert_eq!(err.message(), "Name is required");
    let row = EntrepreneurRow {
        id: 3,
        surname: "Ivanov".to_string(),
        name: "Ivan".to_string(),
        patronymic: None,
        ogrnip: 304500116000157,
        inn: -1,
        address_id: 1,
        email: None,
    };
    let record = SqliteEntrepreneurRepository::record_from_row(row);
    assert_eq!(record.ogrnip, "304500116000157");
    assert_eq!(record.inn, "-1");
}

#[test]
fn person_insert_and_row() {
    let dto = PersonDto {
        name: some("Anna"),
        patronymic: some("Sergeevna"),
        surname: some("Petrova"),
        snils: some("11223344595"),
        email: some("anna@example.org"),
        address_id: 4,
    };
    let values = SqlitePersonRepository::insert_values(&dto).ok().unwrap();
    assert_eq!(values.snils, 11223344595);
    assert_eq!(values.patronymic.as_deref(), Some("Sergeevna"));
    let mut bad = dto.clone();
    bad.snils = some("112-233-445 95");
    let err = SqlitePersonRepository::insert_values(&bad).err().unwrap();
    assert_eq!(err.message(), "Invalid SNILS: invalid digit found in string");
    let mut absent = dto.clone();
    absent.email = None;
    let err = SqlitePersonRepository::insert_values(&absent).err().unwrap();
    assert_eq!(err.message(), "Email is required");
    let row = PersonRow {
        id: 1,
        name: "Anna".to_string(),
        patronymic: None,
        surname: "Petrova".to_string(),
        snils: 11223344595,
        email: "anna@example.org".to_string(),
        address_id: 4,
    };
    assert_eq!(SqlitePersonRepository::record_from_row(row).snils, "11223344595");
}

#[test]
fn stored_numbers_parse_back() {
    for n in [0i64, 7, -15, 7707083893, i64::MAX, i64::MIN] {
        let row = PersonRow {
            id: 1,
            name: "A".to_string(),
            patronymic: None,
            surname: "B".to_string(),
            snils: n,
            email: "e".to_string(),
            address_id: 1,
        };
        let record = SqlitePersonRepository::record_from_row(row);
        let dto = PersonDto {
            name: some(&record.name),
            patronymic: None,
            surname: some(&record.surname),
            snils: Some(record.snils.clone()),
            email: some(&record.email),
            address_id: record.address_id,
        };
        let values = SqlitePersonRepository::insert_values(&dto).ok().unwrap();
        assert_eq!(values.snils, n);
    }
}
