use std::cell::RefCell;

use zdnp::{
    add, add_i32, create_address, create_entrepreneur, create_organization, create_person,
    format_address, list_addresses, sanitize, sanitize_address, sanitize_entrepreneur,
    sanitize_organization, sanitize_person, Address, AddressDto, AddressError, AddressRepository,
    AddressRepositoryError, EntrepreneurDto, EntrepreneurError, OrganizationDto,
    OrganizationError, OrganizationRepository, OrganizationRepositoryError, PersonDto,
    PersonError, Organization,
};

#[derive(Default)]
struct RecordingRepository {
    last: RefCell<Option<AddressDto>>,
}

impl RecordingRepository {
    fn last(&self) -> Option<AddressDto> {
        self.last.borrow().clone()
    }
}

impl AddressRepository for RecordingRepository {
    fn create(&self, dto: &AddressDto) -> Result<i64, AddressRepositoryError> {
        *self.last.borrow_mut() = Some(dto.clone());
        Ok(42)
    }

    fn list(&self) -> Result<Vec<Address>, AddressRepositoryError> {
        Ok(Vec::new())
    }
}

struct FailingRepository;

impl AddressRepository for FailingRepository {
    fn create(&self, _dto: &AddressDto) -> Result<i64, AddressRepositoryError> {
        Err(AddressRepositoryError::storage("disk full"))
    }

    fn list(&self) -> Result<Vec<Address>, AddressRepositoryError> {
        Err(AddressRepositoryError::storage("disk full"))
    }
}

fn some(s: &str) -> Option<String> {
    Some(s.to_string())
}

#[test]
fn it_works() {
    let result = add(2, 2);
    assert_eq!(result, 4);
}

#[test]
fn add_i32_handles_negatives() {
    assert_eq!(add_i32(-5, 2), -3);
}

#[test]
fn format_address_skips_empty_values() {
    let dto = AddressDto {
        region_code: Some("77".into()),
        note: Some("Около метро".into()),
        country: Some("Россия".into()),
        district: Some("ЦАО".into()),
        city: Some("Москва".into()),
        settlement: Some("".into()),
        street: Some("Тверская".into()),
        building: Some("1".into()),
        room: Some("101".into()),
    };

    let formatted = format_address(&dto);

    assert_eq!(
        formatted,
        "77, Около метро, Россия, ЦАО, Москва, Тверская, 1, 101"
    );
}

#[test]
fn create_address_requires_region_code() {
    let repository = RecordingRepository::default();
    let dto = AddressDto::default();

    let result = create_address(&repository, &dto);

    match result {
        Err(AddressError::MissingRegionCode) => {}
        _ => panic!("Expected MissingRegionCode error"),
    }
}

#[test]
fn create_address_sanitizes_fields() {
    let repository = RecordingRepository::default();
    let dto = AddressDto {
        region_code: Some(" 77 ".into()),
        city: Some(" Москва ".into()),
        street: Some(" ".into()),
        ..Default::default()
    };

    let id = create_address(&repository, &dto).expect("address should be created");
    assert_eq!(id, 42);

    let captured = repository.last();
    let captured = captured.as_ref().expect("repository should capture dto");

    assert_eq!(captured.region_code.as_deref(), Some("77"));
    assert_eq!(captured.city.as_deref(), Some("Москва"));
    assert_eq!(captured.street, None);
}

#[test]
fn format_address_keeps_declaration_order_in_english() {
    let dto = AddressDto {
        region_code: some("77"),
        note: some("Near metro"),
        country: some("Russia"),
        district: some("Central"),
        city: some("Moscow"),
        settlement: some(""),
        street: some("Tverskaya"),
        building: some("1"),
        room: some("101"),
    };
    assert_eq!(
        format_address(&dto),
        "77, Near metro, Russia, Central, Moscow, Tverskaya, 1, 101"
    );
}

#[test]
fn format_address_trims_and_handles_empty_record() {
    assert_eq!(format_address(&AddressDto::default()), "");
    let dto = AddressDto {
        city: some("  Kazan\t"),
        room: some("\n5 "),
        street: some("   "),
        ..Default::default()
    };
    assert_eq!(format_address(&dto), "Kazan, 5");
}

#[test]
fn sanitize_trims_and_collapses_blank() {
    assert_eq!(sanitize(&None), None);
    assert_eq!(sanitize(&some("")), None);
    assert_eq!(sanitize(&some(" \t\n ")), None);
    assert_eq!(sanitize(&some("\u{3000}\u{a0}")), None);
    assert_eq!(sanitize(&some("  a b  ")), some("a b"));
    assert_eq!(sanitize(&some("x")), some("x"));
}

#[test]
fn sanitize_is_idempotent_on_examples() {
    for s in [None, some(""), some("  "), some(" 77 "), some("\u{2003}Tver\u{2003}"), some("ok")] {
        let once = sanitize(&s);
        assert_eq!(sanitize(&once), once);
    }
}

#[test]
fn create_address_wraps_repository_error() {
    let dto = AddressDto { region_code: some("77"), ..Default::default() };
    let result = create_address(&FailingRepository, &dto);
    assert_eq!(
        result,
        Err(AddressError::Repository(AddressRepositoryError::Storage("disk full".to_string())))
    );
}

#[test]
fn create_address_with_trimmed_region_code_only() {
    let repository = RecordingRepository::default();
    let dto = AddressDto { region_code: some(" 77 "), ..Default::default() };
    assert_eq!(create_address(&repository, &dto), Ok(42));
    let captured = repository.last().unwrap();
    assert_eq!(captured.region_code.as_deref(), Some("77"));
    assert_eq!(captured.note, None);
    assert_eq!(captured.room, None);
}

#[test]
fn list_addresses_passes_repository_result() {
    assert_eq!(list_addresses(&RecordingRepository::default()), Ok(Vec::new()));
    assert!(list_addresses(&FailingRepository).is_err());
}

#[test]
fn address_error_messages() {
    assert_eq!(AddressError::MissingRegionCode.message(), "Region code is required");
    let e = AddressError::Repository(AddressRepositoryError::storage("boom"));
    assert_eq!(e.message(), "Repository error: boom");
    assert_eq!(AddressRepositoryError::storage("boom").message(), "boom");
}

fn full_organization() -> OrganizationDto {
    OrganizationDto {
        full_name: some(" Horns and Hooves LLC "),
        abbreviated_name: some("HH"),
        ogrn: some("1027700132195"),
        rafp: None,
        inn: some("7707083893"),
        kpp: some("773601001"),
        address_id: 3,
        email: some("info@hh.example"),
    }
}

#[test]
fn organization_missing_fields_in_declaration_order() {
    let mut dto = full_organization();
    dto.email = None;
    dto.kpp = some("  ");
    assert_eq!(sanitize_organization(&dto), Err(OrganizationError::MissingKpp));
    dto.inn = None;
    assert_eq!(sanitize_organization(&dto), Err(OrganizationError::MissingInn));
    dto.abbreviated_name = some("");
    assert_eq!(sanitize_organization(&dto), Err(OrganizationError::MissingAbbreviatedName));
    dto.full_name = None;
    assert_eq!(sanitize_organization(&dto), Err(OrganizationError::MissingFullName));
    let mut only_email = full_organization();
    only_email.email = some(" ");
    assert_eq!(sanitize_organization(&only_email), Err(OrganizationError::MissingEmail));
}

#[test]
fn organization_required_only_succeeds() {
    let dto = OrganizationDto {
        full_name: some("A"),
        abbreviated_name: some("B"),
        ogrn: None,
        rafp: None,
        inn: some("1"),
        kpp: some("2"),
        address_id: 9,
        email: some("e"),
    };
    let out = sanitize_organization(&dto).unwrap();
    assert_eq!(out, dto);
    assert_eq!(out.ogrn, None);
    assert_eq!(out.rafp, None);
}

#[test]
fn organization_sanitized_keeps_address_id() {
    let out = sanitize_organization(&full_organization()).unwrap();
    assert_eq!(out.full_name.as_deref(), Some("Horns and Hooves LLC"));
    assert_eq!(out.address_id, 3);
}

struct FixedOrganizations;

impl OrganizationRepository for FixedOrganizations {
    fn create(&self, dto: &OrganizationDto) -> Result<i64, OrganizationRepositoryError> {
        Ok(dto.address_id + 100)
    }

    fn list(&self) -> Result<Vec<Organization>, OrganizationRepositoryError> {
        Ok(Vec::new())
    }
}

#[test]
fn create_organization_validates_then_stores() {
    assert_eq!(create_organization(&FixedOrganizations, &full_organization()), Ok(103));
    let mut dto = full_organization();
    dto.full_name = None;
    assert_eq!(
        create_organization(&FixedOrganizations, &dto),
        Err(OrganizationError::MissingFullName)
    );
}

#[test]
fn organization_error_messages() {
    assert_eq!(OrganizationError::MissingFullName.message(), "Full name is required");
    assert_eq!(OrganizationError::MissingAbbreviatedName.message(), "Abbreviated name is required");
    assert_eq!(OrganizationError::MissingInn.message(), "INN is required");
    assert_eq!(OrganizationError::MissingKpp.message(), "KPP is required");
    assert_eq!(OrganizationError::MissingEmail.message(), "Email is required");
    let e = OrganizationError::Repository(OrganizationRepositoryError::storage("x"));
    assert_eq!(e.message(), "Repository error: x");
}

fn full_entrepreneur() -> EntrepreneurDto {
    EntrepreneurDto {
        surname: some("Ivanov"),
        name: some("Ivan"),
        patronymic: some("  "),
        ogrnip: some("304500116000157"),
        inn: some("500100732259"),
        address_id: 1,
        email: some(" ivan@example.org "),
    }
}

#[test]
fn entrepreneur_missing_fields_in_declaration_order() {
    let mut dto = full_entrepreneur();
    dto.inn = None;
    assert_eq!(sanitize_entrepreneur(&dto), Err(EntrepreneurError::MissingInn));
    dto.ogrnip = some("\t");
    assert_eq!(sanitize_entrepreneur(&dto), Err(EntrepreneurError::MissingOgrnip));
    dto.name = None;
    assert_eq!(sanitize_entrepreneur(&dto), Err(EntrepreneurError::MissingName));
    dto.surname = None;
    assert_eq!(sanitize_entrepreneur(&dto), Err(EntrepreneurError::MissingSurname));
}

#[test]
fn entrepreneur_optional_fields_sanitized() {
    let out = sanitize_entrepreneur(&full_entrepreneur()).unwrap();
    assert_eq!(out.patronymic, None);
    assert_eq!(out.email.as_deref(), Some("ivan@example.org"));
    assert_eq!(out.address_id, 1);
    assert_eq!(EntrepreneurError::MissingOgrnip.message(), "OGRNIP is required");
    assert_eq!(EntrepreneurError::MissingSurname.message(), "Surname is required");
}

fn full_person() -> PersonDto {
    PersonDto {
        name: some("Anna"),
        patronymic: None,
        surname: some("Petrova"),
        snils: some("112-233-445 95"),
        email: some("anna@example.org"),
        address_id: 2,
    }
}

#[test]
fn person_missing_fields_in_declaration_order() {
    let mut dto = full_person();
    dto.email = None;
    assert_eq!(sanitize_person(&dto), Err(PersonError::MissingEmail));
    dto.snils = some("");
    assert_eq!(sanitize_person(&dto), Err(PersonError::MissingSnils));
    dto.surname = None;
    assert_eq!(sanitize_person(&dto), Err(PersonError::MissingSurname));
    dto.name = some(" ");
    assert_eq!(sanitize_person(&dto), Err(PersonError::MissingName));
    assert_eq!(PersonError::MissingSnils.message(), "SNILS is required");
}

#[test]
fn person_required_only_succeeds() {
    let out = sanitize_person(&full_person()).unwrap();
    assert_eq!(out, full_person());
    assert_eq!(out.patronymic, None);
}

#[test]
fn sanitize_address_reports_missing_region_code() {
    let dto = AddressDto { city: some("Moscow"), region_code: some("   "), ..Default::default() };
    assert_eq!(sanitize_address(&dto), Err(AddressError::MissingRegionCode));
}

struct NoPersons;
impl zdnp::PersonRepository for NoPersons {
    fn create(&self, _dto: &PersonDto) -> Result<i64, zdnp::PersonRepositoryError> {
        Ok(1)
    }
    fn list(&self) -> Result<Vec<zdnp::Person>, zdnp::PersonRepositoryError> {
        Ok(Vec::new())
    }
}
struct NoEntrepreneurs;
impl zdnp::EntrepreneurRepository for NoEntrepreneurs {
    fn create(&self, _dto: &EntrepreneurDto) -> Result<i64, zdnp::EntrepreneurRepositoryError> {
        Err(zdnp::EntrepreneurRepositoryError::storage("locked"))
    }
    fn list(&self) -> Result<Vec<zdnp::Entrepreneur>, zdnp::EntrepreneurRepositoryError> {
        Ok(Vec::new())
    }
}

#[test]
fn create_person_and_entrepreneur_reject_missing_fields() {
    assert_eq!(create_person(&NoPersons, &PersonDto::default()), Err(PersonError::MissingName));
    assert_eq!(create_person(&NoPersons, &full_person()), Ok(1));
    assert_eq!(
        create_entrepreneur(&NoEntrepreneurs, &full_entrepreneur()),
        Err(EntrepreneurError::Repository(zdnp::EntrepreneurRepositoryError::storage("locked")))
    );
}
