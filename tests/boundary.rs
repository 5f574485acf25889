use std::cell::Cell;

use zdnp::{
    create_address_buffers, decode_field, encode_text, format_address_buffers, report_created,
    Address, AddressBuffers, AddressDto, AddressError, AddressRepository, AddressRepositoryError,
    FfiConversionError,
};

struct CountingRepository {
    calls: Cell<u32>,
}

impl AddressRepository for CountingRepository {
    fn create(&self, _dto: &AddressDto) -> Result<i64, AddressRepositoryError> {
        self.calls.set(self.calls.get() + 1);
        Ok(42)
    }

    fn list(&self) -> Result<Vec<Address>, AddressRepositoryError> {
        Ok(Vec::new())
    }
}

fn buf(s: &str) -> Option<Vec<u8>> {
    let mut v = s.as_bytes().to_vec();
    v.push(0);
    Some(v)
}

fn empty_buffers() -> AddressBuffers {
    AddressBuffers {
        region_code: None,
        note: None,
        country: None,
        district: None,
        city: None,
        settlement: None,
        street: None,
        building: None,
        room: None,
    }
}

#[test]
fn decode_reads_up_to_terminator() {
    assert_eq!(decode_field(b"abc\0").ok().unwrap().as_deref(), Some("abc"));
    assert_eq!(decode_field(b"ab\0cd\0").ok().unwrap().as_deref(), Some("ab"));
    assert_eq!(decode_field(b"\0").ok().unwrap(), None);
    assert!(matches!(decode_field(&[0xff, 0x41, 0]), Err(FfiConversionError::InvalidUtf8)));
}

#[test]
fn encode_appends_terminator_or_refuses() {
    assert_eq!(encode_text("hi"), Some(b"hi\0".to_vec()));
    assert_eq!(encode_text(""), Some(vec![0]));
    assert_eq!(encode_text("a\0b"), None);
}

#[test]
fn encode_then_decode_round_trips() {
    for s in ["Москва", "77, Tverskaya, 1", " spaced ", "€"] {
        let encoded = encode_text(s).unwrap();
        assert_eq!(decode_field(&encoded).ok().unwrap().as_deref(), Some(s));
    }
}

#[test]
fn null_record_is_rejected() {
    assert_eq!(format_address_buffers(None), None);
    let repository = CountingRepository { calls: Cell::new(0) };
    let mut id: i64 = 99;
    assert!(!create_address_buffers(&repository, None, &mut id));
    assert_eq!(id, -1);
    assert_eq!(repository.calls.get(), 0);
}

#[test]
fn format_buffers_formats_present_fields() {
    let mut input = empty_buffers();
    input.region_code = buf("77");
    input.settlement = buf("");
    input.city = buf(" Moscow ");
    assert_eq!(format_address_buffers(Some(&input)), Some(b"77, Moscow\0".to_vec()));
}

#[test]
fn format_buffers_rejects_invalid_text() {
    let mut input = empty_buffers();
    input.city = Some(vec![0xc3, 0x28, 0]);
    assert_eq!(format_address_buffers(Some(&input)), None);
}

#[test]
fn create_buffers_sets_sentinel_and_id() {
    let repository = CountingRepository { calls: Cell::new(0) };
    let mut input = empty_buffers();
    let mut id: i64 = 0;
    assert!(!create_address_buffers(&repository, Some(&input), &mut id));
    assert_eq!(id, -1);
    assert_eq!(repository.calls.get(), 0);
    input.region_code = buf(" 77 ");
    assert!(create_address_buffers(&repository, Some(&input), &mut id));
    assert_eq!(id, 42);
    assert_eq!(repository.calls.get(), 1);
    input.note = Some(vec![0xfe, 0]);
    let mut id: i64 = 5;
    assert!(!create_address_buffers(&repository, Some(&input), &mut id));
    assert_eq!(id, -1);
}

#[test]
fn report_created_writes_only_on_success() {
    let mut slot: i64 = -1;
    assert!(report_created(&Ok(8), &mut slot));
    assert_eq!(slot, 8);
    assert!(!report_created(&Err(AddressError::MissingRegionCode), &mut slot));
    assert_eq!(slot, 8);
}

#[test]
fn format_buffers_blank_record_gives_empty_string() {
    let mut input = empty_buffers();
    input.street = buf("   ");
    assert_eq!(format_address_buffers(Some(&input)), Some(vec![0]));
    assert_eq!(format_address_buffers(Some(&empty_buffers())), Some(vec![0]));
}
