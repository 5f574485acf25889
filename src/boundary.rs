//! The byte-level side of the boundary to host runtimes.
//!
//! A host hands over each text field as a zero-terminated buffer, or as nothing
//! (a null pointer), and takes results back as zero-terminated buffers. This
//! module decodes and encodes those buffers and runs each boundary operation as
//! one pass: decode, call the library, encode.

use vstd::prelude::*;
use vstd::utf8::{
    char_is_scalar, char_u32_cast, decode_utf8, decode_utf8_encode_utf8, encode_scalar,
    encode_utf8, encode_utf8_decode_utf8, is_scalar, valid_utf8,
};
use vstd::string::{StrSliceExecFns, StringSliceAdditionalSpecFns};
use crate::address::{
    address_schema, address_separator, create_address, format_address, formatted_address, AddressDto, AddressError,
    AddressRepository,
};
use crate::schema::validated;
use crate::text::{avoids, field_avoids, lemma_joined_fields_avoid, opt_text};

verus! {

broadcast use encode_utf8_decode_utf8;

#[verifier::external_type_specification]
#[verifier::external_body]
pub struct ExUtf8Error(core::str::Utf8Error);

/// Relies on `core::str::from_utf8`: succeeds exactly on valid UTF-8, and the
/// string it returns is those same bytes.
pub assume_specification<'a>[ core::str::from_utf8 ](v: &'a [u8]) -> (r: Result<
    &'a str,
    core::str::Utf8Error,
>)
    ensures
        r is Ok <==> valid_utf8(v@),
        r matches Ok(s) ==> s.spec_bytes() == v@,
;

/// Why a buffer handed over by the host could not be read.
#[derive(Debug)]
pub enum FfiConversionError {
    InvalidUtf8,
}

impl From<core::str::Utf8Error> for FfiConversionError {
    fn from(_e: core::str::Utf8Error) -> (r: Self)
        ensures
            r == FfiConversionError::InvalidUtf8,
    {
        FfiConversionError::InvalidUtf8
    }
}

impl vstd::std_specs::convert::FromSpecImpl<core::str::Utf8Error> for FfiConversionError {
    open spec fn obeys_from_spec() -> bool {
        true
    }

    open spec fn from_spec(v: core::str::Utf8Error) -> Self {
        FfiConversionError::InvalidUtf8
    }
}

/// `i` is the position of the first zero byte of `b`.
pub open spec fn is_first_zero(b: Seq<u8>, i: int) -> bool {
    0 <= i < b.len() && b[i] == 0 && forall|j: int| 0 <= j < i ==> b[j] != 0
}

/// `b` holds a zero byte, which ends the text it carries.
pub open spec fn is_terminated(b: Seq<u8>) -> bool {
    exists|i: int| 0 <= i < b.len() && b[i] == 0
}

/// The text bytes of a terminated buffer: those before its first zero byte.
pub open spec fn terminated_text(b: Seq<u8>) -> Seq<u8> {
    b.subrange(0, choose|i: int| is_first_zero(b, i))
}

/// What a terminated buffer decodes to: its text when that is valid UTF-8,
/// with an empty text read as absent.
pub open spec fn decoded_field(b: Seq<u8>) -> Result<Option<Seq<char>>, FfiConversionError> {
    let t = terminated_text(b);
    if !valid_utf8(t) {
        Err(FfiConversionError::InvalidUtf8)
    } else if t.len() == 0 {
        Ok(None)
    } else {
        Ok(Some(decode_utf8(t)))
    }
}

/// What an optional buffer decodes to; an absent buffer is an absent field.
pub open spec fn decoded_optional(b: Option<Seq<u8>>) -> Result<
    Option<Seq<char>>,
    FfiConversionError,
> {
    match b {
        Some(x) => decoded_field(x),
        None => Ok(None),
    }
}

/// The bytes of an optional buffer.
pub open spec fn opt_bytes(b: Option<Vec<u8>>) -> Option<Seq<u8>> {
    match b {
        Some(v) => Some(v@),
        None => None,
    }
}

/// A present buffer is terminated.
pub open spec fn opt_terminated(b: Option<Seq<u8>>) -> bool {
    b matches Some(x) ==> is_terminated(x)
}

proof fn lemma_first_zero_unique(b: Seq<u8>, i: int)
    requires
        is_first_zero(b, i),
    ensures
        terminated_text(b) == b.subrange(0, i),
{
    let k = choose|k: int| is_first_zero(b, k);
    assert(is_first_zero(b, k));
    assert(k == i);
}

/// Only U+0000 has a zero byte in its UTF-8 form, and that form is the single byte zero.
proof fn lemma_scalar_zero_bytes(v: u32)
    requires
        is_scalar(v),
    ensures
        v == 0 ==> encode_scalar(v)[0] == 0,
        v != 0 ==> forall|i: int| 0 <= i < encode_scalar(v).len() ==> encode_scalar(v)[i] != 0,
{
    assert(v != 0 && v <= 0x7F ==> (v & 0x7F) as u8 != 0) by (bit_vector);
    assert(v == 0 ==> (v & 0x7F) as u8 == 0) by (bit_vector);
    assert(0xC0 | ((v >> 6) & 0x1F) as u8 != 0) by (bit_vector);
    assert(0xE0 | ((v >> 12) & 0x0F) as u8 != 0) by (bit_vector);
    assert(0xF0 | ((v >> 18) & 0x7) as u8 != 0) by (bit_vector);
    assert(0x80 | (v & 0x3F) as u8 != 0) by (bit_vector);
    assert(0x80 | ((v >> 6) & 0x3F) as u8 != 0) by (bit_vector);
    assert(0x80 | ((v >> 12) & 0x3F) as u8 != 0) by (bit_vector);
}

/// Text free of U+0000 has no zero byte in its UTF-8 form.
proof fn lemma_encode_avoids_zero(s: Seq<char>)
    requires
        avoids(s, '\0'),
    ensures
        !encode_utf8(s).contains(0),
    decreases s.len(),
{
    if s.len() > 0 {
        let v = s[0] as u32;
        char_is_scalar(s[0]);
        char_u32_cast(s[0], v);
        char_u32_cast('\0', 0);
        lemma_scalar_zero_bytes(v);
        let rest = s.drop_first();
        assert forall|i: int| 0 <= i < rest.len() implies rest[i] != '\0' by {
            assert(rest[i] == s[i + 1]);
        }
        lemma_encode_avoids_zero(rest);
        let head = encode_scalar(v);
        let b = encode_utf8(s);
        assert(b == head + encode_utf8(rest));
        assert forall|i: int| 0 <= i < b.len() implies b[i] != 0 by {
            if i >= head.len() {
                assert(b[i] == encode_utf8(rest)[i - head.len()]);
            }
        }
    }
}

/// A U+0000 in the text puts a zero byte in its UTF-8 form.
proof fn lemma_nul_encodes_zero(s: Seq<char>, i: int)
    requires
        0 <= i < s.len(),
        s[i] == '\0',
    ensures
        encode_utf8(s).contains(0),
    decreases i,
{
    let head = encode_scalar(s[0] as u32);
    let b = encode_utf8(s);
    assert(b == head + encode_utf8(s.drop_first()));
    if i == 0 {
        lemma_scalar_zero_bytes(0);
        assert(b[0] == 0);
    } else {
        lemma_nul_encodes_zero(s.drop_first(), i - 1);
        let j = choose|j: int| 0 <= j < encode_utf8(s.drop_first()).len() && encode_utf8(
            s.drop_first(),
        )[j] == 0;
        assert(b[head.len() + j] == 0);
    }
}

/// Valid UTF-8 without a zero byte decodes to text free of U+0000.
proof fn lemma_decoded_avoids_nul(t: Seq<u8>)
    requires
        valid_utf8(t),
        !t.contains(0),
    ensures
        avoids(decode_utf8(t), '\0'),
{
    decode_utf8_encode_utf8(t);
    let s = decode_utf8(t);
    if !avoids(s, '\0') {
        let i = choose|i: int| 0 <= i < s.len() && s[i] == '\0';
        lemma_nul_encodes_zero(s, i);
    }
}

proof fn lemma_first_zero_exists(b: Seq<u8>, k: int)
    requires
        0 <= k < b.len(),
        b[k] == 0,
    ensures
        exists|i: int| is_first_zero(b, i),
    decreases k,
{
    if exists|j: int| 0 <= j < k && b[j] == 0 {
        let j = choose|j: int| 0 <= j < k && b[j] == 0;
        lemma_first_zero_exists(b, j);
    } else {
        assert(is_first_zero(b, k));
    }
}

/// What a terminated buffer decodes to is free of U+0000.
proof fn lemma_decoded_field_avoids(b: Option<Seq<u8>>)
    requires
        opt_terminated(b),
    ensures
        decoded_optional(b) matches Ok(v) ==> field_avoids(v, '\0'),
{
    if let Some(x) = b {
        let k = choose|k: int| 0 <= k < x.len() && x[k] == 0;
        lemma_first_zero_exists(x, k);
        let i = choose|i: int| is_first_zero(x, i);
        lemma_first_zero_unique(x, i);
        let t = terminated_text(x);
        assert forall|j: int| 0 <= j < t.len() implies t[j] != 0 by {
            assert(t[j] == x[j]);
        }
        if valid_utf8(t) && t.len() > 0 {
            lemma_decoded_avoids_nul(t);
        }
    }
}

/// Reads the text of a terminated buffer: `None` when it is empty, an error
/// when it is not valid UTF-8.
pub fn decode_field(buf: &[u8]) -> (r: Result<Option<String>, FfiConversionError>)
    requires
        is_terminated(buf@),
    ensures
        match decoded_field(buf@) {
            Ok(v) => r matches Ok(o) && opt_text(o) == v,
            Err(_) => r matches Err(FfiConversionError::InvalidUtf8),
        },
{
    let mut i: usize = 0;
    while i < buf.len() && buf[i] != 0
        invariant
            i <= buf.len(),
            is_terminated(buf@),
            forall|j: int| 0 <= j < i ==> buf@[j] != 0,
        decreases buf.len() - i,
    {
        i += 1;
    }
    proof {
        if i == buf.len() {
            let k = choose|k: int| 0 <= k < buf@.len() && buf@[k] == 0;
            assert(buf@[k] != 0);
        }
        lemma_first_zero_unique(buf@, i as int);
    }
    let (text, _) = buf.split_at(i);
    match core::str::from_utf8(text) {
        Ok(s) => {
            proof {
                assert(decode_utf8(encode_utf8(s@)) == s@);
            }
            if s.is_empty() {
                Ok(None)
            } else {
                Ok(Some(s.to_owned()))
            }
        },
        Err(e) => Err(FfiConversionError::from(e)),
    }
}

fn decode_optional(buf: &Option<Vec<u8>>) -> (r: Result<Option<String>, FfiConversionError>)
    requires
        opt_terminated(opt_bytes(*buf)),
    ensures
        match decoded_optional(opt_bytes(*buf)) {
            Ok(v) => r matches Ok(o) && opt_text(o) == v,
            Err(_) => r matches Err(FfiConversionError::InvalidUtf8),
        },
{
    match buf {
        Some(b) => decode_field(b.as_slice()),
        None => Ok(None),
    }
}

/// The bytes a zero-terminated copy of `s` holds: its UTF-8 form, then a zero.
pub open spec fn encoded_text(s: Seq<char>) -> Seq<u8> {
    encode_utf8(s).push(0)
}

/// `s` holds a character whose UTF-8 form holds a zero byte, which a
/// terminated buffer cannot carry.
pub open spec fn has_embedded_terminator(s: Seq<char>) -> bool {
    encode_utf8(s).contains(0)
}

/// A zero-terminated copy of `s`, or `None` when `s` holds a terminator itself.
pub fn encode_text(s: &str) -> (r: Option<Vec<u8>>)
    ensures
        has_embedded_terminator(s@) ==> r is None,
        !has_embedded_terminator(s@) ==> (r matches Some(v) && v@ == encoded_text(s@)),
{
    let bytes = s.as_bytes();
    let mut i: usize = 0;
    while i < bytes.len()
        invariant
            i <= bytes.len(),
            bytes@ == encode_utf8(s@),
            forall|j: int| 0 <= j < i ==> bytes@[j] != 0,
        decreases bytes.len() - i,
    {
        if bytes[i] == 0 {
            assert(encode_utf8(s@)[i as int] == 0);
            return None;
        }
        i += 1;
    }
    let mut v = s.as_bytes_vec();
    v.push(0);
    Some(v)
}

/// Text encoded for the host and decoded back is the text itself, for any
/// non-empty text without an embedded terminator.
pub proof fn lemma_encode_decode_round_trip(s: Seq<char>)
    requires
        s.len() > 0,
        !has_embedded_terminator(s),
    ensures
        decoded_field(encoded_text(s)) == Ok::<Option<Seq<char>>, FfiConversionError>(Some(s)),
{
    let b = encoded_text(s);
    let n = encode_utf8(s).len() as int;
    assert forall|j: int| 0 <= j < n implies b[j] != 0 by {
        assert(b[j] == encode_utf8(s)[j]);
    }
    assert(is_first_zero(b, n));
    lemma_first_zero_unique(b, n);
    assert(b.subrange(0, n) =~= encode_utf8(s));
    vstd::utf8::encode_utf8_valid_utf8(s);
    if encode_utf8(s).len() == 0 {
        assert(decode_utf8(encode_utf8(s)).len() == 0);
    }
}

/// An address as a host hands it over: each field absent (a null pointer) or
/// the bytes of a zero-terminated buffer.
pub struct AddressBuffers {
    pub region_code: Option<Vec<u8>>,
    pub note: Option<Vec<u8>>,
    pub country: Option<Vec<u8>>,
    pub district: Option<Vec<u8>>,
    pub city: Option<Vec<u8>>,
    pub settlement: Option<Vec<u8>>,
    pub street: Option<Vec<u8>>,
    pub building: Option<Vec<u8>>,
    pub room: Option<Vec<u8>>,
}

/// The decoded fields, or the error of the first field that does not decode.
pub open spec fn decoded_fields(bufs: Seq<Option<Seq<u8>>>) -> Result<
    Seq<Option<Seq<char>>>,
    FfiConversionError,
> {
    if exists|i: int| 0 <= i < bufs.len() && (#[trigger] decoded_optional(bufs[i])) is Err {
        Err(FfiConversionError::InvalidUtf8)
    } else {
        Ok(bufs.map_values(|b: Option<Seq<u8>>| decoded_optional(b)->Ok_0))
    }
}

impl AddressBuffers {
    /// The buffers in the declaration order of the address fields.
    pub open spec fn buffers(&self) -> Seq<Option<Seq<u8>>> {
        seq![
            opt_bytes(self.region_code),
            opt_bytes(self.note),
            opt_bytes(self.country),
            opt_bytes(self.district),
            opt_bytes(self.city),
            opt_bytes(self.settlement),
            opt_bytes(self.street),
            opt_bytes(self.building),
            opt_bytes(self.room),
        ]
    }

    /// Every present buffer is terminated.
    pub open spec fn well_formed(&self) -> bool {
        forall|i: int| 0 <= i < 9 ==> opt_terminated(#[trigger] self.buffers()[i])
    }

    /// Decodes every field into an address; an empty field becomes absent.
    pub fn try_into_core(&self) -> (r: Result<AddressDto, FfiConversionError>)
        requires
            self.well_formed(),
        ensures
            match decoded_fields(self.buffers()) {
                Ok(fields) => r matches Ok(d) && d.fields() == fields,
                Err(_) => r matches Err(FfiConversionError::InvalidUtf8),
            },
    {
        let ghost bufs = self.buffers();
        assert(opt_terminated(bufs[0]) && opt_terminated(bufs[1]) && opt_terminated(bufs[2])
            && opt_terminated(bufs[3]) && opt_terminated(bufs[4]) && opt_terminated(bufs[5])
            && opt_terminated(bufs[6]) && opt_terminated(bufs[7]) && opt_terminated(bufs[8]));
        let region_code = match decode_optional(&self.region_code) {
            Ok(v) => v,
            Err(e) => {
                assert(decoded_optional(bufs[0]) is Err);
                return Err(e);
            },
        };
        let note = match decode_optional(&self.note) {
            Ok(v) => v,
            Err(e) => {
                assert(decoded_optional(bufs[1]) is Err);
                return Err(e);
            },
        };
        let country = match decode_optional(&self.country) {
            Ok(v) => v,
            Err(e) => {
                assert(decoded_optional(bufs[2]) is Err);
                return Err(e);
            },
        };
        let district = match decode_optional(&self.district) {
            Ok(v) => v,
            Err(e) => {
                assert(decoded_optional(bufs[3]) is Err);
                return Err(e);
            },
        };
        let city = match decode_optional(&self.city) {
            Ok(v) => v,
            Err(e) => {
                assert(decoded_optional(bufs[4]) is Err);
                return Err(e);
            },
        };
        let settlement = match decode_optional(&self.settlement) {
            Ok(v) => v,
            Err(e) => {
                assert(decoded_optional(bufs[5]) is Err);
                return Err(e);
            },
        };
        let street = match decode_optional(&self.street) {
            Ok(v) => v,
            Err(e) => {
                assert(decoded_optional(bufs[6]) is Err);
                return Err(e);
            },
        };
        let building = match decode_optional(&self.building) {
            Ok(v) => v,
            Err(e) => {
                assert(decoded_optional(bufs[7]) is Err);
                return Err(e);
            },
        };
        let room = match decode_optional(&self.room) {
            Ok(v) => v,
            Err(e) => {
                assert(decoded_optional(bufs[8]) is Err);
                return Err(e);
            },
        };
        let d = AddressDto {
            region_code,
            note,
            country,
            district,
            city,
            settlement,
            street,
            building,
            room,
        };
        assert forall|i: int| 0 <= i < bufs.len() implies (#[trigger] decoded_optional(
            bufs[i],
        )) is Ok by {
            assert(0 <= i < 9);
        }
        assert(d.fields() =~= bufs.map_values(
            |b: Option<Seq<u8>>| decoded_optional(b)->Ok_0,
        ));
        Ok(d)
    }
}

/// Formats an address handed over by a host into a zero-terminated buffer.
///
/// Gives `None` for a missing record (a null pointer), for a field that does
/// not decode, and for a result that holds a terminator itself.
pub fn format_address_buffers(input: Option<&AddressBuffers>) -> (r: Option<Vec<u8>>)
    requires
        input matches Some(b) ==> b.well_formed(),
    ensures
        input is None ==> r is None,
        input matches Some(b) ==> match decoded_fields(b.buffers()) {
            Err(_) => r is None,
            Ok(fields) => r matches Some(v) && v@ == encoded_text(formatted_address(fields)),
        },
{
    let buffers = match input {
        Some(b) => b,
        None => {
            return None;
        },
    };
    let dto = match buffers.try_into_core() {
        Ok(d) => d,
        Err(_) => {
            return None;
        },
    };
    proof {
        let bufs = buffers.buffers();
        let fields = dto.fields();
        assert(decoded_fields(bufs) is Ok);
        assert(fields == bufs.map_values(|b: Option<Seq<u8>>| decoded_optional(b)->Ok_0));
        assert forall|i: int| 0 <= i < fields.len() implies field_avoids(
            #[trigger] fields[i],
            '\0',
        ) by {
            assert(opt_terminated(bufs[i]));
            lemma_decoded_field_avoids(bufs[i]);
            assert(decoded_optional(bufs[i]) is Ok);
            assert(fields[i] == decoded_optional(bufs[i])->Ok_0);
        }
        assert(avoids(address_separator(), '\0'));
        lemma_joined_fields_avoid(fields, address_separator(), '\0');
        lemma_encode_avoids_zero(formatted_address(fields));
    }
    let formatted = format_address(&dto);
    encode_text(formatted.as_str())
}

/// Writes the identifier of a successful creation into `out_id` and reports
/// whether the creation succeeded; a failure leaves `out_id` as it was.
pub fn report_created(outcome: &Result<i64, AddressError>, out_id: &mut i64) -> (r: bool)
    ensures
        r == outcome is Ok,
        outcome matches Ok(id) ==> *final(out_id) == id,
        outcome is Err ==> *final(out_id) == *old(out_id),
{
    match outcome {
        Ok(id) => {
            *out_id = *id;
            true
        },
        Err(_) => false,
    }
}

/// Creates an address handed over by a host and reports whether it was stored.
///
/// `out_id` is set to `-1` before anything else is tried, and holds the new
/// identifier only on success. A missing record (a null pointer), a field that
/// does not decode, and a failed validation all give `false` without calling
/// the repository.
pub fn create_address_buffers<R: AddressRepository>(
    repository: &R,
    input: Option<&AddressBuffers>,
    out_id: &mut i64,
) -> (r: bool)
    requires
        input matches Some(b) ==> b.well_formed(),
    ensures
        !r ==> *final(out_id) == -1,
        input is None ==> !r,
        input matches Some(b) ==> match decoded_fields(b.buffers()) {
            Err(_) => !r,
            Ok(fields) => validated(fields, address_schema()) is Err ==> !r,
        },
{
    *out_id = -1;
    let buffers = match input {
        Some(b) => b,
        None => {
            return false;
        },
    };
    let dto = match buffers.try_into_core() {
        Ok(d) => d,
        Err(_) => {
            return false;
        },
    };
    let outcome = create_address(repository, &dto);
    report_created(&outcome, out_id)
}

} // verus!
