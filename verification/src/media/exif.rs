//! What a photo's EXIF data says of it: where and when it was taken, with
//! which camera, and which way up it is.
use vstd::prelude::*;
use vstd::string::StrSliceExecFns;

verus! {

/// The EXIF tags that are read.
#[derive(Debug, Clone, Copy, PartialEq, Eq, Structural)]
pub enum ExifTag {
    Orientation,
    GpsLatitude,
    GpsLatitudeRef,
    GpsLongitude,
    GpsLongitudeRef,
    DateTimeOriginal,
    Make,
    Model,
}

/// The directory of a tag: TIFF, Exif or GPS attributes.
#[derive(Debug, Clone, Copy, PartialEq, Eq, Structural)]
pub enum ExifContext {
    Tiff,
    Exif,
    Gps,
}

/// The directory and number of a tag, as the Exif standard assigns them.
pub open spec fn spec_tag_code(tag: ExifTag) -> (ExifContext, u16) {
    match tag {
        ExifTag::Orientation => (ExifContext::Tiff, 0x112u16),
        ExifTag::GpsLatitude => (ExifContext::Gps, 0x2u16),
        ExifTag::GpsLatitudeRef => (ExifContext::Gps, 0x1u16),
        ExifTag::GpsLongitude => (ExifContext::Gps, 0x4u16),
        ExifTag::GpsLongitudeRef => (ExifContext::Gps, 0x3u16),
        ExifTag::DateTimeOriginal => (ExifContext::Exif, 0x9003u16),
        ExifTag::Make => (ExifContext::Tiff, 0x10fu16),
        ExifTag::Model => (ExifContext::Tiff, 0x110u16),
    }
}

/// The directory and number of a tag.
pub fn tag_code(tag: ExifTag) -> (code: (ExifContext, u16))
    ensures
        code == spec_tag_code(tag),
{
    match tag {
        ExifTag::Orientation => (ExifContext::Tiff, 0x112),
        ExifTag::GpsLatitude => (ExifContext::Gps, 0x2),
        ExifTag::GpsLatitudeRef => (ExifContext::Gps, 0x1),
        ExifTag::GpsLongitude => (ExifContext::Gps, 0x4),
        ExifTag::GpsLongitudeRef => (ExifContext::Gps, 0x3),
        ExifTag::DateTimeOriginal => (ExifContext::Exif, 0x9003),
        ExifTag::Make => (ExifContext::Tiff, 0x10f),
        ExifTag::Model => (ExifContext::Tiff, 0x110),
    }
}

/// An unsigned rational number of an EXIF field.
#[derive(Debug, Clone, Copy, PartialEq, Eq, Structural)]
pub struct ExifRational {
    pub num: u32,
    pub denom: u32,
}

/// The unsigned integer that the primary image's field with this directory
/// and number holds first, when the EXIF data of `source` can be read and has
/// one.
pub uninterp spec fn spec_exif_uint(source: Seq<u8>, context: ExifContext, number: u16) -> Option<u32>;

/// The strings of the primary image's field with this directory and number,
/// when the EXIF data of `source` can be read and that field is ASCII.
pub uninterp spec fn spec_exif_ascii(source: Seq<u8>, context: ExifContext, number: u16) -> Option<Seq<Seq<u8>>>;

/// The rationals of the primary image's field with this directory and
/// number, when the EXIF data of `source` can be read and that field is
/// unsigned rational.
pub uninterp spec fn spec_exif_rationals(source: Seq<u8>, context: ExifContext, number: u16) -> Option<Seq<ExifRational>>;

/// Reads the EXIF data of `source` with `Reader::read_from_container`, then
/// the primary image's field `Tag(context, number)` (`get_field` with
/// `In::PRIMARY`) with `Value::get_uint(0)`.
#[verifier::external_body]
fn exif_uint(source: &[u8], context: ExifContext, number: u16) -> (r: Option<u32>)
    ensures
        r == spec_exif_uint(source@, context, number),
{
    let data = exif::Reader::new().read_from_container(&mut std::io::Cursor::new(source)).ok()?;
    let ctx = match context {
        ExifContext::Tiff => exif::Context::Tiff,
        ExifContext::Exif => exif::Context::Exif,
        ExifContext::Gps => exif::Context::Gps,
    };
    data.get_field(exif::Tag(ctx, number), exif::In::PRIMARY).and_then(|f| f.value.get_uint(0))
}

/// Reads the EXIF data of `source`, then the strings of the primary
/// image's field `Tag(context, number)` when its value is `Value::Ascii`.
#[verifier::external_body]
fn exif_ascii(source: &[u8], context: ExifContext, number: u16) -> (r: Option<Vec<Vec<u8>>>)
    ensures
        ascii_strings(r) == spec_exif_ascii(source@, context, number),
{
    let data = exif::Reader::new().read_from_container(&mut std::io::Cursor::new(source)).ok()?;
    let ctx = match context {
        ExifContext::Tiff => exif::Context::Tiff,
        ExifContext::Exif => exif::Context::Exif,
        ExifContext::Gps => exif::Context::Gps,
    };
    match data.get_field(exif::Tag(ctx, number), exif::In::PRIMARY).map(|f| &f.value) {
        Some(exif::Value::Ascii(v)) => Some(v.clone()),
        _ => None,
    }
}

/// Reads the EXIF data of `source`, then the numerators and denominators of
/// the primary image's field `Tag(context, number)` when its value is
/// `Value::Rational`.
#[verifier::external_body]
fn exif_rationals(source: &[u8], context: ExifContext, number: u16) -> (r: Option<Vec<ExifRational>>)
    ensures
        rationals_view(r) == spec_exif_rationals(source@, context, number),
{
    let data = exif::Reader::new().read_from_container(&mut std::io::Cursor::new(source)).ok()?;
    let ctx = match context {
        ExifContext::Tiff => exif::Context::Tiff,
        ExifContext::Exif => exif::Context::Exif,
        ExifContext::Gps => exif::Context::Gps,
    };
    match data.get_field(exif::Tag(ctx, number), exif::In::PRIMARY).map(|f| &f.value) {
        Some(exif::Value::Rational(v)) => Some(v.iter().map(|r| ExifRational { num: r.num, denom: r.denom }).collect()),
        _ => None,
    }
}

/// The text that `String::from_utf8_lossy` makes of `bytes`.
pub uninterp spec fn spec_utf8_lossy(bytes: Seq<u8>) -> Seq<char>;

/// `String::from_utf8_lossy`, owned. std documents that valid UTF-8 is
/// taken as it is.
#[verifier::external_body]
fn utf8_lossy(bytes: &[u8]) -> (s: String)
    ensures
        s@ == spec_utf8_lossy(bytes@),
        vstd::utf8::valid_utf8(bytes@) ==> s@ == vstd::utf8::decode_utf8(bytes@),
{
    String::from_utf8_lossy(bytes).into_owned()
}

/// The milliseconds since the Unix epoch of a date and time written
/// "%Y:%m:%d %H:%M:%S", read as UTC, when chrono parses it.
pub uninterp spec fn spec_exif_datetime_millis(text: Seq<char>) -> Option<i64>;

/// `NaiveDateTime::parse_from_str(text, "%Y:%m:%d %H:%M:%S")`, then
/// `and_utc().timestamp_millis()`; `None` when the text does not parse.
#[verifier::external_body]
fn exif_datetime_millis(text: &str) -> (r: Option<i64>)
    ensures
        r == spec_exif_datetime_millis(text@),
{
    chrono::NaiveDateTime::parse_from_str(text, "%Y:%m:%d %H:%M:%S").ok().map(|t| t.and_utc().timestamp_millis())
}

/// The characters with the Unicode White_Space property, which is what
/// `char::is_whitespace` tests.
pub open spec fn is_white_space(c: char) -> bool {
    ||| '\u{9}' <= c <= '\u{d}'
    ||| c == ' '
    ||| c == '\u{85}'
    ||| c == '\u{a0}'
    ||| c == '\u{1680}'
    ||| '\u{2000}' <= c <= '\u{200a}'
    ||| c == '\u{2028}'
    ||| c == '\u{2029}'
    ||| c == '\u{202f}'
    ||| c == '\u{205f}'
    ||| c == '\u{3000}'
}

/// `text` without its leading white space.
pub open spec fn trim_start(text: Seq<char>) -> Seq<char>
    decreases text.len(),
{
    if text.len() > 0 && is_white_space(text[0]) {
        trim_start(text.drop_first())
    } else {
        text
    }
}

/// `text` without its trailing white space.
pub open spec fn trim_end(text: Seq<char>) -> Seq<char>
    decreases text.len(),
{
    if text.len() > 0 && is_white_space(text.last()) {
        trim_end(text.drop_last())
    } else {
        text
    }
}

/// `text` without leading and trailing white space.
pub open spec fn trimmed(text: Seq<char>) -> Seq<char> {
    trim_end(trim_start(text))
}

fn white_space(c: char) -> (b: bool)
    ensures
        b == is_white_space(c),
{
    ('\u{9}' <= c && c <= '\u{d}') || c == ' ' || c == '\u{85}' || c == '\u{a0}' || c == '\u{1680}'
        || ('\u{2000}' <= c && c <= '\u{200a}') || c == '\u{2028}' || c == '\u{2029}' || c == '\u{202f}'
        || c == '\u{205f}' || c == '\u{3000}'
}

/// `text` without leading and trailing white space.
pub fn trim(text: &str) -> (t: String)
    ensures
        t@ == trimmed(text@),
{
    let n = text.unicode_len();
    let mut i: usize = 0;
    proof {
        assert(text@.subrange(0, n as int) =~= text@);
    }
    while i < n && white_space(text.get_char(i))
        invariant
            n == text@.len(),
            i <= n,
            trim_start(text@) == trim_start(text@.subrange(i as int, n as int)),
        decreases n - i,
    {
        proof {
            assert(text@.subrange(i as int, n as int).drop_first() =~= text@.subrange(i + 1, n as int));
        }
        i = i + 1;
    }
    proof {
        assert(trim_start(text@) == text@.subrange(i as int, n as int));
    }
    let mut j: usize = n;
    while j > i && white_space(text.get_char(j - 1))
        invariant
            n == text@.len(),
            i <= j <= n,
            trimmed(text@) == trim_end(text@.subrange(i as int, j as int)),
        decreases j - i,
    {
        proof {
            assert(text@.subrange(i as int, j as int).drop_last() =~= text@.subrange(i as int, j - 1));
        }
        j = j - 1;
    }
    let kept = text.substring_char(i, j);
    String::from_str(kept)
}

/// The text of an ASCII field: its first string, decoded as UTF-8 with
/// invalid sequences replaced, and trimmed.
pub open spec fn ascii_field_text(value: Option<Seq<Seq<u8>>>) -> Option<Seq<char>> {
    match value {
        Some(strings) => if strings.len() > 0 {
            Some(trimmed(spec_utf8_lossy(strings[0])))
        } else {
            None
        },
        None => None,
    }
}

/// The views of the strings of an ASCII field.
pub open spec fn ascii_strings(value: Option<Vec<Vec<u8>>>) -> Option<Seq<Seq<u8>>> {
    match value {
        Some(strings) => Some(strings@.map_values(|s: Vec<u8>| s@)),
        None => None,
    }
}

/// The text of an ASCII field (see `ascii_field_text`).
pub fn extract_ascii(value: &Option<Vec<Vec<u8>>>) -> (r: Option<String>)
    ensures
        match ascii_field_text(ascii_strings(*value)) {
            Some(t) => r matches Some(s) && s@ == t,
            None => r is None,
        },
{
    match value {
        Some(strings) => {
            if strings.len() > 0 {
                let text = utf8_lossy(strings[0].as_slice());
                Some(trim(text.as_str()))
            } else {
                None
            }
        },
        None => None,
    }
}

/// The views of the rationals of a field.
pub open spec fn rationals_view(value: Option<Vec<ExifRational>>) -> Option<Seq<ExifRational>> {
    match value {
        Some(v) => Some(v@),
        None => None,
    }
}

/// The EXIF fields that are read, as the file holds them.
#[derive(Debug, Clone)]
pub struct ExifFields {
    pub orientation: Option<u32>,
    pub latitude: Option<Vec<ExifRational>>,
    pub latitude_ref: Option<Vec<Vec<u8>>>,
    pub longitude: Option<Vec<ExifRational>>,
    pub longitude_ref: Option<Vec<Vec<u8>>>,
    pub date_time_original: Option<Vec<Vec<u8>>>,
    pub make: Option<Vec<Vec<u8>>>,
    pub model: Option<Vec<Vec<u8>>>,
}

/// A GPS coordinate in degrees, minutes and seconds, each a rational, and
/// whether it lies south or west.
#[derive(Debug, Clone, Copy, PartialEq, Eq, Structural)]
pub struct GpsCoordinate {
    pub degrees: ExifRational,
    pub minutes: ExifRational,
    pub seconds: ExifRational,
    pub negative: bool,
}

/// What the EXIF data says of a photo.
#[derive(Debug, Clone)]
pub struct ExifFacts {
    pub latitude: Option<GpsCoordinate>,
    pub longitude: Option<GpsCoordinate>,
    pub taken_at: Option<i64>,
    pub device_make: Option<String>,
    pub device_model: Option<String>,
    pub orientation: Option<u16>,
}

/// The coordinate of a GPS field and its reference: the first three
/// rationals, negative when the reference text starts with `negative_ref`.
pub open spec fn gps_coordinate(
    rationals: Option<Seq<ExifRational>>,
    reference: Option<Seq<Seq<u8>>>,
    negative_ref: char,
) -> Option<GpsCoordinate> {
    match (rationals, ascii_field_text(reference)) {
        (Some(r), Some(t)) => if r.len() >= 3 {
            Some(
                GpsCoordinate {
                    degrees: r[0],
                    minutes: r[1],
                    seconds: r[2],
                    negative: t.len() > 0 && t[0] == negative_ref,
                },
            )
        } else {
            None
        },
        _ => None,
    }
}

/// The capture time of a date-time field.
pub open spec fn taken_at_of(value: Option<Seq<Seq<u8>>>) -> Option<i64> {
    match ascii_field_text(value) {
        Some(t) => spec_exif_datetime_millis(t),
        None => None,
    }
}

/// The orientation of an orientation field, truncated to 16 bits.
pub open spec fn orientation_of(value: Option<u32>) -> Option<u16> {
    match value {
        Some(v) => Some(v as u16),
        None => None,
    }
}

/// A coordinate of degrees, minutes and seconds taken from the first three
/// rationals of a GPS field, in that order.
pub open spec fn dms_from_field(c: GpsCoordinate, rationals: Option<Seq<ExifRational>>) -> bool {
    rationals matches Some(r) && r.len() >= 3 && c.degrees == r[0] && c.minutes == r[1] && c.seconds == r[2]
}

/// A GPS coordinate is there exactly when its field has at least three
/// rationals and its reference has a text; its degrees, minutes and seconds
/// are then the field's rationals at 0, 1 and 2, and it is negative exactly
/// when the reference text starts with `negative_ref`.
pub proof fn lemma_coordinate_from_field(
    rationals: Option<Seq<ExifRational>>,
    reference: Option<Seq<Seq<u8>>>,
    negative_ref: char,
)
    ensures
        gps_coordinate(rationals, reference, negative_ref) is Some <==> (rationals matches Some(r) && r.len() >= 3
            && ascii_field_text(reference) is Some),
        gps_coordinate(rationals, reference, negative_ref) matches Some(c) ==> dms_from_field(c, rationals),
        gps_coordinate(rationals, reference, negative_ref) matches Some(c) ==> (c.negative <==> (ascii_field_text(
            reference,
        ) matches Some(t) && t.len() > 0 && t[0] == negative_ref)),
{
}

/// An optional string holds an optional text.
pub open spec fn same_text(s: Option<String>, t: Option<Seq<char>>) -> bool {
    match (s, t) {
        (Some(a), Some(b)) => a@ == b,
        (None, None) => true,
        _ => false,
    }
}

/// `facts` is what fields of these views say (see `facts_from_fields`).
pub open spec fn facts_of(
    facts: ExifFacts,
    orientation: Option<u32>,
    latitude: Option<Seq<ExifRational>>,
    latitude_ref: Option<Seq<Seq<u8>>>,
    longitude: Option<Seq<ExifRational>>,
    longitude_ref: Option<Seq<Seq<u8>>>,
    date_time_original: Option<Seq<Seq<u8>>>,
    make: Option<Seq<Seq<u8>>>,
    model: Option<Seq<Seq<u8>>>,
) -> bool {
    &&& facts.orientation == orientation_of(orientation)
    &&& facts.latitude == gps_coordinate(latitude, latitude_ref, 'S')
    &&& facts.longitude == gps_coordinate(longitude, longitude_ref, 'W')
    &&& facts.taken_at == taken_at_of(date_time_original)
    &&& same_text(facts.device_make, ascii_field_text(make))
    &&& same_text(facts.device_model, ascii_field_text(model))
}

/// The coordinate of a GPS field and its reference (see `gps_coordinate`).
fn coordinate(rationals: &Option<Vec<ExifRational>>, reference: &Option<Vec<Vec<u8>>>, negative_ref: char) -> (r: Option<GpsCoordinate>)
    ensures
        r == gps_coordinate(rationals_view(*rationals), ascii_strings(*reference), negative_ref),
{
    let r = match rationals {
        Some(r) => r,
        None => return None,
    };
    let text = match extract_ascii(reference) {
        Some(t) => t,
        None => return None,
    };
    if r.len() < 3 {
        return None;
    }
    let negative = if text.as_str().unicode_len() > 0 {
        text.as_str().get_char(0) == negative_ref
    } else {
        false
    };
    Some(GpsCoordinate { degrees: r[0], minutes: r[1], seconds: r[2], negative })
}

/// What the EXIF fields say of a photo: the orientation (truncated to 16
/// bits), the GPS coordinates with their hemispheres (south and west are
/// negative), the capture time, and the camera's make and model, each text
/// taken from its field's first string.
pub fn facts_from_fields(fields: &ExifFields) -> (facts: ExifFacts)
    ensures
        facts_of(
            facts,
            fields.orientation,
            rationals_view(fields.latitude),
            ascii_strings(fields.latitude_ref),
            rationals_view(fields.longitude),
            ascii_strings(fields.longitude_ref),
            ascii_strings(fields.date_time_original),
            ascii_strings(fields.make),
            ascii_strings(fields.model),
        ),
        facts.latitude matches Some(c) ==> dms_from_field(c, rationals_view(fields.latitude)),
        facts.longitude matches Some(c) ==> dms_from_field(c, rationals_view(fields.longitude)),
{
    proof {
        lemma_coordinate_from_field(rationals_view(fields.latitude), ascii_strings(fields.latitude_ref), 'S');
        lemma_coordinate_from_field(rationals_view(fields.longitude), ascii_strings(fields.longitude_ref), 'W');
    }
    let orientation = match fields.orientation {
        Some(v) => Some(#[verifier::truncate] (v as u16)),
        None => None,
    };
    let latitude = coordinate(&fields.latitude, &fields.latitude_ref, 'S');
    let longitude = coordinate(&fields.longitude, &fields.longitude_ref, 'W');
    let taken_at = match extract_ascii(&fields.date_time_original) {
        Some(t) => exif_datetime_millis(t.as_str()),
        None => None,
    };
    let device_make = extract_ascii(&fields.make);
    let device_model = extract_ascii(&fields.model);
    ExifFacts { latitude, longitude, taken_at, device_make, device_model, orientation }
}

fn read_uint(source: &[u8], tag: ExifTag) -> (r: Option<u32>)
    ensures
        r == spec_exif_uint(source@, spec_tag_code(tag).0, spec_tag_code(tag).1),
{
    let (context, number) = tag_code(tag);
    exif_uint(source, context, number)
}

fn read_ascii(source: &[u8], tag: ExifTag) -> (r: Option<Vec<Vec<u8>>>)
    ensures
        ascii_strings(r) == spec_exif_ascii(source@, spec_tag_code(tag).0, spec_tag_code(tag).1),
{
    let (context, number) = tag_code(tag);
    exif_ascii(source, context, number)
}

fn read_rationals(source: &[u8], tag: ExifTag) -> (r: Option<Vec<ExifRational>>)
    ensures
        rationals_view(r) == spec_exif_rationals(source@, spec_tag_code(tag).0, spec_tag_code(tag).1),
{
    let (context, number) = tag_code(tag);
    exif_rationals(source, context, number)
}

/// The ASCII field `tag` of the EXIF data of `source`.
pub open spec fn ascii_of(source: Seq<u8>, tag: ExifTag) -> Option<Seq<Seq<u8>>> {
    spec_exif_ascii(source, spec_tag_code(tag).0, spec_tag_code(tag).1)
}

/// The rational field `tag` of the EXIF data of `source`.
pub open spec fn rationals_of(source: Seq<u8>, tag: ExifTag) -> Option<Seq<ExifRational>> {
    spec_exif_rationals(source, spec_tag_code(tag).0, spec_tag_code(tag).1)
}

/// Reads the fields of the primary image; a field is `None` when the bytes
/// hold no readable EXIF data or no such field of the expected kind.
pub fn read_fields(source: &[u8]) -> (fields: ExifFields)
    ensures
        fields.orientation == spec_exif_uint(source@, ExifContext::Tiff, 0x112u16),
        rationals_view(fields.latitude) == rationals_of(source@, ExifTag::GpsLatitude),
        ascii_strings(fields.latitude_ref) == ascii_of(source@, ExifTag::GpsLatitudeRef),
        rationals_view(fields.longitude) == rationals_of(source@, ExifTag::GpsLongitude),
        ascii_strings(fields.longitude_ref) == ascii_of(source@, ExifTag::GpsLongitudeRef),
        ascii_strings(fields.date_time_original) == ascii_of(source@, ExifTag::DateTimeOriginal),
        ascii_strings(fields.make) == ascii_of(source@, ExifTag::Make),
        ascii_strings(fields.model) == ascii_of(source@, ExifTag::Model),
{
    ExifFields {
        orientation: read_uint(source, ExifTag::Orientation),
        latitude: read_rationals(source, ExifTag::GpsLatitude),
        latitude_ref: read_ascii(source, ExifTag::GpsLatitudeRef),
        longitude: read_rationals(source, ExifTag::GpsLongitude),
        longitude_ref: read_ascii(source, ExifTag::GpsLongitudeRef),
        date_time_original: read_ascii(source, ExifTag::DateTimeOriginal),
        make: read_ascii(source, ExifTag::Make),
        model: read_ascii(source, ExifTag::Model),
    }
}

/// What the EXIF data of a photo says of it (see `facts_from_fields`); a
/// photo without readable EXIF data gives no facts.
pub fn exif_facts(source: &[u8]) -> (facts: ExifFacts)
    ensures
        facts_of(
            facts,
            spec_exif_uint(source@, ExifContext::Tiff, 0x112u16),
            rationals_of(source@, ExifTag::GpsLatitude),
            ascii_of(source@, ExifTag::GpsLatitudeRef),
            rationals_of(source@, ExifTag::GpsLongitude),
            ascii_of(source@, ExifTag::GpsLongitudeRef),
            ascii_of(source@, ExifTag::DateTimeOriginal),
            ascii_of(source@, ExifTag::Make),
            ascii_of(source@, ExifTag::Model),
        ),
        facts.latitude matches Some(c) ==> dms_from_field(c, rationals_of(source@, ExifTag::GpsLatitude)),
        facts.longitude matches Some(c) ==> dms_from_field(c, rationals_of(source@, ExifTag::GpsLongitude)),
{
    let fields = read_fields(source);
    facts_from_fields(&fields)
}

} // verus!
