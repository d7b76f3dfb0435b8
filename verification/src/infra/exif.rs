use vstd::prelude::*;

verus! {

/// One EXIF field as read by exiftool, with the parts the conversion reads:
/// its printed value as text, and its printed and raw values as unsigned
/// integers, when they are such.
#[derive(Debug)]
pub struct ExifField {
    pub text: Option<String>,
    pub number: Option<u64>,
    pub raw_number: Option<u64>,
}

/// A tagged EXIF field.
#[derive(Debug)]
pub struct ExifEntry {
    pub key: String,
    pub field: ExifField,
}

/// A point in time with the UTC offset it was written in.
#[derive(Debug, Clone, Copy, PartialEq, Eq, Structural)]
pub struct ExifTimestamp {
    pub seconds: i64,
    pub nanos: u32,
    pub offset_seconds: i32,
}

/// What the camera recorded.
#[derive(Debug)]
pub struct CameraSummary {
    pub make: Option<String>,
    pub model: Option<String>,
    pub capture_date: Option<ExifTimestamp>,
    pub modified_date: Option<ExifTimestamp>,
    pub lens_make: Option<String>,
    pub lens_model: Option<String>,
    pub iso: Option<u16>,
    pub flash: Option<bool>,
}

/// The integer and text parts of the metadata of a file, for the medium
/// the file belongs to.
#[derive(Debug)]
pub struct ExifSummary {
    pub medium_id: uuid::Uuid,
    pub mime_type: String,
    pub file_size: u64,
    pub file_modified_at: Option<ExifTimestamp>,
    pub camera: Option<CameraSummary>,
    pub width: Option<u32>,
    pub height: Option<u32>,
    pub orientation: Option<u8>,
    pub additional: Vec<(String, String)>,
}

/// The field under `key` (the first one, should a key repeat).
pub open spec fn field_of(entries: Seq<ExifEntry>, key: Seq<char>) -> Option<ExifField>
    decreases entries.len(),
{
    if entries.len() == 0 {
        None
    } else if entries[0].key@ == key {
        Some(entries[0].field)
    } else {
        field_of(entries.drop_first(), key)
    }
}

pub open spec fn text_of(entries: Seq<ExifEntry>, key: Seq<char>) -> Option<Seq<char>> {
    match field_of(entries, key) {
        Some(f) => match f.text {
            Some(t) => Some(t@),
            None => None,
        },
        None => None,
    }
}

pub open spec fn number_of(entries: Seq<ExifEntry>, key: Seq<char>) -> Option<u64> {
    match field_of(entries, key) {
        Some(f) => f.number,
        None => None,
    }
}

pub open spec fn raw_number_of(entries: Seq<ExifEntry>, key: Seq<char>) -> Option<u64> {
    match field_of(entries, key) {
        Some(f) => f.raw_number,
        None => None,
    }
}

pub open spec fn same_text(a: Option<String>, b: Option<Seq<char>>) -> bool {
    match (a, b) {
        (Some(x), Some(y)) => x@ == y,
        (None, None) => true,
        _ => false,
    }
}

/// The field under `key`, if any.
pub fn lookup<'a>(entries: &'a Vec<ExifEntry>, key: &str) -> (r: Option<&'a ExifField>)
    ensures
        match r {
            Some(f) => field_of(entries@, key@) == Some(*f),
            None => field_of(entries@, key@) is None,
        },
{
    let wanted = String::from_str(key);
    let mut i: usize = 0;
    assert(entries@.skip(0) =~= entries@);
    while i < entries.len()
        invariant
            i <= entries@.len(),
            wanted@ == key@,
            field_of(entries@, key@) == field_of(entries@.skip(i as int), key@),
        decreases entries.len() - i,
    {
        assert(entries@.skip(i as int).drop_first() =~= entries@.skip(i as int + 1));
        assert(entries@.skip(i as int)[0] == entries@[i as int]);
        if entries[i].key == wanted {
            return Some(&entries[i].field);
        }
        i = i + 1;
    }
    assert(entries@.skip(i as int) =~= Seq::<ExifEntry>::empty());
    None
}

fn text_field(entries: &Vec<ExifEntry>, key: &str) -> (r: Option<String>)
    ensures
        same_text(r, text_of(entries@, key@)),
{
    match lookup(entries, key) {
        Some(f) => match &f.text {
            Some(t) => Some(t.clone()),
            None => None,
        },
        None => None,
    }
}

fn number_field(entries: &Vec<ExifEntry>, key: &str) -> (r: Option<u64>)
    ensures
        r == number_of(entries@, key@),
{
    match lookup(entries, key) {
        Some(f) => f.number,
        None => None,
    }
}

fn raw_number_field(entries: &Vec<ExifEntry>, key: &str) -> (r: Option<u64>)
    ensures
        r == raw_number_of(entries@, key@),
{
    match lookup(entries, key) {
        Some(f) => f.raw_number,
        None => None,
    }
}

/// Camera information is present when any of the make, the model or the
/// original sub-second capture time is.
pub open spec fn camera_present(entries: Seq<ExifEntry>) -> bool {
    field_of(entries, "Make"@) is Some || field_of(entries, "Model"@) is Some || field_of(
        entries,
        "SubSecDateTimeOriginal"@,
    ) is Some
}

pub fn has_camera_info(exif: &Vec<ExifEntry>) -> (r: bool)
    ensures
        r == camera_present(exif@),
{
    proof {
        reveal_strlit("Make");
        reveal_strlit("Model");
        reveal_strlit("SubSecDateTimeOriginal");
    }
    lookup(exif, "Make").is_some() || lookup(exif, "Model").is_some() || lookup(exif, "SubSecDateTimeOriginal").is_some()
}

/// The tags that the structured metadata takes; the others are kept as
/// additional fields.
pub open spec fn extracted_keys() -> Seq<Seq<char>> {
    seq![
        "MIMEType"@, "FileSize"@, "FileModifyDate"@, "Make"@, "Model"@, "SubSecDateTimeOriginal"@,
        "DateTimeOriginal"@, "SubSecModifyDate"@, "LensMake"@, "LensModel"@, "ExposureTime"@, "FNumber"@,
        "ISO"@, "FocalLength"@, "Flash"@, "GPSLatitude"@, "GPSLongitude"@, "GPSAltitude"@,
        "GPSImgDirection"@, "GPSHPositioningError"@, "ImageWidth"@, "ImageHeight"@, "Orientation"@,
    ]
}

fn extracted_key_list() -> (r: Vec<&'static str>)
    ensures
        r@.map_values(|s: &'static str| s@) == extracted_keys(),
{
    let r = vec![
        "MIMEType", "FileSize", "FileModifyDate", "Make", "Model", "SubSecDateTimeOriginal",
        "DateTimeOriginal", "SubSecModifyDate", "LensMake", "LensModel", "ExposureTime", "FNumber",
        "ISO", "FocalLength", "Flash", "GPSLatitude", "GPSLongitude", "GPSAltitude",
        "GPSImgDirection", "GPSHPositioningError", "ImageWidth", "ImageHeight", "Orientation",
    ];
    assert(r@.map_values(|s: &'static str| s@) =~= extracted_keys());
    r
}

/// Whether the structured metadata takes the tag `key`.
pub fn is_extracted_key(key: &str) -> (r: bool)
    ensures
        r == extracted_keys().contains(key@),
{
    let keys = extracted_key_list();
    let wanted = String::from_str(key);
    let mut i: usize = 0;
    while i < keys.len()
        invariant
            i <= keys@.len(),
            wanted@ == key@,
            keys@.map_values(|s: &'static str| s@) == extracted_keys(),
            forall|k: int| 0 <= k < i ==> extracted_keys()[k] != key@,
        decreases keys.len() - i,
    {
        assert(keys@.map_values(|s: &'static str| s@)[i as int] == keys@[i as int]@);
        if String::from_str(keys[i]) == wanted {
            return true;
        }
        i = i + 1;
    }
    false
}

/// The text fields of the tags the structured metadata does not take, in
/// order.
pub open spec fn additional_of(entries: Seq<ExifEntry>) -> Seq<(Seq<char>, Seq<char>)>
    decreases entries.len(),
{
    if entries.len() == 0 {
        Seq::empty()
    } else {
        let prior = additional_of(entries.drop_last());
        let e = entries.last();
        if !extracted_keys().contains(e.key@) && e.field.text is Some {
            prior.push((e.key@, e.field.text.unwrap()@))
        } else {
            prior
        }
    }
}

pub fn additional_fields(exif: &Vec<ExifEntry>) -> (r: Vec<(String, String)>)
    ensures
        r@.map_values(|p: (String, String)| (p.0@, p.1@)) == additional_of(exif@),
{
    let mut out: Vec<(String, String)> = Vec::new();
    let mut i: usize = 0;
    while i < exif.len()
        invariant
            i <= exif@.len(),
            out@.map_values(|p: (String, String)| (p.0@, p.1@)) == additional_of(exif@.take(i as int)),
        decreases exif.len() - i,
    {
        assert(exif@.take(i as int + 1).drop_last() =~= exif@.take(i as int));
        let e = &exif[i];
        if !is_extracted_key(e.key.as_str()) {
            if let Some(t) = &e.field.text {
                let ghost before = out@;
                out.push((e.key.clone(), t.clone()));
                assert(out@.map_values(|p: (String, String)| (p.0@, p.1@)) =~= before.map_values(
                    |p: (String, String)| (p.0@, p.1@),
                ).push((e.key@, t@)));
            }
        }
        i = i + 1;
    }
    assert(exif@.take(exif@.len() as int) =~= exif@);
    out
}


/// What `chrono::DateTime::parse_from_str(s, fmt)` yields: the instant and
/// the offset of a date written with its UTC offset, or nothing.
pub uninterp spec fn zoned_parse(s: Seq<char>, fmt: Seq<char>) -> Option<ExifTimestamp>;

/// What `chrono::NaiveDateTime::parse_from_str(s, fmt)` yields, read as a
/// UTC instant, or nothing.
pub uninterp spec fn naive_parse(s: Seq<char>, fmt: Seq<char>) -> Option<ExifTimestamp>;

/// What `mime::Mime::from_str(s)` yields, as its string form, or nothing.
pub uninterp spec fn mime_parse(s: Seq<char>) -> Option<Seq<char>>;

/// `chrono::DateTime::parse_from_str`: a date with an offset, converted to
/// its timestamp, sub-second nanoseconds and offset. The result is named
/// by [`zoned_parse`].
#[verifier::external_body]
fn parse_zoned(s: &str, fmt: &str) -> (r: Option<ExifTimestamp>)
    ensures
        r == zoned_parse(s@, fmt@),
{
    match chrono::DateTime::parse_from_str(s, fmt) {
        Ok(d) => Some(ExifTimestamp {
            seconds: d.timestamp(),
            nanos: d.timestamp_subsec_nanos(),
            offset_seconds: d.offset().local_minus_utc(),
        }),
        Err(_) => None,
    }
}

/// `chrono::NaiveDateTime::parse_from_str`: a date without an offset,
/// converted to the timestamp it has when read as UTC. The offset of the
/// result is zero. The result is named by [`naive_parse`].
#[verifier::external_body]
fn parse_naive(s: &str, fmt: &str) -> (r: Option<ExifTimestamp>)
    ensures
        r == naive_parse(s@, fmt@),
        r matches Some(t) ==> t.offset_seconds == 0,
{
    match chrono::NaiveDateTime::parse_from_str(s, fmt) {
        Ok(d) => Some(ExifTimestamp {
            seconds: d.and_utc().timestamp(),
            nanos: d.and_utc().timestamp_subsec_nanos(),
            offset_seconds: 0,
        }),
        Err(_) => None,
    }
}

/// `mime::Mime::from_str`: the string form (`Mime::as_ref`) of the parsed
/// media type, when `s` parses. The result is named by [`mime_parse`].
#[verifier::external_body]
fn parse_mime(s: &str) -> (r: Option<String>)
    ensures
        match r {
            Some(t) => mime_parse(s@) == Some(t@),
            None => mime_parse(s@) is None,
        },
{
    match <mime::Mime as std::str::FromStr>::from_str(s) {
        Ok(m) => Some(m.as_ref().to_string()),
        Err(_) => None,
    }
}

/// `s` holds `pat` as a contiguous part.
pub open spec fn holds_text(s: Seq<char>, pat: Seq<char>) -> bool {
    exists|i: int| 0 <= i <= s.len() - pat.len() && #[trigger] s.subrange(i, i + pat.len()) == pat
}

/// `str::contains` with a string pattern.
#[verifier::external_body]
fn text_contains(s: &str, pat: &str) -> (r: bool)
    ensures
        r == holds_text(s@, pat@),
{
    s.contains(pat)
}

pub open spec fn exif_full_format() -> Seq<char> {
    "%Y:%m:%d %H:%M:%S%.f%:z"@
}

pub open spec fn exif_plain_format() -> Seq<char> {
    "%Y:%m:%d %H:%M:%S"@
}

/// An EXIF date: with fractional seconds and an offset when it has them,
/// else as a plain UTC date.
pub open spec fn exif_date(s: Seq<char>) -> Option<ExifTimestamp> {
    match zoned_parse(s, exif_full_format()) {
        Some(t) => Some(t),
        None => naive_parse(s, exif_plain_format()),
    }
}

/// Parse an EXIF date such as `"2024:01:15 14:30:45"`.
pub fn parse_exif_date(s: &str) -> (r: Option<ExifTimestamp>)
    ensures
        r == exif_date(s@),
{
    proof {
        reveal_strlit("%Y:%m:%d %H:%M:%S%.f%:z");
        reveal_strlit("%Y:%m:%d %H:%M:%S");
    }
    match parse_zoned(s, "%Y:%m:%d %H:%M:%S%.f%:z") {
        Some(t) => Some(t),
        None => parse_naive(s, "%Y:%m:%d %H:%M:%S"),
    }
}

pub open spec fn date_of(entries: Seq<ExifEntry>, key: Seq<char>) -> Option<ExifTimestamp> {
    match text_of(entries, key) {
        Some(t) => exif_date(t),
        None => None,
    }
}

fn date_field(entries: &Vec<ExifEntry>, key: &str) -> (r: Option<ExifTimestamp>)
    ensures
        r == date_of(entries@, key@),
{
    match lookup(entries, key) {
        Some(f) => match &f.text {
            Some(t) => parse_exif_date(t.as_str()),
            None => None,
        },
        None => None,
    }
}

pub open spec fn octet_stream() -> Seq<char> {
    "application/octet-stream"@
}

/// The media type of the file: its parsed `MIMEType` tag, else the generic
/// binary type.
pub open spec fn media_type_of(entries: Seq<ExifEntry>) -> Seq<char> {
    match text_of(entries, "MIMEType"@) {
        Some(t) => match mime_parse(t) {
            Some(m) => m,
            None => octet_stream(),
        },
        None => octet_stream(),
    }
}

pub open spec fn camera_of(entries: Seq<ExifEntry>, c: CameraSummary) -> bool {
    &&& same_text(c.make, text_of(entries, "Make"@))
    &&& same_text(c.model, text_of(entries, "Model"@))
    &&& c.capture_date == match date_of(entries, "SubSecDateTimeOriginal"@) {
        Some(d) => Some(d),
        None => date_of(entries, "DateTimeOriginal"@),
    }
    &&& c.modified_date == date_of(entries, "SubSecModifyDate"@)
    &&& same_text(c.lens_make, text_of(entries, "LensMake"@))
    &&& same_text(c.lens_model, text_of(entries, "LensModel"@))
    &&& c.iso == match number_of(entries, "ISO"@) {
        Some(i) => Some(i as u16),
        None => None,
    }
    &&& c.flash == match text_of(entries, "Flash"@) {
        Some(t) => Some(holds_text(t, "Fired"@)),
        None => None,
    }
}

/// The capture date is the sub-second original date whenever that parses;
/// the plain original date is used only when it does not.
pub proof fn lemma_capture_date_prefers_subsec(entries: Seq<ExifEntry>, c: CameraSummary)
    requires
        camera_of(entries, c),
    ensures
        date_of(entries, "SubSecDateTimeOriginal"@) matches Some(d) ==> c.capture_date == Some(d),
        date_of(entries, "SubSecDateTimeOriginal"@) is None ==> c.capture_date == date_of(
            entries,
            "DateTimeOriginal"@,
        ),
{
}

/// Convert the integer and text tags read by exiftool into structured
/// metadata of the medium `medium_id`. Integer tags narrow to the width of
/// their field (wrapping).
pub fn convert_exif(exif: &Vec<ExifEntry>, medium_id: uuid::Uuid) -> (r: ExifSummary)
    ensures
        r.medium_id == medium_id,
        r.mime_type@ == media_type_of(exif@),
        r.file_size == match raw_number_of(exif@, "FileSize"@) {
            Some(n) => n,
            None => 0,
        },
        r.file_modified_at == date_of(exif@, "FileModifyDate"@),
        camera_present(exif@) <==> r.camera is Some,
        r.camera matches Some(c) ==> camera_of(exif@, c),
        r.camera matches Some(c) ==> (date_of(exif@, "SubSecDateTimeOriginal"@) matches Some(d)
            ==> c.capture_date == Some(d)),
        r.width == match number_of(exif@, "ImageWidth"@) {
            Some(w) => Some(w as u32),
            None => None,
        },
        r.height == match number_of(exif@, "ImageHeight"@) {
            Some(h) => Some(h as u32),
            None => None,
        },
        r.orientation == match raw_number_of(exif@, "Orientation"@) {
            Some(o) => Some(o as u8),
            None => None,
        },
        r.additional@.map_values(|p: (String, String)| (p.0@, p.1@)) == additional_of(exif@),
{
    proof {
        reveal_strlit("application/octet-stream");
        reveal_strlit("Fired");
    }
    let mime_type = match text_field(exif, "MIMEType") {
        Some(t) => match parse_mime(t.as_str()) {
            Some(m) => m,
            None => String::from_str("application/octet-stream"),
        },
        None => String::from_str("application/octet-stream"),
    };
    let file_size = match raw_number_field(exif, "FileSize") {
        Some(n) => n,
        None => 0,
    };
    let file_modified_at = date_field(exif, "FileModifyDate");
    let camera = if has_camera_info(exif) {
        let capture_date = match date_field(exif, "SubSecDateTimeOriginal") {
            Some(d) => Some(d),
            None => date_field(exif, "DateTimeOriginal"),
        };
        let iso = match number_field(exif, "ISO") {
            Some(i) => Some(i as u16),
            None => None,
        };
        let flash = match text_field(exif, "Flash") {
            Some(t) => Some(text_contains(t.as_str(), "Fired")),
            None => None,
        };
        Some(CameraSummary {
            make: text_field(exif, "Make"),
            model: text_field(exif, "Model"),
            capture_date,
            modified_date: date_field(exif, "SubSecModifyDate"),
            lens_make: text_field(exif, "LensMake"),
            lens_model: text_field(exif, "LensModel"),
            iso,
            flash,
        })
    } else {
        None
    };
    let width = match number_field(exif, "ImageWidth") {
        Some(w) => Some(w as u32),
        None => None,
    };
    let height = match number_field(exif, "ImageHeight") {
        Some(h) => Some(h as u32),
        None => None,
    };
    let orientation = match raw_number_field(exif, "Orientation") {
        Some(o) => Some(o as u8),
        None => None,
    };
    ExifSummary {
        medium_id,
        mime_type,
        file_size,
        file_modified_at,
        camera,
        width,
        height,
        orientation,
        additional: additional_fields(exif),
    }
}

} // verus!
