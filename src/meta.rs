//! Object metadata and the record delivered for it.

use vstd::prelude::*;

verus! {

/// A point in time: whole seconds since the Unix epoch and the nanoseconds
/// past that second.
#[derive(Clone, Copy, Debug, PartialEq, Eq, Structural)]
pub struct Timestamp {
    pub secs: i64,
    pub nanos: u32,
}

/// What a backend reports about a stored object.
#[derive(Clone, Debug, PartialEq, Eq)]
pub struct ObjectMeta {
    /// The object's key.
    pub location: String,
    /// Size in bytes.
    pub size: u64,
    pub last_modified: Timestamp,
    pub e_tag: Option<String>,
    pub version: Option<String>,
}

/// HTTP-style attributes stored with an object.
#[derive(Clone, Debug, PartialEq, Eq)]
pub struct ObjectAttributes {
    pub content_type: Option<String>,
    pub content_encoding: Option<String>,
    pub content_disposition: Option<String>,
    pub cache_control: Option<String>,
    pub content_language: Option<String>,
}

/// One entry of the metadata record handed to a receiver.
#[derive(Clone, Debug, PartialEq, Eq)]
pub enum MetaField {
    Location(String),
    Size(u64),
    /// The last-modified time rendered as UTC text.
    LastModified(String),
    ETag(String),
    /// Always present; `None` when the backend keeps no versions.
    Version(Option<String>),
    ContentType(String),
    ContentEncoding(String),
    ContentDisposition(String),
    CacheControl(String),
    ContentLanguage(String),
}

/// The field for an optional value: one entry when present, none otherwise.
pub open spec fn optional_field(v: Option<String>, f: spec_fn(String) -> MetaField) -> Seq<
    MetaField,
> {
    match v {
        Some(s) => seq![f(s)],
        None => Seq::empty(),
    }
}

/// A time in years 1 through 9999 of the proleptic Gregorian calendar, with
/// a sub-second part below one second.
pub open spec fn in_calendar_range(t: Timestamp) -> bool {
    &&& t.nanos < 1_000_000_000
    &&& -62_135_596_800 <= t.secs <= 253_402_300_799
}

/// The UTC text that chrono renders for a time, or `None` for a time outside
/// chrono's range.
pub uninterp spec fn utc_text(secs: i64, nanos: u32) -> Option<Seq<char>>;

/// Relies on chrono::DateTime::<Utc>::from_timestamp and DateTime's Display:
/// the text depends on the time alone, and there is none when
/// `from_timestamp` gives none, which it does only for seconds out of its
/// range or an invalid nanosecond part.
#[verifier::external_body]
fn render_utc(t: Timestamp) -> (r: Option<String>)
    ensures
        r is None <==> utc_text(t.secs, t.nanos) is None,
        r is Some ==> utc_text(t.secs, t.nanos) == Some(r.unwrap()@),
        in_calendar_range(t) ==> r is Some,
{
    match chrono::DateTime::<chrono::Utc>::from_timestamp(t.secs, t.nanos) {
        Some(d) => Some(d.to_string()),
        None => None,
    }
}

/// Whether `text` is the rendering of `t`.
pub open spec fn renders(text: Option<String>, t: Timestamp) -> bool {
    match text {
        Some(s) => utc_text(t.secs, t.nanos) == Some(s@),
        None => utc_text(t.secs, t.nanos) is None,
    }
}

/// The record of `meta` whose last-modified time renders as `last_modified`:
/// location, size, that time if it renders, the ETag if there is one, and
/// the version (present even when empty).
pub open spec fn record_spec(meta: ObjectMeta, last_modified: Option<String>) -> Seq<MetaField> {
    seq![MetaField::Location(meta.location), MetaField::Size(meta.size)] + optional_field(
        last_modified,
        |s| MetaField::LastModified(s),
    ) + optional_field(meta.e_tag, |s| MetaField::ETag(s)) + seq![MetaField::Version(meta.version)]
}

/// The entries for the attributes that are set, in a fixed order.
pub open spec fn attribute_fields_spec(attrs: ObjectAttributes) -> Seq<MetaField> {
    optional_field(attrs.content_type, |s| MetaField::ContentType(s)) + optional_field(
        attrs.content_encoding,
        |s| MetaField::ContentEncoding(s),
    ) + optional_field(attrs.content_disposition, |s| MetaField::ContentDisposition(s))
        + optional_field(attrs.cache_control, |s| MetaField::CacheControl(s)) + optional_field(
        attrs.content_language,
        |s| MetaField::ContentLanguage(s),
    )
}

/// The record of `meta`, given the rendering of its last-modified time.
pub fn meta_record(meta: ObjectMeta, last_modified: Option<String>) -> (r: Vec<MetaField>)
    ensures
        r@ == record_spec(meta, last_modified),
{
    let ghost m = meta;
    let ghost lm = last_modified;
    let ObjectMeta { location, size, last_modified: _, e_tag, version } = meta;
    let mut r: Vec<MetaField> = Vec::new();
    r.push(MetaField::Location(location));
    r.push(MetaField::Size(size));
    if let Some(text) = last_modified {
        r.push(MetaField::LastModified(text));
    }
    if let Some(e) = e_tag {
        r.push(MetaField::ETag(e));
    }
    r.push(MetaField::Version(version));
    proof {
        assert(r@ =~= record_spec(m, lm));
    }
    r
}

/// The record of an object's metadata, as delivered for a listing entry.
pub fn encode_object_meta(meta: ObjectMeta) -> (r: Vec<MetaField>)
    ensures
        exists|text: Option<String>|
            {
                &&& renders(text, meta.last_modified)
                &&& r@ == record_spec(meta, text)
                &&& in_calendar_range(meta.last_modified) ==> text is Some
            },
{
    let text = render_utc(meta.last_modified);
    let ghost t = text;
    let r = meta_record(meta, text);
    assert(renders(t, meta.last_modified) && r@ == record_spec(meta, t) && (in_calendar_range(
        meta.last_modified,
    ) ==> t is Some));
    r
}

/// The record of an object's metadata followed by its attributes, as
/// returned for a head request.
pub fn encode_object_meta_with_attributes(meta: ObjectMeta, attrs: ObjectAttributes) -> (r: Vec<
    MetaField,
>)
    ensures
        exists|text: Option<String>|
            {
                &&& renders(text, meta.last_modified)
                &&& r@ == record_spec(meta, text) + attribute_fields_spec(attrs)
                &&& in_calendar_range(meta.last_modified) ==> text is Some
            },
{
    let ghost a = attrs;
    let ghost m = meta;
    let text = render_utc(meta.last_modified);
    let ghost t = text;
    let mut r = meta_record(meta, text);
    let ObjectAttributes {
        content_type,
        content_encoding,
        content_disposition,
        cache_control,
        content_language,
    } = attrs;
    if let Some(v) = content_type {
        r.push(MetaField::ContentType(v));
    }
    if let Some(v) = content_encoding {
        r.push(MetaField::ContentEncoding(v));
    }
    if let Some(v) = content_disposition {
        r.push(MetaField::ContentDisposition(v));
    }
    if let Some(v) = cache_control {
        r.push(MetaField::CacheControl(v));
    }
    if let Some(v) = content_language {
        r.push(MetaField::ContentLanguage(v));
    }
    proof {
        assert(r@ =~= record_spec(m, t) + attribute_fields_spec(a));
        assert(renders(t, m.last_modified) && r@ == record_spec(m, t) + attribute_fields_spec(a)
            && (in_calendar_range(m.last_modified) ==> t is Some));
    }
    r
}

} // verus!
