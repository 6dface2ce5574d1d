//! One decoder per response shape.
//!
//! Every shape implements [`JsonResponse`]: a spec of when a parsed body
//! has the shape, a spec of which value it decodes to, and the strict
//! extraction itself.  [`decode_response`] composes the error sniff, the
//! JSON parse and the extraction for any shape.

use vstd::prelude::*;

use crate::decode::{
    decode_body, decode_keyvals, decode_vec, get_envelope, spec_envelope_ok, spec_is_api_error,
    spec_keyvals_of, spec_keyvals_ok, JsonDecodable,
};
use crate::errors::{Error, ErrorKind};
use crate::json::{
    get_arr, get_isize, get_string, json_parse, obj_fields, spec_decode_seq, spec_get_arr,
    spec_get_isize, spec_get_string, spec_obj_fields, JsonValue,
};
use crate::response::{
    Categories, Category, CategoryRelatedTags, CategorySeries, CategoryTags, Observation,
    Observations, Release, ReleaseDateItem, ReleaseDates, ReleaseItem, ReleaseKeyVal,
    ReleaseRelatedTags, Releases, ReleaseSeries, ReleaseSources, ReleaseTables, ReleaseTags,
    Series, SeriesItem, SeriesItems, SeriesObservations, SeriesRelease, SeriesSearch,
    SeriesSearchRelatedTags, SeriesSearchTags, SeriesTags, SeriesUpdates, SeriesVintageDates,
    SourceItem, SourceReleases, Sources, Tag, TagItem, Tags, TagsSeries,
};

verus! {

/// A response shape that can be read strictly out of one parsed body.
pub trait JsonResponse: Sized {
    /// True when the parsed body has this shape.
    spec fn spec_ok(v: JsonValue) -> bool;

    /// True when `x` is exactly what the parsed body decodes to.
    spec fn spec_of(v: JsonValue, x: Self) -> bool;

    /// Reads the shape out of a parsed body.
    fn extract(v: &JsonValue) -> (r: Option<Self>)
        ensures
            r is Some <==> Self::spec_ok(*v),
            r matches Some(x) ==> Self::spec_of(*v, x),
    ;
}

/// What decoding a raw body into shape `T` yields, case by case: the
/// API-error sniff wins first, then a body that is not JSON fails as a
/// decode error carrying the body, then a body of the wrong shape fails
/// the same way, and a body of the right shape decodes to exactly the
/// value the shape's spec names.
pub open spec fn spec_response<T: JsonResponse>(body: Seq<char>, r: Result<T, Error>) -> bool {
    if spec_is_api_error(body) {
        r matches Err(e) && e.spec_kind() matches ErrorKind::Api(b) && b@ == body
    } else {
        match json_parse(body) {
            None => r matches Err(e) && e.spec_kind() matches ErrorKind::Decode(_m, b) && b@
                == body,
            Some(v) => if T::spec_ok(v) {
                r matches Ok(x) && T::spec_of(v, x)
            } else {
                r matches Err(e) && e.spec_kind() matches ErrorKind::Decode(_m, b) && b@ == body
            },
        }
    }
}

/// Decodes a raw body into shape `T`.
pub fn decode_response<T: JsonResponse>(body: &str) -> (r: Result<T, Error>)
    ensures
        spec_response::<T>(body@, r),
{
    let v = match decode_body(body) {
        Ok(v) => v,
        Err(e) => {
            return Err(e);
        },
    };
    match T::extract(&v) {
        Some(x) => Ok(x),
        None => Err(
            Error::decode("body does not match the expected schema".to_owned(), body.to_owned()),
        ),
    }
}

/// The seven envelope fields of `x`, read out of the object fields `f`.
pub open spec fn spec_envelope_of(
    f: Seq<(String, JsonValue)>,
    realtime_start: String,
    realtime_end: String,
    order_by: String,
    sort_order: String,
    count: isize,
    offset: isize,
    limit: isize,
) -> bool {
    &&& realtime_start == spec_get_string(f, "realtime_start"@).unwrap()
    &&& realtime_end == spec_get_string(f, "realtime_end"@).unwrap()
    &&& order_by == spec_get_string(f, "order_by"@).unwrap()
    &&& sort_order == spec_get_string(f, "sort_order"@).unwrap()
    &&& count == spec_get_isize(f, "count"@).unwrap()
    &&& offset == spec_get_isize(f, "offset"@).unwrap()
    &&& limit == spec_get_isize(f, "limit"@).unwrap()
}

impl JsonResponse for SeriesTags {
    open spec fn spec_ok(v: JsonValue) -> bool {
        spec_obj_fields(v) matches Some(f) && {
            &&& spec_envelope_ok(f)
            &&& spec_get_arr(f, "tags"@) matches Some(items) && spec_decode_seq(
                items,
                |y: JsonValue| TagItem::spec_decode(y),
            ) is Some
        }
    }

    open spec fn spec_of(v: JsonValue, x: SeriesTags) -> bool {
        spec_obj_fields(v) matches Some(f) && {
            &&& spec_envelope_of(
                f,
                x.realtime_start,
                x.realtime_end,
                x.order_by,
                x.sort_order,
                x.count,
                x.offset,
                x.limit,
            )
            &&& spec_get_arr(f, "tags"@) matches Some(items) && spec_decode_seq(
                items,
                |y: JsonValue| TagItem::spec_decode(y),
            ) == Some(x.tags@)
        }
    }

    fn extract(v: &JsonValue) -> (r: Option<SeriesTags>) {
        let f = match obj_fields(v) {
            Some(f) => f,
            None => {
                return None;
            },
        };
        let h = match get_envelope(f) {
            Some(h) => h,
            None => {
                return None;
            },
        };
        let items = match get_arr(f, "tags") {
            Some(a) => a,
            None => {
                return None;
            },
        };
        let tags = match decode_vec::<TagItem>(items) {
            Some(t) => t,
            None => {
                return None;
            },
        };
        Some(
            SeriesTags {
                realtime_start: h.0,
                realtime_end: h.1,
                order_by: h.2,
                sort_order: h.3,
                count: h.4,
                offset: h.5,
                limit: h.6,
                tags,
            },
        )
    }
}

impl JsonResponse for Tags {
    open spec fn spec_ok(v: JsonValue) -> bool {
        spec_obj_fields(v) matches Some(f) && {
            &&& spec_envelope_ok(f)
            &&& spec_get_arr(f, "tags"@) matches Some(items) && spec_decode_seq(
                items,
                |y: JsonValue| Tag::spec_decode(y),
            ) is Some
        }
    }

    open spec fn spec_of(v: JsonValue, x: Tags) -> bool {
        spec_obj_fields(v) matches Some(f) && {
            &&& spec_envelope_of(
                f,
                x.realtime_start,
                x.realtime_end,
                x.order_by,
                x.sort_order,
                x.count,
                x.offset,
                x.limit,
            )
            &&& spec_get_arr(f, "tags"@) matches Some(items) && spec_decode_seq(
                items,
                |y: JsonValue| Tag::spec_decode(y),
            ) == Some(x.tags@)
        }
    }

    fn extract(v: &JsonValue) -> (r: Option<Tags>) {
        let f = match obj_fields(v) {
            Some(f) => f,
            None => {
                return None;
            },
        };
        let h = match get_envelope(f) {
            Some(h) => h,
            None => {
                return None;
            },
        };
        let items = match get_arr(f, "tags") {
            Some(a) => a,
            None => {
                return None;
            },
        };
        let tags = match decode_vec::<Tag>(items) {
            Some(t) => t,
            None => {
                return None;
            },
        };
        Some(
            Tags {
                realtime_start: h.0,
                realtime_end: h.1,
                order_by: h.2,
                sort_order: h.3,
                count: h.4,
                offset: h.5,
                limit: h.6,
                tags,
            },
        )
    }
}

impl JsonResponse for Categories {
    open spec fn spec_ok(v: JsonValue) -> bool {
        spec_obj_fields(v) matches Some(f) && {
            &&& spec_get_arr(f, "categories"@) matches Some(items) && spec_decode_seq(
                items,
                |y: JsonValue| Category::spec_decode(y),
            ) is Some
        }
    }

    open spec fn spec_of(v: JsonValue, x: Categories) -> bool {
        spec_obj_fields(v) matches Some(f) && {
            &&& spec_get_arr(f, "categories"@) matches Some(items) && spec_decode_seq(
                items,
                |y: JsonValue| Category::spec_decode(y),
            ) == Some(x.categories@)
        }
    }

    fn extract(v: &JsonValue) -> (r: Option<Categories>) {
        let f = match obj_fields(v) {
            Some(f) => f,
            None => {
                return None;
            },
        };
        let items = match get_arr(f, "categories") {
            Some(a) => a,
            None => {
                return None;
            },
        };
        let categories = match decode_vec::<Category>(items) {
            Some(t) => t,
            None => {
                return None;
            },
        };
        Some(Categories { categories })
    }
}

impl JsonResponse for CategorySeries {
    open spec fn spec_ok(v: JsonValue) -> bool {
        spec_obj_fields(v) matches Some(f) && {
            &&& spec_get_string(f, "realtime_start"@) is Some
            &&& spec_get_string(f, "realtime_end"@) is Some
            &&& spec_get_string(f, "order_by"@) is Some
            &&& spec_get_isize(f, "count"@) is Some
            &&& spec_get_isize(f, "offset"@) is Some
            &&& spec_get_isize(f, "limit"@) is Some
            &&& spec_get_arr(f, "seriess"@) matches Some(items) && spec_decode_seq(
                items,
                |y: JsonValue| SeriesItem::spec_decode(y),
            ) is Some
        }
    }

    open spec fn spec_of(v: JsonValue, x: CategorySeries) -> bool {
        spec_obj_fields(v) matches Some(f) && {
            &&& x.realtime_start == spec_get_string(f, "realtime_start"@).unwrap()
            &&& x.realtime_end == spec_get_string(f, "realtime_end"@).unwrap()
            &&& x.order_by == spec_get_string(f, "order_by"@).unwrap()
            &&& x.count == spec_get_isize(f, "count"@).unwrap()
            &&& x.offset == spec_get_isize(f, "offset"@).unwrap()
            &&& x.limit == spec_get_isize(f, "limit"@).unwrap()
            &&& spec_get_arr(f, "seriess"@) matches Some(items) && spec_decode_seq(
                items,
                |y: JsonValue| SeriesItem::spec_decode(y),
            ) == Some(x.seriess.0@)
        }
    }

    fn extract(v: &JsonValue) -> (r: Option<CategorySeries>) {
        let f = match obj_fields(v) {
            Some(f) => f,
            None => {
                return None;
            },
        };
        let realtime_start = match get_string(f, "realtime_start") {
            Some(x) => x,
            None => {
                return None;
            },
        };
        let realtime_end = match get_string(f, "realtime_end") {
            Some(x) => x,
            None => {
                return None;
            },
        };
        let order_by = match get_string(f, "order_by") {
            Some(x) => x,
            None => {
                return None;
            },
        };
        let count = match get_isize(f, "count") {
            Some(x) => x,
            None => {
                return None;
            },
        };
        let offset = match get_isize(f, "offset") {
            Some(x) => x,
            None => {
                return None;
            },
        };
        let limit = match get_isize(f, "limit") {
            Some(x) => x,
            None => {
                return None;
            },
        };
        let items = match get_arr(f, "seriess") {
            Some(a) => a,
            None => {
                return None;
            },
        };
        let seriess = match decode_vec::<SeriesItem>(items) {
            Some(t) => t,
            None => {
                return None;
            },
        };
        Some(
            CategorySeries {
                realtime_start,
                realtime_end,
                order_by,
                count,
                offset,
                limit,
                seriess: SeriesItems(seriess),
            },
        )
    }
}

impl JsonResponse for Release {
    open spec fn spec_ok(v: JsonValue) -> bool {
        spec_obj_fields(v) matches Some(f) && {
            &&& spec_get_string(f, "realtime_start"@) is Some
            &&& spec_get_string(f, "realtime_end"@) is Some
            &&& spec_get_arr(f, "releases"@) matches Some(items) && spec_decode_seq(
                items,
                |y: JsonValue| ReleaseItem::spec_decode(y),
            ) is Some
        }
    }

    open spec fn spec_of(v: JsonValue, x: Release) -> bool {
        spec_obj_fields(v) matches Some(f) && {
            &&& x.realtime_start == spec_get_string(f, "realtime_start"@).unwrap()
            &&& x.realtime_end == spec_get_string(f, "realtime_end"@).unwrap()
            &&& spec_get_arr(f, "releases"@) matches Some(items) && spec_decode_seq(
                items,
                |y: JsonValue| ReleaseItem::spec_decode(y),
            ) == Some(x.releases@)
        }
    }

    fn extract(v: &JsonValue) -> (r: Option<Release>) {
        let f = match obj_fields(v) {
            Some(f) => f,
            None => {
                return None;
            },
        };
        let realtime_start = match get_string(f, "realtime_start") {
            Some(x) => x,
            None => {
                return None;
            },
        };
        let realtime_end = match get_string(f, "realtime_end") {
            Some(x) => x,
            None => {
                return None;
            },
        };
        let items = match get_arr(f, "releases") {
            Some(a) => a,
            None => {
                return None;
            },
        };
        let releases = match decode_vec::<ReleaseItem>(items) {
            Some(t) => t,
            None => {
                return None;
            },
        };
        Some(Release { realtime_start, realtime_end, releases })
    }
}

impl JsonResponse for SeriesVintageDates {
    open spec fn spec_ok(v: JsonValue) -> bool {
        spec_obj_fields(v) matches Some(f) && {
            &&& spec_envelope_ok(f)
            &&& spec_get_arr(f, "vintage_dates"@) matches Some(items) && spec_decode_seq(
                items,
                |y: JsonValue| String::spec_decode(y),
            ) is Some
        }
    }

    open spec fn spec_of(v: JsonValue, x: SeriesVintageDates) -> bool {
        spec_obj_fields(v) matches Some(f) && {
            &&& spec_envelope_of(
                f,
                x.realtime_start,
                x.realtime_end,
                x.order_by,
                x.sort_order,
                x.count,
                x.offset,
                x.limit,
            )
            &&& spec_get_arr(f, "vintage_dates"@) matches Some(items) && spec_decode_seq(
                items,
                |y: JsonValue| String::spec_decode(y),
            ) == Some(x.vintage_dates@)
        }
    }

    fn extract(v: &JsonValue) -> (r: Option<SeriesVintageDates>) {
        let f = match obj_fields(v) {
            Some(f) => f,
            None => {
                return None;
            },
        };
        let h = match get_envelope(f) {
            Some(h) => h,
            None => {
                return None;
            },
        };
        let items = match get_arr(f, "vintage_dates") {
            Some(a) => a,
            None => {
                return None;
            },
        };
        let vintage_dates = match decode_vec::<String>(items) {
            Some(t) => t,
            None => {
                return None;
            },
        };
        Some(
            SeriesVintageDates {
                realtime_start: h.0,
                realtime_end: h.1,
                order_by: h.2,
                sort_order: h.3,
                count: h.4,
                offset: h.5,
                limit: h.6,
                vintage_dates,
            },
        )
    }
}


impl JsonResponse for CategoryTags {
    open spec fn spec_ok(v: JsonValue) -> bool {
        spec_obj_fields(v) matches Some(f) && {
            &&& spec_envelope_ok(f)
            &&& spec_get_arr(f, "tags"@) matches Some(items) && spec_decode_seq(
                items,
                |y: JsonValue| Tag::spec_decode(y),
            ) is Some
        }
    }

    open spec fn spec_of(v: JsonValue, x: CategoryTags) -> bool {
        spec_obj_fields(v) matches Some(f) && {
            &&& spec_envelope_of(
                f,
                x.realtime_start,
                x.realtime_end,
                x.order_by,
                x.sort_order,
                x.count,
                x.offset,
                x.limit,
            )
            &&& spec_get_arr(f, "tags"@) matches Some(items) && spec_decode_seq(
                items,
                |y: JsonValue| Tag::spec_decode(y),
            ) == Some(x.tags@)
        }
    }

    fn extract(v: &JsonValue) -> (r: Option<CategoryTags>) {
        let f = match obj_fields(v) {
            Some(f) => f,
            None => {
                return None;
            },
        };
        let h = match get_envelope(f) {
            Some(h) => h,
            None => {
                return None;
            },
        };
        let items = match get_arr(f, "tags") {
            Some(a) => a,
            None => {
                return None;
            },
        };
        let tags = match decode_vec::<Tag>(items) {
            Some(t) => t,
            None => {
                return None;
            },
        };
        Some(
            CategoryTags {
                realtime_start: h.0,
                realtime_end: h.1,
                order_by: h.2,
                sort_order: h.3,
                count: h.4,
                offset: h.5,
                limit: h.6,
                tags,
            },
        )
    }
}

impl JsonResponse for CategoryRelatedTags {
    open spec fn spec_ok(v: JsonValue) -> bool {
        spec_obj_fields(v) matches Some(f) && {
            &&& spec_envelope_ok(f)
            &&& spec_get_arr(f, "tags"@) matches Some(items) && spec_decode_seq(
                items,
                |y: JsonValue| Tag::spec_decode(y),
            ) is Some
        }
    }

    open spec fn spec_of(v: JsonValue, x: CategoryRelatedTags) -> bool {
        spec_obj_fields(v) matches Some(f) && {
            &&& spec_envelope_of(
                f,
                x.realtime_start,
                x.realtime_end,
                x.order_by,
                x.sort_order,
                x.count,
                x.offset,
                x.limit,
            )
            &&& spec_get_arr(f, "tags"@) matches Some(items) && spec_decode_seq(
                items,
                |y: JsonValue| Tag::spec_decode(y),
            ) == Some(x.tags@)
        }
    }

    fn extract(v: &JsonValue) -> (r: Option<CategoryRelatedTags>) {
        let f = match obj_fields(v) {
            Some(f) => f,
            None => {
                return None;
            },
        };
        let h = match get_envelope(f) {
            Some(h) => h,
            None => {
                return None;
            },
        };
        let items = match get_arr(f, "tags") {
            Some(a) => a,
            None => {
                return None;
            },
        };
        let tags = match decode_vec::<Tag>(items) {
            Some(t) => t,
            None => {
                return None;
            },
        };
        Some(
            CategoryRelatedTags {
                realtime_start: h.0,
                realtime_end: h.1,
                order_by: h.2,
                sort_order: h.3,
                count: h.4,
                offset: h.5,
                limit: h.6,
                tags,
            },
        )
    }
}

impl JsonResponse for ReleaseTags {
    open spec fn spec_ok(v: JsonValue) -> bool {
        spec_obj_fields(v) matches Some(f) && {
            &&& spec_envelope_ok(f)
            &&& spec_get_arr(f, "tags"@) matches Some(items) && spec_decode_seq(
                items,
                |y: JsonValue| TagItem::spec_decode(y),
            ) is Some
        }
    }

    open spec fn spec_of(v: JsonValue, x: ReleaseTags) -> bool {
        spec_obj_fields(v) matches Some(f) && {
            &&& spec_envelope_of(
                f,
                x.realtime_start,
                x.realtime_end,
                x.order_by,
                x.sort_order,
                x.count,
                x.offset,
                x.limit,
            )
            &&& spec_get_arr(f, "tags"@) matches Some(items) && spec_decode_seq(
                items,
                |y: JsonValue| TagItem::spec_decode(y),
            ) == Some(x.tags@)
        }
    }

    fn extract(v: &JsonValue) -> (r: Option<ReleaseTags>) {
        let f = match obj_fields(v) {
            Some(f) => f,
            None => {
                return None;
            },
        };
        let h = match get_envelope(f) {
            Some(h) => h,
            None => {
                return None;
            },
        };
        let items = match get_arr(f, "tags") {
            Some(a) => a,
            None => {
                return None;
            },
        };
        let tags = match decode_vec::<TagItem>(items) {
            Some(t) => t,
            None => {
                return None;
            },
        };
        Some(
            ReleaseTags {
                realtime_start: h.0,
                realtime_end: h.1,
                order_by: h.2,
                sort_order: h.3,
                count: h.4,
                offset: h.5,
                limit: h.6,
                tags,
            },
        )
    }
}

impl JsonResponse for ReleaseRelatedTags {
    open spec fn spec_ok(v: JsonValue) -> bool {
        spec_obj_fields(v) matches Some(f) && {
            &&& spec_envelope_ok(f)
            &&& spec_get_arr(f, "tags"@) matches Some(items) && spec_decode_seq(
                items,
                |y: JsonValue| TagItem::spec_decode(y),
            ) is Some
        }
    }

    open spec fn spec_of(v: JsonValue, x: ReleaseRelatedTags) -> bool {
        spec_obj_fields(v) matches Some(f) && {
            &&& spec_envelope_of(
                f,
                x.realtime_start,
                x.realtime_end,
                x.order_by,
                x.sort_order,
                x.count,
                x.offset,
                x.limit,
            )
            &&& spec_get_arr(f, "tags"@) matches Some(items) && spec_decode_seq(
                items,
                |y: JsonValue| TagItem::spec_decode(y),
            ) == Some(x.tags@)
        }
    }

    fn extract(v: &JsonValue) -> (r: Option<ReleaseRelatedTags>) {
        let f = match obj_fields(v) {
            Some(f) => f,
            None => {
                return None;
            },
        };
        let h = match get_envelope(f) {
            Some(h) => h,
            None => {
                return None;
            },
        };
        let items = match get_arr(f, "tags") {
            Some(a) => a,
            None => {
                return None;
            },
        };
        let tags = match decode_vec::<TagItem>(items) {
            Some(t) => t,
            None => {
                return None;
            },
        };
        Some(
            ReleaseRelatedTags {
                realtime_start: h.0,
                realtime_end: h.1,
                order_by: h.2,
                sort_order: h.3,
                count: h.4,
                offset: h.5,
                limit: h.6,
                tags,
            },
        )
    }
}

impl JsonResponse for SeriesSearchTags {
    open spec fn spec_ok(v: JsonValue) -> bool {
        spec_obj_fields(v) matches Some(f) && {
            &&& spec_envelope_ok(f)
            &&& spec_get_arr(f, "tags"@) matches Some(items) && spec_decode_seq(
                items,
                |y: JsonValue| TagItem::spec_decode(y),
            ) is Some
        }
    }

    open spec fn spec_of(v: JsonValue, x: SeriesSearchTags) -> bool {
        spec_obj_fields(v) matches Some(f) && {
            &&& spec_envelope_of(
                f,
                x.realtime_start,
                x.realtime_end,
                x.order_by,
                x.sort_order,
                x.count,
                x.offset,
                x.limit,
            )
            &&& spec_get_arr(f, "tags"@) matches Some(items) && spec_decode_seq(
                items,
                |y: JsonValue| TagItem::spec_decode(y),
            ) == Some(x.tags@)
        }
    }

    fn extract(v: &JsonValue) -> (r: Option<SeriesSearchTags>) {
        let f = match obj_fields(v) {
            Some(f) => f,
            None => {
                return None;
            },
        };
        let h = match get_envelope(f) {
            Some(h) => h,
            None => {
                return None;
            },
        };
        let items = match get_arr(f, "tags") {
            Some(a) => a,
            None => {
                return None;
            },
        };
        let tags = match decode_vec::<TagItem>(items) {
            Some(t) => t,
            None => {
                return None;
            },
        };
        Some(
            SeriesSearchTags {
                realtime_start: h.0,
                realtime_end: h.1,
                order_by: h.2,
                sort_order: h.3,
                count: h.4,
                offset: h.5,
                limit: h.6,
                tags,
            },
        )
    }
}

impl JsonResponse for SeriesSearchRelatedTags {
    open spec fn spec_ok(v: JsonValue) -> bool {
        spec_obj_fields(v) matches Some(f) && {
            &&& spec_envelope_ok(f)
            &&& spec_get_arr(f, "tags"@) matches Some(items) && spec_decode_seq(
                items,
                |y: JsonValue| TagItem::spec_decode(y),
            ) is Some
        }
    }

    open spec fn spec_of(v: JsonValue, x: SeriesSearchRelatedTags) -> bool {
        spec_obj_fields(v) matches Some(f) && {
            &&& spec_envelope_of(
                f,
                x.realtime_start,
                x.realtime_end,
                x.order_by,
                x.sort_order,
                x.count,
                x.offset,
                x.limit,
            )
            &&& spec_get_arr(f, "tags"@) matches Some(items) && spec_decode_seq(
                items,
                |y: JsonValue| TagItem::spec_decode(y),
            ) == Some(x.tags@)
        }
    }

    fn extract(v: &JsonValue) -> (r: Option<SeriesSearchRelatedTags>) {
        let f = match obj_fields(v) {
            Some(f) => f,
            None => {
                return None;
            },
        };
        let h = match get_envelope(f) {
            Some(h) => h,
            None => {
                return None;
            },
        };
        let items = match get_arr(f, "tags") {
            Some(a) => a,
            None => {
                return None;
            },
        };
        let tags = match decode_vec::<TagItem>(items) {
            Some(t) => t,
            None => {
                return None;
            },
        };
        Some(
            SeriesSearchRelatedTags {
                realtime_start: h.0,
                realtime_end: h.1,
                order_by: h.2,
                sort_order: h.3,
                count: h.4,
                offset: h.5,
                limit: h.6,
                tags,
            },
        )
    }
}

impl JsonResponse for Releases {
    open spec fn spec_ok(v: JsonValue) -> bool {
        spec_obj_fields(v) matches Some(f) && {
            &&& spec_envelope_ok(f)
            &&& spec_get_arr(f, "releases"@) matches Some(items) && spec_decode_seq(
                items,
                |y: JsonValue| ReleaseItem::spec_decode(y),
            ) is Some
        }
    }

    open spec fn spec_of(v: JsonValue, x: Releases) -> bool {
        spec_obj_fields(v) matches Some(f) && {
            &&& spec_envelope_of(
                f,
                x.realtime_start,
                x.realtime_end,
                x.order_by,
                x.sort_order,
                x.count,
                x.offset,
                x.limit,
            )
            &&& spec_get_arr(f, "releases"@) matches Some(items) && spec_decode_seq(
                items,
                |y: JsonValue| ReleaseItem::spec_decode(y),
            ) == Some(x.releases@)
        }
    }

    fn extract(v: &JsonValue) -> (r: Option<Releases>) {
        let f = match obj_fields(v) {
            Some(f) => f,
            None => {
                return None;
            },
        };
        let h = match get_envelope(f) {
            Some(h) => h,
            None => {
                return None;
            },
        };
        let items = match get_arr(f, "releases") {
            Some(a) => a,
            None => {
                return None;
            },
        };
        let releases = match decode_vec::<ReleaseItem>(items) {
            Some(t) => t,
            None => {
                return None;
            },
        };
        Some(
            Releases {
                realtime_start: h.0,
                realtime_end: h.1,
                order_by: h.2,
                sort_order: h.3,
                count: h.4,
                offset: h.5,
                limit: h.6,
                releases,
            },
        )
    }
}

impl JsonResponse for SourceReleases {
    open spec fn spec_ok(v: JsonValue) -> bool {
        spec_obj_fields(v) matches Some(f) && {
            &&& spec_envelope_ok(f)
            &&& spec_get_arr(f, "releases"@) matches Some(items) && spec_decode_seq(
                items,
                |y: JsonValue| ReleaseItem::spec_decode(y),
            ) is Some
        }
    }

    open spec fn spec_of(v: JsonValue, x: SourceReleases) -> bool {
        spec_obj_fields(v) matches Some(f) && {
            &&& spec_envelope_of(
                f,
                x.realtime_start,
                x.realtime_end,
                x.order_by,
                x.sort_order,
                x.count,
                x.offset,
                x.limit,
            )
            &&& spec_get_arr(f, "releases"@) matches Some(items) && spec_decode_seq(
                items,
                |y: JsonValue| ReleaseItem::spec_decode(y),
            ) == Some(x.releases@)
        }
    }

    fn extract(v: &JsonValue) -> (r: Option<SourceReleases>) {
        let f = match obj_fields(v) {
            Some(f) => f,
            None => {
                return None;
            },
        };
        let h = match get_envelope(f) {
            Some(h) => h,
            None => {
                return None;
            },
        };
        let items = match get_arr(f, "releases") {
            Some(a) => a,
            None => {
                return None;
            },
        };
        let releases = match decode_vec::<ReleaseItem>(items) {
            Some(t) => t,
            None => {
                return None;
            },
        };
        Some(
            SourceReleases {
                realtime_start: h.0,
                realtime_end: h.1,
                order_by: h.2,
                sort_order: h.3,
                count: h.4,
                offset: h.5,
                limit: h.6,
                releases,
            },
        )
    }
}

impl JsonResponse for ReleaseDates {
    open spec fn spec_ok(v: JsonValue) -> bool {
        spec_obj_fields(v) matches Some(f) && {
            &&& spec_envelope_ok(f)
            &&& spec_get_arr(f, "release_dates"@) matches Some(items) && spec_decode_seq(
                items,
                |y: JsonValue| ReleaseDateItem::spec_decode(y),
            ) is Some
        }
    }

    open spec fn spec_of(v: JsonValue, x: ReleaseDates) -> bool {
        spec_obj_fields(v) matches Some(f) && {
            &&& spec_envelope_of(
                f,
                x.realtime_start,
                x.realtime_end,
                x.order_by,
                x.sort_order,
                x.count,
                x.offset,
                x.limit,
            )
            &&& spec_get_arr(f, "release_dates"@) matches Some(items) && spec_decode_seq(
                items,
                |y: JsonValue| ReleaseDateItem::spec_decode(y),
            ) == Some(x.release_dates@)
        }
    }

    fn extract(v: &JsonValue) -> (r: Option<ReleaseDates>) {
        let f = match obj_fields(v) {
            Some(f) => f,
            None => {
                return None;
            },
        };
        let h = match get_envelope(f) {
            Some(h) => h,
            None => {
                return None;
            },
        };
        let items = match get_arr(f, "release_dates") {
            Some(a) => a,
            None => {
                return None;
            },
        };
        let release_dates = match decode_vec::<ReleaseDateItem>(items) {
            Some(t) => t,
            None => {
                return None;
            },
        };
        Some(
            ReleaseDates {
                realtime_start: h.0,
                realtime_end: h.1,
                order_by: h.2,
                sort_order: h.3,
                count: h.4,
                offset: h.5,
                limit: h.6,
                release_dates,
            },
        )
    }
}

impl JsonResponse for Sources {
    open spec fn spec_ok(v: JsonValue) -> bool {
        spec_obj_fields(v) matches Some(f) && {
            &&& spec_envelope_ok(f)
            &&& spec_get_arr(f, "sources"@) matches Some(items) && spec_decode_seq(
                items,
                |y: JsonValue| SourceItem::spec_decode(y),
            ) is Some
        }
    }

    open spec fn spec_of(v: JsonValue, x: Sources) -> bool {
        spec_obj_fields(v) matches Some(f) && {
            &&& spec_envelope_of(
                f,
                x.realtime_start,
                x.realtime_end,
                x.order_by,
                x.sort_order,
                x.count,
                x.offset,
                x.limit,
            )
            &&& spec_get_arr(f, "sources"@) matches Some(items) && spec_decode_seq(
                items,
                |y: JsonValue| SourceItem::spec_decode(y),
            ) == Some(x.sources@)
        }
    }

    fn extract(v: &JsonValue) -> (r: Option<Sources>) {
        let f = match obj_fields(v) {
            Some(f) => f,
            None => {
                return None;
            },
        };
        let h = match get_envelope(f) {
            Some(h) => h,
            None => {
                return None;
            },
        };
        let items = match get_arr(f, "sources") {
            Some(a) => a,
            None => {
                return None;
            },
        };
        let sources = match decode_vec::<SourceItem>(items) {
            Some(t) => t,
            None => {
                return None;
            },
        };
        Some(
            Sources {
                realtime_start: h.0,
                realtime_end: h.1,
                order_by: h.2,
                sort_order: h.3,
                count: h.4,
                offset: h.5,
                limit: h.6,
                sources,
            },
        )
    }
}

impl JsonResponse for ReleaseSeries {
    open spec fn spec_ok(v: JsonValue) -> bool {
        spec_obj_fields(v) matches Some(f) && {
            &&& spec_envelope_ok(f)
            &&& spec_get_arr(f, "seriess"@) matches Some(items) && spec_decode_seq(
                items,
                |y: JsonValue| SeriesItem::spec_decode(y),
            ) is Some
        }
    }

    open spec fn spec_of(v: JsonValue, x: ReleaseSeries) -> bool {
        spec_obj_fields(v) matches Some(f) && {
            &&& spec_envelope_of(
                f,
                x.realtime_start,
                x.realtime_end,
                x.order_by,
                x.sort_order,
                x.count,
                x.offset,
                x.limit,
            )
            &&& spec_get_arr(f, "seriess"@) matches Some(items) && spec_decode_seq(
                items,
                |y: JsonValue| SeriesItem::spec_decode(y),
            ) == Some(x.seriess.0@)
        }
    }

    fn extract(v: &JsonValue) -> (r: Option<ReleaseSeries>) {
        let f = match obj_fields(v) {
            Some(f) => f,
            None => {
                return None;
            },
        };
        let h = match get_envelope(f) {
            Some(h) => h,
            None => {
                return None;
            },
        };
        let items = match get_arr(f, "seriess") {
            Some(a) => a,
            None => {
                return None;
            },
        };
        let seriess = match decode_vec::<SeriesItem>(items) {
            Some(t) => t,
            None => {
                return None;
            },
        };
        Some(
            ReleaseSeries {
                realtime_start: h.0,
                realtime_end: h.1,
                order_by: h.2,
                sort_order: h.3,
                count: h.4,
                offset: h.5,
                limit: h.6,
                seriess: SeriesItems(seriess),
            },
        )
    }
}

impl JsonResponse for SeriesSearch {
    open spec fn spec_ok(v: JsonValue) -> bool {
        spec_obj_fields(v) matches Some(f) && {
            &&& spec_envelope_ok(f)
            &&& spec_get_arr(f, "seriess"@) matches Some(items) && spec_decode_seq(
                items,
                |y: JsonValue| SeriesItem::spec_decode(y),
            ) is Some
        }
    }

    open spec fn spec_of(v: JsonValue, x: SeriesSearch) -> bool {
        spec_obj_fields(v) matches Some(f) && {
            &&& spec_envelope_of(
                f,
                x.realtime_start,
                x.realtime_end,
                x.order_by,
                x.sort_order,
                x.count,
                x.offset,
                x.limit,
            )
            &&& spec_get_arr(f, "seriess"@) matches Some(items) && spec_decode_seq(
                items,
                |y: JsonValue| SeriesItem::spec_decode(y),
            ) == Some(x.seriess.0@)
        }
    }

    fn extract(v: &JsonValue) -> (r: Option<SeriesSearch>) {
        let f = match obj_fields(v) {
            Some(f) => f,
            None => {
                return None;
            },
        };
        let h = match get_envelope(f) {
            Some(h) => h,
            None => {
                return None;
            },
        };
        let items = match get_arr(f, "seriess") {
            Some(a) => a,
            None => {
                return None;
            },
        };
        let seriess = match decode_vec::<SeriesItem>(items) {
            Some(t) => t,
            None => {
                return None;
            },
        };
        Some(
            SeriesSearch {
                realtime_start: h.0,
                realtime_end: h.1,
                order_by: h.2,
                sort_order: h.3,
                count: h.4,
                offset: h.5,
                limit: h.6,
                seriess: SeriesItems(seriess),
            },
        )
    }
}

impl JsonResponse for TagsSeries {
    open spec fn spec_ok(v: JsonValue) -> bool {
        spec_obj_fields(v) matches Some(f) && {
            &&& spec_envelope_ok(f)
            &&& spec_get_arr(f, "seriess"@) matches Some(items) && spec_decode_seq(
                items,
                |y: JsonValue| SeriesItem::spec_decode(y),
            ) is Some
        }
    }

    open spec fn spec_of(v: JsonValue, x: TagsSeries) -> bool {
        spec_obj_fields(v) matches Some(f) && {
            &&& spec_envelope_of(
                f,
                x.realtime_start,
                x.realtime_end,
                x.order_by,
                x.sort_order,
                x.count,
                x.offset,
                x.limit,
            )
            &&& spec_get_arr(f, "seriess"@) matches Some(items) && spec_decode_seq(
                items,
                |y: JsonValue| SeriesItem::spec_decode(y),
            ) == Some(x.seriess.0@)
        }
    }

    fn extract(v: &JsonValue) -> (r: Option<TagsSeries>) {
        let f = match obj_fields(v) {
            Some(f) => f,
            None => {
                return None;
            },
        };
        let h = match get_envelope(f) {
            Some(h) => h,
            None => {
                return None;
            },
        };
        let items = match get_arr(f, "seriess") {
            Some(a) => a,
            None => {
                return None;
            },
        };
        let seriess = match decode_vec::<SeriesItem>(items) {
            Some(t) => t,
            None => {
                return None;
            },
        };
        Some(
            TagsSeries {
                realtime_start: h.0,
                realtime_end: h.1,
                order_by: h.2,
                sort_order: h.3,
                count: h.4,
                offset: h.5,
                limit: h.6,
                seriess: SeriesItems(seriess),
            },
        )
    }
}

impl JsonResponse for SeriesRelease {
    open spec fn spec_ok(v: JsonValue) -> bool {
        spec_obj_fields(v) matches Some(f) && {
            &&& spec_get_string(f, "realtime_start"@) is Some
            &&& spec_get_string(f, "realtime_end"@) is Some
            &&& spec_get_arr(f, "releases"@) matches Some(items) && spec_decode_seq(
                items,
                |y: JsonValue| ReleaseItem::spec_decode(y),
            ) is Some
        }
    }

    open spec fn spec_of(v: JsonValue, x: SeriesRelease) -> bool {
        spec_obj_fields(v) matches Some(f) && {
            &&& x.realtime_start == spec_get_string(f, "realtime_start"@).unwrap()
            &&& x.realtime_end == spec_get_string(f, "realtime_end"@).unwrap()
            &&& spec_get_arr(f, "releases"@) matches Some(items) && spec_decode_seq(
                items,
                |y: JsonValue| ReleaseItem::spec_decode(y),
            ) == Some(x.releases@)
        }
    }

    fn extract(v: &JsonValue) -> (r: Option<SeriesRelease>) {
        let f = match obj_fields(v) {
            Some(f) => f,
            None => {
                return None;
            },
        };
        let realtime_start = match get_string(f, "realtime_start") {
            Some(x) => x,
            None => {
                return None;
            },
        };
        let realtime_end = match get_string(f, "realtime_end") {
            Some(x) => x,
            None => {
                return None;
            },
        };
        let items = match get_arr(f, "releases") {
            Some(a) => a,
            None => {
                return None;
            },
        };
        let releases = match decode_vec::<ReleaseItem>(items) {
            Some(t) => t,
            None => {
                return None;
            },
        };
        Some(SeriesRelease { realtime_start, realtime_end, releases })
    }
}

impl JsonResponse for ReleaseSources {
    open spec fn spec_ok(v: JsonValue) -> bool {
        spec_obj_fields(v) matches Some(f) && {
            &&& spec_get_string(f, "realtime_start"@) is Some
            &&& spec_get_string(f, "realtime_end"@) is Some
            &&& spec_get_arr(f, "sources"@) matches Some(items) && spec_decode_seq(
                items,
                |y: JsonValue| SourceItem::spec_decode(y),
            ) is Some
        }
    }

    open spec fn spec_of(v: JsonValue, x: ReleaseSources) -> bool {
        spec_obj_fields(v) matches Some(f) && {
            &&& x.realtime_start == spec_get_string(f, "realtime_start"@).unwrap()
            &&& x.realtime_end == spec_get_string(f, "realtime_end"@).unwrap()
            &&& spec_get_arr(f, "sources"@) matches Some(items) && spec_decode_seq(
                items,
                |y: JsonValue| SourceItem::spec_decode(y),
            ) == Some(x.sources@)
        }
    }

    fn extract(v: &JsonValue) -> (r: Option<ReleaseSources>) {
        let f = match obj_fields(v) {
            Some(f) => f,
            None => {
                return None;
            },
        };
        let realtime_start = match get_string(f, "realtime_start") {
            Some(x) => x,
            None => {
                return None;
            },
        };
        let realtime_end = match get_string(f, "realtime_end") {
            Some(x) => x,
            None => {
                return None;
            },
        };
        let items = match get_arr(f, "sources") {
            Some(a) => a,
            None => {
                return None;
            },
        };
        let sources = match decode_vec::<SourceItem>(items) {
            Some(t) => t,
            None => {
                return None;
            },
        };
        Some(ReleaseSources { realtime_start, realtime_end, sources })
    }
}

impl JsonResponse for Series {
    open spec fn spec_ok(v: JsonValue) -> bool {
        spec_obj_fields(v) matches Some(f) && {
            &&& spec_get_string(f, "realtime_start"@) is Some
            &&& spec_get_string(f, "realtime_end"@) is Some
            &&& spec_get_arr(f, "seriess"@) matches Some(items) && spec_decode_seq(
                items,
                |y: JsonValue| SeriesItem::spec_decode(y),
            ) is Some
        }
    }

    open spec fn spec_of(v: JsonValue, x: Series) -> bool {
        spec_obj_fields(v) matches Some(f) && {
            &&& x.realtime_start == spec_get_string(f, "realtime_start"@).unwrap()
            &&& x.realtime_end == spec_get_string(f, "realtime_end"@).unwrap()
            &&& spec_get_arr(f, "seriess"@) matches Some(items) && spec_decode_seq(
                items,
                |y: JsonValue| SeriesItem::spec_decode(y),
            ) == Some(x.seriess.0@)
        }
    }

    fn extract(v: &JsonValue) -> (r: Option<Series>) {
        let f = match obj_fields(v) {
            Some(f) => f,
            None => {
                return None;
            },
        };
        let realtime_start = match get_string(f, "realtime_start") {
            Some(x) => x,
            None => {
                return None;
            },
        };
        let realtime_end = match get_string(f, "realtime_end") {
            Some(x) => x,
            None => {
                return None;
            },
        };
        let items = match get_arr(f, "seriess") {
            Some(a) => a,
            None => {
                return None;
            },
        };
        let seriess = match decode_vec::<SeriesItem>(items) {
            Some(t) => t,
            None => {
                return None;
            },
        };
        Some(Series { realtime_start, realtime_end, seriess: SeriesItems(seriess) })
    }
}

impl JsonResponse for SeriesUpdates {
    open spec fn spec_ok(v: JsonValue) -> bool {
        spec_obj_fields(v) matches Some(f) && {
            &&& spec_envelope_ok(f)
            &&& spec_get_string(f, "filter_variable"@) is Some
            &&& spec_get_string(f, "filter_value"@) is Some
            &&& spec_get_arr(f, "seriess"@) matches Some(items) && spec_decode_seq(
                items,
                |y: JsonValue| SeriesItem::spec_decode(y),
            ) is Some
        }
    }

    open spec fn spec_of(v: JsonValue, x: SeriesUpdates) -> bool {
        spec_obj_fields(v) matches Some(f) && {
            &&& spec_envelope_of(
                f,
                x.realtime_start,
                x.realtime_end,
                x.order_by,
                x.sort_order,
                x.count,
                x.offset,
                x.limit,
            )
            &&& x.filter_variable == spec_get_string(f, "filter_variable"@).unwrap()
            &&& x.filter_value == spec_get_string(f, "filter_value"@).unwrap()
            &&& spec_get_arr(f, "seriess"@) matches Some(items) && spec_decode_seq(
                items,
                |y: JsonValue| SeriesItem::spec_decode(y),
            ) == Some(x.seriess.0@)
        }
    }

    fn extract(v: &JsonValue) -> (r: Option<SeriesUpdates>) {
        let f = match obj_fields(v) {
            Some(f) => f,
            None => {
                return None;
            },
        };
        let h = match get_envelope(f) {
            Some(h) => h,
            None => {
                return None;
            },
        };
        let filter_variable = match get_string(f, "filter_variable") {
            Some(x) => x,
            None => {
                return None;
            },
        };
        let filter_value = match get_string(f, "filter_value") {
            Some(x) => x,
            None => {
                return None;
            },
        };
        let items = match get_arr(f, "seriess") {
            Some(a) => a,
            None => {
                return None;
            },
        };
        let seriess = match decode_vec::<SeriesItem>(items) {
            Some(t) => t,
            None => {
                return None;
            },
        };
        Some(
            SeriesUpdates {
                realtime_start: h.0,
                realtime_end: h.1,
                filter_variable,
                filter_value,
                order_by: h.2,
                sort_order: h.3,
                count: h.4,
                offset: h.5,
                limit: h.6,
                seriess: SeriesItems(seriess),
            },
        )
    }
}

impl JsonResponse for SeriesObservations {
    open spec fn spec_ok(v: JsonValue) -> bool {
        spec_obj_fields(v) matches Some(f) && {
            &&& spec_get_string(f, "realtime_start"@) is Some
            &&& spec_get_string(f, "realtime_end"@) is Some
            &&& spec_get_string(f, "observation_start"@) is Some
            &&& spec_get_string(f, "observation_end"@) is Some
            &&& spec_get_string(f, "units"@) is Some
            &&& spec_get_isize(f, "output_type"@) is Some
            &&& spec_get_string(f, "file_type"@) is Some
            &&& spec_get_string(f, "order_by"@) is Some
            &&& spec_get_string(f, "sort_order"@) is Some
            &&& spec_get_isize(f, "count"@) is Some
            &&& spec_get_isize(f, "offset"@) is Some
            &&& spec_get_isize(f, "limit"@) is Some
            &&& spec_get_arr(f, "observations"@) matches Some(items) && spec_decode_seq(
                items,
                |y: JsonValue| Observation::spec_decode(y),
            ) is Some
        }
    }

    open spec fn spec_of(v: JsonValue, x: SeriesObservations) -> bool {
        spec_obj_fields(v) matches Some(f) && {
            &&& x.realtime_start == spec_get_string(f, "realtime_start"@).unwrap()
            &&& x.realtime_end == spec_get_string(f, "realtime_end"@).unwrap()
            &&& x.observation_start == spec_get_string(f, "observation_start"@).unwrap()
            &&& x.observation_end == spec_get_string(f, "observation_end"@).unwrap()
            &&& x.units == spec_get_string(f, "units"@).unwrap()
            &&& x.output_type == spec_get_isize(f, "output_type"@).unwrap()
            &&& x.file_type == spec_get_string(f, "file_type"@).unwrap()
            &&& x.order_by == spec_get_string(f, "order_by"@).unwrap()
            &&& x.sort_order == spec_get_string(f, "sort_order"@).unwrap()
            &&& x.count == spec_get_isize(f, "count"@).unwrap()
            &&& x.offset == spec_get_isize(f, "offset"@).unwrap()
            &&& x.limit == spec_get_isize(f, "limit"@).unwrap()
            &&& spec_get_arr(f, "observations"@) matches Some(items) && spec_decode_seq(
                items,
                |y: JsonValue| Observation::spec_decode(y),
            ) == Some(x.observations.0@)
        }
    }

    fn extract(v: &JsonValue) -> (r: Option<SeriesObservations>) {
        let f = match obj_fields(v) {
            Some(f) => f,
            None => {
                return None;
            },
        };
        let realtime_start = match get_string(f, "realtime_start") {
            Some(x) => x,
            None => {
                return None;
            },
        };
        let realtime_end = match get_string(f, "realtime_end") {
            Some(x) => x,
            None => {
                return None;
            },
        };
        let observation_start = match get_string(f, "observation_start") {
            Some(x) => x,
            None => {
                return None;
            },
        };
        let observation_end = match get_string(f, "observation_end") {
            Some(x) => x,
            None => {
                return None;
            },
        };
        let units = match get_string(f, "units") {
            Some(x) => x,
            None => {
                return None;
            },
        };
        let output_type = match get_isize(f, "output_type") {
            Some(x) => x,
            None => {
                return None;
            },
        };
        let file_type = match get_string(f, "file_type") {
            Some(x) => x,
            None => {
                return None;
            },
        };
        let order_by = match get_string(f, "order_by") {
            Some(x) => x,
            None => {
                return None;
            },
        };
        let sort_order = match get_string(f, "sort_order") {
            Some(x) => x,
            None => {
                return None;
            },
        };
        let count = match get_isize(f, "count") {
            Some(x) => x,
            None => {
                return None;
            },
        };
        let offset = match get_isize(f, "offset") {
            Some(x) => x,
            None => {
                return None;
            },
        };
        let limit = match get_isize(f, "limit") {
            Some(x) => x,
            None => {
                return None;
            },
        };
        let items = match get_arr(f, "observations") {
            Some(a) => a,
            None => {
                return None;
            },
        };
        let observations = match decode_vec::<Observation>(items) {
            Some(t) => t,
            None => {
                return None;
            },
        };
        Some(
            SeriesObservations {
                realtime_start,
                realtime_end,
                observation_start,
                observation_end,
                units,
                output_type,
                file_type,
                order_by,
                sort_order,
                count,
                offset,
                limit,
                observations: Observations(observations),
            },
        )
    }
}



impl JsonResponse for ReleaseTables {
    open spec fn spec_ok(v: JsonValue) -> bool {
        spec_obj_fields(v) matches Some(f) && {
            &&& spec_get_string(f, "name"@) is Some
            &&& spec_get_isize(f, "element_id"@) is Some
            &&& spec_get_string(f, "release_id"@) is Some
            &&& spec_get_arr(f, "elements"@) matches Some(items) && spec_keyvals_ok(items)
        }
    }

    open spec fn spec_of(v: JsonValue, x: ReleaseTables) -> bool {
        spec_obj_fields(v) matches Some(f) && {
            &&& x.name == spec_get_string(f, "name"@).unwrap()
            &&& x.element_id == spec_get_isize(f, "element_id"@).unwrap()
            &&& x.release_id == spec_get_string(f, "release_id"@).unwrap()
            &&& spec_get_arr(f, "elements"@) matches Some(items) && spec_keyvals_of(
                items,
                x.elements@,
            )
        }
    }

    fn extract(v: &JsonValue) -> (r: Option<ReleaseTables>) {
        let f = match obj_fields(v) {
            Some(f) => f,
            None => {
                return None;
            },
        };
        let name = match get_string(f, "name") {
            Some(x) => x,
            None => {
                return None;
            },
        };
        let element_id = match get_isize(f, "element_id") {
            Some(x) => x,
            None => {
                return None;
            },
        };
        let release_id = match get_string(f, "release_id") {
            Some(x) => x,
            None => {
                return None;
            },
        };
        let items = match get_arr(f, "elements") {
            Some(a) => a,
            None => {
                return None;
            },
        };
        let elements = match decode_keyvals(items) {
            Some(t) => t,
            None => {
                return None;
            },
        };
        Some(ReleaseTables { name, element_id, release_id, elements })
    }
}


impl JsonResponse for String {
    /// The raw-JSON endpoints decode the body like a `String` field: the
    /// body must be one JSON string literal.
    open spec fn spec_ok(v: JsonValue) -> bool {
        v is Str
    }

    open spec fn spec_of(v: JsonValue, x: String) -> bool {
        v matches JsonValue::Str(s) && x == s
    }

    fn extract(v: &JsonValue) -> (r: Option<String>) {
        match v {
            JsonValue::Str(s) => Some(s.clone()),
            _ => None,
        }
    }
}

} // verus!
