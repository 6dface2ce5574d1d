//! Client library for the FRED economic-data REST API.
//!
//! The library holds the verified core of a FRED client: building the
//! request-target string for each endpoint, deciding what a response body
//! means (API-level error, undecodable body, or a typed response), and the
//! typed response model with its filtering utilities.  The network transport
//! itself is handed in by the caller as a closure — one blocking GET per
//! call — so every decision the library makes is stated in its contracts,
//! and the caller resolves the API key (for instance from the environment)
//! before calling in.

use vstd::prelude::*;

pub mod decode;
pub mod display;
pub mod error;
pub mod errors;
pub mod json;
pub mod request;
pub mod response;
pub mod schemas;
pub mod serialize;
pub mod text;

pub use errors::{Error, ErrorKind};
pub use request::{Format, FredRequest, IntoRequest};
pub use response::{
    Categories, Category, CategoryChildren, CategoryItem, CategoryRelated, CategoryRelatedTags,
    CategorySeries, CategoryTags, Observation, Observations, ObservationsIter, Release,
    ReleaseDate, ReleaseDateItem, ReleaseDates, ReleaseElement, ReleaseItem, ReleaseKeyVal,
    ReleaseRelatedTags, ReleaseSeries, ReleaseSources, ReleaseTables, ReleaseTags, Releases,
    ReleasesDates, Series, SeriesCategories, SeriesItem, SeriesItems, SeriesItemsIter,
    SeriesObservations, SeriesRelease, SeriesSearch, SeriesSearchRelatedTags, SeriesSearchTags,
    SeriesTags, SeriesUpdates, SeriesVintageDates, SourceItem, SourceReleases, Sources, Tag,
    TagItem, Tags, TagsSeries,
};

use crate::request::{spec_pair, spec_request_target, views_of};
use crate::schemas::{decode_response, spec_response, JsonResponse};
use crate::text::{spec_decimal, usize_to_string};

verus! {

/// What one endpoint call yields once the transport has answered with
/// `t`: a transport failure is surfaced as a transport error with the
/// transport's message, and a body is decoded as the shape `T` asks.
pub open spec fn spec_outcome<T: JsonResponse>(
    t: Result<String, String>,
    r: Result<T, Error>,
) -> bool {
    match t {
        Ok(body) => spec_response::<T>(body@, r),
        Err(m) => r matches Err(e) && e.spec_kind() == ErrorKind::Transport(m),
    }
}

/// The contract of one full endpoint call: with no API key the call fails
/// with a configuration error before anything is sent (and that is the
/// only way a configuration error arises); with a key, the transport was
/// handed exactly the request target built from the fixed path, the
/// caller's parameters in order, the key and the JSON format, and the
/// result is what that transport answer decodes to.
pub open spec fn spec_call<T: JsonResponse, F: Fn(String) -> Result<String, String>>(
    path: Seq<char>,
    kvs: Seq<Seq<char>>,
    api_key: Option<&str>,
    get: F,
    r: Result<T, Error>,
) -> bool {
    &&& (api_key is None <==> (r matches Err(e) && e.spec_kind() is Configuration))
    &&& (api_key matches Some(k) ==> exists|u: String, t: Result<String, String>|
        {
            &&& u@ == spec_request_target(path, kvs, k@, "file_type=json"@)
            &&& #[trigger] call_ensures(get, (u,), t)
            &&& spec_outcome::<T>(t, r)
        })
}

/// Builds the request target, calls the transport once, and decodes the
/// answer into shape `T`.
fn run<T: JsonResponse, F: Fn(String) -> Result<String, String>>(
    req: FredRequest,
    api_key: Option<&str>,
    get: F,
) -> (r: Result<T, Error>)
    requires
        forall|u: String| #[trigger] call_requires(get, (u,)),
        req.format is Json,
    ensures
        spec_call::<T, F>(req.url@, views_of(req.keyvals@), api_key, get, r),
{
    let url = match req.into_request(api_key) {
        Ok(u) => u,
        Err(e) => {
            return Err(e);
        },
    };
    let ghost gu = url;
    let resp = get(url);
    let ghost gt = resp;
    match resp {
        Err(m) => {
            let r: Result<T, Error> = Err(Error::transport(m));
            proof {
                assert(call_ensures(get, (gu,), gt) && spec_outcome::<T>(gt, r));
            }
            r
        },
        Ok(body) => {
            let r = decode_response::<T>(body.as_str());
            proof {
                assert(call_ensures(get, (gu,), gt) && spec_outcome::<T>(gt, r));
            }
            r
        },
    }
}

/// Encapsulates all the different types of API request: one function per
/// endpoint, each taking the endpoint's parameters, the resolved API key,
/// and the transport to send the request through.
pub struct FredClient;

impl FredClient {
    /// Get a category.
    pub fn category<F: Fn(String) -> Result<String, String>>(
        category_id: usize,
        api_key: Option<&str>,
        get: F,
    ) -> (r: Result<Categories, Error>)
        requires
            forall|u: String| #[trigger] call_requires(get, (u,)),
        ensures
            spec_call::<Categories, F>(
                "category"@,
                seq![spec_pair("category_id"@, spec_decimal(category_id as nat))],
                api_key,
                get,
                r,
            ),
    {
        let req = FredRequest::new(
            "category",
            vec![("category_id", usize_to_string(category_id))],
        );
        proof {
            assert(views_of(req.keyvals@) =~= seq![
                spec_pair("category_id"@, spec_decimal(category_id as nat)),
            ]);
        }
        run::<Categories, F>(req, api_key, get)
    }

    /// Get the child categories for a specified parent category.
    pub fn category_children<F: Fn(String) -> Result<String, String>>(
        category_id: usize,
        api_key: Option<&str>,
        get: F,
    ) -> (r: Result<Categories, Error>)
        requires
            forall|u: String| #[trigger] call_requires(get, (u,)),
        ensures
            spec_call::<Categories, F>(
                "category/children"@,
                seq![spec_pair("category_id"@, spec_decimal(category_id as nat))],
                api_key,
                get,
                r,
            ),
    {
        let req = FredRequest::new("category/children", vec![("category_id", usize_to_string(category_id))]);
        proof {
            assert(views_of(req.keyvals@) =~= seq![
                spec_pair("category_id"@, spec_decimal(category_id as nat)),
            ]);
        }
        run::<Categories, F>(req, api_key, get)
    }

    /// Get the related categories for a category.
    pub fn category_related<F: Fn(String) -> Result<String, String>>(
        category_id: usize,
        api_key: Option<&str>,
        get: F,
    ) -> (r: Result<Categories, Error>)
        requires
            forall|u: String| #[trigger] call_requires(get, (u,)),
        ensures
            spec_call::<Categories, F>(
                "category/related"@,
                seq![spec_pair("category_id"@, spec_decimal(category_id as nat))],
                api_key,
                get,
                r,
            ),
    {
        let req = FredRequest::new("category/related", vec![("category_id", usize_to_string(category_id))]);
        proof {
            assert(views_of(req.keyvals@) =~= seq![
                spec_pair("category_id"@, spec_decimal(category_id as nat)),
            ]);
        }
        run::<Categories, F>(req, api_key, get)
    }

    /// Get the series in a category.
    pub fn category_series<F: Fn(String) -> Result<String, String>>(
        category_id: usize,
        api_key: Option<&str>,
        get: F,
    ) -> (r: Result<CategorySeries, Error>)
        requires
            forall|u: String| #[trigger] call_requires(get, (u,)),
        ensures
            spec_call::<CategorySeries, F>(
                "category/series"@,
                seq![spec_pair("category_id"@, spec_decimal(category_id as nat))],
                api_key,
                get,
                r,
            ),
    {
        let req = FredRequest::new("category/series", vec![("category_id", usize_to_string(category_id))]);
        proof {
            assert(views_of(req.keyvals@) =~= seq![
                spec_pair("category_id"@, spec_decimal(category_id as nat)),
            ]);
        }
        run::<CategorySeries, F>(req, api_key, get)
    }

    /// Get the tags for a category.
    pub fn category_tags<F: Fn(String) -> Result<String, String>>(
        category_id: usize,
        api_key: Option<&str>,
        get: F,
    ) -> (r: Result<CategoryTags, Error>)
        requires
            forall|u: String| #[trigger] call_requires(get, (u,)),
        ensures
            spec_call::<CategoryTags, F>(
                "category/tags"@,
                seq![spec_pair("category_id"@, spec_decimal(category_id as nat))],
                api_key,
                get,
                r,
            ),
    {
        let req = FredRequest::new("category/tags", vec![("category_id", usize_to_string(category_id))]);
        proof {
            assert(views_of(req.keyvals@) =~= seq![
                spec_pair("category_id"@, spec_decimal(category_id as nat)),
            ]);
        }
        run::<CategoryTags, F>(req, api_key, get)
    }

    /// Get a release of economic data.
    pub fn release<F: Fn(String) -> Result<String, String>>(
        release_id: usize,
        api_key: Option<&str>,
        get: F,
    ) -> (r: Result<Release, Error>)
        requires
            forall|u: String| #[trigger] call_requires(get, (u,)),
        ensures
            spec_call::<Release, F>(
                "release"@,
                seq![spec_pair("release_id"@, spec_decimal(release_id as nat))],
                api_key,
                get,
                r,
            ),
    {
        let req = FredRequest::new("release", vec![("release_id", usize_to_string(release_id))]);
        proof {
            assert(views_of(req.keyvals@) =~= seq![
                spec_pair("release_id"@, spec_decimal(release_id as nat)),
            ]);
        }
        run::<Release, F>(req, api_key, get)
    }

    /// Get release dates for a release of economic data.
    pub fn release_dates<F: Fn(String) -> Result<String, String>>(
        release_id: usize,
        api_key: Option<&str>,
        get: F,
    ) -> (r: Result<ReleaseDates, Error>)
        requires
            forall|u: String| #[trigger] call_requires(get, (u,)),
        ensures
            spec_call::<ReleaseDates, F>(
                "release/dates"@,
                seq![spec_pair("release_id"@, spec_decimal(release_id as nat))],
                api_key,
                get,
                r,
            ),
    {
        let req = FredRequest::new("release/dates", vec![("release_id", usize_to_string(release_id))]);
        proof {
            assert(views_of(req.keyvals@) =~= seq![
                spec_pair("release_id"@, spec_decimal(release_id as nat)),
            ]);
        }
        run::<ReleaseDates, F>(req, api_key, get)
    }

    /// Get the series on a release of economic data.
    pub fn release_series<F: Fn(String) -> Result<String, String>>(
        release_id: usize,
        api_key: Option<&str>,
        get: F,
    ) -> (r: Result<ReleaseSeries, Error>)
        requires
            forall|u: String| #[trigger] call_requires(get, (u,)),
        ensures
            spec_call::<ReleaseSeries, F>(
                "release/series"@,
                seq![spec_pair("release_id"@, spec_decimal(release_id as nat))],
                api_key,
                get,
                r,
            ),
    {
        let req = FredRequest::new("release/series", vec![("release_id", usize_to_string(release_id))]);
        proof {
            assert(views_of(req.keyvals@) =~= seq![
                spec_pair("release_id"@, spec_decimal(release_id as nat)),
            ]);
        }
        run::<ReleaseSeries, F>(req, api_key, get)
    }

    /// Get the sources for a release of economic data.
    pub fn release_sources<F: Fn(String) -> Result<String, String>>(
        release_id: usize,
        api_key: Option<&str>,
        get: F,
    ) -> (r: Result<ReleaseSources, Error>)
        requires
            forall|u: String| #[trigger] call_requires(get, (u,)),
        ensures
            spec_call::<ReleaseSources, F>(
                "release/sources"@,
                seq![spec_pair("release_id"@, spec_decimal(release_id as nat))],
                api_key,
                get,
                r,
            ),
    {
        let req = FredRequest::new("release/sources", vec![("release_id", usize_to_string(release_id))]);
        proof {
            assert(views_of(req.keyvals@) =~= seq![
                spec_pair("release_id"@, spec_decimal(release_id as nat)),
            ]);
        }
        run::<ReleaseSources, F>(req, api_key, get)
    }

    /// Get the tags for a release.
    pub fn release_tags<F: Fn(String) -> Result<String, String>>(
        release_id: usize,
        api_key: Option<&str>,
        get: F,
    ) -> (r: Result<ReleaseTags, Error>)
        requires
            forall|u: String| #[trigger] call_requires(get, (u,)),
        ensures
            spec_call::<ReleaseTags, F>(
                "release/tags"@,
                seq![spec_pair("release_id"@, spec_decimal(release_id as nat))],
                api_key,
                get,
                r,
            ),
    {
        let req = FredRequest::new("release/tags", vec![("release_id", usize_to_string(release_id))]);
        proof {
            assert(views_of(req.keyvals@) =~= seq![
                spec_pair("release_id"@, spec_decimal(release_id as nat)),
            ]);
        }
        run::<ReleaseTags, F>(req, api_key, get)
    }

    /// Get the release tables for a given release.
    pub fn release_tables<F: Fn(String) -> Result<String, String>>(
        release_id: usize,
        api_key: Option<&str>,
        get: F,
    ) -> (r: Result<ReleaseTables, Error>)
        requires
            forall|u: String| #[trigger] call_requires(get, (u,)),
        ensures
            spec_call::<ReleaseTables, F>(
                "release/tables"@,
                seq![spec_pair("release_id"@, spec_decimal(release_id as nat))],
                api_key,
                get,
                r,
            ),
    {
        let req = FredRequest::new("release/tables", vec![("release_id", usize_to_string(release_id))]);
        proof {
            assert(views_of(req.keyvals@) =~= seq![
                spec_pair("release_id"@, spec_decimal(release_id as nat)),
            ]);
        }
        run::<ReleaseTables, F>(req, api_key, get)
    }

    /// Get a source of economic data.
    pub fn source<F: Fn(String) -> Result<String, String>>(
        source_id: usize,
        api_key: Option<&str>,
        get: F,
    ) -> (r: Result<ReleaseSources, Error>)
        requires
            forall|u: String| #[trigger] call_requires(get, (u,)),
        ensures
            spec_call::<ReleaseSources, F>(
                "source"@,
                seq![spec_pair("source_id"@, spec_decimal(source_id as nat))],
                api_key,
                get,
                r,
            ),
    {
        let req = FredRequest::new("source", vec![("source_id", usize_to_string(source_id))]);
        proof {
            assert(views_of(req.keyvals@) =~= seq![
                spec_pair("source_id"@, spec_decimal(source_id as nat)),
            ]);
        }
        run::<ReleaseSources, F>(req, api_key, get)
    }

    /// Get the releases for a source.
    pub fn source_releases<F: Fn(String) -> Result<String, String>>(
        source_id: usize,
        api_key: Option<&str>,
        get: F,
    ) -> (r: Result<SourceReleases, Error>)
        requires
            forall|u: String| #[trigger] call_requires(get, (u,)),
        ensures
            spec_call::<SourceReleases, F>(
                "source/releases"@,
                seq![spec_pair("source_id"@, spec_decimal(source_id as nat))],
                api_key,
                get,
                r,
            ),
    {
        let req = FredRequest::new("source/releases", vec![("source_id", usize_to_string(source_id))]);
        proof {
            assert(views_of(req.keyvals@) =~= seq![
                spec_pair("source_id"@, spec_decimal(source_id as nat)),
            ]);
        }
        run::<SourceReleases, F>(req, api_key, get)
    }

    /// Get an economic data series.
    pub fn series<F: Fn(String) -> Result<String, String>>(
        series_id: &str,
        api_key: Option<&str>,
        get: F,
    ) -> (r: Result<Series, Error>)
        requires
            forall|u: String| #[trigger] call_requires(get, (u,)),
        ensures
            spec_call::<Series, F>(
                "series"@,
                seq![spec_pair("series_id"@, series_id@)],
                api_key,
                get,
                r,
            ),
    {
        let req = FredRequest::new("series", vec![("series_id", series_id.to_owned())]);
        proof {
            assert(views_of(req.keyvals@) =~= seq![spec_pair("series_id"@, series_id@)]);
        }
        run::<Series, F>(req, api_key, get)
    }

    /// Get the series request's body as the JSON string it decodes to.
    pub fn series_json<F: Fn(String) -> Result<String, String>>(
        series_id: &str,
        api_key: Option<&str>,
        get: F,
    ) -> (r: Result<String, Error>)
        requires
            forall|u: String| #[trigger] call_requires(get, (u,)),
        ensures
            spec_call::<String, F>(
                "series"@,
                seq![spec_pair("series_id"@, series_id@)],
                api_key,
                get,
                r,
            ),
    {
        let req = FredRequest::new("series", vec![("series_id", series_id.to_owned())]);
        proof {
            assert(views_of(req.keyvals@) =~= seq![spec_pair("series_id"@, series_id@)]);
        }
        run::<String, F>(req, api_key, get)
    }

    /// Get the categories for an economic data series.
    pub fn series_categories<F: Fn(String) -> Result<String, String>>(
        series_id: &str,
        api_key: Option<&str>,
        get: F,
    ) -> (r: Result<Categories, Error>)
        requires
            forall|u: String| #[trigger] call_requires(get, (u,)),
        ensures
            spec_call::<Categories, F>(
                "series/categories"@,
                seq![spec_pair("series_id"@, series_id@)],
                api_key,
                get,
                r,
            ),
    {
        let req = FredRequest::new("series/categories", vec![("series_id", series_id.to_owned())]);
        proof {
            assert(views_of(req.keyvals@) =~= seq![spec_pair("series_id"@, series_id@)]);
        }
        run::<Categories, F>(req, api_key, get)
    }

    /// Get the observations or data values for an economic data series.
    pub fn series_observations<F: Fn(String) -> Result<String, String>>(
        series_id: &str,
        api_key: Option<&str>,
        get: F,
    ) -> (r: Result<SeriesObservations, Error>)
        requires
            forall|u: String| #[trigger] call_requires(get, (u,)),
        ensures
            spec_call::<SeriesObservations, F>(
                "series/observations"@,
                seq![spec_pair("series_id"@, series_id@)],
                api_key,
                get,
                r,
            ),
    {
        let req = FredRequest::new("series/observations", vec![("series_id", series_id.to_owned())]);
        proof {
            assert(views_of(req.keyvals@) =~= seq![spec_pair("series_id"@, series_id@)]);
        }
        run::<SeriesObservations, F>(req, api_key, get)
    }

    /// Get the series observations request's body as the JSON string it decodes to.
    pub fn series_observations_json<F: Fn(String) -> Result<String, String>>(
        series_id: &str,
        api_key: Option<&str>,
        get: F,
    ) -> (r: Result<String, Error>)
        requires
            forall|u: String| #[trigger] call_requires(get, (u,)),
        ensures
            spec_call::<String, F>(
                "series/observations"@,
                seq![spec_pair("series_id"@, series_id@)],
                api_key,
                get,
                r,
            ),
    {
        let req = FredRequest::new("series/observations", vec![("series_id", series_id.to_owned())]);
        proof {
            assert(views_of(req.keyvals@) =~= seq![spec_pair("series_id"@, series_id@)]);
        }
        run::<String, F>(req, api_key, get)
    }

    /// Get the release for an economic data series.
    pub fn series_release<F: Fn(String) -> Result<String, String>>(
        series_id: &str,
        api_key: Option<&str>,
        get: F,
    ) -> (r: Result<SeriesRelease, Error>)
        requires
            forall|u: String| #[trigger] call_requires(get, (u,)),
        ensures
            spec_call::<SeriesRelease, F>(
                "series/release"@,
                seq![spec_pair("series_id"@, series_id@)],
                api_key,
                get,
                r,
            ),
    {
        let req = FredRequest::new("series/release", vec![("series_id", series_id.to_owned())]);
        proof {
            assert(views_of(req.keyvals@) =~= seq![spec_pair("series_id"@, series_id@)]);
        }
        run::<SeriesRelease, F>(req, api_key, get)
    }

    /// Get economic data series that match keywords.
    pub fn series_search<F: Fn(String) -> Result<String, String>>(
        search_text: &str,
        api_key: Option<&str>,
        get: F,
    ) -> (r: Result<SeriesSearch, Error>)
        requires
            forall|u: String| #[trigger] call_requires(get, (u,)),
        ensures
            spec_call::<SeriesSearch, F>(
                "series/search"@,
                seq![spec_pair("search_text"@, search_text@)],
                api_key,
                get,
                r,
            ),
    {
        let req = FredRequest::new("series/search", vec![("search_text", search_text.to_owned())]);
        proof {
            assert(views_of(req.keyvals@) =~= seq![spec_pair("search_text"@, search_text@)]);
        }
        run::<SeriesSearch, F>(req, api_key, get)
    }

    /// Get the tags for a series search.
    pub fn series_search_tags<F: Fn(String) -> Result<String, String>>(
        series_search_text: &str,
        api_key: Option<&str>,
        get: F,
    ) -> (r: Result<SeriesSearchTags, Error>)
        requires
            forall|u: String| #[trigger] call_requires(get, (u,)),
        ensures
            spec_call::<SeriesSearchTags, F>(
                "series/search/tags"@,
                seq![spec_pair("series_search_text"@, series_search_text@)],
                api_key,
                get,
                r,
            ),
    {
        let req = FredRequest::new("series/search/tags", vec![("series_search_text", series_search_text.to_owned())]);
        proof {
            assert(views_of(req.keyvals@) =~= seq![spec_pair("series_search_text"@, series_search_text@)]);
        }
        run::<SeriesSearchTags, F>(req, api_key, get)
    }

    /// Get the tags for an economic data series.
    pub fn series_tags<F: Fn(String) -> Result<String, String>>(
        series_id: &str,
        api_key: Option<&str>,
        get: F,
    ) -> (r: Result<SeriesTags, Error>)
        requires
            forall|u: String| #[trigger] call_requires(get, (u,)),
        ensures
            spec_call::<SeriesTags, F>(
                "series/tags"@,
                seq![spec_pair("series_id"@, series_id@)],
                api_key,
                get,
                r,
            ),
    {
        let req = FredRequest::new("series/tags", vec![("series_id", series_id.to_owned())]);
        proof {
            assert(views_of(req.keyvals@) =~= seq![spec_pair("series_id"@, series_id@)]);
        }
        run::<SeriesTags, F>(req, api_key, get)
    }

    /// Get the dates in history when a series' data values were revised or new data values were released.
    pub fn series_vintagedates<F: Fn(String) -> Result<String, String>>(
        series_id: &str,
        api_key: Option<&str>,
        get: F,
    ) -> (r: Result<SeriesVintageDates, Error>)
        requires
            forall|u: String| #[trigger] call_requires(get, (u,)),
        ensures
            spec_call::<SeriesVintageDates, F>(
                "series/vintagedates"@,
                seq![spec_pair("series_id"@, series_id@)],
                api_key,
                get,
                r,
            ),
    {
        let req = FredRequest::new("series/vintagedates", vec![("series_id", series_id.to_owned())]);
        proof {
            assert(views_of(req.keyvals@) =~= seq![spec_pair("series_id"@, series_id@)]);
        }
        run::<SeriesVintageDates, F>(req, api_key, get)
    }

    /// Get the related tags for one or more tags.
    pub fn related_tags<F: Fn(String) -> Result<String, String>>(
        tag_names: &str,
        api_key: Option<&str>,
        get: F,
    ) -> (r: Result<Tags, Error>)
        requires
            forall|u: String| #[trigger] call_requires(get, (u,)),
        ensures
            spec_call::<Tags, F>(
                "related_tags"@,
                seq![spec_pair("tag_names"@, tag_names@)],
                api_key,
                get,
                r,
            ),
    {
        let req = FredRequest::new("related_tags", vec![("tag_names", tag_names.to_owned())]);
        proof {
            assert(views_of(req.keyvals@) =~= seq![spec_pair("tag_names"@, tag_names@)]);
        }
        run::<Tags, F>(req, api_key, get)
    }

    /// Get the series matching tags.
    pub fn tags_series<F: Fn(String) -> Result<String, String>>(
        tag_names: &str,
        api_key: Option<&str>,
        get: F,
    ) -> (r: Result<TagsSeries, Error>)
        requires
            forall|u: String| #[trigger] call_requires(get, (u,)),
        ensures
            spec_call::<TagsSeries, F>(
                "tags/series"@,
                seq![spec_pair("tag_names"@, tag_names@)],
                api_key,
                get,
                r,
            ),
    {
        let req = FredRequest::new("tags/series", vec![("tag_names", tag_names.to_owned())]);
        proof {
            assert(views_of(req.keyvals@) =~= seq![spec_pair("tag_names"@, tag_names@)]);
        }
        run::<TagsSeries, F>(req, api_key, get)
    }

    /// Get the related tags for a category.
    pub fn category_related_tags<F: Fn(String) -> Result<String, String>>(
        category_id: &str,
        tag_names: &str,
        api_key: Option<&str>,
        get: F,
    ) -> (r: Result<CategoryRelatedTags, Error>)
        requires
            forall|u: String| #[trigger] call_requires(get, (u,)),
        ensures
            spec_call::<CategoryRelatedTags, F>(
                "category/related_tags"@,
                seq![spec_pair("category_id"@, category_id@), spec_pair("tag_names"@, tag_names@)],
                api_key,
                get,
                r,
            ),
    {
        let req = FredRequest::new(
            "category/related_tags",
            vec![("category_id", category_id.to_owned()), ("tag_names", tag_names.to_owned())],
        );
        proof {
            assert(views_of(req.keyvals@) =~= seq![
                spec_pair("category_id"@, category_id@),
                spec_pair("tag_names"@, tag_names@),
            ]);
        }
        run::<CategoryRelatedTags, F>(req, api_key, get)
    }

    /// Get the related tags for a release.
    pub fn release_related_tags<F: Fn(String) -> Result<String, String>>(
        release_id: &str,
        tag_names: &str,
        api_key: Option<&str>,
        get: F,
    ) -> (r: Result<ReleaseRelatedTags, Error>)
        requires
            forall|u: String| #[trigger] call_requires(get, (u,)),
        ensures
            spec_call::<ReleaseRelatedTags, F>(
                "release/related_tags"@,
                seq![spec_pair("release_id"@, release_id@), spec_pair("tag_names"@, tag_names@)],
                api_key,
                get,
                r,
            ),
    {
        let req = FredRequest::new(
            "release/related_tags",
            vec![("release_id", release_id.to_owned()), ("tag_names", tag_names.to_owned())],
        );
        proof {
            assert(views_of(req.keyvals@) =~= seq![
                spec_pair("release_id"@, release_id@),
                spec_pair("tag_names"@, tag_names@),
            ]);
        }
        run::<ReleaseRelatedTags, F>(req, api_key, get)
    }

    /// Get the related tags for a series search.
    pub fn series_search_related_tags<F: Fn(String) -> Result<String, String>>(
        series_search_text: &str,
        tag_names: &str,
        api_key: Option<&str>,
        get: F,
    ) -> (r: Result<SeriesSearchRelatedTags, Error>)
        requires
            forall|u: String| #[trigger] call_requires(get, (u,)),
        ensures
            spec_call::<SeriesSearchRelatedTags, F>(
                "series/search/related_tags"@,
                seq![spec_pair("series_search_text"@, series_search_text@), spec_pair("tag_names"@, tag_names@)],
                api_key,
                get,
                r,
            ),
    {
        let req = FredRequest::new(
            "series/search/related_tags",
            vec![("series_search_text", series_search_text.to_owned()), ("tag_names", tag_names.to_owned())],
        );
        proof {
            assert(views_of(req.keyvals@) =~= seq![
                spec_pair("series_search_text"@, series_search_text@),
                spec_pair("tag_names"@, tag_names@),
            ]);
        }
        run::<SeriesSearchRelatedTags, F>(req, api_key, get)
    }

    /// Get all releases of economic data.
    pub fn releases<F: Fn(String) -> Result<String, String>>(
        api_key: Option<&str>,
        get: F,
    ) -> (r: Result<Releases, Error>)
        requires
            forall|u: String| #[trigger] call_requires(get, (u,)),
        ensures
            spec_call::<Releases, F>("releases"@, Seq::empty(), api_key, get, r),
    {
        let kvs: Vec<(&'static str, String)> = Vec::new();
        let req = FredRequest::new("releases", kvs);
        proof {
            assert(views_of(req.keyvals@) =~= Seq::<Seq<char>>::empty());
        }
        run::<Releases, F>(req, api_key, get)
    }

    /// Get release dates for all releases of economic data.
    pub fn releases_dates<F: Fn(String) -> Result<String, String>>(
        api_key: Option<&str>,
        get: F,
    ) -> (r: Result<ReleaseDates, Error>)
        requires
            forall|u: String| #[trigger] call_requires(get, (u,)),
        ensures
            spec_call::<ReleaseDates, F>("releases/dates"@, Seq::empty(), api_key, get, r),
    {
        let kvs: Vec<(&'static str, String)> = Vec::new();
        let req = FredRequest::new("releases/dates", kvs);
        proof {
            assert(views_of(req.keyvals@) =~= Seq::<Seq<char>>::empty());
        }
        run::<ReleaseDates, F>(req, api_key, get)
    }

    /// Get economic data series sorted by when observations were updated on the FRED server.
    pub fn series_updates<F: Fn(String) -> Result<String, String>>(
        api_key: Option<&str>,
        get: F,
    ) -> (r: Result<SeriesUpdates, Error>)
        requires
            forall|u: String| #[trigger] call_requires(get, (u,)),
        ensures
            spec_call::<SeriesUpdates, F>("series/updates"@, Seq::empty(), api_key, get, r),
    {
        let kvs: Vec<(&'static str, String)> = Vec::new();
        let req = FredRequest::new("series/updates", kvs);
        proof {
            assert(views_of(req.keyvals@) =~= Seq::<Seq<char>>::empty());
        }
        run::<SeriesUpdates, F>(req, api_key, get)
    }

    /// Get all sources of economic data.
    pub fn sources<F: Fn(String) -> Result<String, String>>(
        api_key: Option<&str>,
        get: F,
    ) -> (r: Result<Sources, Error>)
        requires
            forall|u: String| #[trigger] call_requires(get, (u,)),
        ensures
            spec_call::<Sources, F>("sources"@, Seq::empty(), api_key, get, r),
    {
        let kvs: Vec<(&'static str, String)> = Vec::new();
        let req = FredRequest::new("sources", kvs);
        proof {
            assert(views_of(req.keyvals@) =~= Seq::<Seq<char>>::empty());
        }
        run::<Sources, F>(req, api_key, get)
    }

    /// Get all tags, search for tags, or get tags by name.
    pub fn tags<F: Fn(String) -> Result<String, String>>(
        api_key: Option<&str>,
        get: F,
    ) -> (r: Result<Tags, Error>)
        requires
            forall|u: String| #[trigger] call_requires(get, (u,)),
        ensures
            spec_call::<Tags, F>("tags"@, Seq::empty(), api_key, get, r),
    {
        let kvs: Vec<(&'static str, String)> = Vec::new();
        let req = FredRequest::new("tags", kvs);
        proof {
            assert(views_of(req.keyvals@) =~= Seq::<Seq<char>>::empty());
        }
        run::<Tags, F>(req, api_key, get)
    }

}

/// Applies one request function to a list of arguments, one at a time and
/// in order, handing out one result per argument.
#[verifier::reject_recursive_types(U)]
pub struct FredClientIter<A, F, U> where F: Fn(A) -> Result<U, Error> {
    pub args: Vec<A>,
    pub f: F,
    pub count: usize,
}

impl<A: Copy, F, U> FredClientIter<A, F, U> where F: Fn(A) -> Result<U, Error> {
    /// Builds an iterator over `args` that will call `f` on each.
    pub fn new(args: Vec<A>, f: F) -> (r: FredClientIter<A, F, U>)
        ensures
            r.args == args,
            r.f == f,
            r.count == 0,
    {
        FredClientIter { args, f, count: 0 }
    }

    /// Makes the next request, if any arguments are left.
    pub fn next(&mut self) -> (r: Option<Result<U, Error>>)
        requires
            old(self).count < old(self).args@.len() ==> call_requires(
                old(self).f,
                (old(self).args@[old(self).count as int],),
            ),
        ensures
            final(self).args == old(self).args && final(self).f == old(self).f,
            old(self).count >= old(self).args@.len() ==> (r is None && final(self).count == old(
                self,
            ).count),
            old(self).count < old(self).args@.len() ==> ({
                &&& final(self).count == old(self).count + 1
                &&& r matches Some(res) && call_ensures(
                    old(self).f,
                    (old(self).args@[old(self).count as int],),
                    res,
                )
            }),
    {
        if self.count < self.args.len() {
            let a = self.args[self.count];
            self.count = self.count + 1;
            Some((self.f)(a))
        } else {
            None
        }
    }
}

} // verus!
