//! The request builder: an endpoint path, an ordered list of key/value
//! query parameters and a response format are assembled, together with the
//! caller's API key, into one request-target string.

use vstd::prelude::*;

use crate::errors::{Error, ErrorKind};
use crate::text::push_char;
use vstd::string::StringExecFns;

verus! {

/// Response format of a request.
#[derive(Debug)]
pub enum Format {
    /// JSON.
    Json,
    /// XML.
    Xml,
}

impl Format {
    /// The query fragment selecting this format.
    pub open spec fn spec_fragment(&self) -> Seq<char> {
        match *self {
            Format::Json => "file_type=json"@,
            Format::Xml => "file_type=xml"@,
        }
    }

    /// Renders the query fragment selecting this format.
    pub fn query_fragment(&self) -> (r: String)
        ensures
            r@ == self.spec_fragment(),
    {
        match self {
            Format::Json => "file_type=json".to_owned(),
            Format::Xml => "file_type=xml".to_owned(),
        }
    }
}

/// The views of a list of strings.
pub open spec fn views_of(kvs: Seq<String>) -> Seq<Seq<char>> {
    kvs.map_values(|s: String| s@)
}

/// One `key=value` fragment.
pub open spec fn spec_pair(k: Seq<char>, v: Seq<char>) -> Seq<char> {
    k + seq!['='] + v
}

/// The given fragments joined by `sep`, in order, with no separator at
/// either end.
pub open spec fn spec_join(kvs: Seq<Seq<char>>, sep: char) -> Seq<char>
    decreases kvs.len(),
{
    if kvs.len() == 0 {
        Seq::empty()
    } else if kvs.len() == 1 {
        kvs[0]
    } else {
        spec_join(kvs.drop_last(), sep) + seq![sep] + kvs.last()
    }
}

/// The fixed origin every request is sent to.
pub open spec fn spec_base_url() -> Seq<char> {
    "https://api.stlouisfed.org/"@
}

/// The full request-target string: base, path, the caller's parameters in
/// order, the API key, and the format, in that fixed shape.
pub open spec fn spec_request_target(
    path: Seq<char>,
    kvs: Seq<Seq<char>>,
    key: Seq<char>,
    fmt: Seq<char>,
) -> Seq<char> {
    spec_base_url() + "fred/"@ + path + seq!['?'] + spec_join(kvs, '&') + "&api_key="@ + key
        + seq!['&'] + fmt
}

/// Joining one more fragment appends it after one separator (or is the
/// fragment itself when the list was empty): serialisation keeps the input
/// order exactly and never drops a fragment, duplicate or not.
pub proof fn lemma_join_push(kvs: Seq<Seq<char>>, x: Seq<char>, sep: char)
    ensures
        kvs.len() == 0 ==> spec_join(kvs.push(x), sep) == x,
        kvs.len() > 0 ==> spec_join(kvs.push(x), sep) == spec_join(kvs, sep) + seq![sep] + x,
{
    let pushed = kvs.push(x);
    assert(pushed.last() == x);
    if kvs.len() == 0 {
        assert(spec_join(pushed, sep) == pushed[0]);
        assert(pushed[0] == x);
    } else {
        assert(pushed.drop_last() =~= kvs);
    }
}

/// The built request target starts with the base URL followed by the
/// endpoint path, and ends with the format fragment, whatever the
/// parameters are.
pub proof fn lemma_request_target_frame(
    path: Seq<char>,
    kvs: Seq<Seq<char>>,
    key: Seq<char>,
    fmt: Seq<char>,
)
    ensures
        ({
            let t = spec_request_target(path, kvs, key, fmt);
            let head = spec_base_url() + "fred/"@ + path;
            &&& t.len() >= head.len() + fmt.len()
            &&& t.take(head.len() as int) == head
            &&& t.skip(t.len() - fmt.len()) == fmt
        }),
{
    let t = spec_request_target(path, kvs, key, fmt);
    let head = spec_base_url() + "fred/"@ + path;
    let tail = seq!['?'] + spec_join(kvs, '&') + "&api_key="@ + key + seq!['&'] + fmt;
    assert(t =~= head + tail);
    assert(t.take(head.len() as int) =~= head);
    assert(t.skip(t.len() - fmt.len()) =~= fmt);
}

/// A request under construction: the endpoint path, the rendered
/// `key=value` parameters in the order they were supplied, and the
/// response format.
#[derive(Debug)]
pub struct FredRequest {
    pub url: String,
    pub keyvals: Vec<String>,
    pub format: Format,
}

/// Types that render themselves into an HTTP request-target string.
pub trait IntoRequest {
    /// The request-target string, given the API key resolved by the
    /// caller; the key is the only thing that can be missing.
    fn into_request(&self, api_key: Option<&str>) -> Result<String, Error>;

    /// The origin requests are sent to.
    fn base_url(&self) -> String;
}

impl FredRequest {
    /// Builds a request for `url` with the given parameters, rendered in
    /// order as `key=value`; the format is fixed to JSON.
    pub fn new(url: &str, keyvals: Vec<(&'static str, String)>) -> (r: FredRequest)
        ensures
            r.url@ == url@,
            r.format is Json,
            r.keyvals@.len() == keyvals@.len(),
            forall|i: int|
                0 <= i < keyvals@.len() ==> #[trigger] r.keyvals@[i]@ == spec_pair(
                    keyvals@[i].0@,
                    keyvals@[i].1@,
                ),
    {
        let mut kvs: Vec<String> = Vec::new();
        let mut i: usize = 0;
        while i < keyvals.len()
            invariant
                i <= keyvals.len(),
                kvs@.len() == i,
                forall|j: int|
                    0 <= j < i ==> #[trigger] kvs@[j]@ == spec_pair(
                        keyvals@[j].0@,
                        keyvals@[j].1@,
                    ),
            decreases keyvals.len() - i,
        {
            let pair = &keyvals[i];
            let mut s: String = pair.0.to_owned();
            push_char(&mut s, '=');
            let s = s.concat(pair.1.as_str());
            proof {
                assert(s@ =~= spec_pair(keyvals@[i as int].0@, keyvals@[i as int].1@));
            }
            kvs.push(s);
            i = i + 1;
        }
        FredRequest { url: url.to_owned(), keyvals: kvs, format: Format::Json }
    }

    /// Joins the rendered parameters with `sep`, in order, with no
    /// separator at either end.
    pub fn concat_keyvals(&self, sep: char) -> (r: String)
        ensures
            r@ == spec_join(views_of(self.keyvals@), sep),
    {
        let ghost all = views_of(self.keyvals@);
        let mut s = String::new();
        let mut i: usize = 0;
        proof {
            assert(all.take(0) =~= Seq::<Seq<char>>::empty());
        }
        while i < self.keyvals.len()
            invariant
                i <= self.keyvals.len(),
                all == views_of(self.keyvals@),
                all.len() == self.keyvals@.len(),
                forall|j: int| 0 <= j < all.len() ==> all[j] == #[trigger] self.keyvals@[j]@,
                s@ == spec_join(all.take(i as int), sep),
            decreases self.keyvals.len() - i,
        {
            if i > 0 {
                push_char(&mut s, sep);
            }
            s.append(self.keyvals[i].as_str());
            proof {
                lemma_join_push(all.take(i as int), all[i as int], sep);
                assert(all.take(i as int).push(all[i as int]) =~= all.take(i + 1));
                assert(s@ =~= spec_join(all.take(i + 1), sep));
            }
            i = i + 1;
        }
        proof {
            assert(all.take(all.len() as int) =~= all);
        }
        s
    }
}

impl IntoRequest for FredRequest {
    /// Renders the request-target string; fails with a configuration
    /// error exactly when no API key was supplied.
    fn into_request(&self, api_key: Option<&str>) -> (r: Result<String, Error>)
        ensures
            match r {
                Ok(u) => api_key matches Some(k) && u@ == spec_request_target(
                    self.url@,
                    views_of(self.keyvals@),
                    k@,
                    self.format.spec_fragment(),
                ),
                Err(e) => api_key is None && e.spec_kind() == ErrorKind::Configuration,
            },
    {
        let key = match api_key {
            Some(k) => k,
            None => {
                return Err(Error::configuration());
            },
        };
        let mut s = self.base_url();
        s.append("fred/");
        s.append(self.url.as_str());
        push_char(&mut s, '?');
        let s = s.concat(self.concat_keyvals('&').as_str()).concat("&api_key=").concat(key);
        let mut s = s;
        push_char(&mut s, '&');
        let frag = self.format.query_fragment();
        let s = s.concat(frag.as_str());
        proof {
            assert(s@ =~= spec_request_target(
                self.url@,
                views_of(self.keyvals@),
                key@,
                self.format.spec_fragment(),
            ));
        }
        Ok(s)
    }

    /// The fixed origin every request is sent to.
    fn base_url(&self) -> (r: String)
        ensures
            r@ == spec_base_url(),
    {
        "https://api.stlouisfed.org/".to_owned()
    }
}


} // verus!
