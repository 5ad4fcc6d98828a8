//! What all providers share: the errors a request can end in, and text
//! utilities for display.

use vstd::prelude::*;
use vstd::string::*;

verus! {

/// How a request to a provider can fail.
#[derive(Debug)]
pub enum ApiError {
    /// The request did not get through, or no answer came back. Holds the
    /// transport's description of the failure.
    Communication { reason: String },
    /// The address of the request could not be put together. Holds the
    /// reason why the text is no absolute URL.
    Url { reason: String },
    /// The answer has neither the shape of a success nor that of a failure.
    /// Holds the reason why it does not decode as a success.
    Parsing { reason: String },
    /// The provider understood the request and rejected it.
    BadRequest { reason: String },
    /// The provider holds nothing for what was asked.
    NotFound,
}

/// The shape in which the weather providers report a rejected request.
#[derive(Debug, Clone)]
pub struct ClimateApiError {
    pub reason: String,
}

impl From<ClimateApiError> for ApiError {
    /// A rejection by a weather provider, with the reason it gave.
    fn from(error: ClimateApiError) -> (r: ApiError) {
        ApiError::BadRequest { reason: error.reason }
    }
}

impl vstd::std_specs::convert::FromSpecImpl<ClimateApiError> for ApiError {
    open spec fn obeys_from_spec() -> bool {
        true
    }

    open spec fn from_spec(error: ClimateApiError) -> ApiError {
        ApiError::BadRequest { reason: error.reason }
    }
}

/// A position on the globe to a thousandth of a degree, which is about a
/// hundred metres. Positions that are closer than that are one place as
/// far as the weather is concerned: rounded like this they are equal and
/// hash alike, so that what was fetched for one is found again for the
/// other.
#[derive(Debug, Clone, Copy, PartialEq, Eq, Hash, Structural)]
pub struct Coordinates {
    /// The latitude in thousandths of a degree, north being positive.
    pub latitude: i32,
    /// The longitude in thousandths of a degree, east being positive.
    pub longitude: i32,
}

impl Coordinates {
    /// The position with the given latitude and longitude, both in
    /// thousandths of a degree.
    pub fn new(latitude: i32, longitude: i32) -> (r: Coordinates)
        ensures
            r == (Coordinates { latitude, longitude }),
    {
        Coordinates { latitude, longitude }
    }
}

/// A temperature at one instant. The kind of number that holds the
/// temperature is the caller's choice.
#[derive(Debug, Clone)]
pub struct SingleTemperature<V> {
    /// The instant, in seconds since the epoch.
    pub epoch: i64,
    /// The temperature two metres above ground, in degrees Celsius.
    pub temperature_2m: V,
}

/// The first `max_chars` characters of `s`, or all of `s` if it is shorter.
pub open spec fn prefix(s: Seq<char>, max_chars: nat) -> Seq<char> {
    if s.len() <= max_chars {
        s
    } else {
        s.take(max_chars as int)
    }
}

/// `s` shortened to at most `max_chars` characters, the last of them being
/// `ellipsis` where anything was cut off.
pub open spec fn with_ellipsis(s: Seq<char>, max_chars: nat, ellipsis: Seq<char>) -> Seq<char>
    recommends
        ellipsis.len() <= max_chars || s.len() <= max_chars,
{
    if s.len() <= max_chars {
        s
    } else {
        s.take(max_chars - ellipsis.len()) + ellipsis
    }
}

/// A text that is longer than the width comes out exactly as long as the
/// width and ends with the mark; a text that fits comes out as it is.
pub proof fn law_ellipsis_width(s: Seq<char>, max_chars: nat, ellipsis: Seq<char>)
    requires
        ellipsis.len() <= max_chars || s.len() <= max_chars,
    ensures
        s.len() > max_chars ==> with_ellipsis(s, max_chars, ellipsis).len() == max_chars,
        s.len() > max_chars ==> with_ellipsis(s, max_chars, ellipsis).skip(
            max_chars - ellipsis.len(),
        ) == ellipsis,
        s.len() > max_chars ==> with_ellipsis(s, max_chars, ellipsis).take(
            max_chars - ellipsis.len(),
        ) == s.take(max_chars - ellipsis.len()),
        s.len() <= max_chars ==> with_ellipsis(s, max_chars, ellipsis) == s,
{
    if s.len() > max_chars {
        let kept = s.take(max_chars - ellipsis.len());
        assert((kept + ellipsis).skip(max_chars - ellipsis.len()) =~= ellipsis);
        assert((kept + ellipsis).take(max_chars - ellipsis.len()) =~= kept);
    }
}

/// A text that fits into the width comes out as it is, whatever the mark.
pub proof fn law_fitting_text_kept(s: Seq<char>, max_chars: nat, ellipsis: Seq<char>)
    ensures
        s.len() <= max_chars ==> with_ellipsis(s, max_chars, ellipsis) == s,
{
}

/// A text that is cut to a number of characters is the beginning of the
/// text and no longer than that number; a text that fits stays as it is.
pub proof fn law_prefix_width(s: Seq<char>, max_chars: nat)
    ensures
        prefix(s, max_chars).len() <= max_chars,
        prefix(s, max_chars).len() <= s.len(),
        prefix(s, max_chars) == s.take(prefix(s, max_chars).len() as int),
        s.len() <= max_chars ==> prefix(s, max_chars) == s,
{
    if s.len() <= max_chars {
        assert(s.take(s.len() as int) =~= s);
    } else {
        assert(s.take(max_chars as int).take(max_chars as int) =~= s.take(max_chars as int));
    }
}

/// Cuts `s` down to its first `max_chars` characters. Characters are Unicode
/// scalar values, so the cut never falls inside an encoded character.
pub fn truncate_utf8(s: &mut String, max_chars: usize)
    ensures
        final(s)@ == prefix(old(s)@, max_chars as nat),
{
    let len = s.as_str().unicode_len();
    if max_chars < len {
        let kept = String::from_str(s.as_str().substring_char(0, max_chars));
        *s = kept;
    }
}

/// Cuts `s` down to `max_chars` characters if it is longer, replacing the
/// tail by `ellipsis` so that the result is exactly `max_chars` long.
/// A string that already fits is left as it is, whatever the mark; a string
/// can only be cut where the mark itself fits into `max_chars`.
pub fn truncate_ellipsis(s: &mut String, max_chars: usize, ellipsis: &str)
    requires
        ellipsis@.len() <= max_chars || old(s)@.len() <= max_chars,
    ensures
        final(s)@ == with_ellipsis(old(s)@, max_chars as nat, ellipsis@),
{
    let len = s.as_str().unicode_len();
    if max_chars < len {
        let cut_off = max_chars - ellipsis.unicode_len();
        let mut kept = String::from_str(s.as_str().substring_char(0, cut_off));
        kept.append(ellipsis);
        *s = kept;
    }
}

/// The views of a list of parameters.
pub open spec fn pairs(params: Seq<(String, String)>) -> Seq<(Seq<char>, Seq<char>)> {
    Seq::new(params.len(), |i: int| (params[i].0@, params[i].1@))
}

/// What `url::Url::parse_with_params` makes of a text and a list of
/// parameters: the URL that the text denotes, with the parameters added to
/// its query in their order, as text; or, where the text denotes no
/// absolute URL, the parser's description of what is wrong with it.
pub uninterp spec fn url_with_params(
    base: Seq<char>,
    params: Seq<(Seq<char>, Seq<char>)>,
) -> Result<Seq<char>, Seq<char>>;

/// Whether `r` stands for the outcome `outcome` of parsing a URL, text for
/// text.
pub open spec fn is_url_outcome(
    r: Result<String, String>,
    outcome: Result<Seq<char>, Seq<char>>,
) -> bool {
    match r {
        Ok(url) => outcome == Ok::<Seq<char>, Seq<char>>(url@),
        Err(reason) => outcome == Err::<Seq<char>, Seq<char>>(reason@),
    }
}

/// Parses `base` as an absolute URL and adds `params` to its query:
/// `url::Url::parse_with_params`. The URL comes back as text, a parse
/// error as its message. The contract only names the result.
#[verifier::external_body]
fn parse_with_params(base: &str, params: &Vec<(String, String)>) -> (r: Result<String, String>)
    ensures
        is_url_outcome(r, url_with_params(base@, pairs(params@))),
{
    match url::Url::parse_with_params(base, params.iter()) {
        Ok(url) => Ok(String::from(url)),
        Err(error) => Err(error.to_string()),
    }
}

/// What [`request_url`] makes of a parsed URL.
pub open spec fn is_request_url(
    r: Result<String, ApiError>,
    outcome: Result<Seq<char>, Seq<char>>,
) -> bool {
    match outcome {
        Ok(url) => r matches Ok(text) && text@ == url,
        Err(reason) => r matches Err(ApiError::Url { reason: text }) && text@ == reason,
    }
}

/// Turns the outcome of parsing a URL into the outcome of preparing a
/// request: the URL itself, or the parser's complaint as a
/// [`ApiError::Url`].
pub fn url_outcome(parsed: Result<String, String>) -> (r: Result<String, ApiError>)
    ensures
        match parsed {
            Ok(url) => r == Ok::<String, ApiError>(url),
            Err(reason) => r == Err::<String, ApiError>(ApiError::Url { reason }),
        },
{
    match parsed {
        Ok(url) => Ok(url),
        Err(reason) => Err(ApiError::Url { reason }),
    }
}

/// The address of a request: `base` with `params` added to its query, in
/// their order and after whatever `base` already has. Fails with
/// [`ApiError::Url`] where `base` is no absolute URL.
pub fn request_url(base: &str, params: &Vec<(String, String)>) -> (r: Result<String, ApiError>)
    ensures
        is_request_url(r, url_with_params(base@, pairs(params@))),
{
    url_outcome(parse_with_params(base, params))
}

/// What a provider's answer amounts to. `success` is the answer decoded
/// as what was asked for, `failure` the same answer decoded as a
/// rejection; either holds the decoder's complaint where the answer has
/// not that shape. An answer that decodes as a success is the result,
/// whatever else it may decode as. One that only decodes as a rejection
/// is that rejection. One that decodes as neither is a
/// [`ApiError::Parsing`], with the complaint about the success.
pub fn interpret_response<TOutput, TSuccess, TFailure>(
    success: Result<TSuccess, String>,
    failure: Result<TFailure, String>,
) -> (r: Result<TOutput, ApiError>) where TSuccess: Into<TOutput>, TFailure: Into<ApiError>
    ensures
        match (success, failure) {
            (Ok(answer), _) => r matches Ok(output) && call_ensures(
                TSuccess::into,
                (answer,),
                output,
            ),
            (Err(_), Ok(rejection)) => r matches Err(error) && call_ensures(
                TFailure::into,
                (rejection,),
                error,
            ),
            (Err(complaint), Err(_)) => r == Err::<TOutput, ApiError>(
                ApiError::Parsing { reason: complaint },
            ),
        },
{
    match success {
        Ok(answer) => Ok(answer.into()),
        Err(complaint) => match failure {
            Ok(rejection) => Err(rejection.into()),
            Err(_) => Err(ApiError::Parsing { reason: complaint }),
        },
    }
}

/// A rejection by a weather provider reaches the caller as a bad request
/// with the provider's reason, letter for letter.
pub proof fn law_rejection_keeps_reason(rejection: ClimateApiError)
    ensures
        <ApiError as vstd::std_specs::convert::FromSpec<ClimateApiError>>::from_spec(rejection)
            == (ApiError::BadRequest { reason: rejection.reason }),
{
}

} // verus!
