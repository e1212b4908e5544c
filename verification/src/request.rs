use crate::assembler::{Assembly, VideoAssembler};
use crate::error::GibsError;
use crate::naming::video_extension;
use crate::params::{Crs, Imagery, Service, EPSG};
use vstd::prelude::*;
use vstd::string::*;

verus! {

/// `url::Url`, a parsed URL. Nothing is said of what it holds.
#[verifier::external_type_specification]
#[verifier::external_body]
pub struct ExUrl(url::Url);

/// `url::ParseError`, the reason for which a text is no URL. Nothing is said
/// of what it holds.
#[verifier::external_type_specification]
#[verifier::external_body]
pub struct ExParseError(url::ParseError);

/// Whether `url::Url::parse` accepts `input` as an absolute URL.
pub uninterp spec fn parses_as_url(input: Seq<char>) -> bool;

/// `url::Url::parse` reads `input` by the URL standard's rules. It returns a
/// URL where the text is an absolute URL, and an error otherwise; the outcome
/// depends on the text alone.
pub assume_specification[ url::Url::parse ](input: &str) -> (r: Result<url::Url, url::ParseError>)
    ensures
        r is Ok <==> parses_as_url(input@),
;

/// The scheme and host of the service, up to and including the slash.
pub open spec fn host_prefix() -> Seq<char> {
    "https://gibs.earthdata.nasa.gov/"@
}

/// The text of the request for `service`, `epsg` and `imagery`:
/// host, service, `epsg` and the number, tier, then the service once more as
/// the name of the endpoint.
pub open spec fn url_text(service: Service, epsg: EPSG, imagery: Imagery) -> Seq<char> {
    host_prefix() + service.token() + "/epsg"@ + epsg.token() + "/"@ + imagery.token() + "/"@
        + service.token() + ".sgi"@
}

/// A request URL: a text that the URL parser has accepted.
#[derive(Debug)]
pub struct RequestUrl {
    text: String,
}

impl View for RequestUrl {
    type V = Seq<char>;

    closed spec fn view(&self) -> Seq<char> {
        self.text@
    }
}

impl PartialEq for RequestUrl {
    fn eq(&self, other: &RequestUrl) -> (r: bool) {
        self.text == other.text
    }
}

impl Eq for RequestUrl {

}

impl vstd::std_specs::cmp::PartialEqSpecImpl for RequestUrl {
    open spec fn obeys_eq_spec() -> bool {
        true
    }

    /// Two request URLs are equal where their texts are.
    open spec fn eq_spec(&self, other: &RequestUrl) -> bool {
        self@ == other@
    }
}

impl RequestUrl {
    /// What becomes of `text` once the parser's verdict on it is known.
    pub open spec fn outcome(text: Seq<char>, accepted: bool, r: Result<RequestUrl, GibsError>) -> bool {
        if accepted {
            r is Ok && r->Ok_0@ == text
        } else {
            r == Err::<RequestUrl, GibsError>(GibsError::UrlConstruction)
        }
    }

    /// Keeps `text` as a request URL where the parser accepted it, and
    /// reports the failure where it did not.
    pub fn from_verdict(text: String, accepted: bool) -> (r: Result<RequestUrl, GibsError>)
        ensures
            Self::outcome(text@, accepted, r),
    {
        if accepted {
            Ok(RequestUrl { text })
        } else {
            Err(GibsError::UrlConstruction)
        }
    }

    /// Reads `text` as a request URL.
    pub fn parse(text: &str) -> (r: Result<RequestUrl, GibsError>)
        ensures
            Self::outcome(text@, parses_as_url(text@), r),
            r is Ok <==> parses_as_url(text@),
            r is Ok ==> r->Ok_0@ == text@ && parses_as_url(r->Ok_0@),
            r is Err ==> r->Err_0 == GibsError::UrlConstruction,
    {
        let accepted = match url::Url::parse(text) {
            Ok(_) => true,
            Err(_) => false,
        };
        Self::from_verdict(String::from_str(text), accepted)
    }

    pub fn as_str(&self) -> (s: &str)
        ensures
            s@ == self@,
    {
        self.text.as_str()
    }
}

/// A client of the service, set to the size of the images it works with.
#[derive(Copy, Clone, PartialEq, Eq, Structural, Debug)]
pub struct GIBS {
    pub image_width: i32,
    pub image_height: i32,
}

impl GIBS {
    /// A client for images of the given height and width, in this order.
    pub fn new(image_height: i32, image_width: i32) -> (gibs: Self)
        ensures
            gibs.image_height == image_height,
            gibs.image_width == image_width,
    {
        Self { image_height, image_width }
    }

    /// The request URL for one service, projection and tier.
    pub fn get_url(&self, service: Service, epsg: EPSG, imagery_type: Imagery) -> (r: Result<
        RequestUrl,
        GibsError,
    >)
        ensures
            RequestUrl::outcome(
                url_text(service, epsg, imagery_type),
                parses_as_url(url_text(service, epsg, imagery_type)),
                r,
            ),
            r is Ok <==> parses_as_url(url_text(service, epsg, imagery_type)),
            r is Ok ==> r->Ok_0@ == url_text(service, epsg, imagery_type) && parses_as_url(
                r->Ok_0@,
            ),
            r is Err ==> r->Err_0 == GibsError::UrlConstruction,
    {
        let mut text = String::from_str("https://gibs.earthdata.nasa.gov/");
        text.append(service.as_str());
        text.append("/epsg");
        text.append(epsg.as_str());
        text.append("/");
        text.append(imagery_type.as_str());
        text.append("/");
        text.append(service.as_str());
        text.append(".sgi");
        RequestUrl::parse(text.as_str())
    }

    /// An assembler for images of this client's size, which writes to a file
    /// with a fresh random name.
    pub fn video_assembler(&self) -> (assembler: VideoAssembler)
        ensures
            assembler@ == Assembly::created(self.image_width, self.image_height),
            assembler.name_text().len() == 40,
            assembler.name_text().subrange(36, 40) == video_extension(),
    {
        VideoAssembler::new(self.image_width, self.image_height)
    }
}

/// The first and third character of a service's token tell the services
/// apart.
proof fn lemma_service_marks(service: Service)
    ensures
        3 <= service.token().len() <= 4,
        service == Service::WMTS ==> service.token()[0] == 'w' && service.token()[2] == 't',
        service == Service::WMS ==> service.token()[0] == 'w' && service.token()[2] == 's',
        service == Service::TWMS ==> service.token()[0] == 't' && service.token()[2] == 'm',
{
    reveal_strlit("wmts");
    reveal_strlit("wms");
    reveal_strlit("twms");
}

/// The second digit of a code tells the codes apart.
proof fn lemma_epsg_marks(epsg: EPSG)
    ensures
        epsg.token().len() == 4,
        epsg.0 == Crs::Wgs84 ==> epsg.token()[1] == '3',
        epsg.0 == Crs::Mercator ==> epsg.token()[1] == '8',
        epsg.0 == Crs::Arctic ==> epsg.token()[1] == '4',
        epsg.0 == Crs::Antarctic ==> epsg.token()[1] == '0',
{
    reveal_strlit("4326");
    reveal_strlit("3857");
    reveal_strlit("3413");
    reveal_strlit("3031");
}

/// The first character of a tier's token tells the tiers apart.
proof fn lemma_imagery_marks(imagery: Imagery)
    ensures
        3 <= imagery.token().len() <= 4,
        imagery == Imagery::All ==> imagery.token()[0] == 'a',
        imagery == Imagery::Best ==> imagery.token()[0] == 'b',
        imagery == Imagery::NearRealTime ==> imagery.token()[0] == 'n',
        imagery == Imagery::Standard ==> imagery.token()[0] == 's',
{
    reveal_strlit("all");
    reveal_strlit("best");
    reveal_strlit("nrt");
    reveal_strlit("std");
}

/// Where in a request text the marks of its three parts stand.
proof fn lemma_marks_in_text(service: Service, epsg: EPSG, imagery: Imagery)
    ensures
        ({
            let text = url_text(service, epsg, imagery);
            let after_service = 32 + service.token().len() as int;
            &&& text.len() == after_service + 10 + imagery.token().len() + 1
                + service.token().len() + 4
            &&& text[32] == service.token()[0]
            &&& text[34] == service.token()[2]
            &&& text[after_service + 6] == epsg.token()[1]
            &&& text[after_service + 10] == imagery.token()[0]
        }),
{
    reveal_strlit("https://gibs.earthdata.nasa.gov/");
    reveal_strlit("/epsg");
    reveal_strlit("/");
    reveal_strlit(".sgi");
    lemma_service_marks(service);
    lemma_epsg_marks(epsg);
    lemma_imagery_marks(imagery);
}

/// Two requests with the same text are the same request: the text tells
/// service, projection and tier.
pub proof fn law_url_text_is_injective(
    service: Service,
    epsg: EPSG,
    imagery: Imagery,
    other_service: Service,
    other_epsg: EPSG,
    other_imagery: Imagery,
)
    requires
        url_text(service, epsg, imagery) == url_text(other_service, other_epsg, other_imagery),
    ensures
        service == other_service,
        epsg == other_epsg,
        imagery == other_imagery,
{
    lemma_marks_in_text(service, epsg, imagery);
    lemma_marks_in_text(other_service, other_epsg, other_imagery);
    lemma_service_marks(service);
    lemma_service_marks(other_service);
    assert(service == other_service);
    lemma_epsg_marks(epsg);
    lemma_epsg_marks(other_epsg);
    assert(epsg.0 == other_epsg.0);
    lemma_imagery_marks(imagery);
    lemma_imagery_marks(other_imagery);
}

/// Distinct requests never get the same URL: where two builds both succeed,
/// the parser having accepted both texts, and give the same URL, they were
/// asked for the same service, projection and tier.
pub proof fn law_distinct_requests_distinct_urls(
    service: Service,
    epsg: EPSG,
    imagery: Imagery,
    built: Result<RequestUrl, GibsError>,
    other_service: Service,
    other_epsg: EPSG,
    other_imagery: Imagery,
    other_built: Result<RequestUrl, GibsError>,
)
    requires
        RequestUrl::outcome(url_text(service, epsg, imagery), true, built),
        RequestUrl::outcome(url_text(other_service, other_epsg, other_imagery), true, other_built),
        built is Ok,
        other_built is Ok,
        built->Ok_0@ == other_built->Ok_0@,
    ensures
        service == other_service,
        epsg == other_epsg,
        imagery == other_imagery,
{
    law_url_text_is_injective(service, epsg, imagery, other_service, other_epsg, other_imagery);
}

/// Building twice for the same request gives the same outcome. The parser's
/// verdict on a text is the same each time, here `accepted`; so both builds
/// succeed with the same URL, or both fail with the same error.
pub proof fn law_build_is_repeatable(
    service: Service,
    epsg: EPSG,
    imagery: Imagery,
    accepted: bool,
    first: Result<RequestUrl, GibsError>,
    second: Result<RequestUrl, GibsError>,
)
    requires
        RequestUrl::outcome(url_text(service, epsg, imagery), accepted, first),
        RequestUrl::outcome(url_text(service, epsg, imagery), accepted, second),
    ensures
        first is Ok <==> second is Ok,
        first is Ok ==> first->Ok_0@ == second->Ok_0@ && first->Ok_0@ == url_text(
            service,
            epsg,
            imagery,
        ),
        first is Err ==> first == second,
{
}

} // verus!
