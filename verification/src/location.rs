//! Location domain types: the location record, its builder, the
//! provider error, the fallback provider, the geolocation record
//! model, and the pure pieces of request-based location extraction.

use vstd::prelude::*;
use vstd::string::StringExecFns;

use crate::strutil::{chars_to_string, str_chars};

verus! {

/// The mathematical model of a location.
pub struct LocationView {
    /// Country in ISO 3166-1 alpha-2 format.
    pub country: Option<Seq<char>>,
    /// Region in ISO 3166-2 format.
    pub region: Option<Seq<char>>,
    /// City, by name.
    pub city: Option<Seq<char>>,
    /// The Designated Market Area code; only defined in the US.
    pub dma: Option<u16>,
    /// The name of the provider that produced this location.
    pub provider: Seq<char>,
}

/// The location information that providers produce.
#[derive(Clone, Debug)]
pub struct Location {
    /// Country in ISO 3166-1 alpha-2 format, such as "MX" for Mexico
    /// or "IT" for Italy.
    pub country: Option<String>,
    /// Region (e.g. a US state) in ISO 3166-2 format, such as "QC"
    /// for Quebec (with country "CA") or "TX" for Texas (with country
    /// "US").
    pub region: Option<String>,
    /// City, listed by name such as "Portland" or "Berlin".
    pub city: Option<String>,
    /// The Designated Market Area code, as defined by Nielsen. Only
    /// defined in the US.
    pub dma: Option<u16>,
    /// The name of the provider that produced this location.
    pub provider: String,
}

impl View for Location {
    type V = LocationView;

    open spec fn view(&self) -> LocationView {
        LocationView {
            country: self.country.deep_view(),
            region: self.region.deep_view(),
            city: self.city.deep_view(),
            dma: self.dma,
            provider: self.provider@,
        }
    }
}

fn opt_string_eq(a: &Option<String>, b: &Option<String>) -> (r: bool)
    ensures
        r == (a.deep_view() == b.deep_view()),
{
    match (a, b) {
        (Some(x), Some(y)) => *x == *y,
        (None, None) => true,
        _ => false,
    }
}

fn opt_u16_eq(a: &Option<u16>, b: &Option<u16>) -> (r: bool)
    ensures
        r == (a == b),
{
    match (a, b) {
        (Some(x), Some(y)) => *x == *y,
        (None, None) => true,
        _ => false,
    }
}

impl PartialEq for Location {
    fn eq(&self, other: &Location) -> (r: bool) {
        opt_string_eq(&self.country, &other.country) && opt_string_eq(&self.region, &other.region)
            && opt_string_eq(&self.city, &other.city) && opt_u16_eq(&self.dma, &other.dma)
            && self.provider == other.provider
    }
}

impl vstd::std_specs::cmp::PartialEqSpecImpl for Location {
    open spec fn obeys_eq_spec() -> bool {
        true
    }

    open spec fn eq_spec(&self, other: &Location) -> bool {
        self@ == other@
    }
}

fn opt_string_clone(a: &Option<String>) -> (r: Option<String>)
    ensures
        r.deep_view() == a.deep_view(),
{
    match a {
        Some(s) => Some(s.clone()),
        None => None,
    }
}

impl Location {
    /// Create a builder for a [`Location`] that can be assembled
    /// incrementally.
    pub fn build() -> (r: LocationBuilder)
        ensures
            r@ == (LocationBuilderView {
                country: None::<Seq<char>>,
                region: None::<Seq<char>>,
                city: None::<Seq<char>>,
                dma: None::<u16>,
                provider: None::<Seq<char>>,
            }),
    {
        LocationBuilder::default()
    }

    /// An exact copy of this location.
    pub fn duplicate(&self) -> (r: Location)
        ensures
            r@ == self@,
    {
        Location {
            country: opt_string_clone(&self.country),
            region: opt_string_clone(&self.region),
            city: opt_string_clone(&self.city),
            dma: self.dma,
            provider: self.provider.clone(),
        }
    }

    /// The country, or the empty string when unknown.
    pub fn country(&self) -> (r: String)
        ensures
            r@ == (match self@.country {
                Some(c) => c,
                None => Seq::<char>::empty(),
            }),
    {
        match &self.country {
            Some(c) => c.clone(),
            None => String::new(),
        }
    }

    /// The region, or the empty string when unknown.
    pub fn region(&self) -> (r: String)
        ensures
            r@ == (match self@.region {
                Some(c) => c,
                None => Seq::<char>::empty(),
            }),
    {
        match &self.region {
            Some(c) => c.clone(),
            None => String::new(),
        }
    }

    /// The city, or the empty string when unknown.
    pub fn city(&self) -> (r: String)
        ensures
            r@ == (match self@.city {
                Some(c) => c,
                None => Seq::<char>::empty(),
            }),
    {
        match &self.city {
            Some(c) => c.clone(),
            None => String::new(),
        }
    }

    /// The DMA code, or zero when unknown.
    pub fn dma(&self) -> (r: u16)
        ensures
            r == (match self@.dma {
                Some(d) => d,
                None => 0u16,
            }),
    {
        match self.dma {
            Some(d) => d,
            None => 0,
        }
    }
}

/// The mathematical model of a location under construction.
pub struct LocationBuilderView {
    /// The country set so far.
    pub country: Option<Seq<char>>,
    /// The region set so far.
    pub region: Option<Seq<char>>,
    /// The city set so far.
    pub city: Option<Seq<char>>,
    /// The DMA code set so far.
    pub dma: Option<u16>,
    /// The provider name set so far; required to finish.
    pub provider: Option<Seq<char>>,
}

/// An incremental builder of [`Location`] values.
#[derive(Clone, Debug)]
pub struct LocationBuilder {
    country: Option<String>,
    region: Option<String>,
    city: Option<String>,
    dma: Option<u16>,
    provider: Option<String>,
}

impl View for LocationBuilder {
    type V = LocationBuilderView;

    closed spec fn view(&self) -> LocationBuilderView {
        LocationBuilderView {
            country: self.country.deep_view(),
            region: self.region.deep_view(),
            city: self.city.deep_view(),
            dma: self.dma,
            provider: self.provider.deep_view(),
        }
    }
}

impl Default for LocationBuilder {
    /// A builder with nothing set.
    fn default() -> (r: LocationBuilder)
        ensures
            r@ == (LocationBuilderView {
                country: None::<Seq<char>>,
                region: None::<Seq<char>>,
                city: None::<Seq<char>>,
                dma: None::<u16>,
                provider: None::<Seq<char>>,
            }),
    {
        LocationBuilder { country: None, region: None, city: None, dma: None, provider: None }
    }
}

impl LocationBuilder {
    /// Set the country.
    pub fn country(self, country: String) -> (r: LocationBuilder)
        ensures
            r@ == (LocationBuilderView { country: Some(country@), ..self@ }),
    {
        LocationBuilder { country: Some(country), ..self }
    }

    /// Set the region.
    pub fn region(self, region: String) -> (r: LocationBuilder)
        ensures
            r@ == (LocationBuilderView { region: Some(region@), ..self@ }),
    {
        LocationBuilder { region: Some(region), ..self }
    }

    /// Set the city.
    pub fn city(self, city: String) -> (r: LocationBuilder)
        ensures
            r@ == (LocationBuilderView { city: Some(city@), ..self@ }),
    {
        LocationBuilder { city: Some(city), ..self }
    }

    /// Set the DMA code.
    pub fn dma(self, dma: u16) -> (r: LocationBuilder)
        ensures
            r@ == (LocationBuilderView { dma: Some(dma), ..self@ }),
    {
        LocationBuilder { dma: Some(dma), ..self }
    }

    /// Set the provider name.
    pub fn provider(self, provider: String) -> (r: LocationBuilder)
        ensures
            r@ == (LocationBuilderView { provider: Some(provider@), ..self@ }),
    {
        LocationBuilder { provider: Some(provider), ..self }
    }

    /// Finish the build. Succeeds exactly when a provider name was
    /// set; every other field is carried over as it stands.
    pub fn finish(self) -> (r: Result<Location, ()>)
        ensures
            r is Ok <==> self@.provider is Some,
            r is Ok ==> r->Ok_0@ == (LocationView {
                country: self@.country,
                region: self@.region,
                city: self@.city,
                dma: self@.dma,
                provider: self@.provider->0,
            }),
    {
        match self.provider {
            Some(provider) => Ok(
                Location {
                    country: self.country,
                    region: self.region,
                    city: self.city,
                    dma: self.dma,
                    provider,
                },
            ),
            None => Err(()),
        }
    }
}

/// An error that occurred while providing a location. Each variant
/// carries the description of its underlying cause.
#[derive(Clone, Debug)]
pub enum Error {
    /// There was an error while setting up a provider.
    Setup(String),
    /// There was an error accessing an underlying provider.
    Provider(String),
    /// A problem with the HTTP request.
    Http(String),
    /// A problem converting a provider response to a location.
    Conversion(String),
}

/// The fixed description of each error variant.
pub open spec fn spec_error_message(e: Error) -> Seq<char> {
    match e {
        Error::Setup(_) => "there was an error while setting up a provider"@,
        Error::Provider(_) => "there was an error accessing an underlying provider"@,
        Error::Http(_) => "problem with the HTTP request"@,
        Error::Conversion(_) => "problem converting provider response to a location"@,
    }
}

impl Error {
    /// The human-readable description of this error variant.
    pub fn message(&self) -> (r: String)
        ensures
            r@ == spec_error_message(*self),
    {
        match self {
            Error::Setup(_) => String::from_str("there was an error while setting up a provider"),
            Error::Provider(_) => String::from_str(
                "there was an error accessing an underlying provider",
            ),
            Error::Http(_) => String::from_str("problem with the HTTP request"),
            Error::Conversion(_) => String::from_str(
                "problem converting provider response to a location",
            ),
        }
    }

    /// The description of this error's underlying cause.
    pub fn source_detail(&self) -> (r: &String)
        ensures
            r@ == (match *self {
                Error::Setup(s) => s@,
                Error::Provider(s) => s@,
                Error::Http(s) => s@,
                Error::Conversion(s) => s@,
            }),
    {
        match self {
            Error::Setup(s) => s,
            Error::Provider(s) => s,
            Error::Http(s) => s,
            Error::Conversion(s) => s,
        }
    }
}

/// A provider that answers every request with one fixed location.
pub struct FallbackProvider {
    fallback: Location,
}

/// The mathematical model of a fallback provider: the one location it
/// hands out.
pub struct FallbackProviderView {
    /// The fixed location.
    pub fallback: LocationView,
}

impl View for FallbackProvider {
    type V = FallbackProviderView;

    closed spec fn view(&self) -> FallbackProviderView {
        FallbackProviderView { fallback: self.fallback@ }
    }
}

impl FallbackProvider {
    /// Create a fallback provider.
    ///
    /// The passed location builder is completed with the provider
    /// name `"fallback"`; since that supplies the one required field,
    /// the build cannot fail.
    pub fn new(fallback_builder: LocationBuilder) -> (r: FallbackProvider)
        ensures
            r@.fallback == (LocationView {
                country: fallback_builder@.country,
                region: fallback_builder@.region,
                city: fallback_builder@.city,
                dma: fallback_builder@.dma,
                provider: "fallback"@,
            }),
    {
        FallbackProvider {
            fallback: fallback_builder.provider(String::from_str("fallback")).finish().expect(
                "Location construction bug",
            ),
        }
    }

    /// The provider's name, for diagnostics.
    pub fn name(&self) -> (r: &str)
        ensures
            r@ == "fallback"@,
    {
        "fallback"
    }

    /// The location this provider answers with: always its fixed
    /// fallback, for any request.
    pub fn fallback_location(&self) -> (r: Location)
        ensures
            r@ == self@.fallback,
    {
        self.fallback.duplicate()
    }
}

/// The location used when no provider produced one: every field
/// unknown, attributed to the provider name `"none"`.
pub fn default_location() -> (r: Location)
    ensures
        r@ == (LocationView {
            country: None::<Seq<char>>,
            region: None::<Seq<char>>,
            city: None::<Seq<char>>,
            dma: None::<u16>,
            provider: "none"@,
        }),
{
    Location::build().provider(String::from_str("none")).finish().expect(
        "Bug when processing default result",
    )
}

/// The counters to bump when a provider's answer lacks fields the
/// provider was expected to supply, in a fixed order: city, then
/// region, then country.
pub open spec fn spec_metric_counters(
    expect_country: bool,
    expect_region: bool,
    expect_city: bool,
    loc: LocationView,
) -> Seq<Seq<char>> {
    (if expect_city && loc.city is None {
        seq!["location.unknown.city"@]
    } else {
        Seq::<Seq<char>>::empty()
    }) + (if expect_region && loc.region is None {
        seq!["location.unknown.region"@]
    } else {
        Seq::<Seq<char>>::empty()
    }) + (if expect_country && loc.country is None {
        seq!["location.unknown.country"@]
    } else {
        Seq::<Seq<char>>::empty()
    })
}

/// The metrics counters to bump for a provider's answer: one counter
/// for each expected field the location lacks.
pub fn location_metric_counters(
    expect_country: bool,
    expect_region: bool,
    expect_city: bool,
    loc: &Location,
) -> (r: Vec<String>)
    ensures
        r.deep_view() == spec_metric_counters(expect_country, expect_region, expect_city, loc@),
{
    let mut r: Vec<String> = Vec::new();
    if expect_city && loc.city.is_none() {
        r.push(String::from_str("location.unknown.city"));
    }
    if expect_region && loc.region.is_none() {
        r.push(String::from_str("location.unknown.region"));
    }
    if expect_country && loc.country.is_none() {
        r.push(String::from_str("location.unknown.country"));
    }
    proof {
        assert(r.deep_view() =~= spec_metric_counters(
            expect_country,
            expect_region,
            expect_city,
            loc@,
        ));
    }
    r
}


/// The geolocation fields this crate reads from a city lookup: the
/// country's ISO code, the ISO codes of the subdivisions in
/// least-specific order, the city's names by language, and the metro
/// (DMA) code. A caller fills one from its geolocation component's
/// answer.
#[derive(Clone, Debug)]
pub struct GeoCity {
    /// The country's ISO 3166-1 code, when known.
    pub country_iso: Option<String>,
    /// The subdivisions' ISO 3166-2 codes, least-specific first; an
    /// entry is `None` when that subdivision has no code.
    pub subdivision_isos: Vec<Option<String>>,
    /// The city's names, keyed by language code.
    pub city_names: Vec<(String, String)>,
    /// The metro (DMA) code, when known.
    pub metro_code: Option<u16>,
}

/// The name bound to `k`: the second component of the first pair
/// whose first component is `k`.
pub open spec fn name_lookup(names: Seq<(Seq<char>, Seq<char>)>, k: Seq<char>) -> Option<
    Seq<char>,
>
    decreases names.len(),
{
    if names.len() == 0 {
        None
    } else if names[0].0 == k {
        Some(names[0].1)
    } else {
        name_lookup(names.drop_first(), k)
    }
}

/// The first subdivision's code: subdivisions are listed in
/// least-specific order, and only the first is used.
pub open spec fn spec_first_subdivision(subs: Seq<Option<Seq<char>>>) -> Option<Seq<char>> {
    if subs.len() > 0 {
        subs[0]
    } else {
        None
    }
}

proof fn lemma_name_lookup_at(names: Seq<(Seq<char>, Seq<char>)>, k: Seq<char>, i: int)
    requires
        0 <= i < names.len(),
        forall|j: int| 0 <= j < i ==> names[j].0 != k,
        names[i].0 == k,
    ensures
        name_lookup(names, k) == Some(names[i].1),
    decreases i,
{
    if i > 0 {
        lemma_name_lookup_at(names.drop_first(), k, i - 1);
    }
}

proof fn lemma_name_lookup_none(names: Seq<(Seq<char>, Seq<char>)>, k: Seq<char>)
    requires
        forall|j: int| 0 <= j < names.len() ==> names[j].0 != k,
    ensures
        name_lookup(names, k) is None,
    decreases names.len(),
{
    if names.len() > 0 {
        lemma_name_lookup_none(names.drop_first(), k);
    }
}

impl LocationBuilder {
    /// Start a location from a geolocation answer: the country's ISO
    /// code, the first (least-specific) subdivision's code as the
    /// region, the English city name, and the metro code as the DMA.
    /// No provider is set; the caller supplies one before finishing.
    pub fn from_city(city: GeoCity) -> (r: LocationBuilder)
        ensures
            r@ == (LocationBuilderView {
                country: city.country_iso.deep_view(),
                region: spec_first_subdivision(city.subdivision_isos.deep_view()),
                city: name_lookup(city.city_names.deep_view(), "en"@),
                dma: city.metro_code,
                provider: None::<Seq<char>>,
            }),
    {
        let region: Option<String> = if city.subdivision_isos.len() > 0 {
            opt_string_clone(&city.subdivision_isos[0])
        } else {
            None
        };
        let en = String::from_str("en");
        let mut city_name: Option<String> = None;
        let n = city.city_names.len();
        let mut found = false;
        for i in 0..n
            invariant
                n == city.city_names@.len(),
                !found ==> city_name is None,
                !found ==> forall|j: int|
                    0 <= j < i ==> city.city_names.deep_view()[j].0 != en@,
                found ==> city_name.deep_view() == name_lookup(
                    city.city_names.deep_view(),
                    en@,
                ),
        {
            if !found {
                if city.city_names[i].0 == en {
                    proof {
                        lemma_name_lookup_at(city.city_names.deep_view(), en@, i as int);
                    }
                    city_name = Some(city.city_names[i].1.clone());
                    found = true;
                }
            }
        }
        if !found {
            proof {
                lemma_name_lookup_none(city.city_names.deep_view(), en@);
            }
        }
        LocationBuilder {
            country: city.country_iso,
            region,
            city: city_name,
            dma: city.metro_code,
            provider: None,
        }
    }
}

/// One character of forwarding-header whitespace.
pub open spec fn spec_is_space(c: char) -> bool {
    c == ' ' || c == '\t' || c == '\n' || c == '\r'
}

/// The index of the first comma, or the length when there is none.
pub open spec fn comma_index(s: Seq<char>) -> int
    decreases s.len(),
{
    if s.len() == 0 {
        0
    } else if s[0] == ',' {
        0
    } else {
        1 + comma_index(s.drop_first())
    }
}

/// `s` without its leading whitespace.
pub open spec fn trim_start(s: Seq<char>) -> Seq<char>
    decreases s.len(),
{
    if s.len() > 0 && spec_is_space(s[0]) {
        trim_start(s.drop_first())
    } else {
        s
    }
}

/// `s` without its trailing whitespace.
pub open spec fn trim_end(s: Seq<char>) -> Seq<char>
    decreases s.len(),
{
    if s.len() > 0 && spec_is_space(s.last()) {
        trim_end(s.drop_last())
    } else {
        s
    }
}

/// The first candidate address of a forwarding-header chain: the text
/// before the first comma, with surrounding whitespace removed.
pub open spec fn spec_first_forwarded(s: Seq<char>) -> Seq<char> {
    trim_end(trim_start(s.subrange(0, comma_index(s))))
}

proof fn lemma_comma_index_at(s: Seq<char>, i: int)
    requires
        0 <= i <= s.len(),
        forall|j: int| 0 <= j < i ==> s[j] != ',',
        i < s.len() ==> s[i] == ',',
    ensures
        comma_index(s) == i,
    decreases i,
{
    if s.len() > 0 && i > 0 {
        lemma_comma_index_at(s.drop_first(), i - 1);
    }
}

proof fn lemma_trim_start_at(s: Seq<char>, k: int)
    requires
        0 <= k <= s.len(),
        forall|j: int| 0 <= j < k ==> spec_is_space(#[trigger] s[j]),
        k < s.len() ==> !spec_is_space(s[k]),
    ensures
        trim_start(s) == s.subrange(k, s.len() as int),
    decreases k,
{
    if k == 0 {
        assert(s.subrange(0, s.len() as int) =~= s);
    } else {
        lemma_trim_start_at(s.drop_first(), k - 1);
        assert(s.drop_first().subrange(k - 1, s.drop_first().len() as int) =~= s.subrange(
            k,
            s.len() as int,
        ));
    }
}

proof fn lemma_trim_end_at(s: Seq<char>, e: int)
    requires
        0 <= e <= s.len(),
        forall|j: int| e <= j < s.len() ==> spec_is_space(#[trigger] s[j]),
        e > 0 ==> !spec_is_space(s[e - 1]),
    ensures
        trim_end(s) == s.subrange(0, e),
    decreases s.len() - e,
{
    if e == s.len() {
        assert(s.subrange(0, e) =~= s);
    } else {
        lemma_trim_end_at(s.drop_last(), e);
        assert(s.drop_last().subrange(0, e) =~= s.subrange(0, e));
    }
}

fn is_space_exec(c: char) -> (r: bool)
    ensures
        r == spec_is_space(c),
{
    c == ' ' || c == '\t' || c == '\n' || c == '\r'
}

/// Read the single candidate address out of a forwarding-header
/// chain: the first comma-separated entry, trimmed of surrounding
/// whitespace. The front ends are expected to put the client address
/// first; parsing the text as an address is the caller's business.
pub fn first_forwarded_address(header: &str) -> (r: String)
    ensures
        r@ == spec_first_forwarded(header@),
{
    let chars = str_chars(header);
    let n = chars.len();
    let mut ci: usize = 0;
    while ci < n && chars[ci] != ','
        invariant
            ci <= n,
            n == chars@.len(),
            chars@ == header@,
            forall|j: int| 0 <= j < ci ==> chars@[j] != ',',
        decreases n - ci,
    {
        ci = ci + 1;
    }
    proof {
        lemma_comma_index_at(header@, ci as int);
    }
    let ghost seg = header@.subrange(0, ci as int);
    let mut start: usize = 0;
    while start < ci && is_space_exec(chars[start])
        invariant
            start <= ci <= n,
            n == chars@.len(),
            chars@ == header@,
            seg == header@.subrange(0, ci as int),
            forall|j: int| 0 <= j < start ==> spec_is_space(#[trigger] seg[j]),
        decreases ci - start,
    {
        start = start + 1;
    }
    let mut end: usize = ci;
    while end > start && is_space_exec(chars[end - 1])
        invariant
            start <= end <= ci <= n,
            n == chars@.len(),
            chars@ == header@,
            seg == header@.subrange(0, ci as int),
            forall|j: int| end <= j < ci ==> spec_is_space(#[trigger] seg[j]),
        decreases end,
    {
        end = end - 1;
    }
    proof {
        lemma_trim_start_at(seg, start as int);
        let t1 = seg.subrange(start as int, seg.len() as int);
        assert forall|j: int| (end - start) <= j < t1.len() implies spec_is_space(
            #[trigger] t1[j],
        ) by {
            assert(t1[j] == seg[j + start]);
        }
        if end > start {
            assert(t1[end - start - 1] == seg[end - 1]);
        }
        lemma_trim_end_at(t1, end - start);
        assert(t1.subrange(0, end - start) =~= seg.subrange(start as int, end as int));
        assert(seg.subrange(start as int, end as int) =~= header@.subrange(
            start as int,
            end as int,
        ));
    }
    let mut out: Vec<char> = Vec::new();
    for i in start..end
        invariant
            start <= end <= n,
            n == chars@.len(),
            chars@ == header@,
            out@ == header@.subrange(start as int, i as int),
    {
        out.push(chars[i]);
        proof {
            assert(out@ =~= header@.subrange(start as int, i + 1));
        }
    }
    chars_to_string(&out)
}

} // verus!
