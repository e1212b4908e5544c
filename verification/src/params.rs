use vstd::prelude::*;

verus! {

/// A spatial projection that the service offers.
pub trait Projection {

}

/// A projection over geographic coordinates.
pub trait Geographic: Projection {

}

/// A projection over Web Mercator coordinates.
pub trait WebMercator: Projection {

}

/// Which imagery products a request addresses.
#[derive(Copy, Clone, PartialEq, Eq, Structural, Debug)]
pub enum Imagery {
    /// Best available, standard and near real-time products together.
    All,
    /// The best available products.
    Best,
    /// Near real-time products only.
    NearRealTime,
    /// Standard products only.
    Standard,
}

impl Imagery {
    /// The path segment that stands for this tier.
    pub open spec fn token(self) -> Seq<char> {
        match self {
            Imagery::All => "all"@,
            Imagery::Best => "best"@,
            Imagery::NearRealTime => "nrt"@,
            Imagery::Standard => "std"@,
        }
    }

    pub fn as_str(&self) -> (s: &'static str)
        ensures
            s@ == self.token(),
    {
        match self {
            Imagery::All => "all",
            Imagery::Best => "best",
            Imagery::NearRealTime => "nrt",
            Imagery::Standard => "std",
        }
    }
}

/// The transport by which imagery is asked for.
#[derive(Copy, Clone, PartialEq, Eq, Structural, Debug)]
pub enum Service {
    /// Web Map Tile Service.
    WMTS,
    /// Web Map Service.
    WMS,
    /// Tiled Web Map Service.
    TWMS,
}

impl Service {
    /// The path segment that stands for this service.
    pub open spec fn token(self) -> Seq<char> {
        match self {
            Service::WMTS => "wmts"@,
            Service::WMS => "wms"@,
            Service::TWMS => "twms"@,
        }
    }

    pub fn as_str(&self) -> (s: &'static str)
        ensures
            s@ == self.token(),
    {
        match self {
            Service::WMTS => "wmts",
            Service::WMS => "wms",
            Service::TWMS => "twms",
        }
    }
}

/// The coordinate reference systems in which the service publishes imagery.
#[derive(Copy, Clone, PartialEq, Eq, Structural, Debug)]
pub enum Crs {
    /// WGS 84, geographic.
    Wgs84,
    /// Web Mercator.
    Mercator,
    /// Arctic polar stereographic.
    Arctic,
    /// Antarctic polar stereographic.
    Antarctic,
}

/// An EPSG code of one of the published reference systems. No other code can
/// be held.
#[derive(Copy, Clone, PartialEq, Eq, Structural, Debug)]
pub struct EPSG(pub Crs);

impl EPSG {
    /// The registered number.
    pub open spec fn number(self) -> nat {
        match self.0 {
            Crs::Wgs84 => 4326,
            Crs::Mercator => 3857,
            Crs::Arctic => 3413,
            Crs::Antarctic => 3031,
        }
    }

    /// The number in decimal digits.
    pub open spec fn token(self) -> Seq<char> {
        match self.0 {
            Crs::Wgs84 => "4326"@,
            Crs::Mercator => "3857"@,
            Crs::Arctic => "3413"@,
            Crs::Antarctic => "3031"@,
        }
    }

    /// Whether `code` is the number of a published reference system.
    pub open spec fn is_published(code: u16) -> bool {
        code == 4326 || code == 3857 || code == 3413 || code == 3031
    }

    /// The code with the number `code`, where the service publishes one.
    pub fn new(code: u16) -> (r: Option<EPSG>)
        ensures
            r is Some <==> Self::is_published(code),
            r is Some ==> r.unwrap().number() == code,
    {
        if code == 4326 {
            Some(EPSG(Crs::Wgs84))
        } else if code == 3857 {
            Some(EPSG(Crs::Mercator))
        } else if code == 3413 {
            Some(EPSG(Crs::Arctic))
        } else if code == 3031 {
            Some(EPSG(Crs::Antarctic))
        } else {
            None
        }
    }

    /// WGS 84 / Geographic, EPSG:4326.
    pub fn geographic() -> (e: EPSG)
        ensures
            e == EPSG(Crs::Wgs84),
    {
        EPSG(Crs::Wgs84)
    }

    /// Web Mercator, EPSG:3857.
    pub fn web_mercator() -> (e: EPSG)
        ensures
            e == EPSG(Crs::Mercator),
    {
        EPSG(Crs::Mercator)
    }

    /// Arctic polar stereographic, EPSG:3413.
    pub fn arctic() -> (e: EPSG)
        ensures
            e == EPSG(Crs::Arctic),
    {
        EPSG(Crs::Arctic)
    }

    /// Antarctic polar stereographic, EPSG:3031.
    pub fn antarctic() -> (e: EPSG)
        ensures
            e == EPSG(Crs::Antarctic),
    {
        EPSG(Crs::Antarctic)
    }

    pub fn code(&self) -> (n: u16)
        ensures
            n == self.number(),
            Self::is_published(n),
    {
        match self.0 {
            Crs::Wgs84 => 4326,
            Crs::Mercator => 3857,
            Crs::Arctic => 3413,
            Crs::Antarctic => 3031,
        }
    }

    pub fn as_str(&self) -> (s: &'static str)
        ensures
            s@ == self.token(),
    {
        match self.0 {
            Crs::Wgs84 => "4326",
            Crs::Mercator => "3857",
            Crs::Arctic => "3413",
            Crs::Antarctic => "3031",
        }
    }
}

} // verus!
