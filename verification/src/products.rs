use crate::image::Type;
use vstd::prelude::*;
use vstd::string::*;

verus! {

/// The satellites that carry a clean infrared product.
#[derive(Copy, Clone, PartialEq, Eq, Structural, Debug)]
pub enum Platform {
    GoesEast,
    GoesWest,
    Himawari8,
}

impl Platform {
    /// The name of the layer under which the service publishes the product
    /// of this platform.
    pub open spec fn layer_name(self) -> Seq<char> {
        match self {
            Platform::GoesEast => "GOES-East_ABI_Band13_Clean_Infrared"@,
            Platform::GoesWest => "GOES-West_ABI_Band13_Clean_Infrared"@,
            Platform::Himawari8 => "Himawari_AHI_Band3_Red_Visible_1km"@,
        }
    }
}

/// The clean infrared product of one platform.
pub struct CleanInfrared {
    platform: Platform,
    instrument: String,
    image: Type,
    layer: String,
}

impl CleanInfrared {
    pub closed spec fn spec_platform(&self) -> Platform {
        self.platform
    }

    pub closed spec fn spec_instrument(&self) -> Seq<char> {
        self.instrument@
    }

    pub closed spec fn spec_image(&self) -> Type {
        self.image
    }

    pub closed spec fn spec_layer(&self) -> Seq<char> {
        self.layer@
    }

    pub fn new(platform: Platform) -> (product: Self)
        ensures
            product.spec_platform() == platform,
            product.spec_instrument() == "ABI"@,
            product.spec_image() == Type::PNG,
            product.spec_layer() == platform.layer_name(),
    {
        let layer = match platform {
            Platform::GoesEast => "GOES-East_ABI_Band13_Clean_Infrared",
            Platform::GoesWest => "GOES-West_ABI_Band13_Clean_Infrared",
            Platform::Himawari8 => "Himawari_AHI_Band3_Red_Visible_1km",
        };
        Self {
            platform,
            instrument: String::from_str("ABI"),
            image: Type::PNG,
            layer: String::from_str(layer),
        }
    }

    #[verifier::when_used_as_spec(spec_platform)]
    pub fn platform(&self) -> (p: Platform)
        ensures
            p == self.spec_platform(),
    {
        self.platform
    }

    pub fn instrument(&self) -> (s: &str)
        ensures
            s@ == self.spec_instrument(),
    {
        self.instrument.as_str()
    }

    #[verifier::when_used_as_spec(spec_image)]
    pub fn image(&self) -> (t: Type)
        ensures
            t == self.spec_image(),
    {
        self.image
    }

    pub fn layer(&self) -> (s: &str)
        ensures
            s@ == self.spec_layer(),
    {
        self.layer.as_str()
    }
}

} // verus!
