//! Request URLs for the GIBS tiled-imagery service, and the bookkeeping that
//! turns an ordered run of decoded frames into one video file.

pub mod assembler;
pub mod error;
pub mod image;
pub mod laws;
pub mod naming;
pub mod params;
pub mod products;
pub mod request;

pub use assembler::{Action, Event, Stage, VideoArtifact, VideoAssembler};
pub use error::GibsError;
pub use params::{Crs, Geographic, Imagery, Projection, Service, WebMercator, EPSG};
pub use request::{RequestUrl, GIBS};
