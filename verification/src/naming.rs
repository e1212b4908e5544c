use vstd::prelude::*;
use vstd::string::*;

verus! {

/// The four-character tag of the codec with which every video is written.
pub const VIDEO_CODEC: &'static str = "MJPG";

/// Every video is written in colour.
pub const VIDEO_IN_COLOR: bool = true;

/// The ending of every video file name.
pub open spec fn video_extension() -> Seq<char> {
    ".mp4"@
}

/// A fresh random token. Calls `uuid::Uuid::new_v4` and renders the value as
/// `Uuid`'s `Display` does: 36 characters, the hyphenated form. Which token
/// comes back is left open: it is drawn from the system's random source.
#[verifier::external_body]
fn random_token() -> (token: String)
    ensures
        token@.len() == 36,
{
    uuid::Uuid::new_v4().to_string()
}

/// The file name that belongs to `token`.
pub fn artifact_name(token: &str) -> (name: String)
    ensures
        name@ == token@ + video_extension(),
{
    let stem = String::from_str(token);
    stem.concat(".mp4")
}

/// A file name that no earlier call has given, as far as chance allows: a
/// random token and the video ending.
pub fn fresh_artifact_name() -> (name: String)
    ensures
        name@.len() == 40,
        name@.subrange(36, 40) == video_extension(),
{
    let token = random_token();
    let name = artifact_name(token.as_str());
    proof {
        reveal_strlit(".mp4");
        assert(name@.subrange(36, 40) =~= video_extension());
    }
    name
}

} // verus!
