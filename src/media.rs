use vstd::prelude::*;
use crate::text::{ends_with_seq, ends_with_str};

verus! {

/// Kind of media that a token's image can be posted as.
#[derive(Debug)]
pub enum MediaKind {
    Mp4,
    Png,
    Gif,
    Jpg,
    Webp,
}

/// The media kind named by the end of a media URI, if any.
pub open spec fn media_kind_spec(uri: Seq<char>) -> Option<MediaKind> {
    if ends_with_seq(uri, ".mp4"@) {
        Some(MediaKind::Mp4)
    } else if ends_with_seq(uri, ".png"@) {
        Some(MediaKind::Png)
    } else if ends_with_seq(uri, ".gif"@) {
        Some(MediaKind::Gif)
    } else if ends_with_seq(uri, ".jpg"@) {
        Some(MediaKind::Jpg)
    } else if ends_with_seq(uri, "webp"@) {
        Some(MediaKind::Webp)
    } else {
        None
    }
}

/// The media kind of a media URI, read from its last four characters;
/// `None` for any other ending.
pub fn media_kind(uri: &str) -> (r: Option<MediaKind>)
    ensures
        r == media_kind_spec(uri@),
{
    if ends_with_str(uri, ".mp4") {
        Some(MediaKind::Mp4)
    } else if ends_with_str(uri, ".png") {
        Some(MediaKind::Png)
    } else if ends_with_str(uri, ".gif") {
        Some(MediaKind::Gif)
    } else if ends_with_str(uri, ".jpg") {
        Some(MediaKind::Jpg)
    } else if ends_with_str(uri, "webp") {
        Some(MediaKind::Webp)
    } else {
        None
    }
}

/// The text of a post announcing a token: its name and its URI, each on a
/// line of its own.
pub open spec fn post_text_spec(name: Seq<char>, uri: Seq<char>) -> Seq<char> {
    name + seq!['\n'] + uri + seq!['\n']
}

/// The text of a post announcing a token.
pub fn post_text(name: &str, uri: &str) -> (r: String)
    ensures
        r@ == post_text_spec(name@, uri@),
{
    proof { reveal_strlit("\n"); }
    name.to_owned().concat("\n").concat(uri).concat("\n")
}

} // verus!
