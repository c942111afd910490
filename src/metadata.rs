use vstd::prelude::*;
use crate::ipfs::{ipfs_prefix, is_normalizable, normalize, to_ipfs};

verus! {

/// The string held under `key` in the top-level JSON object written in `text`,
/// as `serde_json` reads it; `None` when the text is no JSON object or the
/// member is missing or no string.
pub uninterp spec fn json_field(text: Seq<char>, key: Seq<char>) -> Option<Seq<char>>;

/// Relies on `serde_json::from_str` into a `serde_json::Value`, then
/// `Value::get` and `Value::as_str`: the string member `key` of the object
/// written in `text`. The result depends on the two strings alone.
#[verifier::external_body]
fn json_string_field(text: &str, key: &str) -> (r: Option<String>)
    ensures
        r is None <==> json_field(text@, key@) is None,
        r is Some ==> r->0@ == json_field(text@, key@)->0,
{
    let v: serde_json::Value = serde_json::from_str(text).ok()?;
    v.get(key)?.as_str().map(|s| s.to_owned())
}

/// Resolved metadata of a token.
#[derive(Debug)]
pub struct Erc721Info {
    pub name: String,
    pub description: String,
    pub uri: String,
    pub image_uri: String,
}

impl Erc721Info {
    /// Metadata from its name, description and image; the image URI is
    /// normalized and the token URI is left empty.
    pub fn from_fields(name: &str, description: &str, image: &str) -> (r: Erc721Info)
        requires
            image@.len() >= ipfs_prefix().len(),
        ensures
            r.name@ == name@,
            r.description@ == description@,
            r.uri@ == Seq::<char>::empty(),
            r.image_uri@ == normalize(image@),
    {
        proof { reveal_strlit(""); }
        Erc721Info {
            name: name.to_owned(),
            description: description.to_owned(),
            uri: "".to_owned(),
            image_uri: to_ipfs(image),
        }
    }

    /// The same metadata with its token URI set to the normalized `uri`.
    pub fn set_uri(self, uri: &str) -> (r: Erc721Info)
        requires
            uri@.len() >= ipfs_prefix().len(),
        ensures
            r.name == self.name,
            r.description == self.description,
            r.image_uri == self.image_uri,
            r.uri@ == normalize(uri@),
    {
        Erc721Info { uri: to_ipfs(uri), ..self }
    }
}

/// The metadata named by a document whose `name`, `description` and `image`
/// are `Some`, with its token URI normalized from `token_uri`.
pub open spec fn info_matches(
    r: &Erc721Info,
    name: Seq<char>,
    description: Seq<char>,
    image: Seq<char>,
    token_uri: Seq<char>,
) -> bool {
    &&& r.name@ == name
    &&& r.description@ == description
    &&& r.image_uri@ == normalize(image)
    &&& r.uri@ == normalize(token_uri)
}

/// Builds the resolved metadata of a token from its fields as read from the
/// metadata document: `None` when any of them is missing or the image URI
/// is shorter than the scheme prefix.
pub fn info_from_fields(
    name: Option<String>,
    description: Option<String>,
    image: Option<String>,
    token_uri: &str,
) -> (r: Option<Erc721Info>)
    requires
        token_uri@.len() >= ipfs_prefix().len(),
    ensures
        r is Some <==> (name is Some && description is Some && image is Some
            && image->0@.len() >= ipfs_prefix().len()),
        r is Some ==> info_matches(&r->0, name->0@, description->0@, image->0@, token_uri@),
{
    match (name, description, image) {
        (Some(n), Some(d), Some(i)) => if is_normalizable(i.as_str()) {
            Some(Erc721Info::from_fields(n.as_str(), d.as_str(), i.as_str()).set_uri(token_uri))
        } else {
            None
        },
        _ => None,
    }
}

pub open spec fn name_key() -> Seq<char> {
    "name"@
}

pub open spec fn description_key() -> Seq<char> {
    "description"@
}

pub open spec fn image_key() -> Seq<char> {
    "image"@
}

/// Reads the resolved metadata of a token out of the JSON document fetched
/// for it: `None` when the document lacks a string `name`, `description`
/// or `image`, or the image URI is shorter than the scheme prefix.
pub fn info_from_json(body: &str, token_uri: &str) -> (r: Option<Erc721Info>)
    requires
        token_uri@.len() >= ipfs_prefix().len(),
    ensures
        r is Some <==> (json_field(body@, name_key()) is Some && json_field(body@, description_key()) is Some
            && json_field(body@, image_key()) is Some
            && json_field(body@, image_key())->0.len() >= ipfs_prefix().len()),
        r is Some ==> info_matches(
            &r->0,
            json_field(body@, name_key())->0,
            json_field(body@, description_key())->0,
            json_field(body@, image_key())->0,
            token_uri@,
        ),
{
    let name = json_string_field(body, "name");
    let description = json_string_field(body, "description");
    let image = json_string_field(body, "image");
    info_from_fields(name, description, image, token_uri)
}

} // verus!
