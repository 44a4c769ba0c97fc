//! The types of documents.

use vstd::prelude::*;
use serde_json::Value;
use crate::error::SchemaError;
use crate::json::{
    as_text,
    empty_object,
    is_null,
    is_object,
    json_of,
    member,
    null,
    set_member,
    text,
    Json,
};
use crate::record::TypedValue;
use crate::util::SEPARATOR;

verus! {

/// A media file: where its content is, and what is known of its format.
#[derive(Clone, Debug, PartialEq, Eq)]
pub struct Media {
    /// The address of the content.
    pub content_url: String,
    /// The name of a local file that holds the content.
    pub content_file: Option<String>,
    /// The media type of the content.
    pub encoding_format: Option<String>,
}

/// A media file as a mathematical value.
pub struct MediaView {
    pub content_url: Seq<char>,
    pub content_file: Option<Seq<char>>,
    pub encoding_format: Option<Seq<char>>,
}

impl View for Media {
    type V = MediaView;

    open spec fn view(&self) -> MediaView {
        MediaView {
            content_url: self.content_url@,
            content_file: match self.content_file {
                Some(s) => Some(s@),
                None => None,
            },
            encoding_format: match self.encoding_format {
                Some(s) => Some(s@),
                None => None,
            },
        }
    }
}

/// The namespace of the identifiers of media records.
pub const MEDIA: &'static str = "media";

/// The member that holds the address of the content. It is required.
pub const CONTENT_URL: &'static str = "content_url";

/// The member that holds the name of a local file. It is optional.
pub const CONTENT_FILE: &'static str = "content_file";

/// The member that holds the media type. It is optional.
pub const ENCODING_FORMAT: &'static str = "encoding_format";

/// The JSON form of an optional text: the text, or `null`.
pub open spec fn optional_json(s: Option<Seq<char>>) -> Json {
    match s {
        Some(t) => Json::Text(t),
        None => Json::Null,
    }
}

/// The optional text that the member `key` of an object stands for: none
/// where the member is absent or `null`, the text where it is a string. Any
/// other member is of the wrong type.
pub open spec fn optional_member(members: Map<Seq<char>, Json>, key: Seq<char>) -> Result<
    Option<Seq<char>>,
    SchemaError,
> {
    if !members.contains_key(key) {
        Ok(None)
    } else {
        match members[key] {
            Json::Null => Ok(None),
            Json::Text(t) => Ok(Some(t)),
            _ => Err(SchemaError::InvalidType),
        }
    }
}

/// The JSON form of a media file: an object with its three members.
pub open spec fn media_json(m: MediaView) -> Json {
    Json::Object(
        Map::empty().insert(CONTENT_URL@, Json::Text(m.content_url)).insert(
            CONTENT_FILE@,
            optional_json(m.content_file),
        ).insert(ENCODING_FORMAT@, optional_json(m.encoding_format)),
    )
}

/// The media file that a JSON tree stands for: the tree is an object, its
/// member `content_url` is there and a string, and its two optional
/// members, if they are there, are strings or `null`. Other members do not
/// count.
pub open spec fn media_of_json(tree: Json) -> Result<MediaView, SchemaError> {
    match tree {
        Json::Object(members) => {
            if !members.contains_key(CONTENT_URL@) {
                Err(SchemaError::MissingField)
            } else {
                match members[CONTENT_URL@] {
                    Json::Text(url) => match optional_member(members, CONTENT_FILE@) {
                        Ok(file) => match optional_member(members, ENCODING_FORMAT@) {
                            Ok(format) => Ok(
                                MediaView {
                                    content_url: url,
                                    content_file: file,
                                    encoding_format: format,
                                },
                            ),
                            Err(e) => Err(e),
                        },
                        Err(e) => Err(e),
                    },
                    _ => Err(SchemaError::InvalidType),
                }
            }
        },
        _ => Err(SchemaError::NotAnObject),
    }
}

/// The three member names differ from each other.
proof fn lemma_member_names_differ()
    ensures
        CONTENT_URL@ != CONTENT_FILE@,
        CONTENT_URL@ != ENCODING_FORMAT@,
        CONTENT_FILE@ != ENCODING_FORMAT@,
{
    reveal_strlit("content_url");
    reveal_strlit("content_file");
    reveal_strlit("encoding_format");
    assert(CONTENT_URL@.len() == 11);
    assert(CONTENT_FILE@.len() == 12);
    assert(ENCODING_FORMAT@.len() == 15);
}

/// The JSON value of an optional text: the string, or `null`.
fn optional_value(s: &Option<String>) -> (v: Value)
    ensures
        json_of(v) == optional_json(
            match *s {
                Some(t) => Some(t@),
                None => None,
            },
        ),
{
    match s {
        Some(t) => text(t.clone()),
        None => null(),
    }
}

/// Reads the optional text that the member `key` of `tree` stands for.
fn read_optional(tree: &Value, key: &str) -> (r: Result<Option<String>, SchemaError>)
    requires
        json_of(*tree) is Object,
    ensures
        match r {
            Ok(Some(t)) => optional_member(json_of(*tree)->Object_0, key@) == Ok::<
                Option<Seq<char>>,
                SchemaError,
            >(Some(t@)),
            Ok(None) => optional_member(json_of(*tree)->Object_0, key@) == Ok::<
                Option<Seq<char>>,
                SchemaError,
            >(None),
            Err(e) => optional_member(json_of(*tree)->Object_0, key@) == Err::<
                Option<Seq<char>>,
                SchemaError,
            >(e),
        },
{
    match member(tree, key) {
        None => Ok(None),
        Some(v) => {
            if is_null(v) {
                Ok(None)
            } else {
                match as_text(v) {
                    Some(t) => Ok(Some(t.to_owned())),
                    None => Err(SchemaError::InvalidType),
                }
            }
        },
    }
}

impl TypedValue for Media {
    open spec fn namespace() -> Seq<char> {
        MEDIA@
    }

    open spec fn conforms(value: MediaView) -> bool {
        true
    }

    open spec fn encoded(value: MediaView) -> Json {
        media_json(value)
    }

    open spec fn decoded(tree: Json) -> Result<MediaView, SchemaError> {
        media_of_json(tree)
    }

    proof fn lemma_namespace_is_valid() {
        reveal_strlit("media");
        assert forall|i: int| 0 <= i < MEDIA@.len() implies MEDIA@[i] != SEPARATOR by {}
    }

    proof fn lemma_decoded_encoded(value: MediaView) {
        lemma_member_names_differ();
        let members = media_json(value)->Object_0;
        assert(members.contains_key(CONTENT_URL@));
        assert(members[CONTENT_URL@] == Json::Text(value.content_url));
        assert(members[CONTENT_FILE@] == optional_json(value.content_file));
        assert(members[ENCODING_FORMAT@] == optional_json(value.encoding_format));
    }

    fn name() -> &'static str {
        MEDIA
    }

    fn encode(&self) -> Value {
        let mut tree = empty_object();
        set_member(&mut tree, CONTENT_URL.to_owned(), text(self.content_url.clone()));
        set_member(&mut tree, CONTENT_FILE.to_owned(), optional_value(&self.content_file));
        set_member(&mut tree, ENCODING_FORMAT.to_owned(), optional_value(&self.encoding_format));
        tree
    }

    fn decode(tree: &Value) -> Result<Media, SchemaError> {
        if !is_object(tree) {
            return Err(SchemaError::NotAnObject);
        }
        let content_url = match member(tree, CONTENT_URL) {
            None => {
                return Err(SchemaError::MissingField);
            },
            Some(v) => match as_text(v) {
                Some(t) => t.to_owned(),
                None => {
                    return Err(SchemaError::InvalidType);
                },
            },
        };
        let content_file = match read_optional(tree, CONTENT_FILE) {
            Ok(file) => file,
            Err(e) => {
                return Err(e);
            },
        };
        let encoding_format = match read_optional(tree, ENCODING_FORMAT) {
            Ok(format) => format,
            Err(e) => {
                return Err(e);
            },
        };
        Ok(Media { content_url, content_file, encoding_format })
    }
}

} // verus!
