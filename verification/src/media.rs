//! Media types, and what they mean for a listing and for a response.
//!
//! The media type of a file is guessed from its name by the `mime_guess`
//! crate.  A listing sorts files into categories by it; a file response
//! names it in its content type.

use crate::text::{followed_by, same_text};
use vstd::prelude::*;

verus! {

/// What a listing shows an entry as.
#[derive(Clone, Copy, Debug, PartialEq, Eq, Structural)]
pub enum Category {
    /// A directory.
    Folder,
    /// A picture.
    Image,
    /// A script, a style sheet, markup or structured data.
    Lambda,
    /// Any other file.
    File,
    /// The way back to the directory above.
    Back,
}

/// What kind of thing a directory entry is.
#[derive(Clone, Copy, Debug, PartialEq, Eq, Structural)]
pub enum EntryKind {
    Directory,
    File,
    /// Neither a directory nor a regular file: a link, a device, a socket.
    Other,
}

/// A media type, as far as the server reads it.
#[derive(Clone, Debug, PartialEq, Eq)]
pub struct MediaType {
    /// The top-level type: `text` in `text/html`.
    pub top: String,
    /// The subtype, without a suffix: `svg` in `image/svg+xml`.
    pub sub: String,
    /// The type without parameters: `image/svg+xml`.
    pub essence: String,
}

/// The model of a `MediaType`.
pub struct MediaTypeModel {
    pub top: Seq<char>,
    pub sub: Seq<char>,
    pub essence: Seq<char>,
}

impl View for MediaType {
    type V = MediaTypeModel;

    open spec fn view(&self) -> MediaTypeModel {
        MediaTypeModel { top: self.top@, sub: self.sub@, essence: self.essence@ }
    }
}

/// What `mime_guess` guesses first for a file called `name`: the top-level
/// type, the subtype and the essence of the media type, or `None` where it
/// has no guess.
pub uninterp spec fn guessed_media_of(name: Seq<char>) -> Option<(Seq<char>, Seq<char>, Seq<char>)>;

/// `mime_guess::from_path` and `MimeGuess::first`, read through
/// `Mime::type_`, `Mime::subtype` and `Mime::essence_str`.  The guess goes by
/// the extension of the name and a table in the crate; no file is touched.
/// The contract names the guess and says nothing of the table.
#[verifier::external_body]
fn guess_media(name: &str) -> (out: Option<MediaType>)
    ensures
        match out {
            Some(m) => guessed_media_of(name@) == Some((m.top@, m.sub@, m.essence@)),
            None => guessed_media_of(name@) is None,
        },
{
    let mime = mime_guess::from_path(name).first()?;
    Some(
        MediaType {
            top: mime.type_().as_str().to_string(),
            sub: mime.subtype().as_str().to_string(),
            essence: mime.essence_str().to_string(),
        },
    )
}

/// The guess as a model of a media type.
pub open spec fn media_of(name: Seq<char>) -> Option<MediaTypeModel> {
    match guessed_media_of(name) {
        Some((top, sub, essence)) => Some(MediaTypeModel { top, sub, essence }),
        None => None,
    }
}

/// Whether files of this subtype count as scripts, styles, markup or data.
pub open spec fn is_lambda_subtype(sub: Seq<char>) -> bool {
    sub == "javascript"@ || sub == "css"@ || sub == "html"@ || sub == "xml"@ || sub == "json"@
}

/// The category of a regular file with the given media type, if any.
pub open spec fn file_category(media: Option<MediaTypeModel>) -> Category {
    match media {
        Some(m) => if m.top == "image"@ {
            Category::Image
        } else if is_lambda_subtype(m.sub) {
            Category::Lambda
        } else {
            Category::File
        },
        None => Category::File,
    }
}

/// The category of a directory entry: a directory is a folder, a regular
/// file goes by its media type, anything else is a plain file.
pub open spec fn category_of(kind: EntryKind, media: Option<MediaTypeModel>) -> Category {
    match kind {
        EntryKind::Directory => Category::Folder,
        EntryKind::File => file_category(media),
        EntryKind::Other => Category::File,
    }
}

/// The word by which a page names a category.
pub open spec fn category_word(category: Category) -> Seq<char> {
    match category {
        Category::Folder => "folder"@,
        Category::Image => "image"@,
        Category::Lambda => "lambda"@,
        Category::File => "file"@,
        Category::Back => "back"@,
    }
}

/// The media type of a file of which nothing is known.
pub open spec fn octet_stream() -> MediaTypeModel {
    MediaTypeModel {
        top: "application"@,
        sub: "octet-stream"@,
        essence: "application/octet-stream"@,
    }
}

/// The content type of a response that carries a file with the given media
/// type: the essence of the type, `application/octet-stream` where there is
/// no guess, and the UTF-8 character set named after it for text.
pub open spec fn content_type_for(media: Option<MediaTypeModel>) -> Seq<char> {
    let m = match media {
        Some(m) => m,
        None => octet_stream(),
    };
    if m.top == "text"@ {
        m.essence + "; charset=utf-8"@
    } else {
        m.essence
    }
}

impl Category {
    /// The word by which a page names this category.
    pub fn as_str(self) -> (word: &'static str)
        ensures
            word@ == category_word(self),
    {
        match self {
            Category::Folder => "folder",
            Category::Image => "image",
            Category::Lambda => "lambda",
            Category::File => "file",
            Category::Back => "back",
        }
    }
}

/// The category of a regular file with the given media type.
pub fn categorize(media: &Option<MediaType>) -> (category: Category)
    ensures
        category == file_category(
            match media {
                Some(m) => Some(m@),
                None => None,
            },
        ),
{
    match media {
        Some(m) => {
            if same_text(m.top.as_str(), "image") {
                Category::Image
            } else if same_text(m.sub.as_str(), "javascript") || same_text(m.sub.as_str(), "css")
                || same_text(m.sub.as_str(), "html") || same_text(m.sub.as_str(), "xml")
                || same_text(m.sub.as_str(), "json") {
                Category::Lambda
            } else {
                Category::File
            }
        },
        None => Category::File,
    }
}

/// The category of the directory entry called `name`.
pub fn classify(name: &str, kind: EntryKind) -> (category: Category)
    ensures
        category == category_of(kind, media_of(name@)),
{
    match kind {
        EntryKind::Directory => Category::Folder,
        EntryKind::File => {
            let media = guess_media(name);
            categorize(&media)
        },
        EntryKind::Other => Category::File,
    }
}

/// The content type for a file with the given media type.
pub fn content_type_from(media: &Option<MediaType>) -> (out: String)
    ensures
        out@ == content_type_for(
            match media {
                Some(m) => Some(m@),
                None => None,
            },
        ),
{
    match media {
        Some(m) => {
            if same_text(m.top.as_str(), "text") {
                followed_by(m.essence.as_str(), "; charset=utf-8")
            } else {
                m.essence.clone()
            }
        },
        None => {
            proof {
                reveal_strlit("application");
                reveal_strlit("text");
                assert("application"@.len() != "text"@.len());
            }
            String::from_str("application/octet-stream")
        },
    }
}

/// The content type of a response that carries the file called `name`.
pub fn content_type(name: &str) -> (out: String)
    ensures
        out@ == content_type_for(media_of(name@)),
{
    let media = guess_media(name);
    content_type_from(&media)
}

} // verus!
