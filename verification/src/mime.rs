//! Content types: the static table from file extension to MIME type, and the
//! suffix table used for static assets.

use crate::text::{ends_with, extension, extension_of, text_eq};
use vstd::prelude::*;

verus! {

/// A MIME type the server can answer with.
#[derive(Clone, Copy, Debug, PartialEq, Eq, Structural)]
pub enum ContentType {
    Html,
    Plain,
    Css,
    JavaScript,
    Json,
    Wasm,
    Png,
    Jpeg,
    Svg,
    Gif,
    OctetStream,
}

impl ContentType {
    /// The MIME type as it is written in a `Content-Type` header.
    pub open spec fn text(self) -> Seq<char> {
        match self {
            ContentType::Html => "text/html"@,
            ContentType::Plain => "text/plain"@,
            ContentType::Css => "text/css"@,
            ContentType::JavaScript => "application/javascript"@,
            ContentType::Json => "application/json"@,
            ContentType::Wasm => "application/wasm"@,
            ContentType::Png => "image/png"@,
            ContentType::Jpeg => "image/jpeg"@,
            ContentType::Svg => "image/svg+xml"@,
            ContentType::Gif => "image/gif"@,
            ContentType::OctetStream => "application/octet-stream"@,
        }
    }

    /// The MIME type as header text.
    pub fn as_str(&self) -> (s: &'static str)
        ensures
            s@ == self.text(),
    {
        match self {
            ContentType::Html => "text/html",
            ContentType::Plain => "text/plain",
            ContentType::Css => "text/css",
            ContentType::JavaScript => "application/javascript",
            ContentType::Json => "application/json",
            ContentType::Wasm => "application/wasm",
            ContentType::Png => "image/png",
            ContentType::Jpeg => "image/jpeg",
            ContentType::Svg => "image/svg+xml",
            ContentType::Gif => "image/gif",
            ContentType::OctetStream => "application/octet-stream",
        }
    }
}

/// The extension table. Extensions are matched exactly (case matters);
/// anything unlisted is a generic byte stream.
pub open spec fn mime_of(ext: Seq<char>) -> ContentType {
    if ext == "html"@ {
        ContentType::Html
    } else if ext == "css"@ {
        ContentType::Css
    } else if ext == "js"@ {
        ContentType::JavaScript
    } else if ext == "json"@ {
        ContentType::Json
    } else if ext == "wasm"@ {
        ContentType::Wasm
    } else if ext == "png"@ {
        ContentType::Png
    } else if ext == "jpg"@ || ext == "jpeg"@ {
        ContentType::Jpeg
    } else if ext == "svg"@ {
        ContentType::Svg
    } else if ext == "gif"@ {
        ContentType::Gif
    } else {
        ContentType::OctetStream
    }
}

/// The content type of a file, chosen by the extension of its path.
pub open spec fn content_type_of_path(path: Seq<char>) -> ContentType {
    match extension_of(path) {
        Some(ext) => mime_of(ext),
        None => ContentType::OctetStream,
    }
}

/// The content type of a static asset, chosen by how its request path ends.
pub open spec fn asset_type_of(url: Seq<char>) -> ContentType {
    if ".png"@.is_suffix_of(url) {
        ContentType::Png
    } else if ".jpg"@.is_suffix_of(url) || ".jpeg"@.is_suffix_of(url) {
        ContentType::Jpeg
    } else if ".svg"@.is_suffix_of(url) {
        ContentType::Svg
    } else if ".gif"@.is_suffix_of(url) {
        ContentType::Gif
    } else if ".css"@.is_suffix_of(url) {
        ContentType::Css
    } else if ".js"@.is_suffix_of(url) {
        ContentType::JavaScript
    } else {
        ContentType::OctetStream
    }
}

/// Looks `extension` up in the extension table. Never fails: an unmapped
/// extension is `OctetStream`.
pub fn mime_for(extension: &str) -> (t: ContentType)
    ensures
        t == mime_of(extension@),
{
    if text_eq(extension, "html") {
        ContentType::Html
    } else if text_eq(extension, "css") {
        ContentType::Css
    } else if text_eq(extension, "js") {
        ContentType::JavaScript
    } else if text_eq(extension, "json") {
        ContentType::Json
    } else if text_eq(extension, "wasm") {
        ContentType::Wasm
    } else if text_eq(extension, "png") {
        ContentType::Png
    } else if text_eq(extension, "jpg") || text_eq(extension, "jpeg") {
        ContentType::Jpeg
    } else if text_eq(extension, "svg") {
        ContentType::Svg
    } else if text_eq(extension, "gif") {
        ContentType::Gif
    } else {
        ContentType::OctetStream
    }
}

/// The content type of the file at `path`, by its extension.
pub fn determine_content_type(path: &str) -> (t: ContentType)
    ensures
        t == content_type_of_path(path@),
{
    match extension(path) {
        Some(ext) => mime_for(ext.as_str()),
        None => ContentType::OctetStream,
    }
}

/// The content type of the static asset requested as `url`.
pub fn asset_content_type(url: &str) -> (t: ContentType)
    ensures
        t == asset_type_of(url@),
{
    if ends_with(url, ".png") {
        ContentType::Png
    } else if ends_with(url, ".jpg") || ends_with(url, ".jpeg") {
        ContentType::Jpeg
    } else if ends_with(url, ".svg") {
        ContentType::Svg
    } else if ends_with(url, ".gif") {
        ContentType::Gif
    } else if ends_with(url, ".css") {
        ContentType::Css
    } else if ends_with(url, ".js") {
        ContentType::JavaScript
    } else {
        ContentType::OctetStream
    }
}

} // verus!
