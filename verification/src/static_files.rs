use vstd::prelude::*;
use crate::helpers::content_type::{content_type_from_extension, css_type, extension_content_type, html_type, javascript_type};
use crate::responses::Status;

verus! {

/// A file of the web frontend compiled into the server, with the
/// Content-Type it is answered with.
pub struct StaticFile {
    pub data: Vec<u8>,
    pub content_type: String,
}

/// The answer to a request for a static file.
pub struct StaticAnswer {
    pub status: Status,
    pub content_type: String,
    pub body: Vec<u8>,
}

impl StaticFile {
    /// A file with the given content and content type.
    pub fn new(data: Vec<u8>, content_type: String) -> (f: StaticFile)
        ensures
            f.data@ == data@,
            f.content_type@ == content_type@,
    {
        StaticFile { data, content_type }
    }

    /// The answer: status 200, the file's content type (which replaces the
    /// plain-text type the response starts with) and the content.
    pub fn respond_to(self) -> (r: StaticAnswer)
        ensures
            r.status == Status::Okay,
            r.content_type@ == self.content_type@,
            r.body@ == self.data@,
    {
        StaticAnswer { status: Status::Okay, content_type: self.content_type, body: self.data }
    }
}

/// The type rocket finds for one of the frontend's extensions.
fn frontend_type(ext: &str) -> (t: String)
    requires
        ext@ == "html"@ || ext@ == "js"@ || ext@ == "css"@,
    ensures
        Some(t@) == extension_content_type(ext@),
        ext@ == "html"@ ==> t@ == html_type(),
        ext@ == "js"@ ==> t@ == javascript_type(),
        ext@ == "css"@ ==> t@ == css_type(),
{
    match content_type_from_extension(ext) {
        Some(t) => t,
        None => String::new(),
    }
}

/// `/`: answered with the type of `html`.
pub fn get_index(data: Vec<u8>) -> (f: StaticFile)
    ensures
        f.data@ == data@,
        Some(f.content_type@) == extension_content_type("html"@),
        f.content_type@ == html_type(),
{
    StaticFile::new(data, frontend_type("html"))
}

/// `/elm.js`: answered with the type of `js`.
pub fn get_elmjs(data: Vec<u8>) -> (f: StaticFile)
    ensures
        f.data@ == data@,
        Some(f.content_type@) == extension_content_type("js"@),
        f.content_type@ == javascript_type(),
{
    StaticFile::new(data, frontend_type("js"))
}

/// `/session.js`: answered with the type of `js`.
pub fn get_sessionjs(data: Vec<u8>) -> (f: StaticFile)
    ensures
        f.data@ == data@,
        Some(f.content_type@) == extension_content_type("js"@),
        f.content_type@ == javascript_type(),
{
    StaticFile::new(data, frontend_type("js"))
}

/// `/audio.js`: answered with the type of `js`.
pub fn get_audiojs(data: Vec<u8>) -> (f: StaticFile)
    ensures
        f.data@ == data@,
        Some(f.content_type@) == extension_content_type("js"@),
        f.content_type@ == javascript_type(),
{
    StaticFile::new(data, frontend_type("js"))
}

/// `/app.css`: answered with the type of `css`.
pub fn get_appcss(data: Vec<u8>) -> (f: StaticFile)
    ensures
        f.data@ == data@,
        Some(f.content_type@) == extension_content_type("css"@),
        f.content_type@ == css_type(),
{
    StaticFile::new(data, frontend_type("css"))
}

/// `/vendor/roboto.css`: answered with the type of `css`.
pub fn get_robotocss(data: Vec<u8>) -> (f: StaticFile)
    ensures
        f.data@ == data@,
        Some(f.content_type@) == extension_content_type("css"@),
        f.content_type@ == css_type(),
{
    StaticFile::new(data, frontend_type("css"))
}

/// `/vendor/material.min.css`: answered with the type of `css`.
pub fn get_materialcss(data: Vec<u8>) -> (f: StaticFile)
    ensures
        f.data@ == data@,
        Some(f.content_type@) == extension_content_type("css"@),
        f.content_type@ == css_type(),
{
    StaticFile::new(data, frontend_type("css"))
}

} // verus!
