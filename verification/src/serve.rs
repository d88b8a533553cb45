use vstd::prelude::*;

use crate::name_table::view_opt;
use vstd::string::StringSliceAdditionalSpecFns;
use crate::path_guard::{determine_font_mime_type, is_servable, is_valid_path, mime_of};

verus! {

/// One HTTP response of the font-streaming endpoint: its status code, its
/// content type when one is announced, and its body bytes.
pub struct HttpReply {
    pub status: u16,
    pub content_type: Option<String>,
    pub body: Vec<u8>,
}

/// The mathematical shape of an `HttpReply`.
pub ghost struct HttpReplyView {
    pub status: u16,
    pub content_type: Option<Seq<char>>,
    pub body: Seq<u8>,
}

impl View for HttpReply {
    type V = HttpReplyView;

    open spec fn view(&self) -> HttpReplyView {
        HttpReplyView {
            status: self.status,
            content_type: view_opt(self.content_type),
            body: self.body@,
        }
    }
}

/// What the endpoint decides before any file is touched: answer at once,
/// or go on to read the file at a validated path and announce a MIME type.
pub enum ServeStep {
    Reply(HttpReply),
    ReadFile(String, String),
}

/// The first half of serving a font file: decide from the request's
/// optional `path` parameter alone. A missing parameter is refused with
/// status 400 and body `Missing file path`; a path that the guard rejects
/// is refused with status 400 and body `Invalid file path`; a servable
/// path is passed on together with its MIME type.
pub fn serve_font_start(path_param: Option<&String>) -> (r: ServeStep)
    ensures
        match path_param {
            None => r matches ServeStep::Reply(rep) && rep.status == 400 && rep.content_type
                is None && rep.body@ == "Missing file path".spec_bytes(),
            Some(p) => if is_servable(p@) {
                r matches ServeStep::ReadFile(q, m) && q@ == p@ && m@ == mime_of(p@)
            } else {
                r matches ServeStep::Reply(rep) && rep.status == 400 && rep.content_type is None
                    && rep.body@ == "Invalid file path".spec_bytes()
            },
        },
{
    match path_param {
        None => ServeStep::Reply(
            HttpReply {
                status: 400,
                content_type: None,
                body: "Missing file path".as_bytes_vec(),
            },
        ),
        Some(p) => {
            if is_valid_path(p.as_str()) {
                let mime = determine_font_mime_type(p.as_str());
                ServeStep::ReadFile(p.clone(), mime.to_owned())
            } else {
                ServeStep::Reply(
                    HttpReply {
                        status: 400,
                        content_type: None,
                        body: "Invalid file path".as_bytes_vec(),
                    },
                )
            }
        },
    }
}

/// How reading a validated file went: its bytes, a failure to open it,
/// or a failure while reading after a successful open.
pub enum FileOutcome {
    Content(Vec<u8>),
    NotFound,
    ReadFailed,
}

/// The second half of serving a font file: turn the outcome of reading
/// the validated file into the response. A file that could not be opened
/// is answered with status 404 and body `File not found`; one that failed
/// mid-read with status 500; otherwise the bytes are returned as they
/// are, with status 200 and the announced MIME type.
pub fn serve_font_finish(mime: String, outcome: FileOutcome) -> (r: HttpReply)
    ensures
        match outcome {
            FileOutcome::Content(bytes) => r.status == 200 && view_opt(r.content_type) == Some(
                mime@,
            ) && r.body@ == bytes@,
            FileOutcome::NotFound => r.status == 404 && r.content_type is None && r.body@
                == "File not found".spec_bytes(),
            FileOutcome::ReadFailed => r.status == 500 && r.content_type is None && r.body@
                == "Failed to read file".spec_bytes(),
        },
{
    match outcome {
        FileOutcome::Content(bytes) => HttpReply {
            status: 200,
            content_type: Some(mime),
            body: bytes,
        },
        FileOutcome::NotFound => HttpReply {
            status: 404,
            content_type: None,
            body: "File not found".as_bytes_vec(),
        },
        FileOutcome::ReadFailed => HttpReply {
            status: 500,
            content_type: None,
            body: "Failed to read file".as_bytes_vec(),
        },
    }
}

} // verus!
