//! File-upload payloads and the multipart form they ride in. Reading a
//! file is the caller's business; this module owns what can be said of
//! the result: the upload's name is the path's final component, its type
//! is guessed from the path text, and its bytes are carried untouched.

use vstd::prelude::*;
use crate::text::{chars_to_string, str_to_chars};

verus! {

/// File data for one upload: a name, the raw content, and an optional
/// MIME type.
#[derive(Debug, Clone, PartialEq, Default)]
pub struct FileUpload {
    pub filename: String,
    pub content: Vec<u8>,
    pub mime_type: Option<String>,
}

/// The characters of `s` after its last slash; all of `s` when it holds
/// no slash.
pub open spec fn spec_last_segment(s: Seq<char>) -> Seq<char>
    decreases s.len(),
{
    if s.len() == 0 {
        s
    } else if s.last() == '/' {
        Seq::empty()
    } else {
        spec_last_segment(s.drop_last()).push(s.last())
    }
}

/// Whether `s` ends in a lone-dot segment: a final `.` that is the whole
/// path or follows a slash.
pub open spec fn spec_ends_in_dot_segment(s: Seq<char>) -> bool {
    s.len() > 0 && s.last() == '.' && (s.len() == 1 || s[s.len() - 2] == '/')
}

/// The final component of a path: trailing slashes and lone-dot segments
/// are ignored, and there is no final component when nothing remains or
/// when the last segment is the parent-directory token.
pub open spec fn spec_file_name(s: Seq<char>) -> Option<Seq<char>>
    decreases s.len(),
{
    if s.len() == 0 {
        None
    } else if s.last() == '/' {
        spec_file_name(s.drop_last())
    } else if spec_ends_in_dot_segment(s) {
        spec_file_name(s.drop_last())
    } else if spec_last_segment(s) == ".."@ {
        None
    } else {
        Some(spec_last_segment(s))
    }
}

/// The name an upload takes from its path: the final component, or
/// `file` when the path has none.
pub open spec fn spec_upload_filename(s: Seq<char>) -> Seq<char> {
    match spec_file_name(s) {
        Some(n) => n,
        None => "file"@,
    }
}

/// The MIME type that a guess from a path's text yields, if any: a
/// function of the path alone.
pub uninterp spec fn spec_guessed_mime(path: Seq<char>) -> Option<Seq<char>>;

/// Relies on mime_guess::from_path: the first guess for a path depends
/// on the path text alone, and is rendered to its canonical text.
#[verifier::external_body]
fn guess_mime_type(path: &str) -> (r: Option<String>)
    ensures
        r.deep_view() == spec_guessed_mime(path@),
{
    mime_guess::from_path(path).first().map(|m| m.to_string())
}

/// The final component of `path`, per the rules of `spec_file_name`.
fn file_name_of(path: &str) -> (r: Option<String>)
    ensures
        r.deep_view() == spec_file_name(path@),
{
    let v = str_to_chars(path);
    let mut e: usize = v.len();
    proof {
        assert(v@.take(e as int) =~= v@);
    }
    loop
        invariant
            e <= v@.len(),
            spec_file_name(path@) == spec_file_name(v@.take(e as int)),
        ensures
            e <= v@.len(),
            spec_file_name(path@) == spec_file_name(v@.take(e as int)),
            e > 0 ==> v@[e - 1] != '/' && !spec_ends_in_dot_segment(v@.take(e as int)),
        decreases e,
    {
        if e > 0 && v[e - 1] == '/' {
            proof {
                assert(v@.take(e as int).drop_last() =~= v@.take(e - 1));
            }
            e = e - 1;
        } else if e > 0 && v[e - 1] == '.' && (e == 1 || v[e - 2] == '/') {
            proof {
                assert(spec_ends_in_dot_segment(v@.take(e as int)));
                assert(v@.take(e as int).drop_last() =~= v@.take(e - 1));
            }
            e = e - 1;
        } else {
            break ;
        }
    }
    if e == 0 {
        proof {
            assert(v@.take(0) =~= Seq::<char>::empty());
        }
        return None;
    }
    let mut b: usize = e;
    proof {
        assert(spec_last_segment(v@.take(e as int)) =~= spec_last_segment(v@.take(e as int))
            + v@.subrange(e as int, e as int));
    }
    while b > 0 && v[b - 1] != '/'
        invariant
            b <= e,
            e <= v@.len(),
            spec_last_segment(v@.take(e as int)) == spec_last_segment(v@.take(b as int))
                + v@.subrange(b as int, e as int),
        decreases b,
    {
        proof {
            assert(v@.take(b as int).drop_last() =~= v@.take(b - 1));
            assert(spec_last_segment(v@.take(b as int)) == spec_last_segment(
                v@.take(b - 1),
            ).push(v@[b - 1]));
            assert(spec_last_segment(v@.take(b - 1)).push(v@[b - 1]) + v@.subrange(
                b as int,
                e as int,
            ) =~= spec_last_segment(v@.take(b - 1)) + v@.subrange(b - 1, e as int));
        }
        b = b - 1;
    }
    proof {
        if b == 0 {
            assert(v@.take(0) =~= Seq::<char>::empty());
            assert(spec_last_segment(v@.take(0)) + v@.subrange(0, e as int) =~= v@.subrange(
                0,
                e as int,
            ));
        } else {
            assert(v@.take(b as int).last() == '/');
            assert(spec_last_segment(v@.take(b as int)) + v@.subrange(b as int, e as int)
                =~= v@.subrange(b as int, e as int));
        }
    }
    let seg_len = e - b;
    if seg_len == 2 && v[b] == '.' && v[b + 1] == '.' {
        proof {
            reveal_strlit("..");
            assert(v@.subrange(b as int, e as int) =~= ".."@);
        }
        return None;
    }
    let mut seg: Vec<char> = Vec::new();
    let mut j: usize = b;
    while j < e
        invariant
            b <= j <= e,
            e <= v@.len(),
            seg@ == v@.subrange(b as int, j as int),
        decreases e - j,
    {
        seg.push(v[j]);
        j = j + 1;
        proof {
            assert(seg@ =~= v@.subrange(b as int, j as int));
        }
    }
    proof {
        reveal_strlit("..");
        assert(v@.subrange(b as int, e as int) != ".."@) by {
            if v@.subrange(b as int, e as int) == ".."@ {
                assert(".."@.len() == 2);
                assert(v@.subrange(b as int, e as int)[0] == ".."@[0]);
                assert(v@.subrange(b as int, e as int)[1] == ".."@[1]);
                assert(v@[b as int] == '.');
                assert(v@[b + 1] == '.');
            }
        }
    }
    Some(chars_to_string(&seg))
}

impl FileUpload {
    /// Builds an upload from its parts, carried exactly as given.
    pub fn from_bytes(filename: String, content: Vec<u8>, mime_type: Option<String>) -> (u:
        FileUpload)
        ensures
            u.filename == filename,
            u.content == content,
            u.mime_type == mime_type,
    {
        FileUpload { filename, content, mime_type }
    }

    /// Builds the upload for a file whose bytes were read from `path`:
    /// the name is the path's final component (or `file` when it has
    /// none), the type is guessed from the path text, and the content is
    /// carried untouched.
    pub fn from_read(path: &str, content: Vec<u8>) -> (u: FileUpload)
        ensures
            u.filename@ == spec_upload_filename(path@),
            u.content == content,
            u.mime_type.deep_view() == spec_guessed_mime(path@),
    {
        let filename = match file_name_of(path) {
            Some(n) => n,
            None => "file".to_owned(),
        };
        let mime_type = guess_mime_type(path);
        FileUpload::from_bytes(filename, content, mime_type)
    }
}

/// One part of a multipart form: a text field or a file.
#[derive(Debug, Clone, PartialEq)]
pub enum MultipartPart {
    /// A plain text field.
    Text(String),
    /// A file payload.
    File(FileUpload),
}

/// An ordered multipart payload: named parts, kept in the order added.
#[derive(Debug, Clone, PartialEq)]
pub struct MultipartForm {
    pub parts: Vec<(String, MultipartPart)>,
}

impl MultipartForm {
    /// An empty form.
    pub fn new() -> (f: MultipartForm)
        ensures
            f.parts@.len() == 0,
    {
        MultipartForm { parts: Vec::new() }
    }

    /// Appends a text part under `name`.
    pub fn add_text(&mut self, name: String, value: String)
        ensures
            final(self).parts@ == old(self).parts@.push((name, MultipartPart::Text(value))),
    {
        self.parts.push((name, MultipartPart::Text(value)));
    }

    /// Appends a file part under `name`.
    pub fn add_file(&mut self, name: String, file: FileUpload)
        ensures
            final(self).parts@ == old(self).parts@.push((name, MultipartPart::File(file))),
    {
        self.parts.push((name, MultipartPart::File(file)));
    }
}

} // verus!
