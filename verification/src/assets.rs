//! Static assets: content types and the response for a looked-up file.

use vstd::prelude::*;
use vstd::string::{StrSliceExecFns, StringSliceAdditionalSpecFns};
use vstd::utf8::encode_utf8_decode_utf8;

verus! {

/// The content type that belongs to a file extension.
pub open spec fn mime_type_of(ext: Option<Seq<char>>) -> Seq<char> {
    match ext {
        None => "text/plain"@,
        Some(e) => if e == "html"@ {
            "text/html"@
        } else if e == "css"@ {
            "text/css"@
        } else if e == "js"@ {
            "application/javascript"@
        } else if e == "wasm"@ {
            "application/wasm"@
        } else if e == "png"@ {
            "image/png"@
        } else if e == "ico"@ {
            "image/x-icon"@
        } else if e == "svg"@ {
            "image/svg+xml"@
        } else {
            "text/plain"@
        },
    }
}

/// The view of an optional string slice.
pub open spec fn opt_text(s: Option<&str>) -> Option<Seq<char>> {
    match s {
        Some(t) => Some(t@),
        None => None,
    }
}

/// Whether two string slices hold the same text.
pub fn same_text(a: &str, b: &str) -> (same: bool)
    ensures
        same == (a@ == b@),
{
    let x = a.as_bytes();
    let y = b.as_bytes();
    proof {
        // Equal texts have equal bytes, and equal bytes are read back as equal
        // texts.
        encode_utf8_decode_utf8(a@);
        encode_utf8_decode_utf8(b@);
    }
    if x.len() != y.len() {
        return false;
    }
    let mut i: usize = 0;
    while i < x.len()
        invariant
            i <= x@.len() == y@.len(),
            x@ == a.spec_bytes(),
            y@ == b.spec_bytes(),
            forall|j: int| 0 <= j < i ==> x@[j] == y@[j],
        decreases x@.len() - i,
    {
        if x[i] != y[i] {
            return false;
        }
        i = i + 1;
    }
    assert(x@ =~= y@);
    true
}

/// Chooses the content type for an optional file extension.
pub fn get_mime_type(ext: Option<&str>) -> (mime: &'static str)
    ensures
        mime@ == mime_type_of(opt_text(ext)),
{
    match ext {
        None => "text/plain",
        Some(ext) => {
            if same_text(ext, "html") {
                "text/html"
            } else if same_text(ext, "css") {
                "text/css"
            } else if same_text(ext, "js") {
                "application/javascript"
            } else if same_text(ext, "wasm") {
                "application/wasm"
            } else if same_text(ext, "png") {
                "image/png"
            } else if same_text(ext, "ico") {
                "image/x-icon"
            } else if same_text(ext, "svg") {
                "image/svg+xml"
            } else {
                "text/plain"
            }
        },
    }
}

/// The number of slashes that a path starts with.
pub open spec fn leading_slashes(path: Seq<char>) -> nat
    decreases path.len(),
{
    if path.len() > 0 && path[0] == '/' {
        1 + leading_slashes(path.drop_first())
    } else {
        0
    }
}

/// A path without the slashes that it starts with.
pub open spec fn without_leading_slashes(path: Seq<char>) -> Seq<char> {
    path.skip(leading_slashes(path) as int)
}

/// The slashes at the start of a path end at the first character that is none.
pub proof fn lemma_leading_slashes_end(path: Seq<char>, n: int)
    requires
        0 <= n <= path.len(),
        forall|j: int| 0 <= j < n ==> #[trigger] path[j] == '/',
        n == path.len() || path[n] != '/',
    ensures
        leading_slashes(path) == n,
    decreases n,
{
    if n > 0 {
        let rest = path.drop_first();
        assert forall|j: int| 0 <= j < n - 1 implies #[trigger] rest[j] == '/' by {
            assert(rest[j] == path[j + 1]);
        }
        lemma_leading_slashes_end(rest, n - 1);
    }
}

/// The path under which an asset is looked up: the requested path without the
/// slashes that it starts with.
pub fn asset_path(path: &str) -> (trimmed: &str)
    ensures
        trimmed@ == without_leading_slashes(path@),
{
    let len = path.unicode_len();
    let mut n: usize = 0;
    while n < len && path.get_char(n) == '/'
        invariant
            n <= len == path@.len(),
            forall|j: int| 0 <= j < n ==> #[trigger] path@[j] == '/',
        decreases len - n,
    {
        n = n + 1;
    }
    proof {
        lemma_leading_slashes_end(path@, n as int);
    }
    path.substring_char(n, len)
}

/// Whether a character ends the search for a file name's last dot: a dot, or the
/// slash before the file name.
pub open spec fn is_mark(c: char) -> bool {
    c == '.' || c == '/'
}

/// The place of the last dot or slash of a path; -1 where it has neither.
pub open spec fn last_mark(path: Seq<char>) -> int
    decreases path.len(),
{
    if path.len() == 0 {
        -1
    } else if is_mark(path.last()) {
        path.len() - 1
    } else {
        last_mark(path.drop_last())
    }
}

/// The extension of a file's path: what follows the last dot of the file name.
/// A file name without a dot has none, nor has one whose only dot is its first
/// character, nor the name `..`.
pub open spec fn extension_of(path: Seq<char>) -> Option<Seq<char>> {
    let dot = last_mark(path);
    if dot < 0 || path[dot] == '/' {
        None
    } else if dot == 0 || path[dot - 1] == '/' {
        None
    } else if dot == path.len() - 1 && path[dot - 1] == '.' && (dot == 1 || path[dot - 2] == '/') {
        None
    } else {
        Some(path.skip(dot + 1))
    }
}

/// The last dot or slash is the one that no dot or slash follows.
pub proof fn lemma_last_mark_found(path: Seq<char>, n: int)
    requires
        0 <= n <= path.len(),
        forall|j: int| n <= j < path.len() ==> !is_mark(#[trigger] path[j]),
        n == 0 || is_mark(path[n - 1]),
    ensures
        last_mark(path) == n - 1,
    decreases path.len() - n,
{
    if n < path.len() {
        let front = path.drop_last();
        assert(!is_mark(path[path.len() - 1]));
        assert forall|j: int| n <= j < front.len() implies !is_mark(#[trigger] front[j]) by {
            assert(front[j] == path[j]);
        }
        lemma_last_mark_found(front, n);
    }
}

/// The extension of a file's path.
pub fn asset_extension(path: &str) -> (ext: Option<&str>)
    ensures
        opt_text(ext) == extension_of(path@),
{
    let len = path.unicode_len();
    let mut n: usize = len;
    while n > 0 && path.get_char(n - 1) != '.' && path.get_char(n - 1) != '/'
        invariant
            n <= len == path@.len(),
            forall|j: int| n <= j < len ==> !is_mark(#[trigger] path@[j]),
        decreases n,
    {
        n = n - 1;
    }
    proof {
        lemma_last_mark_found(path@, n as int);
    }
    if n == 0 || path.get_char(n - 1) == '/' {
        return None;
    }
    let dot: usize = n - 1;
    if dot == 0 || path.get_char(dot - 1) == '/' {
        return None;
    }
    if dot == len - 1 && path.get_char(dot - 1) == '.' && (dot == 1 || path.get_char(dot - 2)
        == '/') {
        return None;
    }
    let ext = path.substring_char(n, len);
    assert(ext@ == path@.skip(dot + 1));
    Some(ext)
}

/// A file of the embedded asset tree: the path under which the tree holds it,
/// and its bytes.
#[derive(Clone, Copy, Debug, PartialEq, Eq)]
pub struct AssetFile<'a> {
    pub path: &'a str,
    pub contents: &'a [u8],
}

/// What is served for an asset: a content type and a body.
#[derive(Clone, Copy, Debug, PartialEq, Eq)]
pub struct AssetResponse<'a> {
    pub content_type: &'static str,
    pub body: &'a [u8],
}

/// The response for an asset that was looked up. A file is served as it is, with
/// the content type of its extension. Where no file was found, the body is the
/// text `Not Found` with the content type `text/html`.
pub fn get_static_asset<'a>(file: Option<AssetFile<'a>>) -> (response: AssetResponse<'a>)
    ensures
        match file {
            Some(f) => {
                &&& response.content_type@ == mime_type_of(extension_of(f.path@))
                &&& response.body@ == f.contents@
            },
            None => {
                &&& response.content_type@ == "text/html"@
                &&& response.body@ == "Not Found".spec_bytes()
            },
        },
{
    match file {
        None => AssetResponse { content_type: "text/html", body: "Not Found".as_bytes() },
        Some(f) => {
            let ext = asset_extension(f.path);
            AssetResponse { content_type: get_mime_type(ext), body: f.contents }
        },
    }
}

} // verus!
