//! Uploaded media files: where a file and its thumbnails live on disk and
//! under which URLs they are served.
use vstd::prelude::*;
use crate::text::{
    dec_int, from_chars, is_prefix, push_i64, push_str, push_chars, rfind_char,
    slice_chars, starts_with, string_of, to_chars,
};

verus! {

/// The MD5 digest of a byte string, as the `md5` crate computes it.
pub uninterp spec fn md5_digest(data: Seq<u8>) -> Seq<u8>;

/// `md5::compute`: the MD5 digest of `data`. The contract names the digest
/// and states its length, sixteen bytes, which the type of `md5::Digest`
/// fixes; the digest itself is not restated.
#[verifier::external_body]
fn md5_compute(data: &[u8]) -> (r: Vec<u8>)
    ensures
        r@ == md5_digest(data@),
        r@.len() == 16,
{
    md5::compute(data).0.to_vec()
}

/// The lower-case hexadecimal digit for `d < 16`.
pub open spec fn hex_digit(d: int) -> char {
    if d < 10 {
        (48 + d) as char
    } else {
        (87 + d) as char
    }
}

/// The lower-case hexadecimal rendering of bytes, two digits per byte, as
/// `{:x}` writes an `md5::Digest`.
pub open spec fn hex_lower(bytes: Seq<u8>) -> Seq<char>
    decreases bytes.len(),
{
    if bytes.len() == 0 {
        Seq::empty()
    } else {
        hex_lower(bytes.drop_last()).push(hex_digit(bytes.last() as int / 16)).push(
            hex_digit(bytes.last() as int % 16),
        )
    }
}

fn hex_char(d: u8) -> (c: char)
    requires
        d < 16,
    ensures
        c == hex_digit(d as int),
{
    if d < 10 {
        (48u8 + d) as char
    } else {
        (87u8 + d) as char
    }
}

fn to_hex(bytes: &[u8]) -> (s: String)
    ensures
        s@ == hex_lower(bytes@),
{
    let mut s = String::new();
    let mut i: usize = 0;
    assert(bytes@.take(0) =~= Seq::<u8>::empty());
    while i < bytes.len()
        invariant
            i <= bytes@.len(),
            s@ == hex_lower(bytes@.take(i as int)),
        decreases bytes@.len() - i,
    {
        let b = bytes[i];
        crate::text::push_char(&mut s, hex_char(b / 16));
        crate::text::push_char(&mut s, hex_char(b % 16));
        assert(bytes@.take(i + 1).drop_last() =~= bytes@.take(i as int));
        i = i + 1;
    }
    assert(bytes@.take(bytes@.len() as int) =~= bytes@);
    s
}

/// `s` without all its leading `c` characters.
pub open spec fn trim_start_char(s: Seq<char>, c: char) -> Seq<char>
    decreases s.len(),
{
    if s.len() > 0 && s[0] == c {
        trim_start_char(s.drop_first(), c)
    } else {
        s
    }
}

/// Joining a relative or absolute Unix path onto a base, as `Path::join`
/// does: an absolute path replaces the base, otherwise a separator is put
/// between them unless the base is empty or already ends with one.
pub open spec fn path_join(base: Seq<char>, p: Seq<char>) -> Seq<char> {
    if p.len() > 0 && p[0] == '/' {
        p
    } else if base.len() == 0 || base.last() == '/' {
        base + p
    } else {
        base + "/"@ + p
    }
}

fn join_path(base: &str, p: &str) -> (r: String)
    ensures
        r@ == path_join(base@, p@),
{
    let pc = to_chars(p);
    let bc = to_chars(base);
    if pc.len() > 0 && pc[0] == '/' {
        return string_of(p);
    }
    let mut r = string_of(base);
    if !(bc.len() == 0 || bc[bc.len() - 1] == '/') {
        push_str(&mut r, "/");
    }
    push_str(&mut r, p);
    r
}

/// The part of a file name before its last `.`, or all of it.
pub open spec fn base_name(f: Seq<char>) -> Seq<char> {
    if exists|i: int| 0 <= i < f.len() && f[i] == '.' {
        f.take(choose|i: int| last_dot(f, i))
    } else {
        f
    }
}

/// The part of a file name after its last `.`, or `jpg`.
pub open spec fn extension(f: Seq<char>) -> Seq<char> {
    if exists|i: int| 0 <= i < f.len() && f[i] == '.' {
        f.skip((choose|i: int| last_dot(f, i)) + 1)
    } else {
        "jpg"@
    }
}

/// The last `.` of `f` is at `i`.
pub open spec fn last_dot(f: Seq<char>, i: int) -> bool {
    0 <= i < f.len() && f[i] == '.' && forall|k: int| i < k < f.len() ==> f[k] != '.'
}

/// The file name of a thumbnail of `filename`: `base-WxH.ext`, or
/// `base-WxH-crop.ext` for a cropped one.
pub open spec fn thumbnail_filename(filename: Seq<char>, width: int, height: int, crop: bool) -> Seq<
    char,
> {
    base_name(filename) + "-"@ + dec_int(width) + "x"@ + dec_int(height) + (if crop {
        "-crop."@
    } else {
        "."@
    }) + extension(filename)
}

/// An uploaded file.
#[derive(Debug, Clone)]
pub struct Media {
    pub id: i32,
    pub filename: String,
    pub original_filename: String,
    pub file_path: String,
    pub mime_type: String,
    pub file_size: i64,
    pub width: Option<i32>,
    pub height: Option<i32>,
    pub uploaded_by: Option<i32>,
    pub title: Option<String>,
    pub alt_text: Option<String>,
    pub caption: Option<String>,
    pub is_public: bool,
}

/// Where an uploaded file is kept: its stored path, made relative, under
/// `public`.
pub open spec fn original_path_of(m: Media) -> Seq<char> {
    path_join("public"@, trim_start_char(m.file_path@, '/'))
}

/// The directory name of a file's thumbnails: the MD5 of its path, in hex.
pub open spec fn path_hash_of(m: Media) -> Seq<char> {
    hex_lower(md5_digest(vstd::utf8::encode_utf8(original_path_of(m))))
}

/// The directory that holds a file's thumbnails.
pub open spec fn media_root_of(m: Media) -> Seq<char> {
    path_join("public/media/images/default"@, path_hash_of(m))
}

/// The URL of a thumbnail file of a media file.
pub open spec fn media_url_of(m: Media, thumb: Seq<char>) -> Seq<char> {
    "/media/images/"@ + "default"@ + "/"@ + path_hash_of(m) + "/"@ + thumb
}

/// The URL the file itself is served under.
pub open spec fn url_of(m: Media) -> Seq<char> {
    "/uploads/tus/"@ + m.filename@
}

/// Whether the file is an image: its MIME type starts with `image/`.
pub open spec fn is_image_media(m: Media) -> bool {
    is_prefix("image/"@, m.mime_type@)
}

/// The URL of a thumbnail, 300 pixels a side by default; a file that is not
/// an image is served as itself.
pub open spec fn thumbnail_url_of(m: Media, width: Option<i32>, height: Option<i32>, crop: bool) -> Seq<
    char,
> {
    if !is_image_media(m) {
        url_of(m)
    } else {
        let w = match width {
            Some(w) => w as int,
            None => 300,
        };
        let h = match height {
            Some(h) => h as int,
            None => 300,
        };
        media_url_of(m, thumbnail_filename(m.filename@, w, h, crop))
    }
}

fn trim_leading_slashes(s: &str) -> (r: String)
    ensures
        r@ == trim_start_char(s@, '/'),
{
    let v = to_chars(s);
    let mut i: usize = 0;
    assert(v@.skip(0) =~= v@);
    while i < v.len() && v[i] == '/'
        invariant
            i <= v@.len(),
            trim_start_char(v@, '/') == trim_start_char(v@.skip(i as int), '/'),
        decreases v@.len() - i,
    {
        assert(v@.skip(i as int).drop_first() =~= v@.skip(i + 1));
        i = i + 1;
    }
    let t = slice_chars(v.as_slice(), i, v.len());
    assert(t@ =~= v@.skip(i as int));
    from_chars(t.as_slice())
}

impl Media {
    /// Whether the file is an image.
    pub fn is_image(&self) -> (r: bool)
        ensures
            r == is_image_media(*self),
    {
        let v = to_chars(self.mime_type.as_str());
        starts_with(v.as_slice(), "image/")
    }

    /// The storage disk of the file.
    pub fn disk(&self) -> (r: &'static str)
        ensures
            r@ == "default"@,
    {
        "default"
    }

    /// Where the uploaded file is kept (a Unix path).
    pub fn original_path(&self) -> (r: String)
        ensures
            r@ == original_path_of(*self),
    {
        let rel = trim_leading_slashes(self.file_path.as_str());
        join_path("public", rel.as_str())
    }

    /// The MD5 of the file's path, in lower-case hex.
    pub fn path_hash(&self) -> (r: String)
        ensures
            r@ == path_hash_of(*self),
    {
        let path = self.original_path();
        let digest = md5_compute(path.as_str().as_bytes());
        to_hex(digest.as_slice())
    }

    /// The directory that holds the file's thumbnails.
    pub fn media_root(&self) -> (r: String)
        ensures
            r@ == media_root_of(*self),
    {
        let h = self.path_hash();
        join_path("public/media/images/default", h.as_str())
    }

    /// The URL the file is served under.
    pub fn get_url(&self) -> (r: String)
        ensures
            r@ == url_of(*self),
    {
        let mut s = string_of("/uploads/tus/");
        push_str(&mut s, self.filename.as_str());
        s
    }

    /// The URL of the thumbnail file `thumb_filename` of this file.
    pub fn get_media_url(&self, thumb_filename: &str) -> (r: String)
        ensures
            r@ == media_url_of(*self, thumb_filename@),
    {
        let mut s = string_of("/media/images/");
        push_str(&mut s, self.disk());
        push_str(&mut s, "/");
        let h = self.path_hash();
        push_str(&mut s, h.as_str());
        push_str(&mut s, "/");
        push_str(&mut s, thumb_filename);
        s
    }

    /// The URL of a thumbnail of the given size (300 by default).
    pub fn get_thumbnail_url(&self, width: Option<i32>, height: Option<i32>, crop: bool) -> (r:
        String)
        ensures
            r@ == thumbnail_url_of(*self, width, height, crop),
    {
        if !self.is_image() {
            return self.get_url();
        }
        let w = match width {
            Some(w) => w,
            None => 300,
        };
        let h = match height {
            Some(h) => h,
            None => 300,
        };
        let thumb = self.generate_thumbnail_filename(w, h, crop);
        self.get_media_url(thumb.as_str())
    }

    /// The file name of a thumbnail of the given size.
    pub fn generate_thumbnail_filename(&self, width: i32, height: i32, crop: bool) -> (r: String)
        ensures
            r@ == thumbnail_filename(self.filename@, width as int, height as int, crop),
    {
        let f = to_chars(self.filename.as_str());
        let n = f.len();
        let (base, ext) = match rfind_char(f.as_slice(), '.') {
            Some(i) => {
                assert(i < n);
                assert(last_dot(f@, i as int));
                let ghost j = choose|j: int| last_dot(f@, j);
                assert(j == i as int) by {
                    if j < i {
                        assert(f@[i as int] != '.');
                    } else if i < j {
                        assert(f@[j] != '.');
                    }
                }
                assert(exists|k: int| 0 <= k < f@.len() && f@[k] == '.');
                let b = slice_chars(f.as_slice(), 0, i);
                let e = slice_chars(f.as_slice(), i + 1, n);
                assert(b@ =~= base_name(f@));
                assert(e@ =~= extension(f@));
                (b, e)
            },
            None => {
                assert(!exists|k: int| 0 <= k < f@.len() && f@[k] == '.');
                (f.clone(), to_chars("jpg"))
            },
        };
        let mut s = from_chars(base.as_slice());
        push_str(&mut s, "-");
        push_i64(&mut s, width as i64);
        push_str(&mut s, "x");
        push_i64(&mut s, height as i64);
        if crop {
            push_str(&mut s, "-crop.");
        } else {
            push_str(&mut s, ".");
        }
        push_chars(&mut s, ext.as_slice());
        s
    }

    /// Where a thumbnail of the given size is kept (a Unix path).
    pub fn get_thumbnail_path(&self, width: i32, height: i32, crop: bool) -> (r: String)
        ensures
            r@ == path_join(
                media_root_of(*self),
                thumbnail_filename(self.filename@, width as int, height as int, crop),
            ),
    {
        let thumb = self.generate_thumbnail_filename(width, height, crop);
        let root = self.media_root();
        join_path(root.as_str(), thumb.as_str())
    }
}

/// For an image, a missing width or height is 300 pixels, whatever the
/// other one is; a given size is used as given.
pub proof fn law_thumbnail_default_size(m: Media, width: Option<i32>, height: Option<i32>, crop: bool)
    requires
        is_image_media(m),
    ensures
        thumbnail_url_of(m, width, None, crop) == thumbnail_url_of(m, width, Some(300i32), crop),
        thumbnail_url_of(m, None, height, crop) == thumbnail_url_of(m, Some(300i32), height, crop),
        forall|w: i32, h: i32|
            #[trigger] thumbnail_url_of(m, Some(w), Some(h), crop) == media_url_of(
                m,
                thumbnail_filename(m.filename@, w as int, h as int, crop),
            ),
{
}

/// A file that is not an image has no thumbnails: whatever size is asked
/// for, its thumbnail URL is the URL of the file itself.
pub proof fn law_non_image_thumbnail(m: Media, width: Option<i32>, height: Option<i32>, crop: bool)
    requires
        !is_image_media(m),
    ensures
        thumbnail_url_of(m, width, height, crop) == url_of(m),
{
}

/// The thumbnail of `base.ext` (one dot) of size `w` by `h` is named
/// `base-wxh.ext`, or `base-wxh-crop.ext` when cropped.
pub proof fn law_thumbnail_name(base: Seq<char>, ext: Seq<char>, w: int, h: int, crop: bool)
    requires
        !base.contains('.'),
        !ext.contains('.'),
    ensures
        thumbnail_filename(base + "."@ + ext, w, h, crop) == base + "-"@ + dec_int(w) + "x"@
            + dec_int(h) + (if crop {
            "-crop."@
        } else {
            "."@
        }) + ext,
{
    reveal_strlit(".");
    let f = base + "."@ + ext;
    let d = base.len() as int;
    assert(f[d] == '.');
    assert forall|k: int| d < k < f.len() implies f[k] != '.' by {
        assert(f[k] == ext[k - d - 1]);
        if f[k] == '.' {
            assert(ext.contains('.'));
        }
    }
    assert(last_dot(f, d));
    let c = choose|i: int| last_dot(f, i);
    if c < d {
        assert(f[c] == base[c]);
        assert(base.contains('.'));
    }
    assert(c == d);
    assert(f.take(d) =~= base);
    assert(f.skip(d + 1) =~= ext);
}

} // verus!
