//! Uploaded pictures: content sniffing (only JPEG and PNG are accepted,
//! judged by the bytes, not the claimed name), the deterministic slugified
//! file name, and the paths and URLs a stored picture is kept and served
//! under.

use vstd::prelude::*;
use crate::errors::AppError;

verus! {

/// What `slug::slugify` yields for a string: its ascii slug. A function of
/// the string alone.
pub uninterp spec fn slug_of(s: Seq<char>) -> Seq<char>;

/// Relies on `slug::slugify`: a deterministic ascii slug of the string.
#[verifier::external_body]
pub(crate) fn slugify(s: &str) -> (r: String)
    ensures
        r@ == slug_of(s@),
{
    slug::slugify(s)
}

/// The three-byte JPEG signature.
pub open spec fn spec_is_jpeg(b: Seq<u8>) -> bool {
    b.len() > 2 && b[0] == 0xFF && b[1] == 0xD8 && b[2] == 0xFF
}

/// The four-byte PNG signature.
pub open spec fn spec_is_png(b: Seq<u8>) -> bool {
    b.len() > 3 && b[0] == 0x89 && b[1] == 0x50 && b[2] == 0x4E && b[3] == 0x47
}

/// Relies on `infer::image::is_jpeg`: true exactly on the three-byte JPEG
/// signature.
#[verifier::external_body]
pub(crate) fn sniff_jpeg(buf: &[u8]) -> (r: bool)
    ensures
        r == spec_is_jpeg(buf@),
{
    infer::image::is_jpeg(buf)
}

/// Relies on `infer::image::is_png`: true exactly on the four-byte PNG
/// signature.
#[verifier::external_body]
pub(crate) fn sniff_png(buf: &[u8]) -> (r: bool)
    ensures
        r == spec_is_png(buf@),
{
    infer::image::is_png(buf)
}

/// The index of the first `'.'` in the string, or its length where there is
/// none.
pub open spec fn first_dot(s: Seq<char>) -> int
    decreases s.len(),
{
    if s.len() == 0 {
        0
    } else if s[0] == '.' {
        0
    } else {
        1 + first_dot(s.drop_first())
    }
}

/// The index of the last `'.'` in the string, or `-1` where there is none.
pub open spec fn last_dot(s: Seq<char>) -> int
    decreases s.len(),
{
    if s.len() == 0 {
        -1
    } else if s[s.len() - 1] == '.' {
        s.len() - 1
    } else {
        last_dot(s.drop_last())
    }
}

/// What stands before the first dot — the whole name where there is none.
pub open spec fn spec_stem(s: Seq<char>) -> Seq<char> {
    s.take(first_dot(s))
}

/// What stands after the last dot — the whole name where there is none.
pub open spec fn spec_extension(s: Seq<char>) -> Seq<char> {
    s.skip(last_dot(s) + 1)
}

proof fn lemma_first_dot_at(s: Seq<char>, i: int)
    requires
        0 <= i <= s.len(),
        forall|j: int| 0 <= j < i ==> s[j] != '.',
        i < s.len() ==> s[i] == '.',
    ensures
        first_dot(s) == i,
    decreases i, s.len(),
{
    if s.len() == 0 {
    } else if i == 0 {
    } else {
        lemma_first_dot_at(s.drop_first(), i - 1);
    }
}

proof fn lemma_last_dot_at(s: Seq<char>, k: int)
    requires
        -1 <= k < s.len(),
        forall|j: int| k < j < s.len() ==> s[j] != '.',
        k >= 0 ==> s[k] == '.',
    ensures
        last_dot(s) == k,
    decreases s.len(),
{
    if s.len() == 0 {
    } else if s[s.len() - 1] == '.' {
        assert(k == s.len() - 1);
    } else {
        lemma_last_dot_at(s.drop_last(), k);
    }
}

/// The stored file name for an upload: the part before the first dot,
/// slugified, then a dot, then the part after the last dot, kept as it
/// came. A name with no dot stands in for both parts.
pub fn picture_file_name(name: &str) -> (r: String)
    ensures
        r@ == slug_of(spec_stem(name@)) + "."@ + spec_extension(name@),
{
    let len = name.unicode_len();
    let mut first: usize = 0;
    while first < len && name.get_char(first) != '.'
        invariant
            len == name@.len(),
            0 <= first <= len,
            forall|j: int| 0 <= j < first ==> name@[j] != '.',
        decreases len - first,
    {
        first = first + 1;
    }
    proof {
        lemma_first_dot_at(name@, first as int);
    }
    let mut k: usize = len;
    while k > 0 && name.get_char(k - 1) != '.'
        invariant
            len == name@.len(),
            0 <= k <= len,
            forall|j: int| k <= j < len ==> name@[j] != '.',
        decreases k,
    {
        k = k - 1;
    }
    proof {
        if k > 0 {
            lemma_last_dot_at(name@, k as int - 1);
        } else {
            lemma_last_dot_at(name@, -1);
        }
    }
    let stem = name.substring_char(0, first);
    let ext = name.substring_char(k, len);
    let slugged = slugify(stem);
    proof {
        assert(stem@ =~= spec_stem(name@));
        assert(ext@ =~= spec_extension(name@));
    }
    slugged.concat(".").concat(ext)
}

/// Accept an upload exactly when its bytes carry the JPEG or PNG
/// signature; everything else — a GIF renamed to `.png` included — is
/// `InvalidInput`, whatever the file claims to be called.
pub fn validate_picture(bytes: &[u8]) -> (r: Result<(), AppError>)
    ensures
        r is Ok <==> (spec_is_jpeg(bytes@) || spec_is_png(bytes@)),
        r is Err ==> r == Err::<(), AppError>(AppError::InvalidInput),
{
    if sniff_jpeg(bytes) {
        return Ok(());
    }
    if sniff_png(bytes) {
        return Ok(());
    }
    Err(AppError::InvalidInput)
}

/// The whole upload gate: a missing file name is
/// `InvalidInput`, the stored name is derived from the given one, and the
/// bytes must sniff as JPEG or PNG. Nothing is written and no row inserted
/// when this fails.
pub fn prepare_picture(file_name: &Option<String>, bytes: &[u8]) -> (r: Result<String, AppError>)
    ensures
        r is Err <==> (file_name is None || !(spec_is_jpeg(bytes@) || spec_is_png(bytes@))),
        r is Err ==> r == Err::<String, AppError>(AppError::InvalidInput),
        r matches Ok(n) ==> {
            &&& file_name matches Some(f) && n@ == slug_of(spec_stem(f@)) + "."@ + spec_extension(
                f@,
            )
            &&& spec_is_jpeg(bytes@) || spec_is_png(bytes@)
        },
    {
    let name = match file_name {
        None => {
            return Err(AppError::InvalidInput);
        },
        Some(f) => picture_file_name(f.as_str()),
    };
    match validate_picture(bytes) {
        Err(e) => Err(e),
        Ok(_) => Ok(name),
    }
}

/// Where a rental picture is written on disk.
pub fn rent_picture_path(file_name: &str) -> (r: String)
    ensures
        r@ == "./uploaded/rents/"@ + file_name@,
{
    String::from_str("./uploaded/rents/").concat(file_name)
}

/// The URL a rental picture is served back under.
pub fn rent_picture_url(host: &str, file_name: &str) -> (r: String)
    ensures
        r@ == host@ + "/rent-pictures/"@ + file_name@,
{
    String::from_str(host).concat("/rent-pictures/").concat(file_name)
}

/// Where a sale picture is written on disk.
pub fn sale_picture_path(file_name: &str) -> (r: String)
    ensures
        r@ == "./uploaded/sales/"@ + file_name@,
{
    String::from_str("./uploaded/sales/").concat(file_name)
}

/// The URL a sale picture is served back under.
pub fn sale_picture_url(host: &str, file_name: &str) -> (r: String)
    ensures
        r@ == host@ + "/sale-pictures/"@ + file_name@,
{
    String::from_str(host).concat("/sale-pictures/").concat(file_name)
}

} // verus!
