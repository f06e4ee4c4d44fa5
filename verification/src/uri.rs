use vstd::prelude::*;

verus! {

/// The `file:` URL that `url::Url::from_file_path` makes of an absolute path.
pub uninterp spec fn file_uri_of(path: Seq<char>) -> Seq<char>;

/// Whether `path` is absolute on this platform: it starts at the root.
pub open spec fn is_absolute_path(path: Seq<char>) -> bool {
    path.len() > 0 && path[0] == '/'
}

/// Calls `url::Url::from_file_path` and gives back the URL's text. Its source
/// fails exactly on paths that are not absolute (on Unix: that do not start with
/// `/`), and builds the URL by appending the percent-encoded path components to
/// `file://`; the full text is named `file_uri_of`.
#[verifier::external_body]
pub(crate) fn file_uri(path: &str) -> (r: Option<String>)
    ensures
        r is Some <==> is_absolute_path(path@),
        r matches Some(u) ==> u@ == file_uri_of(path@) && u@.len() >= 7 && u@.subrange(0, 7)
            == "file://"@,
{
    match url::Url::from_file_path(path) {
        Ok(u) => Some(u.as_str().to_owned()),
        Err(()) => None,
    }
}

/// The local path that `url::Url::to_file_path` gives for the URL that
/// `url::Url::parse` reads from `uri`, as text, with any bytes that are not UTF-8
/// replaced by U+FFFD (`to_string_lossy`); `None` when the text is no URL or the
/// URL names no local file.
pub uninterp spec fn file_path_of(uri: Seq<char>) -> Option<Seq<char>>;

/// Parses `uri` with `url::Url::parse` and converts it with `to_file_path`, giving
/// the path back as text (`to_string_lossy`). On Unix the result is the
/// percent-decoded path segments joined by `/`, a function of the text alone,
/// named `file_path_of`; it fails exactly when parsing fails or when the URL has a
/// host other than `localhost` or no path segments. (`to_file_path` reserves its
/// buffer fallibly, but the buffer is bounded by the URL's length, so only running
/// out of memory could refuse it.)
#[verifier::external_body]
pub(crate) fn uri_to_file_path(uri: &str) -> (r: Option<String>)
    ensures
        r matches Some(p) ==> file_path_of(uri@) == Some(p@),
        file_path_of(uri@) is None ==> r is None,
        file_path_of(uri@) is Some ==> r is Some,
{
    match url::Url::parse(uri) {
        Ok(u) => match u.to_file_path() {
            Ok(p) => Some(p.to_string_lossy().into_owned()),
            Err(()) => None,
        },
        Err(_) => None,
    }
}

/// Whether `std::path::Path` counts `a` and `b` as the same path: it compares
/// their components, so repeated separators, `.` components other than a leading
/// one, and a trailing separator make no difference.
pub uninterp spec fn same_path_of(a: Seq<char>, b: Seq<char>) -> bool;

/// Compares two paths with `Path`'s `==`, which compares their components and is
/// a function of the two texts, named `same_path_of`. `Path` is `Eq`, so a text is
/// the same path as itself.
#[verifier::external_body]
pub(crate) fn same_path(a: &str, b: &str) -> (r: bool)
    ensures
        r == same_path_of(a@, b@),
        a@ == b@ ==> r,
{
    std::path::Path::new(a) == std::path::Path::new(b)
}

} // verus!
