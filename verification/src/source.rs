//! Where the aria2c tarball comes from.

use crate::text::{after, skip_chars, starts_with, str_eq};
use crate::weburl::{parse_url, url_parsed};
use vstd::prelude::*;

verus! {

/// Source of the tarball that holds the statically linked `aria2c` binary.
///
/// Whatever the source, the bytes it yields are a gzip-compressed tar
/// archive.
#[derive(Debug, PartialEq, Eq)]
pub enum AriaSource {
    /// The tarball bundled into the wrapper itself.
    Embedded,
    /// A URL to fetch when installing, as its serialised text.
    Url(String),
    /// A file to read when installing.
    File(String),
}

/// Mathematical value of an [`AriaSource`].
pub enum AriaSourceView {
    Embedded,
    Url(Seq<char>),
    File(Seq<char>),
}

impl View for AriaSource {
    type V = AriaSourceView;

    open spec fn view(&self) -> AriaSourceView {
        match self {
            AriaSource::Embedded => AriaSourceView::Embedded,
            AriaSource::Url(url) => AriaSourceView::Url(url@),
            AriaSource::File(path) => AriaSourceView::File(path@),
        }
    }
}

/// Why a source selector was turned down.
#[derive(Debug, Clone, Copy, PartialEq, Eq, Structural)]
pub enum SourceError {
    /// The selector is neither `embedded` nor starts with `url:` or `file:`.
    UnknownKind,
    /// What follows `url:` is not a URL.
    InvalidUrl,
    /// No file lies at the path that follows `file:`.
    FileNotFound,
}

impl SourceError {
    /// The text shown to the user for this error.
    pub fn message(&self) -> (r: String)
        ensures
            r@ == match *self {
                SourceError::UnknownKind => "valid sources are 'embedded', 'url:' or 'file:'"@,
                SourceError::InvalidUrl => "unable to parse the given url"@,
                SourceError::FileNotFound => "unable to find file at given path"@,
            },
    {
        match self {
            SourceError::UnknownKind => "valid sources are 'embedded', 'url:' or 'file:'".to_owned(),
            SourceError::InvalidUrl => "unable to parse the given url".to_owned(),
            SourceError::FileNotFound => "unable to find file at given path".to_owned(),
        }
    }
}

/// The source that the selector `s` names, given what parsing the text after
/// `url:` yields.
///
/// `embedded` names the bundled tarball; `url:` and `file:` are followed by
/// the URL and the path. Anything else names nothing.
pub open spec fn selected_source(s: Seq<char>, parsed: Option<Seq<char>>) -> Result<
    AriaSourceView,
    SourceError,
> {
    if s == "embedded"@ {
        Ok(AriaSourceView::Embedded)
    } else if "url:"@.is_prefix_of(s) {
        match parsed {
            Some(url) => Ok(AriaSourceView::Url(url)),
            None => Err(SourceError::InvalidUrl),
        }
    } else if "file:"@.is_prefix_of(s) {
        Ok(AriaSourceView::File(after(s, 5)))
    } else {
        Err(SourceError::UnknownKind)
    }
}

/// Views of both sides of a parse result.
pub open spec fn source_result_view(r: Result<AriaSource, SourceError>) -> Result<
    AriaSourceView,
    SourceError,
> {
    match r {
        Ok(source) => Ok(source@),
        Err(e) => Err(e),
    }
}

impl AriaSource {
    /// Reads a selector, with `parsed` being the URL read from the text after
    /// its first four characters, if that text is one.
    pub fn from_selector(s: &str, parsed: Option<String>) -> (r: Result<AriaSource, SourceError>)
        ensures
            source_result_view(r) == selected_source(s@, parsed.deep_view()),
    {
        if str_eq(s, "embedded") {
            Ok(AriaSource::Embedded)
        } else if starts_with(s, "url:") {
            match parsed {
                Some(url) => Ok(AriaSource::Url(url)),
                None => Err(SourceError::InvalidUrl),
            }
        } else if starts_with(s, "file:") {
            Ok(AriaSource::File(skip_chars(s, 5)))
        } else {
            Err(SourceError::UnknownKind)
        }
    }

    /// Reads a selector: `embedded`, `url:` and a URL, or `file:` and a path.
    pub fn from_str(s: &str) -> (r: Result<AriaSource, SourceError>)
        ensures
            source_result_view(r) == selected_source(s@, url_parsed(after(s@, 4))),
    {
        let parsed = if starts_with(s, "url:") {
            parse_url(skip_chars(s, 4).as_str())
        } else {
            None
        };
        AriaSource::from_selector(s, parsed)
    }

    /// Keeps a source unless it names a file that was not found.
    pub fn confirm(self, file_found: bool) -> (r: Result<AriaSource, SourceError>)
        ensures
            (self is File && !file_found) ==> r == Err::<AriaSource, SourceError>(
                SourceError::FileNotFound,
            ),
            !(self is File && !file_found) ==> r == Ok::<AriaSource, SourceError>(self),
    {
        match self {
            AriaSource::File(path) => {
                if file_found {
                    Ok(AriaSource::File(path))
                } else {
                    Err(SourceError::FileNotFound)
                }
            },
            other => Ok(other),
        }
    }

    /// The selector's kind as text: `embedded`, `url:` or `file:`.
    pub fn to_string(&self) -> (r: String)
        ensures
            r@ == match self {
                AriaSource::Embedded => "embedded"@,
                AriaSource::Url(_) => "url:"@,
                AriaSource::File(_) => "file:"@,
            },
    {
        match self {
            AriaSource::Embedded => "embedded".to_owned(),
            AriaSource::Url(_) => "url:".to_owned(),
            AriaSource::File(_) => "file:".to_owned(),
        }
    }
}

impl Clone for AriaSource {
    fn clone(&self) -> (r: Self)
        ensures
            r == *self,
    {
        match self {
            AriaSource::Embedded => AriaSource::Embedded,
            AriaSource::Url(url) => AriaSource::Url(url.clone()),
            AriaSource::File(path) => AriaSource::File(path.clone()),
        }
    }
}

impl Default for AriaSource {
    fn default() -> (r: Self)
        ensures
            r == AriaSource::Embedded,
    {
        AriaSource::Embedded
    }
}

} // verus!
