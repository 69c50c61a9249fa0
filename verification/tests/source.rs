use xlm::source::{AriaSource, SourceError};

#[test]
fn embedded_selector_names_the_bundled_tarball() {
    assert_eq!(AriaSource::from_str("embedded"), Ok(AriaSource::Embedded));
}

#[test]
fn url_selector_holds_the_parsed_url() {
    assert_eq!(
        AriaSource::from_str("url:https://example.com/aria2c.tar.gz"),
        Ok(AriaSource::Url("https://example.com/aria2c.tar.gz".to_string()))
    );
}

#[test]
fn url_selector_is_normalised_by_the_parser() {
    assert_eq!(
        AriaSource::from_str("url:HTTPS://Example.COM/a/../aria2c.tar.gz"),
        Ok(AriaSource::Url("https://example.com/aria2c.tar.gz".to_string()))
    );
    assert_eq!(
        AriaSource::from_str("url:http://example.com"),
        Ok(AriaSource::Url("http://example.com/".to_string()))
    );
}

#[test]
fn url_selector_without_a_url_is_rejected() {
    assert_eq!(AriaSource::from_str("url:not a url"), Err(SourceError::InvalidUrl));
    assert_eq!(AriaSource::from_str("url:"), Err(SourceError::InvalidUrl));
}

#[test]
fn file_selector_holds_the_path() {
    assert_eq!(
        AriaSource::from_str("file:/tmp/aria2c.tar.gz"),
        Ok(AriaSource::File("/tmp/aria2c.tar.gz".to_string()))
    );
    assert_eq!(AriaSource::from_str("file:"), Ok(AriaSource::File(String::new())));
}

#[test]
fn other_selectors_are_rejected() {
    for s in ["", "Embedded", "embedded ", "ftp:x", "url", "file", "URL:https://x/"] {
        assert_eq!(AriaSource::from_str(s), Err(SourceError::UnknownKind), "{s:?}");
    }
}

#[test]
fn from_selector_takes_the_url_it_is_given() {
    assert_eq!(
        AriaSource::from_selector("url:whatever", Some("https://x/".to_string())),
        Ok(AriaSource::Url("https://x/".to_string()))
    );
    assert_eq!(AriaSource::from_selector("url:whatever", None), Err(SourceError::InvalidUrl));
    assert_eq!(
        AriaSource::from_selector("embedded", Some("https://x/".to_string())),
        Ok(AriaSource::Embedded)
    );
    assert_eq!(
        AriaSource::from_selector("file:a", Some("https://x/".to_string())),
        Ok(AriaSource::File("a".to_string()))
    );
}

#[test]
fn confirm_rejects_only_a_file_that_was_not_found() {
    let file = AriaSource::File("/tmp/a".to_string());
    assert_eq!(file.clone().confirm(false), Err(SourceError::FileNotFound));
    assert_eq!(file.clone().confirm(true), Ok(file));
    assert_eq!(AriaSource::Embedded.confirm(false), Ok(AriaSource::Embedded));
    let url = AriaSource::Url("https://x/".to_string());
    assert_eq!(url.clone().confirm(false), Ok(url));
}

#[test]
fn source_kind_as_text() {
    assert_eq!(AriaSource::Embedded.to_string(), "embedded");
    assert_eq!(AriaSource::Url("https://x/".to_string()).to_string(), "url:");
    assert_eq!(AriaSource::File("/a".to_string()).to_string(), "file:");
}

#[test]
fn default_source_is_embedded() {
    assert_eq!(AriaSource::default(), AriaSource::Embedded);
}

#[test]
fn source_error_messages() {
    assert_eq!(
        SourceError::UnknownKind.message(),
        "valid sources are 'embedded', 'url:' or 'file:'"
    );
    assert_eq!(SourceError::FileNotFound.message(), "unable to find file at given path");
    assert_eq!(SourceError::InvalidUrl.message(), "unable to parse the given url");
}
