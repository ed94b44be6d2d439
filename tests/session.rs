use txts::session::{
    create_form, create_url, edit_form, edit_url, page_url, read_created, read_edited, read_page,
    read_raw_source, read_token,
};
use txts::Error;

const HOST: &str = "http://localhost:8001/";

const PAGE: &str = "<html><body><main class=\"primary-container\">\
    <header><h1>test</h1></header><p>content</p></main></body></html>";

const BANNER: &str = "<div class=\"error-message\"><h2> Error </h2><p> Invalid secret </p></div>";

#[test]
fn urls_are_built() {
    assert_eq!(page_url(HOST, "test").unwrap(), "http://localhost:8001/@test");
    assert_eq!(edit_url(HOST, "test").unwrap(), "http://localhost:8001/@test/edit");
    assert_eq!(create_url(HOST, "test").unwrap(), "http://localhost:8001/");
}

#[test]
fn invalid_username_stops_every_operation() {
    for name in ["ab", "has space", "x/../y", "abcdefghijklmnopq"] {
        assert!(matches!(page_url(HOST, name), Err(Error::InvalidUsername)));
        assert!(matches!(edit_url(HOST, name), Err(Error::InvalidUsername)));
        assert!(matches!(create_url(HOST, name), Err(Error::InvalidUsername)));
    }
}

#[test]
fn bad_host_is_url_error() {
    assert!(matches!(page_url("not a url", "test"), Err(Error::UrlParse(_))));
}

#[test]
fn not_found_and_status_failures() {
    assert!(matches!(read_page(404, "", "test"), Err(Error::NotFound)));
    assert!(matches!(read_raw_source(404, ""), Err(Error::NotFound)));
    assert!(matches!(read_page(500, PAGE, "test"), Err(Error::Request { status: Some(500) })));
    assert!(matches!(read_raw_source(302, ""), Err(Error::Request { status: Some(302) })));
}

#[test]
fn fetched_page_is_parsed() {
    let page = read_page(200, PAGE, "test").unwrap();
    assert_eq!(page.username, "test");
    assert_eq!(page.verified, false);
    assert_eq!(page.html_content, "<p>content</p>");
}

#[test]
fn fetched_banner_is_remote_error() {
    assert!(matches!(read_page(200, BANNER, "test"), Err(Error::TxtsError { .. })));
    assert!(matches!(read_raw_source(200, BANNER), Err(Error::TxtsError { .. })));
}

#[test]
fn token_reading_checks_banner_first() {
    let form = "<input name=\"__RequestVerificationToken\" value=\"abc\">";
    assert_eq!(read_token(form).unwrap(), "abc");
    let both = format!("{}{}", BANNER, form);
    assert!(matches!(read_token(&both), Err(Error::TxtsError { .. })));
}

#[test]
fn forms_hold_their_fields() {
    let f = create_form("test", "content", "tok");
    assert_eq!(
        f,
        vec![
            ("username".to_string(), "test".to_string()),
            ("content".to_string(), "content".to_string()),
            ("__RequestVerificationToken".to_string(), "tok".to_string()),
        ]
    );
    let e = edit_form("epic content", "35934ccc-d791-4c05-befd-5e92e91c9339", "tok");
    assert_eq!(e[0], ("content".to_string(), "epic content".to_string()));
    assert_eq!(e[1].1, "35934ccc-d791-4c05-befd-5e92e91c9339");
    assert_eq!(e[2].0, "__RequestVerificationToken");
}

#[test]
fn creation_redirect_yields_secret() {
    let fin = "http://localhost:8001/@test?secret=35934ccc-d791-4c05-befd-5e92e91c9339";
    let (page, secret) = read_created(200, HOST, fin, PAGE, "test").unwrap();
    assert_eq!(secret, 0x35934ccc_d791_4c05_befd_5e92e91c9339u128);
    assert_eq!(page.html_content, "<p>content</p>");
}

#[test]
fn creation_secret_missing_or_malformed() {
    let none = "http://localhost:8001/@test?other=1";
    assert!(matches!(read_created(200, HOST, none, PAGE, "test"), Err(Error::SecretNotPresent)));
    let bad = "http://localhost:8001/@test?secret=not-a-uuid";
    assert!(matches!(read_created(200, HOST, bad, PAGE, "test"), Err(Error::UuidParse)));
}

#[test]
fn creation_rejected_in_place() {
    assert!(matches!(read_created(200, HOST, HOST, BANNER, "test"), Err(Error::TxtsError { .. })));
    assert!(matches!(read_created(200, HOST, HOST, PAGE, "test"), Err(Error::UnknownTxtsError)));
    assert!(matches!(read_created(500, HOST, HOST, PAGE, "test"), Err(Error::Request { status: Some(500) })));
}

#[test]
fn edit_outcomes() {
    let url = "http://localhost:8001/@test/edit";
    let done = "http://localhost:8001/@test";
    let page = read_edited(200, url, done, PAGE, "test").unwrap();
    assert_eq!(page.html_content, "<p>content</p>");
    match read_edited(200, url, url, BANNER, "test") {
        Err(Error::TxtsError { error, message }) => {
            assert_eq!(error, "Error");
            assert_eq!(message, "Invalid secret");
        }
        other => panic!("unexpected {:?}", other),
    }
    assert!(matches!(read_edited(200, url, url, PAGE, "test"), Err(Error::UnknownTxtsError)));
    assert!(matches!(read_edited(404, url, url, PAGE, "test"), Err(Error::NotFound)));
}
