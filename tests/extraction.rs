use txts::error::check_username;
use txts::extract::{extract_content, extract_raw_source, find_vrf_token, is_verified, parse_error};
use txts::{Error, Page};

const BANNER_PAGE: &str = "<html><body><div class=\"error-message\">\
    <h2>\n   Not allowed   \n</h2><p>  The secret is wrong.  </p></div></body></html>";

const VERIFIED_PAGE: &str = "<html><body><main class=\"primary-container\">\
    <header><h1>verifiedtest</h1><span class=\"verified-icon\"></span></header>\
    <div class=\"edit-link\"><a href=\"/@verifiedtest/edit\">edit</a></div>\
    <p>hello</p></main></body></html>";

const PLAIN_PAGE: &str = "<html><body><main class=\"primary-container\">\
    <header><h1>test</h1></header>\
    <p>content</p></main></body></html>";

#[test]
fn username_rule_accepts_and_rejects() {
    assert!(check_username("test").is_ok());
    assert!(check_username("verifiedtest").is_ok());
    assert!(check_username("a.b_C9").is_ok());
    assert!(check_username("abc").is_ok());
    assert!(check_username("abcdefghijklmnop").is_ok());
    assert!(matches!(check_username("ab"), Err(Error::InvalidUsername)));
    assert!(matches!(check_username("abcdefghijklmnopq"), Err(Error::InvalidUsername)));
    assert!(matches!(check_username("bad-name"), Err(Error::InvalidUsername)));
    assert!(matches!(check_username("tést"), Err(Error::InvalidUsername)));
    assert!(matches!(check_username(""), Err(Error::InvalidUsername)));
    assert!(matches!(check_username("test\n"), Err(Error::InvalidUsername)));
}

#[test]
fn banner_is_reported_trimmed() {
    match parse_error(BANNER_PAGE) {
        Err(Error::TxtsError { error, message }) => {
            assert_eq!(error, "Not allowed");
            assert_eq!(message, "The secret is wrong.");
        }
        other => panic!("unexpected {:?}", other),
    }
}

#[test]
fn banner_without_message_is_malformed() {
    let html = "<div class=\"error-message\"><h2>Only a title</h2></div>";
    assert!(matches!(parse_error(html), Err(Error::HtmlParse)));
}

#[test]
fn no_banner_is_ok() {
    assert!(parse_error(PLAIN_PAGE).is_ok());
}

#[test]
fn parse_prefers_banner() {
    let html = format!("{}{}", BANNER_PAGE, PLAIN_PAGE);
    match Page::parse(&html, "test".to_string()) {
        Err(Error::TxtsError { error, message }) => {
            assert!(!error.is_empty());
            assert!(!message.is_empty());
        }
        other => panic!("unexpected {:?}", other),
    }
}

#[test]
fn parse_verified_page() {
    let page = Page::parse(VERIFIED_PAGE, "verifiedtest".to_string()).unwrap();
    assert_eq!(page.verified, true);
    assert_eq!(page.username, "verifiedtest");
    assert_eq!(page.html_content, "<p>hello</p>");
}

#[test]
fn parse_unverified_page() {
    let page = Page::parse(PLAIN_PAGE, "test".to_string()).unwrap();
    assert_eq!(page.verified, false);
    assert_eq!(page.html_content, "<p>content</p>");
}

#[test]
fn verification_marker() {
    assert!(is_verified(VERIFIED_PAGE));
    assert!(!is_verified(PLAIN_PAGE));
}

#[test]
fn content_drops_header_and_classed_divs() {
    let html = "<main class=\"primary-container\">\n  <header><p>content-like header</p></header>\
        <div class=\"success\"><p>Saved!</p></div>\
        <p>a &amp; b &lt; c</p><!--note--><div>kept div</div>\
        <div class=\"edit\"><div>nested</div></div>\n  </main>";
    let content = extract_content(html).unwrap();
    assert_eq!(content, "<p>a &amp; b &lt; c</p><!--note--><div>kept div</div>");
    assert!(!content.contains("header"));
    assert!(!content.contains("Saved!"));
    assert!(!content.contains("nested"));
}

#[test]
fn content_escapes_text_children() {
    let html = "<main class=\"primary-container\"><header>h</header>x &amp; y\u{a0}&gt;</main>";
    assert_eq!(extract_content(html).unwrap(), "x &amp; y&nbsp;&gt;");
}

#[test]
fn content_keeps_second_header() {
    let html = "<main class=\"primary-container\"><header>one</header><header>two</header></main>";
    assert_eq!(extract_content(html).unwrap(), "<header>two</header>");
}

#[test]
fn content_needs_container_and_header() {
    assert!(matches!(extract_content("<p>nothing</p>"), Err(Error::HtmlParse)));
    let html = "<main class=\"primary-container\"><p>no header</p></main>";
    assert!(matches!(extract_content(html), Err(Error::HtmlParse)));
    assert!(matches!(Page::parse(html, "test".to_string()), Err(Error::HtmlParse)));
}

#[test]
fn token_is_found() {
    let html = "<form><input type=\"hidden\" name=\"__RequestVerificationToken\" value=\"tok123\"></form>";
    assert_eq!(find_vrf_token(html).unwrap(), "tok123");
    let bare = "<form><input type=\"hidden\" name=\"__RequestVerificationToken\"></form>";
    assert!(matches!(find_vrf_token(bare), Err(Error::HtmlParse)));
    assert!(matches!(find_vrf_token("<form></form>"), Err(Error::HtmlParse)));
}

#[test]
fn raw_source_is_trimmed() {
    let html = "<textarea id=\"content\">\n  # Title\nbody  \n</textarea>";
    assert_eq!(extract_raw_source(html).unwrap(), "# Title\nbody");
    assert!(matches!(extract_raw_source("<p>x</p>"), Err(Error::HtmlParse)));
}

#[test]
fn refresh_keeps_username() {
    let mut page = Page::parse(PLAIN_PAGE, "test".to_string()).unwrap();
    let fresh = Page::parse(VERIFIED_PAGE, "other".to_string()).unwrap();
    page.refresh(fresh);
    assert_eq!(page.username, "test");
    assert_eq!(page.verified, true);
    assert_eq!(page.html_content, "<p>hello</p>");
}
