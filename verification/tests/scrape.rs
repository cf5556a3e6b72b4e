use nos_reader::scrape::{
    body_paragraphs, get_article, get_items, listed_items, FetchError, ListedEntry,
    MAX_PAGE_BYTES,
};
use nos_reader::util::element_to_text;

const LIST_PAGE: &str = "<html><head><title>Nieuws</title></head><body>\
<h1>Laatste nieuws</h1>\
<section><ul>\
<li><a href=\"/artikel/1-storm\"><h2>Storm <em>warning</em></h2>\
<span><time datetime=\"2025-07-06\">12:30</time></span></a></li>\
<li><h2>No link here</h2></li>\
<li><a name=\"anchor\">first</a><a href=\"/artikel/2\">second</a>\
<h2>Election results</h2><h2>Second title</h2><time>not in a span</time></li>\
<li></li>\
</ul></section>\
<ul><li><h2>Outside a section</h2></li></ul>\
</body></html>";

const ARTICLE_PAGE: &str = "<html><body><main><div>\
<h2>Subheading</h2>\
<p>First <b>paragraph</b>.</p>\
<section><p>Too deep.</p></section>\
<p></p>\
<p>Last paragraph.</p>\
</div><p>Not in a div.</p></main>\
<div><p>Not in main.</p></div></body></html>";

#[test]
fn list_page_is_read_entry_by_entry() {
    let articles = get_items(LIST_PAGE).unwrap();
    assert_eq!(articles.len(), 4);
    assert_eq!(articles[0].title, "Storm warning");
    assert_eq!(articles[0].href, "https://nos.nl/artikel/1-storm");
    assert_eq!(articles[0].datetime, "12:30");
    assert_eq!(articles[1].title, "No link here");
    assert_eq!(articles[1].href, "");
    assert_eq!(articles[1].datetime, "");
    assert_eq!(articles[2].title, "Election results");
    assert_eq!(articles[2].href, "");
    assert_eq!(articles[2].datetime, "");
    assert_eq!(articles[3].title, "");
    assert_eq!(articles[3].href, "");
    assert_eq!(articles[3].datetime, "");
}

#[test]
fn page_without_entries_is_an_empty_list() {
    assert!(get_items("").unwrap().is_empty());
    assert!(get_items("<h1>Nieuws</h1><p>Nothing today.</p>").unwrap().is_empty());
}

#[test]
fn page_of_a_missing_category_is_refused() {
    let page = "<html><body><h1>De pagina kan helaas niet worden gevonden</h1>\
<section><ul><li><h2>Storm warning</h2></li></ul></section></body></html>";
    assert!(matches!(get_items(page), Err(FetchError::UnknownCategory)));
}

#[test]
fn only_the_first_heading_tells_a_missing_category() {
    let page = "<html><body><h1>Nieuws</h1>\
<h1>De pagina kan helaas niet worden gevonden</h1>\
<section><ul><li><h2>Storm warning</h2></li></ul></section></body></html>";
    let articles = get_items(page).unwrap();
    assert_eq!(articles.len(), 1);
    assert_eq!(articles[0].title, "Storm warning");
}

fn nodes(parts: &[&str]) -> Vec<String> {
    parts.iter().map(|part| part.to_string()).collect()
}

#[test]
fn text_of_an_element_joins_its_nodes() {
    assert_eq!(element_to_text(&nodes(&["Storm ", "warning", "", "!"])), "Storm warning!");
    assert_eq!(element_to_text(&nodes(&["one"])), "one");
    assert_eq!(element_to_text(&Vec::new()), "");
}

#[test]
fn entries_become_articles() {
    let entries = vec![
        ListedEntry {
            titles: vec![nodes(&["Storm ", "warning"])],
            links: vec![Some("/artikel/1-storm".to_string())],
            datetimes: vec![nodes(&["12:30"])],
        },
        ListedEntry { titles: Vec::new(), links: Vec::new(), datetimes: Vec::new() },
        ListedEntry {
            titles: vec![nodes(&["Election results"]), nodes(&["Second title"])],
            links: vec![Some(String::new()), Some("/artikel/2".to_string())],
            datetimes: vec![Vec::new(), nodes(&["13:00"])],
        },
        ListedEntry {
            titles: vec![Vec::new()],
            links: vec![None, Some("/artikel/3".to_string())],
            datetimes: Vec::new(),
        },
    ];
    let headings = vec![nodes(&["Laatste nieuws"])];
    let articles = listed_items(&Some(headings), &Some(entries)).unwrap();
    assert_eq!(articles.len(), 4);
    assert_eq!(articles[0].title, "Storm warning");
    assert_eq!(articles[0].href, "https://nos.nl/artikel/1-storm");
    assert_eq!(articles[0].datetime, "12:30");
    assert_eq!(articles[1].title, "");
    assert_eq!(articles[1].href, "");
    assert_eq!(articles[1].datetime, "");
    assert_eq!(articles[2].title, "Election results");
    assert_eq!(articles[2].href, "https://nos.nl");
    assert_eq!(articles[2].datetime, "");
    assert_eq!(articles[3].title, "");
    assert_eq!(articles[3].href, "");
    assert_eq!(articles[3].datetime, "");
}

#[test]
fn missing_selections_are_failures() {
    let not_found = vec![nodes(&["De pagina kan helaas ", "niet worden gevonden"])];
    assert!(matches!(listed_items(&None, &Some(Vec::new())), Err(FetchError::BadSelector)));
    assert!(matches!(listed_items(&Some(Vec::new()), &None), Err(FetchError::BadSelector)));
    assert!(matches!(listed_items(&None, &None), Err(FetchError::BadSelector)));
    assert!(matches!(listed_items(&Some(not_found), &None), Err(FetchError::UnknownCategory)));
    assert!(listed_items(&Some(Vec::new()), &Some(Vec::new())).unwrap().is_empty());
}

#[test]
fn elements_become_paragraphs() {
    let elements = vec![nodes(&["First ", "paragraph", "."]), Vec::new(), nodes(&["Last."])];
    assert_eq!(body_paragraphs(&elements), ["First paragraph.", "", "Last."]);
    assert!(body_paragraphs(&Vec::new()).is_empty());
}

#[test]
fn page_that_is_too_long_is_refused() {
    let mut page = " ".repeat(MAX_PAGE_BYTES - 7);
    page.push_str("<p></p>");
    assert_eq!(page.len(), MAX_PAGE_BYTES);
    page.push(' ');
    assert!(matches!(get_items(&page), Err(FetchError::PageTooLarge)));
    assert!(matches!(get_article(&page), Err(FetchError::PageTooLarge)));
}

#[test]
fn failures_have_a_message() {
    assert_eq!(
        FetchError::UnknownCategory.message(),
        "The given category is not a valid option!"
    );
    assert_eq!(FetchError::BadSelector.message(), "The page could not be searched.");
    assert_eq!(FetchError::PageTooLarge.message(), "The page is too large to be read.");
    assert_eq!(FetchError::Failed("timed out".to_string()).message(), "timed out");
}

#[test]
fn article_page_is_read_in_order() {
    assert_eq!(
        get_article(ARTICLE_PAGE).unwrap(),
        ["Subheading", "First paragraph.", "", "Last paragraph."]
    );
    assert!(get_article("<p>No main element.</p>").unwrap().is_empty());
}

#[test]
fn test_get_article() {
    let result = get_article(ARTICLE_PAGE);

    match result {
        Ok(all_text) => println!("Text: {}", all_text[0]),
        Err(e) => panic!("Failed to get article: {}", e.message()),
    }
}
