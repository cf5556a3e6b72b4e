use nos_reader::args::Args;
use nos_reader::scrape::Article;
use nos_reader::util::{articles_to_titles, clip_title, same_text, title_row};

fn article(title: &str, datetime: &str) -> Article {
    Article {
        title: title.to_string(),
        href: String::new(),
        datetime: datetime.to_string(),
    }
}

#[test]
fn title_that_fits_is_kept_whole() {
    assert_eq!(clip_title("Storm warning", 13), "Storm warning");
    assert_eq!(clip_title("Storm warning", 40), "Storm warning");
    assert_eq!(clip_title("", 0), "");
}

#[test]
fn long_title_is_cut_and_marked() {
    assert_eq!(clip_title("Storm warning", 12), "Storm warnin...");
    assert_eq!(clip_title("Storm warning", 5), "Storm...");
    assert_eq!(clip_title("Storm warning", 0), "...");
}

#[test]
fn cut_never_splits_a_character() {
    assert_eq!(clip_title("caf\u{e9}s open", 4), "caf...");
    assert_eq!(clip_title("caf\u{e9}s open", 5), "caf\u{e9}...");
    assert_eq!(clip_title("\u{1f4a9}\u{1f4a9}", 3), "...");
    assert_eq!(clip_title("\u{1f4a9}\u{1f4a9}", 7), "\u{1f4a9}...");
    assert_eq!(clip_title("\u{1f4a9}\u{1f4a9}", 8), "\u{1f4a9}\u{1f4a9}");
}

#[test]
fn row_holds_title_and_timestamp() {
    let entry = article("Storm warning", "12:30");
    assert_eq!(title_row(&entry, 80), "Storm warning (12:30)");
    assert_eq!(title_row(&entry, 24), "Storm warning (12:30)");
    assert_eq!(title_row(&entry, 23), "Storm warnin... (12:30)");
    assert_eq!(title_row(&entry, 16), "Storm... (12:30)");
}

#[test]
fn row_on_a_terminal_that_is_too_narrow() {
    let entry = article("Storm warning", "12:30");
    assert_eq!(title_row(&entry, 11), "... (12:30)");
    assert_eq!(title_row(&entry, 3), "... (12:30)");
    assert_eq!(title_row(&article("", "12:30"), 3), " (12:30)");
}

#[test]
fn one_row_for_each_article() {
    let articles = vec![
        article("Storm warning", "12:30"),
        article("Election results", "yesterday"),
        article("", ""),
    ];
    assert_eq!(
        articles_to_titles(&articles, 27),
        vec!["Storm warning (12:30)", "Election res... (yesterday)", " ()"]
    );
    assert!(articles_to_titles(&Vec::new(), 27).is_empty());
}

#[test]
fn texts_are_compared_by_their_characters() {
    assert!(same_text("", ""));
    assert!(same_text("reset", "reset"));
    assert!(!same_text("reset", "reseT"));
    assert!(!same_text("reset", "rese"));
    assert!(!same_text("", "r"));
    assert!(same_text("caf\u{e9}", "caf\u{e9}"));
    assert!(!same_text("caf\u{e9}", "caf\u{e8}"));
}

#[test]
fn article_copy_holds_the_same_texts() {
    let article = Article {
        title: "Storm warning".to_string(),
        href: "https://nos.nl/artikel/1".to_string(),
        datetime: "12:30".to_string(),
    };
    let copy = article.clone();
    assert_eq!(copy.title, "Storm warning");
    assert_eq!(copy.href, "https://nos.nl/artikel/1");
    assert_eq!(copy.datetime, "12:30");
}

#[test]
fn address_of_the_list() {
    let latest = Args { category: String::new(), random: false };
    assert_eq!(latest.url(), "https://nos.nl/nieuws/laatste");
    let sport = Args { category: "sport".to_string(), random: true };
    assert_eq!(sport.url(), "https://nos.nl/nieuws/sport");
}
