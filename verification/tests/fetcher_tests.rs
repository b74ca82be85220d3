use fullstack_bulletin::book::{
    book_ids_url, book_url, select_book_index, Book, BookAuthor, BookResponse,
};
use fullstack_bulletin::issue_number::{
    last_issue_number_from_html, next_issue_number, parse_number_from_title, ScrapeError,
};
use fullstack_bulletin::quotes::{pick_quote_index, quote_url, stats_url, InputQuote, Quote, Stats};
use fullstack_bulletin::sponsor::{
    first_sponsor_or_default, sponsor_filter_formula, sponsors_path, SponsorFields,
};

#[test]
fn test_parse_number_from_title() {
    let title = "🤓 #331: Putting the \"You\" in CPU";
    let result = parse_number_from_title(title);
    assert!(matches!(result, Ok((_, 331))));
}

#[test]
fn test_parse_number_from_title_without_number() {
    let title = "🤓 #: Putting the \"You\" in CPU";
    let result = parse_number_from_title(title);
    assert!(result.is_err());
}

#[test]
fn test_parse_number_rest_and_overflow() {
    let (rest, n) = parse_number_from_title("ab #042xy").unwrap();
    assert_eq!(n, 42);
    assert_eq!(rest, "xy");
    // a run whose value does not fit an issue number is rejected
    assert!(parse_number_from_title("#99999999999").is_err());
}

#[test]
fn test_issue_number_from_archive_page() {
    let html = "<html><body><div class=\"campaign\">\
                <a href=\"/x\" title=\"🤓 #331: Putting the You in CPU\">latest</a>\
                </div></body></html>";
    let n = last_issue_number_from_html(html).unwrap();
    assert_eq!(n, 331);
    assert_eq!(next_issue_number(n), 332);
}

#[test]
fn test_issue_number_from_empty_page() {
    let response = last_issue_number_from_html("<html><body></body></html>");
    assert!(matches!(response, Err(ScrapeError::CannotFindCampaignTitle)));
}

#[test]
fn test_quote_selection_and_urls() {
    let stats = Stats {
        total: 3,
        all: String::new(),
        first: String::new(),
        last: String::new(),
        url_prefix: String::new(),
    };
    let picked = pick_quote_index(&stats).unwrap();
    assert!(picked < 3);

    let empty = Stats { total: 0, ..stats };
    assert!(pick_quote_index(&empty).is_none());

    assert_eq!(stats_url("https://q.example"), "https://q.example/quotes/stats.json");
    assert_eq!(quote_url("https://q.example", 2), "https://q.example/quotes/2.json");
}

#[test]
fn test_quote_flattening() {
    let input = InputQuote {
        id: 22,
        text: "Good guidelines save us having to think out every case".to_string(),
        author: fullstack_bulletin::quotes::Author {
            id: "francis-glassborow".to_string(),
            name: "Francis Glassborow".to_string(),
            description: "Author".to_string(),
            wiki: None,
            url: "https://authors/francis-glassborow.json".to_string(),
        },
        url: "https://quotes/22.json".to_string(),
    };
    let quote: Quote = input.into();
    assert_eq!(quote.id, 22);
    assert_eq!(quote.author, "Francis Glassborow");
    assert_eq!(quote.author_description, "Author");
    assert_eq!(quote.author_url, None);
}

#[test]
fn test_book_flattening() {
    let book = Book {
        slug: "building-microservices".to_string(),
        title: "Building Microservices".to_string(),
        subtitle: Some("Designing Fine-Grained Systems".to_string()),
        authors: vec![
            BookAuthor { name: "Sam Newman".to_string() },
            BookAuthor { name: "Alex Author".to_string() },
            BookAuthor { name: "Casey Writer".to_string() },
        ],
        cover: "https://cover.jpg".to_string(),
        links: vec![
            ("amazon_us".to_string(), "https://us".to_string()),
            ("amazon_uk".to_string(), "https://uk".to_string()),
            ("free".to_string(), "https://free".to_string()),
        ],
        description_html: "<p>desc</p>".to_string(),
    };
    let r = BookResponse::from_book(book);
    assert_eq!(r.id, "building-microservices");
    assert_eq!(r.title, "Building Microservices: Designing Fine-Grained Systems");
    assert_eq!(r.author, "Sam Newman, Alex Author, and Casey Writer");
    assert_eq!(
        r.links,
        vec![
            ("us".to_string(), "https://us".to_string()),
            ("uk".to_string(), "https://uk".to_string()),
            ("free".to_string(), "https://free".to_string()),
        ]
    );
    assert_eq!(r.cover_picture, "https://cover.jpg");
    assert_eq!(r.description, "<p>desc</p>");
}

#[test]
fn test_book_single_and_no_author() {
    let mk = |authors: Vec<BookAuthor>| Book {
        slug: "s".to_string(),
        title: "T".to_string(),
        subtitle: None,
        authors,
        cover: String::new(),
        links: Vec::new(),
        description_html: String::new(),
    };
    assert_eq!(BookResponse::from_book(mk(Vec::new())).author, "Unknown");
    assert_eq!(
        BookResponse::from_book(mk(vec![BookAuthor { name: "Solo".to_string() }])).author,
        "Solo"
    );
}

#[test]
fn test_book_selection_and_urls() {
    assert_eq!(select_book_index(435, 10), 5);
    assert_eq!(book_ids_url("https://b.example"), "https://b.example/books/ids.json");
    assert_eq!(book_url("https://b.example", "some-book"), "https://b.example/books/some-book.json");
}

#[test]
fn test_sponsor_defaults_and_first_record() {
    let none = first_sponsor_or_default(Vec::new());
    assert_eq!(none.banner_html, "");
    assert_eq!(none.sponsored_article_html, "");
    assert_eq!(none.customer, "");

    let rows = vec![
        SponsorFields {
            banner_html: Some("<b>first</b>".to_string()),
            sponsored_article_html: None,
            customer: Some("Acme".to_string()),
        },
        SponsorFields {
            banner_html: Some("<b>second</b>".to_string()),
            sponsored_article_html: None,
            customer: Some("Other".to_string()),
        },
    ];
    let first = first_sponsor_or_default(rows);
    assert_eq!(first.banner_html, "<b>first</b>");
    assert_eq!(first.sponsored_article_html, "");
    assert_eq!(first.customer, "Acme");
}

#[test]
fn test_sponsor_query_parts() {
    assert_eq!(sponsor_filter_formula(435), "{Issue}=435");
    assert_eq!(
        sponsors_path("https://api.example/v0", "tbl123"),
        "https://api.example/v0/tbl123/Sponsors"
    );
}
