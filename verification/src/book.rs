//! The book records fetched from the static book collection, the shape
//! they are published in, and the deterministic parts of the fetch: the
//! issue-keyed selection index, the URLs, and the flattening of a stored
//! book into the published record.

use vstd::prelude::*;

use crate::text::{comma_joined, join_comma, u32_to_string};

verus! {

/// An author of a stored book.
pub struct BookAuthor {
    pub name: String,
}

/// A book as the collection stores it. Its purchase links are an
/// association list of store key and URL, one entry per stored pair, in
/// stored order.
pub struct Book {
    pub slug: String,
    pub title: String,
    pub subtitle: Option<String>,
    pub authors: Vec<BookAuthor>,
    pub cover: String,
    pub links: Vec<(String, String)>,
    pub description_html: String,
}

/// A book as this system publishes it.
pub struct BookResponse {
    pub id: String,
    pub title: String,
    pub author: String,
    pub links: Vec<(String, String)>,
    pub cover_picture: String,
    pub description: String,
}

/// The published author text: `Unknown` for no author, the single name
/// for one, and the names joined with commas and a final `and` for more.
pub open spec fn authors_text_of(names: Seq<Seq<char>>) -> Seq<char> {
    if names.len() == 0 {
        "Unknown"@
    } else if names.len() == 1 {
        names[0]
    } else {
        comma_joined(names.take(names.len() - 1)) + ", and "@ + names.last()
    }
}

/// The published key of a purchase link: the two store-specific keys are
/// shortened, every other key is kept.
pub open spec fn mapped_link_key(k: Seq<char>) -> Seq<char> {
    if k == "amazon_us"@ {
        "us"@
    } else if k == "amazon_uk"@ {
        "uk"@
    } else {
        k
    }
}

/// The published title: the stored title, extended by a colon and the
/// subtitle when one exists.
pub open spec fn full_title_of(title: Seq<char>, subtitle: Option<String>) -> Seq<char> {
    match subtitle {
        Some(s) => title + ": "@ + s@,
        None => title,
    }
}

impl BookResponse {
    /// Flattens a stored book into the published record: the slug
    /// becomes the id, the subtitle is folded into the title, the
    /// authors become one joined text, and every purchase-link key is
    /// mapped to its published form.
    pub fn from_book(book: Book) -> (r: BookResponse)
        ensures
            r.id == book.slug,
            r.title@ == full_title_of(book.title@, book.subtitle),
            r.author@ == authors_text_of(book.authors@.map_values(|a: BookAuthor| a.name@)),
            r.links@.len() == book.links@.len(),
            forall|i: int|
                0 <= i < book.links@.len() ==> (#[trigger] r.links@[i]).0@ == mapped_link_key(
                    book.links@[i].0@,
                ) && r.links@[i].1 == book.links@[i].1,
            r.cover_picture == book.cover,
            r.description == book.description_html,
    {
        let ghost names = book.authors@.map_values(|a: BookAuthor| a.name@);
        let author = if book.authors.len() == 0 {
            String::from_str("Unknown")
        } else if book.authors.len() == 1 {
            book.authors[0].name.clone()
        } else {
            let head_count = book.authors.len() - 1;
            let mut head: Vec<String> = Vec::new();
            let mut i: usize = 0;
            while i < head_count
                invariant
                    i <= head_count,
                    head_count == book.authors@.len() - 1,
                    head@.len() == i,
                    forall|k: int| 0 <= k < i ==> #[trigger] head@[k]@ == book.authors@[k].name@,
                decreases head_count - i,
            {
                head.push(book.authors[i].name.clone());
                i += 1;
            }
            let mut s = join_comma(&head);
            proof {
                assert(head@.map_values(|t: String| t@) =~= names.take(names.len() - 1));
            }
            s.append(", and ");
            s.append(book.authors[book.authors.len() - 1].name.as_str());
            proof {
                assert(book.authors@.last().name@ == names.last());
            }
            s
        };
        let us_key = String::from_str("amazon_us");
        let uk_key = String::from_str("amazon_uk");
        let mut links: Vec<(String, String)> = Vec::new();
        let mut j: usize = 0;
        while j < book.links.len()
            invariant
                j <= book.links@.len(),
                links@.len() == j,
                us_key@ == "amazon_us"@,
                uk_key@ == "amazon_uk"@,
                forall|k: int|
                    0 <= k < j ==> (#[trigger] links@[k]).0@ == mapped_link_key(
                        book.links@[k].0@,
                    ) && links@[k].1 == book.links@[k].1,
            decreases book.links@.len() - j,
        {
            let key = if book.links[j].0 == us_key {
                String::from_str("us")
            } else if book.links[j].0 == uk_key {
                String::from_str("uk")
            } else {
                book.links[j].0.clone()
            };
            links.push((key, book.links[j].1.clone()));
            j += 1;
        }
        let title = match book.subtitle {
            Some(subtitle) => {
                let mut t = book.title;
                t.append(": ");
                t.append(subtitle.as_str());
                t
            },
            None => book.title,
        };
        BookResponse {
            id: book.slug,
            title,
            author,
            links,
            cover_picture: book.cover,
            description: book.description_html,
        }
    }
}

/// The index of the book shown in the given issue: the issue number
/// taken modulo the number of available books.
pub fn select_book_index(issue_number: u32, count: usize) -> (r: usize)
    requires
        count > 0,
    ensures
        r == issue_number as int % count as int,
{
    (issue_number as usize) % count
}

/// The URL of the collection's id listing.
pub open spec fn book_ids_url_of(base: Seq<char>) -> Seq<char> {
    base + "/books/ids.json"@
}

/// Builds the id-listing URL; see [`book_ids_url_of`].
pub fn book_ids_url(base_url: &str) -> (r: String)
    ensures
        r@ == book_ids_url_of(base_url@),
{
    let mut s = String::from_str(base_url);
    s.append("/books/ids.json");
    s
}

/// The URL of the book with the given id.
pub open spec fn book_url_of(base: Seq<char>, id: Seq<char>) -> Seq<char> {
    base + "/books/"@ + id + ".json"@
}

/// Builds a book URL; see [`book_url_of`].
pub fn book_url(base_url: &str, id: &str) -> (r: String)
    ensures
        r@ == book_url_of(base_url@, id@),
{
    let mut s = String::from_str(base_url);
    s.append("/books/");
    s.append(id);
    s.append(".json");
    s
}

} // verus!
