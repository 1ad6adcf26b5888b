//! What a reading page says about the book that is being read.
//!
//! Only the first shelf of books in progress counts, and in it the first
//! title link and the first image.

use vstd::prelude::*;
use vstd::string::*;
use crate::error::ExtractionError;

verus! {

/// The book a user is reading: its title and where its cover image is.
#[derive(Clone, Debug, PartialEq, Eq)]
pub struct BookInfo {
    pub title: String,
    pub cover: String,
}

/// A book with its strings as sequences of characters.
pub struct BookInfoView {
    pub title: Seq<char>,
    pub cover: Seq<char>,
}

impl View for BookInfo {
    type V = BookInfoView;

    open spec fn view(&self) -> BookInfoView {
        BookInfoView { title: self.title@, cover: self.cover@ }
    }
}

/// The first image of a shelf: the value of its source attribute, if it has one.
#[derive(Clone, Debug, PartialEq, Eq)]
pub struct Image {
    pub src: Option<String>,
}

/// What was found in a shelf: the text inside its first title link, and its
/// first image.
#[derive(Clone, Debug, PartialEq, Eq)]
pub struct Shelf {
    pub title: Option<String>,
    pub image: Option<Image>,
}

/// A shelf with its strings as sequences of characters.
pub struct ShelfView {
    pub title: Option<Seq<char>>,
    pub image: Option<Option<Seq<char>>>,
}

impl View for Shelf {
    type V = ShelfView;

    open spec fn view(&self) -> ShelfView {
        ShelfView {
            title: match self.title {
                Some(t) => Some(t@),
                None => None,
            },
            image: match self.image {
                Some(i) => Some(
                    match i.src {
                        Some(s) => Some(s@),
                        None => None,
                    },
                ),
                None => None,
            },
        }
    }
}

/// An optional shelf, in contracts.
pub open spec fn shelf_view(shelf: Option<Shelf>) -> Option<ShelfView> {
    match shelf {
        Some(s) => Some(s@),
        None => None,
    }
}

/// The outcome of a search, in contracts.
pub open spec fn search_view(found: Option<Option<Shelf>>) -> Option<Option<ShelfView>> {
    match found {
        Some(shelf) => Some(shelf_view(shelf)),
        None => None,
    }
}

/// The outcome of reading a page, in contracts.
pub open spec fn book_view(r: Result<BookInfo, ExtractionError>) -> Result<
    BookInfoView,
    ExtractionError,
> {
    match r {
        Ok(b) => Ok(b@),
        Err(e) => Err(e),
    }
}

/// What a search of `page` finds: nothing at all where one of the three
/// selectors is not a selector; else the first element that matches `shelf`,
/// if there is one, and in it the text inside the first element that
/// matches `title` and the attribute `attr` of the first that matches `image`.
pub uninterp spec fn first_shelf(
    page: Seq<char>,
    shelf: Seq<char>,
    title: Seq<char>,
    image: Seq<char>,
    attr: Seq<char>,
) -> Option<Option<ShelfView>>;

/// The longest page that is searched, in bytes.
pub const PAGE_LIMIT: usize = 0x1000_0000;

/// Whether a page is short enough to be searched.
pub open spec fn searchable(page: Seq<char>) -> bool {
    vstd::utf8::encode_utf8(page).len() <= PAGE_LIMIT
}

/// Searches a page with `scraper`. The selectors go through
/// `Selector::parse`; a rejected one gives `None`. The page goes through
/// `Html::parse_document`, which rejects no text, but keeps it in buffers
/// of `tendril`. Such a buffer grows to the next power of two, counted in
/// 32 bits, and panics when that is beyond 2^31 bytes, or beyond what the
/// machine can address. The parser makes a text longer only where it
/// replaces a NUL by U+FFFD, three bytes for one, so no buffer holds more
/// than three times the page, and three times the limit is below 2^30.
/// `Html::select` gives the first element that matches `shelf`, in the
/// order in which the parser made the nodes; `ElementRef::select` on it
/// gives the first elements inside it that match `title` and `image`;
/// `ElementRef::text` gives the pieces of text inside the first, which are
/// put together, and `Element::attr` reads the second. The contract claims
/// only that the same five texts always give the same outcome.
#[verifier::external_body]
fn search(page: &str, shelf: &str, title: &str, image: &str, attr: &str) -> (found: Option<
    Option<Shelf>,
>)
    requires
        searchable(page@),
    ensures
        search_view(found) == first_shelf(page@, shelf@, title@, image@, attr@),
{
    let shelf = scraper::Selector::parse(shelf).ok()?;
    let title = scraper::Selector::parse(title).ok()?;
    let image = scraper::Selector::parse(image).ok()?;
    let document = scraper::Html::parse_document(page);
    Some(document.select(&shelf).next().map(|entry| Shelf {
        title: entry.select(&title).next().map(|link| link.text().collect()),
        image: entry.select(&image).next().map(|tag| Image {
            src: tag.value().attr(attr).map(String::from),
        }),
    }))
}

/// The book that a shelf shows, or what it lacks. A missing shelf is reported
/// first, then a missing title, then a missing image or image source.
pub open spec fn book_of(shelf: Option<ShelfView>) -> Result<BookInfoView, ExtractionError> {
    match shelf {
        None => Err(ExtractionError::NoCurrentBook),
        Some(s) => match (s.title, s.image) {
            (None, _) => Err(ExtractionError::NoTitle),
            (Some(_), None) => Err(ExtractionError::NoCover),
            (Some(_), Some(None)) => Err(ExtractionError::NoCover),
            (Some(title), Some(Some(cover))) => Ok(BookInfoView { title, cover }),
        },
    }
}

/// The book that a page shows, or what the page lacks. A page that is too
/// long, or one that the search rejects, is `Unsearchable`.
pub open spec fn scrape(page: Seq<char>) -> Result<BookInfoView, ExtractionError> {
    if !searchable(page) {
        Err(ExtractionError::Unsearchable)
    } else {
        match first_shelf(page, "#currentlyReadingReviews"@, "a.bookTitle"@, "img"@, "src"@) {
            None => Err(ExtractionError::Unsearchable),
            Some(shelf) => book_of(shelf),
        }
    }
}

/// The address of a user's reading page.
pub open spec fn page_address(profile_id: Seq<char>) -> Seq<char> {
    "https://www.goodreads.com/user/show/"@ + profile_id
}

/// The address of the reading page of `profile_id`.
pub fn profile_url(profile_id: &str) -> (url: String)
    ensures
        url@ == page_address(profile_id@),
{
    let mut url = String::from_str("https://www.goodreads.com/user/show/");
    url.append(profile_id);
    url
}

/// Reads the book off what a search found.
pub fn book_of_shelf(shelf: Option<Shelf>) -> (r: Result<BookInfo, ExtractionError>)
    ensures
        book_view(r) == book_of(shelf_view(shelf)),
{
    match shelf {
        None => Err(ExtractionError::NoCurrentBook),
        Some(Shelf { title, image }) => match title {
            None => Err(ExtractionError::NoTitle),
            Some(title) => match image {
                None => Err(ExtractionError::NoCover),
                Some(Image { src }) => match src {
                    None => Err(ExtractionError::NoCover),
                    Some(cover) => Ok(BookInfo { title, cover }),
                },
            },
        },
    }
}

/// Reads the book off a reading page: the title is the text inside the
/// first title link of the first shelf, the cover the source of its first image.
pub fn get_book_info(page: &str) -> (r: Result<BookInfo, ExtractionError>)
    ensures
        book_view(r) == scrape(page@),
{
    if page.as_bytes().len() > PAGE_LIMIT {
        return Err(ExtractionError::Unsearchable);
    }
    match search(page, "#currentlyReadingReviews", "a.bookTitle", "img", "src") {
        None => Err(ExtractionError::Unsearchable),
        Some(shelf) => book_of_shelf(shelf),
    }
}

} // verus!
