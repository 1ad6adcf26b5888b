use shelf_sync::book::{
    book_of_shelf, get_book_info, profile_url, BookInfo, Image, Shelf, PAGE_LIMIT,
};
use shelf_sync::error::ExtractionError;

fn page(shelf: &str) -> String {
    format!("<!DOCTYPE html><html><head><title>Reader</title></head><body><div id=\"header\"><img src=\"http://x/logo.png\"></div>{}<div id=\"footer\"><a class=\"bookTitle\" href=\"/b/9\">Elsewhere</a></div></body></html>", shelf)
}

#[test]
fn page_with_a_book_gives_title_and_cover() {
    let text = page("<div id=\"currentlyReadingReviews\"><div class=\"Updates\"><a href=\"/b/1\"><img alt=\"Dune\" src=\"http://x/cover.jpg\"></a><a class=\"bookTitle\" href=\"/b/1\">Dune</a></div></div>");
    assert_eq!(
        get_book_info(&text),
        Ok(BookInfo { title: "Dune".to_string(), cover: "http://x/cover.jpg".to_string() })
    );
}

#[test]
fn only_the_first_entry_of_the_shelf_counts() {
    let text = page("<div id=\"currentlyReadingReviews\"><div><a class=\"bookTitle\">Emma</a><img src=\"http://x/emma.jpg\"></div><div><a class=\"bookTitle\">Ulysses</a><img src=\"http://x/ulysses.jpg\"></div></div>");
    assert_eq!(
        get_book_info(&text),
        Ok(BookInfo { title: "Emma".to_string(), cover: "http://x/emma.jpg".to_string() })
    );
}

#[test]
fn title_is_the_text_inside_the_link() {
    let text = page("<div id=\"currentlyReadingReviews\"><a class=\"bookTitle\">War &amp; <i>Peace</i></a><img src=\"c.jpg\"></div>");
    assert_eq!(
        get_book_info(&text),
        Ok(BookInfo { title: "War & Peace".to_string(), cover: "c.jpg".to_string() })
    );
    let bare = page("<div id=\"currentlyReadingReviews\"><a class=\"bookTitle\"><span></span></a><img src=\"c.jpg\"></div>");
    assert_eq!(
        get_book_info(&bare),
        Ok(BookInfo { title: String::new(), cover: "c.jpg".to_string() })
    );
}

#[test]
fn page_without_shelf_has_no_current_book() {
    let text = page("<div id=\"read\"><a class=\"bookTitle\">Dune</a><img src=\"http://x/cover.jpg\"></div>");
    assert_eq!(get_book_info(&text), Err(ExtractionError::NoCurrentBook));
    assert_eq!(get_book_info(""), Err(ExtractionError::NoCurrentBook));
}

#[test]
fn shelf_without_title_link_has_no_title() {
    let text = page("<div id=\"currentlyReadingReviews\"><a class=\"other\">Dune</a><img src=\"http://x/cover.jpg\"></div>");
    assert_eq!(get_book_info(&text), Err(ExtractionError::NoTitle));
}

#[test]
fn empty_shelf_reports_the_title_first() {
    let text = page("<div id=\"currentlyReadingReviews\"></div>");
    assert_eq!(get_book_info(&text), Err(ExtractionError::NoTitle));
}

#[test]
fn shelf_without_image_has_no_cover() {
    let text = page("<div id=\"currentlyReadingReviews\"><a class=\"bookTitle\">Dune</a></div>");
    assert_eq!(get_book_info(&text), Err(ExtractionError::NoCover));
}

#[test]
fn image_without_source_has_no_cover() {
    let text = page("<div id=\"currentlyReadingReviews\"><a class=\"bookTitle\">Dune</a><img alt=\"Dune\"><img src=\"late.jpg\"></div>");
    assert_eq!(get_book_info(&text), Err(ExtractionError::NoCover));
}

#[test]
fn book_of_shelf_reads_each_case() {
    let full = Shelf {
        title: Some("Dune".to_string()),
        image: Some(Image { src: Some("http://x/cover.jpg".to_string()) }),
    };
    assert_eq!(
        book_of_shelf(Some(full)),
        Ok(BookInfo { title: "Dune".to_string(), cover: "http://x/cover.jpg".to_string() })
    );
    assert_eq!(book_of_shelf(None), Err(ExtractionError::NoCurrentBook));
    assert_eq!(
        book_of_shelf(Some(Shelf { title: None, image: None })),
        Err(ExtractionError::NoTitle)
    );
    assert_eq!(
        book_of_shelf(Some(Shelf { title: None, image: Some(Image { src: Some("c".to_string()) }) })),
        Err(ExtractionError::NoTitle)
    );
    assert_eq!(
        book_of_shelf(Some(Shelf { title: Some("Dune".to_string()), image: None })),
        Err(ExtractionError::NoCover)
    );
    assert_eq!(
        book_of_shelf(Some(Shelf { title: Some("Dune".to_string()), image: Some(Image { src: None }) })),
        Err(ExtractionError::NoCover)
    );
}

#[test]
fn profile_url_ends_in_the_profile_id() {
    assert_eq!(profile_url("42"), "https://www.goodreads.com/user/show/42");
    assert_eq!(profile_url(""), "https://www.goodreads.com/user/show/");
    assert_eq!(profile_url("7-jo"), "https://www.goodreads.com/user/show/7-jo");
}

#[test]
fn page_beyond_the_limit_is_not_searched() {
    let shelf = "<div id=\"currentlyReadingReviews\"><a class=\"bookTitle\">Dune</a><img src=\"c.jpg\"></div>";
    let mut text = String::with_capacity(PAGE_LIMIT + 1);
    text.push_str(shelf);
    while text.len() <= PAGE_LIMIT {
        let room = PAGE_LIMIT + 1 - text.len();
        let filler = " ".repeat(room.min(1 << 20));
        text.push_str(&filler);
    }
    assert_eq!(text.len(), PAGE_LIMIT + 1);
    assert_eq!(get_book_info(&text), Err(ExtractionError::Unsearchable));
}
