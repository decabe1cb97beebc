use rss2email::blog::{Blog, Post};
use rss2email::html::{page_to_html, section_to_html};
use rss2email::instant::Instant;
use rss2email::listing::parse_listing;
use rss2email::util::{
    download_blogs, feed_links, keep_recent, keep_recent_posts, map_to_html, read_feeds,
    reads_listing, time_func, within_n_days,
};
use rss2email::xml::atom::{AtomFeed, AtomPost, Link};
use rss2email::xml::rss::RssFeed;
use rss2email::xml::Readings;

const DAY: i64 = 86_400;
const NOW: i64 = 1_704_067_200;

fn at(secs: i64) -> Instant {
    Instant::from_timestamp(secs, 0).unwrap()
}

fn post(title: &str, published_at: i64) -> Post {
    Post {
        title: title.to_string(),
        link: format!("https://{}", title),
        description: None,
        published_at: at(published_at),
    }
}

fn blog(title: &str, last_build_date: i64, posts: Vec<Post>) -> Blog {
    Blog { title: title.to_string(), last_build_date: at(last_build_date), posts }
}

fn as_atom(title: &str, updated: &[&str]) -> Readings {
    let rss: Result<RssFeed, quick_xml::DeError> = Err(quick_xml::DeError::Start);
    Readings {
        atom: Ok(AtomFeed {
            title: title.to_string(),
            entries: Some(
                updated
                    .iter()
                    .map(|u| AtomPost {
                        title: u.to_string(),
                        links: vec![Link::new("https://entry".to_string())],
                        summary: None,
                        updated: u.to_string(),
                    })
                    .collect(),
            ),
        }),
        rss,
    }
}

#[test]
fn within_n_days_counts_whole_days() {
    let now = at(NOW);
    assert!(within_n_days(7, &now, &at(NOW)));
    assert!(within_n_days(7, &now, &at(NOW - 7 * DAY)));
    assert!(within_n_days(7, &now, &at(NOW - 8 * DAY + 1)));
    assert!(!within_n_days(7, &now, &at(NOW - 8 * DAY)));
    assert!(within_n_days(0, &now, &at(NOW - DAY + 1)));
    assert!(!within_n_days(0, &now, &at(NOW - DAY)));
}

#[test]
fn within_n_days_admits_the_future() {
    let now = at(NOW);
    assert!(within_n_days(0, &now, &at(NOW + 100 * DAY)));
    assert!(within_n_days(-1, &now, &at(NOW + DAY)));
    assert!(!within_n_days(-1, &now, &at(NOW + DAY - 1)));
}

#[test]
fn keep_recent_posts_keeps_order() {
    let posts = vec![
        post("a", NOW - DAY),
        post("b", NOW - 30 * DAY),
        post("c", NOW - 2 * DAY),
        post("d", NOW - 3 * DAY),
    ];
    let kept = keep_recent_posts(2, &at(NOW), posts);
    let titles: Vec<&str> = kept.iter().map(|p| p.title.as_str()).collect();
    assert_eq!(titles, vec!["a", "c"]);
}

#[test]
fn keep_recent_cuts_a_feed_down() {
    let feed = blog("feed", NOW - DAY, vec![post("new", NOW - DAY), post("old", NOW - 9 * DAY)]);
    let kept = keep_recent(7, &at(NOW), feed).unwrap();
    assert_eq!(kept, blog("feed", NOW - DAY, vec![post("new", NOW - DAY)]));
}

#[test]
fn keep_recent_drops_a_stale_feed() {
    let stale = blog("stale", NOW - 9 * DAY, vec![post("new", NOW - DAY)]);
    assert_eq!(keep_recent(7, &at(NOW), stale), None);
    let hollow = blog("hollow", NOW - DAY, vec![post("old", NOW - 9 * DAY)]);
    assert_eq!(keep_recent(7, &at(NOW), hollow), None);
}

#[test]
fn download_blogs_makes_the_digest() {
    let documents = vec![
        as_atom("fresh", &["2023-12-31T00:00:00Z", "2023-12-01T00:00:00Z"]),
        Readings { atom: Err(quick_xml::DeError::Eof), rss: Err(quick_xml::DeError::Eof) },
        as_atom("stale", &["2023-11-01T00:00:00Z"]),
        as_atom("empty", &[]),
        as_atom("other", &["not-a-date", "2023-12-30T12:00:00+01:00"]),
    ];
    let blogs = download_blogs(7, &at(NOW), documents);
    let shown: Vec<(&str, Vec<&str>)> = blogs
        .iter()
        .map(|b| (b.title.as_str(), b.posts.iter().map(|p| p.title.as_str()).collect()))
        .collect();
    assert_eq!(
        shown,
        vec![
            ("fresh", vec!["2023-12-31T00:00:00Z"]),
            ("other", vec!["2023-12-30T12:00:00+01:00"]),
        ]
    );
    assert_eq!(blogs[0].last_build_date, at(NOW - DAY));
}

#[test]
fn digest_feeds_keep_their_latest_post() {
    let documents = vec![as_atom(
        "feed",
        &["2023-12-20T00:00:00Z", "2023-12-31T00:00:00Z", "2023-12-30T00:00:00Z"],
    )];
    let blogs = download_blogs(3, &at(NOW), documents);
    assert_eq!(blogs.len(), 1);
    let latest = blogs[0].posts.iter().map(|p| p.published_at.timestamp()).max();
    assert_eq!(latest, Some(blogs[0].last_build_date.timestamp()));
    assert_eq!(blogs[0].posts.len(), 2);
}

#[test]
fn download_blogs_of_nothing_is_nothing() {
    assert_eq!(download_blogs(7, &at(NOW), vec![]), vec![]);
}

#[test]
fn read_feeds_takes_the_given_links() {
    assert!(!reads_listing(2));
    let links = read_feeds(2, vec!["https://a", "", "https://a"], "https://listed");
    assert_eq!(links, vec!["https://a", "", "https://a"]);
}

#[test]
fn read_feeds_reads_the_listing() {
    assert!(reads_listing(0));
    assert!(reads_listing(1));
    let listing = "https://a.com\n# a comment\nhttps://b.com # the second\n\n  https://c.com\t\nhttps://a.com\n";
    for flag in [0, 1] {
        let links = read_feeds(flag, vec!["https://given"], listing);
        assert_eq!(links, vec!["https://a.com", "https://b.com", "https://c.com"]);
    }
}

#[test]
fn listing_without_line_feed_is_one_line() {
    assert_eq!(parse_listing("https://a.com"), vec!["https://a.com"]);
    assert_eq!(parse_listing(""), Vec::<String>::new());
    assert_eq!(parse_listing("#"), Vec::<String>::new());
    assert_eq!(parse_listing("\n\n"), Vec::<String>::new());
}

#[test]
fn listing_cuts_at_the_first_hash() {
    assert_eq!(parse_listing("https://a.com/#top # note"), vec!["https://a.com/"]);
    assert_eq!(parse_listing("a#b\nc"), vec!["a", "c"]);
}

#[test]
fn listing_trims_unicode_white_space() {
    assert_eq!(parse_listing("\u{2003}https://a.com\u{a0}\r\n"), vec!["https://a.com"]);
    assert_eq!(parse_listing("a b"), vec!["a b"]);
    assert_eq!(parse_listing("\u{200b}a"), vec!["\u{200b}a"]);
}

#[test]
fn line_of_white_space_names_an_empty_link() {
    assert_eq!(parse_listing("   \nhttps://a.com"), vec!["", "https://a.com"]);
    assert_eq!(feed_links(0, vec![], "   \nhttps://a.com"), vec!["https://a.com"]);
}

#[test]
fn listing_names_each_link_once() {
    assert_eq!(parse_listing("b\na\nb\nc\na"), vec!["b", "a", "c"]);
    assert_eq!(parse_listing("a\n a \na#"), vec!["a"]);
}

#[test]
fn feed_links_leaves_out_empty_links() {
    assert_eq!(feed_links(2, vec!["", "https://a", "", "https://a"], ""), vec!["https://a", "https://a"]);
}

#[test]
fn section_lists_the_posts() {
    let feed = blog("Feed", NOW, vec![post("one", NOW), post("two", NOW)]);
    assert_eq!(
        section_to_html(&feed),
        "<h2>Feed</h2><ul><li><a href=\"https://one\">one</a></li><li><a href=\"https://two\">two</a></li></ul>"
    );
}

#[test]
fn page_wraps_the_sections() {
    let blogs = vec![blog("A", NOW, vec![post("a", NOW)]), blog("B", NOW, vec![])];
    let html = map_to_html(&blogs, &at(NOW + 86_399));
    let head = "\n    <!DOCTYPE html>\n    <html lang=\"en\">\n        <head>\n            <meta charset=\"utf-8\" />\n            <meta name=\"viewport\" content=\"width=device-width, initial-scale=1, shrink-to-fit=no\" />\n            <link rel=\"stylesheet\" href=\"https://cdn.jsdelivr.net/npm/bootstrap@4.3.1/dist/css/bootstrap.min.css\" integrity=\"sha384-ggOyR0iXCbMQv3Xipma34MD+dH/1fQ784/j6cY/iJTQUOhcWr7x9JvoRxT2MZw1T\" crossorigin=\"anonymous\">\n        </head>\n        <body>\n            <nav class=\"navbar navbar-expand-lg navbar-dark bg-dark text-light\">\n              <a class=\"navbar-brand\">Rss2Email Feed</a>\n            </nav>\n            <div class=\"container\">\n                <div class=\"text-left mt-5\">\n  ";
    let tail = "\n      </div>\n      </div>\n      \n      <!-- Bootstrap core JS-->\n      <script src=\"https://cdn.jsdelivr.net/npm/bootstrap@5.1.3/dist/js/bootstrap.bundle.min.js\"></script>\n    </body>\n    </html>\n  ";
    let body = "<h1>Rss2Email - 2024-01-01UTC</h1><h2>A</h2><ul><li><a href=\"https://a\">a</a></li></ul><h2>B</h2><ul></ul>";
    assert_eq!(html, format!("{}{}{}", head, body, tail));
}

#[test]
fn page_without_feeds_has_only_the_heading() {
    let html = page_to_html(&vec![], "today");
    assert!(html.contains("<div class=\"text-left mt-5\">\n  <h1>Rss2Email - today</h1>\n      </div>"));
}

#[test]
fn page_shows_the_day_that_is_handed_over() {
    let blogs = vec![blog("A", NOW, vec![post("a", NOW)])];
    let html = page_to_html(&blogs, "a day");
    assert!(html.contains("  <h1>Rss2Email - a day</h1><h2>A</h2><ul><li><a href=\"https://a\">a</a></li></ul>\n"));
    assert_eq!(map_to_html(&blogs, &at(0)), page_to_html(&blogs, "1970-01-01UTC"));
}

#[test]
fn time_func_hands_back_the_result() {
    let words = vec!["a".to_string(), "b".to_string()];
    assert_eq!(time_func(|| words.len() * 21, "count"), 42);
    assert_eq!(time_func(|| words.clone(), "copy"), words);
}
