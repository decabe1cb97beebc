use rss2email::blog::Blog;
use rss2email::instant::Instant;
use rss2email::xml::atom::{AtomFeed, AtomPost, Link};
use rss2email::xml::rss::{Channel, RssFeed, RssPost};
use rss2email::xml::{parse_web_feed, ParserError, Readings};

fn atom(title: &str, updated: &[&str]) -> AtomFeed {
    AtomFeed {
        title: title.to_string(),
        entries: Some(
            updated
                .iter()
                .map(|u| AtomPost {
                    title: "entry".to_string(),
                    links: vec![Link::new("https://entry".to_string())],
                    summary: None,
                    updated: u.to_string(),
                })
                .collect(),
        ),
    }
}

fn rss(title: &str, pub_dates: &[&str]) -> RssFeed {
    RssFeed {
        channel: Channel {
            title: title.to_string(),
            items: Some(
                pub_dates
                    .iter()
                    .map(|d| RssPost {
                        title: "item".to_string(),
                        link: "https://item".to_string(),
                        description: None,
                        pub_date: d.to_string(),
                    })
                    .collect(),
            ),
        },
    }
}

fn unreadable(message: &str) -> quick_xml::DeError {
    quick_xml::DeError::Custom(message.to_string())
}

fn title_of(res: Result<Blog, ParserError>) -> String {
    res.unwrap().title
}

#[test]
fn atom_document_is_converted_as_atom() {
    let readings = Readings {
        atom: Ok(atom("As Atom", &["2024-01-01T00:00:00Z"])),
        rss: Err(unreadable("missing field `channel`")),
    };
    let blog = parse_web_feed(readings).unwrap();
    assert_eq!(blog.title, "As Atom");
    assert_eq!(blog.last_build_date, Instant::from_timestamp(1_704_067_200, 0).unwrap());
}

#[test]
fn rss_document_is_converted_as_rss() {
    let readings = Readings {
        atom: Err(unreadable("missing field `title`")),
        rss: Ok(rss("As RSS", &["Mon, 01 Jan 2024 00:00:00 GMT"])),
    };
    let blog = parse_web_feed(readings).unwrap();
    assert_eq!(blog.title, "As RSS");
    assert_eq!(blog.posts.len(), 1);
    assert_eq!(blog.last_build_date, Instant::from_timestamp(1_704_067_200, 0).unwrap());
}

#[test]
fn atom_comes_before_rss() {
    let readings = Readings {
        atom: Ok(atom("First", &["2024-01-01T00:00:00Z"])),
        rss: Ok(rss("Second", &["Mon, 01 Jan 2024 00:00:00 GMT"])),
    };
    assert_eq!(title_of(parse_web_feed(readings)), "First");
}

#[test]
fn readable_but_empty_atom_document_does_not_fall_through() {
    let readings = Readings {
        atom: Ok(atom("Nothing", &[])),
        rss: Ok(rss("Something", &["Mon, 01 Jan 2024 00:00:00 GMT"])),
    };
    match parse_web_feed(readings) {
        Err(ParserError::Parse(message)) => assert_eq!(message, "Empty feed: Nothing"),
        other => panic!("unexpected outcome: {:?}", other),
    }
}

#[test]
fn document_of_no_known_dialect_fails() {
    let readings = Readings { atom: Err(unreadable("not atom")), rss: Err(unreadable("not rss")) };
    match parse_web_feed(readings) {
        Err(ParserError::Deserialize(quick_xml::DeError::Custom(message))) => {
            assert_eq!(message, "not rss")
        }
        other => panic!("unexpected outcome: {:?}", other),
    }
}
