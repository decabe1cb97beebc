//! The digest as a page of HTML.

use vstd::prelude::*;
use vstd::string::*;

use crate::blog::{Blog, BlogView, PostView};

verus! {

/// What stands before the body of the page.
pub const PAGE_HEAD: &'static str = "
    <!DOCTYPE html>
    <html lang=\"en\">
        <head>
            <meta charset=\"utf-8\" />
            <meta name=\"viewport\" content=\"width=device-width, initial-scale=1, shrink-to-fit=no\" />
            <link rel=\"stylesheet\" href=\"https://cdn.jsdelivr.net/npm/bootstrap@4.3.1/dist/css/bootstrap.min.css\" integrity=\"sha384-ggOyR0iXCbMQv3Xipma34MD+dH/1fQ784/j6cY/iJTQUOhcWr7x9JvoRxT2MZw1T\" crossorigin=\"anonymous\">
        </head>
        <body>
            <nav class=\"navbar navbar-expand-lg navbar-dark bg-dark text-light\">
              <a class=\"navbar-brand\">Rss2Email Feed</a>
            </nav>
            <div class=\"container\">
                <div class=\"text-left mt-5\">
  ";

/// What stands after the body of the page.
pub const PAGE_TAIL: &'static str = "
      </div>
      </div>
      
      <!-- Bootstrap core JS-->
      <script src=\"https://cdn.jsdelivr.net/npm/bootstrap@5.1.3/dist/js/bootstrap.bundle.min.js\"></script>
    </body>
    </html>
  ";

/// The list item of a post: its title, linked to its address.
pub open spec fn post_item(post: PostView) -> Seq<char> {
    "<li><a href=\""@ + post.link + "\">"@ + post.title + "</a></li>"@
}

/// The list items of posts, one after the other.
pub open spec fn post_items(posts: Seq<PostView>) -> Seq<char>
    decreases posts.len(),
{
    if posts.len() == 0 {
        Seq::empty()
    } else {
        post_items(posts.drop_last()) + post_item(posts.last())
    }
}

/// The section of a feed: its title as a heading, then the list of its posts.
pub open spec fn blog_section(blog: BlogView) -> Seq<char> {
    "<h2>"@ + blog.title + "</h2><ul>"@ + post_items(blog.posts) + "</ul>"@
}

/// The sections of feeds, one after the other.
pub open spec fn blog_sections(blogs: Seq<BlogView>) -> Seq<char>
    decreases blogs.len(),
{
    if blogs.len() == 0 {
        Seq::empty()
    } else {
        blog_sections(blogs.drop_last()) + blog_section(blogs.last())
    }
}

/// The body of the page: a heading with the day, then the sections.
pub open spec fn page_body(today: Seq<char>, blogs: Seq<BlogView>) -> Seq<char> {
    "<h1>Rss2Email - "@ + today + "</h1>"@ + blog_sections(blogs)
}

/// The page.
pub open spec fn page(today: Seq<char>, blogs: Seq<BlogView>) -> Seq<char> {
    PAGE_HEAD@ + page_body(today, blogs) + PAGE_TAIL@
}

/// Writes the section of one feed.
pub fn section_to_html(blog: &Blog) -> (html: String)
    ensures
        html@ == blog_section(blog@),
{
    let mut html = String::from_str("<h2>");
    html.append(blog.title.as_str());
    html.append("</h2><ul>");
    let ghost opening = html@;
    let mut i: usize = 0;
    while i < blog.posts.len()
        invariant
            i <= blog.posts.len(),
            html@ == opening + post_items(blog@.posts.take(i as int)),
        decreases blog.posts.len() - i,
    {
        let post = &blog.posts[i];
        proof {
            let next = blog@.posts.take(i + 1);
            assert(next.drop_last() == blog@.posts.take(i as int));
            assert(next.last() == post@);
        }
        html.append("<li><a href=\"");
        html.append(post.link.as_str());
        html.append("\">");
        html.append(post.title.as_str());
        html.append("</a></li>");
        assert(html@ == opening + post_items(blog@.posts.take(i + 1)));
        i += 1;
    }
    assert(blog@.posts.take(i as int) == blog@.posts);
    html.append("</ul>");
    html
}

/// Writes the page of a digest. `today` is the day as the heading shows it.
pub fn page_to_html(blogs: &Vec<Blog>, today: &str) -> (html: String)
    ensures
        html@ == page(today@, blogs.deep_view()),
{
    let mut body = String::from_str("<h1>Rss2Email - ");
    body.append(today);
    body.append("</h1>");
    let ghost heading = body@;
    let ghost all = blogs.deep_view();
    let mut i: usize = 0;
    while i < blogs.len()
        invariant
            i <= blogs.len(),
            all == blogs.deep_view(),
            body@ == heading + blog_sections(all.take(i as int)),
        decreases blogs.len() - i,
    {
        let section = section_to_html(&blogs[i]);
        proof {
            let next = all.take(i + 1);
            assert(next.drop_last() == all.take(i as int));
            assert(next.last() == blogs[i as int]@);
        }
        body.append(section.as_str());
        assert(body@ == heading + blog_sections(all.take(i + 1)));
        i += 1;
    }
    assert(all.take(i as int) == all);
    let mut html = String::from_str(PAGE_HEAD);
    html.append(body.as_str());
    html.append(PAGE_TAIL);
    html
}

} // verus!
