//! Where the pages of the site are found: the template of a page or of an
//! article, the file behind a text address, and a few fixed replies.

use vstd::prelude::*;

verus! {

/// Whether `text` ends with `suffix`.
pub open spec fn ends_with(text: Seq<char>, suffix: Seq<char>) -> bool {
    text.len() >= suffix.len() && text.subrange(text.len() - suffix.len(), text.len() as int)
        == suffix
}

/// The ending of a template's name: `.html`.
pub open spec fn html_suffix() -> Seq<char> {
    seq!['.', 'h', 't', 'm', 'l']
}

/// `text` without the `.html` at its end, however often it is repeated there.
pub open spec fn stem(text: Seq<char>) -> Seq<char>
    decreases text.len(),
{
    if ends_with(text, html_suffix()) {
        stem(text.subrange(0, text.len() - 5))
    } else {
        text
    }
}

/// The template of the page `page`, which may be asked for with or without
/// `.html`.
pub open spec fn page_template(page: Seq<char>) -> Seq<char> {
    stem(page) + html_suffix()
}

/// The template of the article `article`, which may be asked for with or
/// without `.html`.
pub open spec fn article_template(article: Seq<char>) -> Seq<char> {
    "blog/"@ + stem(article) + html_suffix()
}

/// The length of `text` without its trailing `.html`s.
fn stem_len(text: &str) -> (n: usize)
    ensures
        n <= text@.len(),
        text@.subrange(0, n as int) == stem(text@),
{
    let mut n = text.unicode_len();
    assert(text@.subrange(0, n as int) =~= text@);
    while n >= 5 && text.get_char(n - 5) == '.' && text.get_char(n - 4) == 'h' && text.get_char(
        n - 3,
    ) == 't' && text.get_char(n - 2) == 'm' && text.get_char(n - 1) == 'l'
        invariant
            n <= text@.len(),
            stem(text@.subrange(0, n as int)) == stem(text@),
        decreases n,
    {
        proof {
            let head = text@.subrange(0, n as int);
            assert(head.subrange(head.len() - 5, head.len() as int) =~= html_suffix());
            assert(head.subrange(0, head.len() - 5) =~= text@.subrange(0, n - 5));
        }
        n -= 5;
    }
    proof {
        let head = text@.subrange(0, n as int);
        if n >= 5 {
            let tail = head.subrange(head.len() - 5, head.len() as int);
            assert(tail[0] == text@[n - 5] && tail[1] == text@[n - 4] && tail[2] == text@[n - 3]
                && tail[3] == text@[n - 2] && tail[4] == text@[n - 1]);
            assert(tail != html_suffix());
        }
        assert(!ends_with(head, html_suffix()));
    }
    n
}

/// The name of the template that renders the page `page`: the page's name
/// without any `.html` at its end, and `.html`.
pub fn template_name(page: &str) -> (name: String)
    ensures
        name@ == page_template(page@),
{
    let n = stem_len(page);
    proof {
        reveal_strlit(".html");
        assert(".html"@ =~= html_suffix());
    }
    String::from_str(page.substring_char(0, n)).concat(".html")
}

/// The name of the template that renders the article `article`: `blog/`,
/// the article's name without any `.html` at its end, and `.html`.
pub fn article_template_name(article: &str) -> (name: String)
    ensures
        name@ == article_template(article@),
{
    let n = stem_len(article);
    proof {
        reveal_strlit(".html");
        assert(".html"@ =~= html_suffix());
    }
    String::from_str("blog/").concat(article.substring_char(0, n)).concat(".html")
}

/// The file that is served at the address `<file>.txt`.
pub fn text_file_path(file: &str) -> (path: String)
    ensures
        path@ == "static/"@ + file@ + ".txt"@,
{
    String::from_str("static/").concat(file).concat(".txt")
}

/// The reply to a visitor who asks for their address: the address, or
/// nothing where it is not known, and a line break.
pub fn ip_reply(address: Option<&str>) -> (reply: String)
    ensures
        reply@ == match address {
            Some(a) => a@ + "\n"@,
            None => "\n"@,
        },
{
    match address {
        Some(a) => String::from_str(a).concat("\n"),
        None => String::from_str("\n"),
    }
}

/// What a visitor can ask for.
#[derive(Clone, Copy, Debug, PartialEq, Eq, Structural)]
pub enum Page {
    /// The front page.
    Index,
    /// A page by its name.
    Named,
    /// The list of articles.
    BlogIndex,
    /// An article by its name.
    Article,
    /// The gallery.
    Gallery,
    /// A text file by its name.
    TextFile,
}

impl Page {
    /// The status of the reply when the page cannot be produced: a page, an
    /// article or a file that is asked for by name is taken not to exist; a
    /// fixed page that fails is a fault of the server.
    pub open spec fn failure_status_of(self) -> int {
        match self {
            Page::Named | Page::Article | Page::TextFile => 404,
            Page::Index | Page::BlogIndex | Page::Gallery => 500,
        }
    }

    /// The text of the reply when the page cannot be produced.
    pub open spec fn failure_notice(self) -> Seq<char> {
        match self {
            Page::Named => "No such page"@,
            Page::Article => "No such article"@,
            Page::TextFile => "This, I do not have :/"@,
            Page::Index | Page::BlogIndex | Page::Gallery => "Template error"@,
        }
    }

    /// The status of the reply when the page cannot be produced.
    pub fn failure_status(&self) -> (code: u16)
        ensures
            code == self.failure_status_of(),
    {
        match self {
            Page::Named | Page::Article | Page::TextFile => 404,
            Page::Index | Page::BlogIndex | Page::Gallery => 500,
        }
    }

    /// The text of the reply when the page cannot be produced.
    pub fn failure_message(&self) -> (text: String)
        ensures
            text@ == self.failure_notice(),
    {
        match self {
            Page::Named => String::from_str("No such page"),
            Page::Article => String::from_str("No such article"),
            Page::TextFile => String::from_str("This, I do not have :/"),
            Page::Index | Page::BlogIndex | Page::Gallery => String::from_str("Template error"),
        }
    }
}

} // verus!
