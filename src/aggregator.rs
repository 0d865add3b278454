//! One-line summaries of news articles and tweets.
use vstd::prelude::*;
use vstd::string::*;

verus! {

/// Text `"(Read more from <author>...)"`.
pub open spec fn read_more_text(author: Seq<char>) -> Seq<char> {
    "(Read more from "@ + author + "...)"@
}

/// Text `"<headline>, by <author> (<location>)"`.
pub open spec fn headline_text(headline: Seq<char>, author: Seq<char>, location: Seq<char>) -> Seq<char> {
    headline + ", by "@ + author + " ("@ + location + ")"@
}

/// Builds `"(Read more from <author>...)"`.
pub fn read_more(author: &str) -> (r: String)
    ensures
        r@ == read_more_text(author@),
{
    let mut r = String::new();
    r.append("(Read more from ");
    r.append(author);
    r.append("...)");
    r
}

/// Builds `"<headline>, by <author> (<location>)"`.
pub fn headline_summary(headline: &str, author: &str, location: &str) -> (r: String)
    ensures
        r@ == headline_text(headline@, author@, location@),
{
    let mut r = String::new();
    r.append(headline);
    r.append(", by ");
    r.append(author);
    r.append(" (");
    r.append(location);
    r.append(")");
    assert(r@ =~= headline_text(headline@, author@, location@));
    r
}

/// Something that can be summarized in one line.
pub trait Summary {
    /// The text of the author line.
    spec fn author_text(&self) -> Seq<char>;

    /// The text of the summary; by default, a pointer to the author.
    open spec fn summary_text(&self) -> Seq<char> {
        read_more_text(self.author_text())
    }

    /// Who wrote it.
    fn summarize_author(&self) -> (r: String)
        ensures
            r@ == self.author_text(),
    ;

    /// One line about it.
    fn summarize(&self) -> (r: String)
        ensures
            r@ == self.summary_text(),
    ;
}

pub struct NewsArticle {
    pub headline: String,
    pub location: String,
    pub author: String,
    pub content: String,
}

impl Summary for NewsArticle {
    open spec fn author_text(&self) -> Seq<char> {
        self.author@
    }

    open spec fn summary_text(&self) -> Seq<char> {
        headline_text(self.headline@, self.author@, self.location@)
    }

    fn summarize_author(&self) -> String {
        self.author.clone()
    }

    fn summarize(&self) -> String {
        headline_summary(self.headline.as_str(), self.author.as_str(), self.location.as_str())
    }
}

pub struct Tweet {
    pub username: String,
    pub content: String,
    pub reply: bool,
    pub retweet: bool,
}

impl Tweet {
    /// The author's handle, `"@<username>"`.
    pub fn handle(&self) -> (r: String)
        ensures
            r@ == "@"@ + self.username@,
    {
        let mut r = String::new();
        r.append("@");
        r.append(self.username.as_str());
        r
    }
}

impl Summary for Tweet {
    open spec fn author_text(&self) -> Seq<char> {
        "@"@ + self.username@
    }

    fn summarize_author(&self) -> String {
        self.handle()
    }

    fn summarize(&self) -> String {
        read_more(self.handle().as_str())
    }
}

/// A sample tweet.
pub fn returns_summarizable() -> (r: Tweet)
    ensures
        r.username@ == "horse_ebooks"@,
        r.content@ == "of course, as you probably already know, people"@,
        !r.reply,
        !r.retweet,
{
    Tweet {
        username: String::from_str("horse_ebooks"),
        content: String::from_str("of course, as you probably already know, people"),
        reply: false,
        retweet: false,
    }
}

} // verus!
