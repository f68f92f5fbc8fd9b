//! Summaries of news items: one trait, two kinds of item, each saying in its
//! contract exactly what text its summary is made of.

use vstd::prelude::*;
use vstd::string::StringExecFns;

verus! {

/// Something that can present itself in one line. Each implementor fixes, as
/// a spec, the exact text of its author line and of its summary, and the
/// executable methods are held to it.
pub trait Summary {
    /// The text `summarize_author` must produce.
    spec fn author_spec(&self) -> Seq<char>;

    /// The text `summarize` must produce.
    spec fn summary_spec(&self) -> Seq<char>;

    /// Who wrote this item.
    fn summarize_author(&self) -> (s: String)
        ensures
            s@ == self.author_spec(),
    ;

    /// The one-line summary.
    fn summarize(&self) -> (s: String)
        ensures
            s@ == self.summary_spec(),
    ;
}

/// A full news article.
pub struct NewsArticle {
    pub headline: String,
    pub location: String,
    pub author: String,
    pub content: String,
}

impl Summary for NewsArticle {
    open spec fn author_spec(&self) -> Seq<char> {
        self.author@
    }

    open spec fn summary_spec(&self) -> Seq<char> {
        self.headline@ + ", by "@ + self.author@ + " ("@ + self.location@ + ")"@
    }

    fn summarize_author(&self) -> (s: String) {
        self.author.clone()
    }

    fn summarize(&self) -> (s: String) {
        let mut s = self.headline.clone();
        s.append(", by ");
        s.append(self.author.as_str());
        s.append(" (");
        s.append(self.location.as_str());
        s.append(")");
        proof {
            assert(s@ =~= self.summary_spec());
        }
        s
    }
}

/// A tweet.
pub struct Tweet {
    pub username: String,
    pub content: String,
    pub reply: bool,
    pub retweet: bool,
}

impl Summary for Tweet {
    open spec fn author_spec(&self) -> Seq<char> {
        "@"@ + self.username@
    }

    open spec fn summary_spec(&self) -> Seq<char> {
        self.username@ + ": "@ + self.content@
    }

    fn summarize_author(&self) -> (s: String) {
        let mut s = "@".to_owned();
        s.append(self.username.as_str());
        s
    }

    fn summarize(&self) -> (s: String) {
        let mut s = self.username.clone();
        s.append(": ");
        s.append(self.content.as_str());
        proof {
            assert(s@ =~= self.summary_spec());
        }
        s
    }
}

/// A ready-made summarizable item, with every field pinned down.
pub fn returns_summarizable() -> (t: Tweet)
    ensures
        t.username@ == "horse_ebooks"@,
        t.content@ == "of course, as you probably already know, people"@,
        !t.reply,
        !t.retweet,
{
    Tweet {
        username: "horse_ebooks".to_owned(),
        content: "of course, as you probably already know, people".to_owned(),
        reply: false,
        retweet: false,
    }
}

} // verus!
