use vstd::prelude::*;
use vstd::string::StringExecFns;

verus! {

/// Behaviour shared by everything that can be summarized: each type
/// says who its author line is and what its summary reads.
pub trait Summary {
    /// The author line of the summary.
    spec fn spec_author(&self) -> Seq<char>;

    /// The full text of the summary.
    spec fn spec_summary(&self) -> Seq<char>;

    fn summarize_author(&self) -> (r: String)
        ensures
            r@ == self.spec_author(),
    ;

    fn summarize(&self) -> (r: String)
        ensures
            r@ == self.spec_summary(),
    ;
}

pub struct NewsArticle {
    pub headline: String,
    pub location: String,
    pub author: String,
    pub content: String,
}

impl Summary for NewsArticle {
    open spec fn spec_author(&self) -> Seq<char> {
        self.author@
    }

    open spec fn spec_summary(&self) -> Seq<char> {
        self.headline@ + ", by "@ + self.author@ + " ("@ + self.location@ + ")"@
    }

    fn summarize_author(&self) -> (r: String) {
        self.author.clone()
    }

    fn summarize(&self) -> (r: String) {
        let mut r = self.headline.clone();
        r.append(", by ");
        r.append(self.author.as_str());
        r.append(" (");
        r.append(self.location.as_str());
        r.append(")");
        r
    }
}

pub struct Tweet {
    pub username: String,
    pub content: String,
    pub reply: bool,
    pub re_tweet: bool,
}

impl Summary for Tweet {
    open spec fn spec_author(&self) -> Seq<char> {
        "@"@ + self.username@
    }

    open spec fn spec_summary(&self) -> Seq<char> {
        "(Read more from "@ + self.spec_author() + "...)"@
    }

    fn summarize_author(&self) -> (r: String) {
        let mut r = String::from_str("@");
        r.append(self.username.as_str());
        r
    }

    fn summarize(&self) -> (r: String) {
        let mut r = String::from_str("(Read more from ");
        let author = self.summarize_author();
        r.append(author.as_str());
        r.append("...)");
        r
    }
}

#[derive(Debug)]
pub struct BlogPost {
    pub title: String,
    pub author: String,
    pub content: String,
}

impl Summary for BlogPost {
    open spec fn spec_author(&self) -> Seq<char> {
        "The Great "@ + self.author@
    }

    open spec fn spec_summary(&self) -> Seq<char> {
        "(Read more from "@ + self.spec_author() + "...)"@
    }

    fn summarize_author(&self) -> (r: String) {
        let mut r = String::from_str("The Great ");
        r.append(self.author.as_str());
        r
    }

    fn summarize(&self) -> (r: String) {
        let mut r = String::from_str("(Read more from ");
        let author = self.summarize_author();
        r.append(author.as_str());
        r.append("...)");
        r
    }
}

/// A ready-made tweet worth reading.
pub fn returns_summarizable() -> (r: Tweet)
    ensures
        r.username@ == "horse_ebooks"@,
        r.content@ == "of course, as you probably already know, people"@,
        r.reply == false,
        r.re_tweet == false,
{
    Tweet {
        username: String::from_str("horse_ebooks"),
        content: String::from_str("of course, as you probably already know, people"),
        reply: false,
        re_tweet: false,
    }
}

} // verus!
