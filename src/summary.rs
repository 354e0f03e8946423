//! Short text summaries of published items.
use vstd::prelude::*;
use vstd::string::StringExecFns;

verus! {

/// Something that can describe itself in one line.
pub trait Summary {
    /// Who wrote the item, as a handle.
    fn summarize_author(&self) -> String;

    /// The one-line summary; by default it points the reader at the author,
    /// as `summarize_author` names them.
    fn summarize(&self) -> (r: String)
        default_ensures
            exists|author: String|
                call_ensures(Self::summarize_author, (self,), author) && r@ == read_more(author@),
    {
        let mut s = String::from_str("(Read more from ");
        s.append(self.summarize_author().as_str());
        s.append("...)");
        s
    }
}

/// The text `(Read more from <author>...)`.
pub open spec fn read_more(author: Seq<char>) -> Seq<char> {
    "(Read more from "@ + author + "...)"@
}

/// The text `<left>: <right>`.
pub open spec fn labelled(left: Seq<char>, right: Seq<char>) -> Seq<char> {
    left + ": "@ + right
}

/// The text `@<name>`.
pub open spec fn handle(name: Seq<char>) -> Seq<char> {
    "@"@ + name
}

/// A news article with its headline and author.
pub struct NewsArticle {
    pub headline: String,
    pub author: String,
}

/// A short post with the poster's user name.
pub struct Tweet {
    pub username: String,
    pub content: String,
}

fn joined(left: &str, right: &str) -> (r: String)
    ensures
        r@ == labelled(left@, right@),
{
    let mut s = String::from_str(left);
    s.append(": ");
    s.append(right);
    s
}

fn at_handle(name: &str) -> (r: String)
    ensures
        r@ == handle(name@),
{
    let mut s = String::from_str("@");
    s.append(name);
    s
}

impl Summary for NewsArticle {
    fn summarize_author(&self) -> (r: String)
        ensures
            r@ == handle(self.author@),
    {
        at_handle(self.author.as_str())
    }

    fn summarize(&self) -> (r: String)
        ensures
            r@ == labelled(self.headline@, self.author@),
    {
        joined(self.headline.as_str(), self.author.as_str())
    }
}

impl Summary for Tweet {
    fn summarize_author(&self) -> (r: String)
        ensures
            r@ == handle(self.username@),
    {
        at_handle(self.username.as_str())
    }

    fn summarize(&self) -> (r: String)
        ensures
            r@ == labelled(self.username@, self.content@),
    {
        joined(self.username.as_str(), self.content.as_str())
    }
}

/// A sample post from the language's own account.
pub fn returns_summarizable() -> (t: Tweet)
    ensures
        t.username@ == "rust_lang"@,
        t.content@ == "Check out the new release notes!"@,
{
    Tweet {
        username: String::from_str("rust_lang"),
        content: String::from_str("Check out the new release notes!"),
    }
}

} // verus!
