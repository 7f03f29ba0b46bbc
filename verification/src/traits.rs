//! Traits, a few types that implement them, and functions that ask for them.

use vstd::prelude::*;
use vstd::string::StringExecFns;
use vstd::utf8::encode_utf8;

verus! {

/// Something that can be said in short.
pub trait Summary {
    /// What `summarize` says.
    spec fn summarized(&self) -> Seq<char>;

    /// What `summary` says: what `summarize` says, unless the implementor
    /// decides otherwise.
    open spec fn summary_text(&self) -> Seq<char> {
        self.summarized()
    }

    /// The short form of this value.
    fn summarize(&self) -> (r: String)
        ensures
            r@ == self.summarized(),
    ;

    /// The short form as it is shown. Left as it is here, it is what
    /// `summarize` gives.
    fn summary(&self) -> (r: String)
        ensures
            self.summary_text() == self.summarized() ==> r@ == self.summarized(),
    {
        self.summarize()
    }
}

/// A piece of news.
pub struct News {
    pub content: String,
}

/// A tweet that passes another one on.
pub struct Tweet {
    pub retweet: String,
}

impl Summary for News {
    open spec fn summarized(&self) -> Seq<char> {
        self.content@
    }

    open spec fn summary_text(&self) -> Seq<char> {
        "重载"@
    }

    /// The news in full.
    fn summarize(&self) -> (r: String) {
        self.content.clone()
    }

    /// A fixed text in place of the news.
    fn summary(&self) -> (r: String)
        ensures
            r@ == self.summary_text(),
    {
        String::from_str("重载")
    }
}

impl Summary for Tweet {
    open spec fn summarized(&self) -> Seq<char> {
        self.retweet@
    }

    /// The tweet passed on.
    fn summarize(&self) -> (r: String) {
        self.retweet.clone()
    }
}

/// Hands `item` back as something that can be said in short.
pub fn _notifily(item: impl Summary) -> (r: impl Summary)
    ensures
        r.summarized() == item.summarized(),
        r.summary_text() == item.summary_text(),
{
    item
}

/// Something that hands out items one after another.
pub trait AssociatedTypes {
    /// What is handed out.
    type Item;

    /// The next item, if there is one.
    fn next(&mut self) -> Option<Self::Item>;
}

impl AssociatedTypes for String {
    type Item = usize;

    /// The length of the string in bytes, every time. The string stays as
    /// it is.
    fn next(&mut self) -> (r: Option<usize>)
        ensures
            final(self)@ == old(self)@,
            r == Some(encode_utf8(old(self)@).len() as usize),
    {
        Some(self.as_str().len())
    }
}

/// A human being.
pub struct Human;

impl Human {
    /// What a human is called.
    pub fn name() -> (r: String)
        ensures
            r@ == "human"@,
    {
        String::from_str("human")
    }
}

} // verus!
