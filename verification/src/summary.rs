use vstd::prelude::*;
use vstd::string::StringSliceAdditionalSpecFns;
use vstd::utf8::{encode_utf8, is_char_boundary};

verus! {

/// Something that can be told in one line.
pub trait Summarizable {
    fn summarize(&self) -> String;
}

pub struct NewsArticle {
    pub headline: String,
    pub location: String,
    pub author: String,
    pub content: String,
}

impl Summarizable for NewsArticle {
    fn summarize(&self) -> (line: String)
        ensures
            line@ == self.headline@ + ", by "@ + self.author@ + " ("@ + self.location@ + ")"@,
    {
        let mut line = self.headline.clone();
        line.append(", by ");
        line.append(self.author.as_str());
        line.append(" (");
        line.append(self.location.as_str());
        line.append(")");
        line
    }
}

pub struct Tweet {
    pub username: String,
    pub content: String,
    pub reply: bool,
    pub retweet: bool,
}

impl Summarizable for Tweet {
    fn summarize(&self) -> (line: String)
        ensures
            line@ == self.username@ + ": "@ + self.content@,
    {
        let mut line = self.username.clone();
        line.append(": ");
        line.append(self.content.as_str());
        line
    }
}

/// Something that can be told in one line, and is told as an invitation to
/// read on where nothing better is known.
pub trait SummarizableWithDefault {
    fn summarize(&self) -> (line: String)
        default_ensures
            line@ == "Read more..."@,
    {
        String::from_str("Read more...")
    }
}

pub struct TabloidNewsArticle {
    pub headline: String,
    pub location: String,
    pub author: String,
    pub content: String,
}

impl SummarizableWithDefault for TabloidNewsArticle {

}

impl TabloidNewsArticle {
    /// A peek at the article: the first twenty bytes of its content, and
    /// three dots. The twenty bytes must end with a character.
    pub fn to_string(&self) -> (peek: String)
        requires
            is_char_boundary(encode_utf8(self.content@), 20),
        ensures
            exists|head: Seq<char>|
                #![trigger encode_utf8(head)]
                encode_utf8(head) == encode_utf8(self.content@).subrange(0, 20) && peek@ == head
                    + "..."@,
    {
        let (head, _) = self.content.as_str().split_at(20);
        let mut peek = String::from_str(head);
        peek.append("...");
        assert(encode_utf8(head@) == encode_utf8(self.content@).subrange(0, 20));
        peek
    }
}

/// A tweet, for a caller that only needs to summarize it.
pub fn returns_summarizable() -> (item: Tweet)
    ensures
        item.username@ == "ProbablySomethingQuirky"@,
        item.content@
            == "Something very witty and imaginative, because twitter users are big brained"@,
        !item.reply,
        !item.retweet,
{
    Tweet {
        username: String::from_str("ProbablySomethingQuirky"),
        content: String::from_str(
            "Something very witty and imaginative, because twitter users are big brained",
        ),
        reply: false,
        retweet: false,
    }
}

} // verus!
