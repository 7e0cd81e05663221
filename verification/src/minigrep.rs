use vstd::prelude::*;

verus! {

#[derive(Clone, Copy, Debug, PartialEq, Eq, Structural)]
pub enum CaseSensitive {
    Yes,
    No,
}

pub struct Config {
    pub query: String,
    pub filename: String,
    pub case_sensitive: CaseSensitive,
}

impl Config {
    /// Reads the query and the file name from a program's arguments, of
    /// which the first is the program's own name. Further arguments are
    /// ignored.
    pub fn new(args: &[String], case_sensitive: CaseSensitive) -> (made: Result<
        Config,
        &'static str,
    >)
        ensures
            match made {
                Ok(config) => {
                    &&& args@.len() >= 3
                    &&& config.query@ == args@[1]@
                    &&& config.filename@ == args@[2]@
                    &&& config.case_sensitive == case_sensitive
                },
                Err(e) => if args@.len() < 2 {
                    e@ == "No query defined"@
                } else {
                    args@.len() == 2 && e@ == "No file defined"@
                },
            },
    {
        if args.len() < 2 {
            return Err("No query defined");
        }
        if args.len() < 3 {
            return Err("No file defined");
        }
        let query = args[1].clone();
        let filename = args[2].clone();
        Ok(Config { query, filename, case_sensitive })
    }
}

/// How many characters stand before the first line feed of a text.
pub open spec fn first_break(s: Seq<char>) -> int
    decreases s.len(),
{
    if s.len() == 0 || s[0] == '\n' {
        0
    } else {
        1 + first_break(s.drop_first())
    }
}

/// A line without the carriage return that stood before its line feed.
pub open spec fn without_return(line: Seq<char>) -> Seq<char> {
    if line.len() > 0 && line.last() == '\r' {
        line.drop_last()
    } else {
        line
    }
}

/// The lines of a text. A line ends with a line feed, or with a carriage
/// return and a line feed; neither belongs to the line. What follows the last
/// line feed is a line too, unless nothing follows it.
pub open spec fn split_lines(s: Seq<char>) -> Seq<Seq<char>>
    decreases s.len(),
{
    let i = first_break(s);
    if s.len() == 0 {
        Seq::empty()
    } else if i < 0 || i >= s.len() {
        seq![s]
    } else {
        seq![without_return(s.subrange(0, i))] + split_lines(s.subrange(i + 1, s.len() as int))
    }
}

/// Whether `needle` stands somewhere in `haystack`, character for character.
pub open spec fn occurs_in(needle: Seq<char>, haystack: Seq<char>) -> bool {
    exists|i: int|
        0 <= i && i + needle.len() <= haystack.len() && #[trigger] haystack.subrange(
            i,
            i + needle.len(),
        ) == needle
}

/// The lower-case form of a text, as `str::to_lowercase` gives it.
pub uninterp spec fn lowercase_of(s: Seq<char>) -> Seq<char>;

/// What each of a list of string slices holds.
pub open spec fn texts(lines: Seq<&str>) -> Seq<Seq<char>> {
    Seq::new(lines.len(), |i: int| lines[i]@)
}

/// `str::lines`, collected: the lines of the text in their order, each a
/// slice of the text.
#[verifier::external_body]
fn lines_of<'a>(contents: &'a str) -> (lines: Vec<&'a str>)
    ensures
        texts(lines@) == split_lines(contents@),
{
    contents.lines().collect()
}

/// `str::to_lowercase`.
#[verifier::external_body]
fn lowercase(s: &str) -> (lower: String)
    ensures
        lower@ == lowercase_of(s@),
{
    s.to_lowercase()
}

/// `str::contains` with a string as the pattern: whether the pattern matches
/// a part of the text.
#[verifier::external_body]
fn has_substring(haystack: &str, needle: &str) -> (found: bool)
    ensures
        found == occurs_in(needle@, haystack@),
{
    haystack.contains(needle)
}

/// The lines that a test keeps, in their order.
pub open spec fn kept(lines: Seq<Seq<char>>, keep: spec_fn(Seq<char>) -> bool) -> Seq<Seq<char>>
    decreases lines.len(),
{
    if lines.len() == 0 {
        Seq::empty()
    } else if keep(lines.last()) {
        kept(lines.drop_last(), keep).push(lines.last())
    } else {
        kept(lines.drop_last(), keep)
    }
}

/// `out` is what is left of `lines` when each line is shown to `f` once and
/// kept where `f` says so.
pub open spec fn filtered_by<F: Fn(&&str) -> bool>(f: F, lines: Seq<&str>, out: Seq<&str>) -> bool
    decreases lines.len(),
{
    if lines.len() == 0 {
        out.len() == 0
    } else {
        ||| {
            &&& call_ensures(f, (&lines.last(),), true)
            &&& out.len() > 0
            &&& out.last() == lines.last()
            &&& filtered_by(f, lines.drop_last(), out.drop_last())
        }
        ||| {
            &&& call_ensures(f, (&lines.last(),), false)
            &&& filtered_by(f, lines.drop_last(), out)
        }
    }
}

/// Where `f` decides by what a line holds, as `keep` does, what it leaves
/// of the lines is what `keep` keeps.
pub proof fn lemma_filtered_by_test<F: Fn(&&str) -> bool>(
    f: F,
    keep: spec_fn(Seq<char>) -> bool,
    lines: Seq<&str>,
    out: Seq<&str>,
)
    requires
        filtered_by(f, lines, out),
        forall|l: &&str, b: bool| call_ensures(f, (l,), b) ==> b == keep(l@),
    ensures
        texts(out) == kept(texts(lines), keep),
    decreases lines.len(),
{
    if lines.len() == 0 {
        assert(texts(out) =~= Seq::<Seq<char>>::empty());
    } else {
        let last = lines.last();
        assert(texts(lines).last() == last@);
        assert(texts(lines).drop_last() =~= texts(lines.drop_last()));
        if call_ensures(f, (&last,), true) && out.len() > 0 && out.last() == last && filtered_by(
            f,
            lines.drop_last(),
            out.drop_last(),
        ) {
            assert(keep(last@));
            lemma_filtered_by_test(f, keep, lines.drop_last(), out.drop_last());
            assert(texts(out).drop_last() =~= texts(out.drop_last()));
            assert(texts(out) =~= texts(out).drop_last().push(last@));
        } else {
            assert(call_ensures(f, (&last,), false));
            assert(!keep(last@));
            lemma_filtered_by_test(f, keep, lines.drop_last(), out);
        }
    }
}

/// The lines of `contents` that `filter_fc` keeps, in their order.
pub fn search_line_core<'a, F: Fn(&&str) -> bool>(contents: &'a str, filter_fc: F) -> (found: Vec<
    &'a str,
>)
    requires
        forall|l: &&str| call_requires(filter_fc, (l,)),
    ensures
        exists|lines: Seq<&str>|
            texts(lines) == split_lines(contents@) && #[trigger] filtered_by(
                filter_fc,
                lines,
                found@,
            ),
{
    let lines = lines_of(contents);
    let mut found: Vec<&'a str> = Vec::new();
    let mut i: usize = 0;
    while i < lines.len()
        invariant
            i <= lines.len(),
            forall|l: &&str| call_requires(filter_fc, (l,)),
            filtered_by(filter_fc, lines@.take(i as int), found@),
        decreases lines.len() - i,
    {
        let line: &'a str = lines[i];
        let ghost before = found@;
        assert(lines@.take(i + 1).drop_last() =~= lines@.take(i as int));
        assert(lines@.take(i + 1).last() == line);
        if filter_fc(&line) {
            found.push(line);
            assert(found@.drop_last() =~= before);
        }
        i = i + 1;
    }
    assert(lines@.take(i as int) =~= lines@);
    found
}

/// The lines of `contents` in which `query` stands, in their order.
pub open spec fn matching_lines(query: Seq<char>, contents: Seq<char>) -> Seq<Seq<char>> {
    kept(split_lines(contents), |line: Seq<char>| occurs_in(query, line))
}

/// The lines of `contents` in which `query` stands when upper and lower case
/// count as the same, in their order.
pub open spec fn matching_lines_any_case(query: Seq<char>, contents: Seq<char>) -> Seq<Seq<char>> {
    kept(
        split_lines(contents),
        |line: Seq<char>| occurs_in(lowercase_of(query), lowercase_of(line)),
    )
}

pub fn search_line_case_insensitive<'a>(query: &str, contents: &'a str) -> (found: Vec<&'a str>)
    ensures
        texts(found@) == matching_lines_any_case(query@, contents@),
{
    let lowered = lowercase(query);
    let ghost keep = |line: Seq<char>| occurs_in(lowercase_of(query@), lowercase_of(line));
    let filter_fc = |l: &&str| -> (b: bool)
        ensures
            b == keep(l@),
        {
            let line = lowercase(*l);
            has_substring(line.as_str(), lowered.as_str())
        };
    let found = search_line_core(contents, filter_fc);
    proof {
        let lines = choose|lines: Seq<&str>|
            texts(lines) == split_lines(contents@) && #[trigger] filtered_by(
                filter_fc,
                lines,
                found@,
            );
        lemma_filtered_by_test(filter_fc, keep, lines, found@);
    }
    found
}

pub fn search_line_case_sensitive<'a>(query: &str, contents: &'a str) -> (found: Vec<&'a str>)
    ensures
        texts(found@) == matching_lines(query@, contents@),
{
    let ghost keep = |line: Seq<char>| occurs_in(query@, line);
    let filter_fc = |l: &&str| -> (b: bool)
        ensures
            b == keep(l@),
        { has_substring(*l, query) };
    let found = search_line_core(contents, filter_fc);
    proof {
        let lines = choose|lines: Seq<&str>|
            texts(lines) == split_lines(contents@) && #[trigger] filtered_by(
                filter_fc,
                lines,
                found@,
            );
        lemma_filtered_by_test(filter_fc, keep, lines, found@);
    }
    found
}

pub fn search_line<'a>(query: &str, contents: &'a str, case_sensitive: CaseSensitive) -> (found: Vec<
    &'a str,
>)
    ensures
        texts(found@) == match case_sensitive {
            CaseSensitive::Yes => matching_lines(query@, contents@),
            CaseSensitive::No => matching_lines_any_case(query@, contents@),
        },
{
    match case_sensitive {
        CaseSensitive::Yes => search_line_case_sensitive(query, contents),
        CaseSensitive::No => search_line_case_insensitive(query, contents),
    }
}

} // verus!
