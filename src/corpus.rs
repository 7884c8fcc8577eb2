use vstd::prelude::*;
use crate::tokenizer::{cl100k_encoding, encode};

verus! {

/// One issue as the summarizer reads it.
pub struct IssueContext {
    pub owner: String,
    pub repo: String,
    pub issue_number: u64,
    pub title: String,
    pub creator_login: String,
    pub creator_role: String,
    pub labels: Vec<String>,
    pub body: Option<String>,
    pub html_url: String,
}

/// One comment of an issue.
pub struct CommentRecord {
    pub author_login: String,
    pub body: Option<String>,
}

/// The text of an optional string, empty where it is absent.
pub open spec fn text_or_empty(o: Option<String>) -> Seq<char> {
    match o {
        Some(t) => t@,
        None => Seq::empty(),
    }
}

/// The views of a sequence of strings.
pub open spec fn strings_view(v: Seq<String>) -> Seq<Seq<char>> {
    v.map_values(|s: String| s@)
}

/// The strings of `v` joined by `", "`.
pub open spec fn comma_joined(v: Seq<Seq<char>>) -> Seq<char>
    decreases v.len(),
{
    if v.len() == 0 {
        Seq::empty()
    } else if v.len() == 1 {
        v[0]
    } else {
        comma_joined(v.drop_last()) + ", "@ + v.last()
    }
}

/// The sentence that introduces an issue: its creator, the creator's role, its
/// title, its labels and its body.
pub open spec fn issue_sentence(issue: IssueContext) -> Seq<char> {
    "User '"@ + issue.creator_login@ + "', who holds the role of '"@ + issue.creator_role@
        + "', has submitted an issue titled '"@ + issue.title@ + "', labeled as '"@
        + comma_joined(strings_view(issue.labels@)) + "', with the following post: '"@
        + text_or_empty(issue.body) + "'."@
}

/// The sentence for one comment: `"{author} commented: {body}"`.
pub open spec fn comment_sentence(c: CommentRecord) -> Seq<char> {
    c.author_login@ + " commented: "@ + text_or_empty(c.body)
}

/// The tokens of the comments' sentences, each encoded on its own, in order.
pub open spec fn comments_tokens(cs: Seq<CommentRecord>) -> Seq<u32>
    decreases cs.len(),
{
    if cs.len() == 0 {
        Seq::empty()
    } else {
        comments_tokens(cs.drop_last()) + cl100k_encoding(comment_sentence(cs.last()))
    }
}

/// The token stream of an issue: its own sentence, then each comment's, where
/// the comments could be listed (`None` where listing them failed).
pub open spec fn corpus_tokens(issue: IssueContext, comments: Option<Seq<CommentRecord>>) -> Seq<
    u32,
> {
    cl100k_encoding(issue_sentence(issue)) + match comments {
        Some(cs) => comments_tokens(cs),
        None => Seq::empty(),
    }
}

fn append_or_empty(s: &mut String, o: &Option<String>)
    ensures
        final(s)@ == old(s)@ + text_or_empty(*o),
{
    match o {
        Some(t) => s.append(t.as_str()),
        None => {
            assert(old(s)@ + Seq::<char>::empty() =~= old(s)@);
        },
    }
}

/// Joins `labels` with `", "`.
pub fn join_labels(labels: &Vec<String>) -> (r: String)
    ensures
        r@ == comma_joined(strings_view(labels@)),
{
    let mut r = String::new();
    let mut i: usize = 0;
    while i < labels.len()
        invariant
            i <= labels@.len(),
            r@ == comma_joined(strings_view(labels@.take(i as int))),
        decreases labels@.len() - i,
    {
        let ghost prev = strings_view(labels@.take(i as int));
        if i > 0 {
            r.append(", ");
        }
        r.append(labels[i].as_str());
        i += 1;
        proof {
            let cur = strings_view(labels@.take(i as int));
            assert(cur.drop_last() =~= prev);
            if i == 1 {
                assert(Seq::<char>::empty() + labels@[0]@ =~= labels@[0]@);
            }
        }
    }
    proof {
        assert(labels@.take(i as int) =~= labels@);
    }
    r
}

/// Renders the sentence that introduces `issue`.
pub fn render_issue(issue: &IssueContext) -> (r: String)
    ensures
        r@ == issue_sentence(*issue),
{
    let mut r = String::from_str("User '");
    r.append(issue.creator_login.as_str());
    r.append("', who holds the role of '");
    r.append(issue.creator_role.as_str());
    r.append("', has submitted an issue titled '");
    r.append(issue.title.as_str());
    r.append("', labeled as '");
    let labels = join_labels(&issue.labels);
    r.append(labels.as_str());
    r.append("', with the following post: '");
    append_or_empty(&mut r, &issue.body);
    r.append("'.");
    r
}

/// Renders the sentence for one comment.
pub fn render_comment(c: &CommentRecord) -> (r: String)
    ensures
        r@ == comment_sentence(*c),
{
    let mut r = c.author_login.clone();
    r.append(" commented: ");
    append_or_empty(&mut r, &c.body);
    r
}

/// Builds the token stream of an issue: the issue's sentence, then each
/// comment's sentence, each encoded on its own. `None` stands for a comment
/// listing that failed: the stream then holds the issue's sentence alone.
pub fn assemble(issue: &IssueContext, comments: &Option<Vec<CommentRecord>>) -> (r: Vec<u32>)
    ensures
        r@ == corpus_tokens(
            *issue,
            match comments {
                Some(cs) => Some(cs@),
                None => None,
            },
        ),
{
    let sentence = render_issue(issue);
    let mut r = encode(sentence.as_str());
    let ghost head = r@;
    match comments {
        Some(cs) => {
            let mut i: usize = 0;
            proof {
                assert(cs@.take(0) =~= Seq::<CommentRecord>::empty());
                assert(head + Seq::<u32>::empty() =~= head);
            }
            while i < cs.len()
                invariant
                    i <= cs@.len(),
                    r@ == head + comments_tokens(cs@.take(i as int)),
                decreases cs@.len() - i,
            {
                let line = render_comment(&cs[i]);
                let mut toks = encode(line.as_str());
                let ghost before = r@;
                r.append(&mut toks);
                i += 1;
                proof {
                    assert(cs@.take(i as int).drop_last() =~= cs@.take((i - 1) as int));
                    assert(r@ =~= head + comments_tokens(cs@.take(i as int)));
                }
            }
            proof {
                assert(cs@.take(i as int) =~= cs@);
            }
        },
        None => {
            assert(head + Seq::<u32>::empty() =~= head);
        },
    }
    r
}

/// Where the comments could not be listed, the stream is the issue's own
/// sentence alone, so a summary is still made from the title, labels and body.
pub proof fn law_failed_listing_keeps_issue(issue: IssueContext)
    ensures
        corpus_tokens(issue, None) == cl100k_encoding(issue_sentence(issue)),
        corpus_tokens(issue, None) == corpus_tokens(issue, Some(Seq::empty())),
{
    assert(cl100k_encoding(issue_sentence(issue)) + Seq::<u32>::empty() =~= cl100k_encoding(
        issue_sentence(issue),
    ));
}

} // verus!
