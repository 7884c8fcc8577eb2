use vstd::prelude::*;

verus! {

/// The decimal digits of `n`, most significant first, with no sign and no
/// leading zero.
pub open spec fn decimal(n: nat) -> Seq<char>
    decreases n,
{
    let digits = seq!['0', '1', '2', '3', '4', '5', '6', '7', '8', '9'];
    if n < 10 {
        seq![digits[n as int]]
    } else {
        decimal(n / 10) + seq![digits[(n % 10) as int]]
    }
}

/// Relies on u64's `Display` through `ToString::to_string`: an unsigned integer
/// is written in decimal, with no sign, padding or leading zero.
#[verifier::external_body]
fn decimal_string(n: u64) -> (r: String)
    ensures
        r@ == decimal(n as nat),
{
    n.to_string()
}

/// The conversation that the requests about one issue share: `"Issue#{n}"`.
pub open spec fn chat_id_text(issue_number: u64) -> Seq<char> {
    "Issue#"@ + decimal(issue_number as nat)
}

/// The instructions that every summarization request carries.
pub open spec fn system_prompt_text() -> Seq<char> {
    "As an AI co-owner of a GitHub repository, you are responsible for conducting a comprehensive analysis of GitHub issues. Your analytic focus encompasses distinct elements, including the issue's title, associated labels, body text, the identity of the issue's creator, their role, and the nature of the comments on the issue. Utilizing these data points, your task is to generate a succinct, context-aware summary of the issue."@
}

/// The request for an interim summary of one chunk of an issue's text.
pub open spec fn map_prompt_text(title: Seq<char>, chunk: Seq<char>) -> Seq<char> {
    "Given the issue titled '"@ + title + "' and a particular segment of body or comment text '"@
        + chunk
        + "', focus on extracting the central arguments, proposed solutions, and instances of agreement or conflict among the participants. Generate an interim summary capturing the essential information in this section. This will be used later to form a comprehensive summary of the entire discussion."@
}

/// The request that folds the interim summaries of a split issue into one.
pub open spec fn reduce_prompt_text(
    login: Seq<char>,
    role: Seq<char>,
    title: Seq<char>,
    labels: Seq<char>,
    interim: Seq<char>,
) -> Seq<char> {
    "User '"@ + login + "', in the role of '"@ + role + "', has filed an issue titled '"@ + title
        + "', labeled as '"@ + labels
        + "'. The key information you've extracted from the issue's body text and comments in segmented form are: "@
        + interim
        + ". Concentrate on the principal arguments, suggested solutions, and areas of consensus or disagreement among the participants. From these elements, generate a concise summary of the entire issue to inform the next course of action."@
}

/// The request that summarizes an issue whose text fits one request.
pub open spec fn unsplit_prompt_text(corpus: Seq<char>) -> Seq<char> {
    corpus
        + ", concentrate on the principal arguments, suggested solutions, and areas of consensus or disagreement among the participants. From these elements, generate a concise summary of the entire issue to inform the next course of action."@
}

/// The message posted for one issue: `"Issue Summary:\n{summary}\n{url}"`.
pub open spec fn summary_message_text(summary: Seq<char>, url: Seq<char>) -> Seq<char> {
    "Issue Summary:\n"@ + summary + "\n"@ + url
}

/// The notice posted once the quota of issues is used up.
pub open spec fn limit_notice_text() -> Seq<char> {
    "You've reached your limit of 10 issues. Please wait 10 minutes before running the command again."@
}

/// Names the conversation of an issue's requests.
pub fn chat_id(issue_number: u64) -> (r: String)
    ensures
        r@ == chat_id_text(issue_number),
{
    let digits = decimal_string(issue_number);
    String::from_str("Issue#").concat(digits.as_str())
}

/// The instructions that every summarization request carries.
pub fn system_prompt() -> (r: String)
    ensures
        r@ == system_prompt_text(),
{
    String::from_str(
        "As an AI co-owner of a GitHub repository, you are responsible for conducting a comprehensive analysis of GitHub issues. Your analytic focus encompasses distinct elements, including the issue's title, associated labels, body text, the identity of the issue's creator, their role, and the nature of the comments on the issue. Utilizing these data points, your task is to generate a succinct, context-aware summary of the issue.",
    )
}

/// Asks for an interim summary of one chunk of text of the issue `title`.
pub fn map_prompt(title: &str, chunk: &str) -> (r: String)
    ensures
        r@ == map_prompt_text(title@, chunk@),
{
    let mut r = String::from_str("Given the issue titled '");
    r.append(title);
    r.append("' and a particular segment of body or comment text '");
    r.append(chunk);
    r.append(
        "', focus on extracting the central arguments, proposed solutions, and instances of agreement or conflict among the participants. Generate an interim summary capturing the essential information in this section. This will be used later to form a comprehensive summary of the entire discussion.",
    );
    r
}

/// Asks for one summary of a split issue from its interim summaries.
pub fn reduce_prompt(login: &str, role: &str, title: &str, labels: &str, interim: &str) -> (r:
    String)
    ensures
        r@ == reduce_prompt_text(login@, role@, title@, labels@, interim@),
{
    let mut r = String::from_str("User '");
    r.append(login);
    r.append("', in the role of '");
    r.append(role);
    r.append("', has filed an issue titled '");
    r.append(title);
    r.append("', labeled as '");
    r.append(labels);
    r.append(
        "'. The key information you've extracted from the issue's body text and comments in segmented form are: ",
    );
    r.append(interim);
    r.append(
        ". Concentrate on the principal arguments, suggested solutions, and areas of consensus or disagreement among the participants. From these elements, generate a concise summary of the entire issue to inform the next course of action.",
    );
    r
}

/// Asks for a summary of the whole text of an issue that fits one request.
pub fn unsplit_prompt(corpus: &str) -> (r: String)
    ensures
        r@ == unsplit_prompt_text(corpus@),
{
    let mut r = String::from_str(corpus);
    r.append(
        ", concentrate on the principal arguments, suggested solutions, and areas of consensus or disagreement among the participants. From these elements, generate a concise summary of the entire issue to inform the next course of action.",
    );
    r
}

/// The message posted for one issue.
pub fn summary_message(summary: &str, url: &str) -> (r: String)
    ensures
        r@ == summary_message_text(summary@, url@),
{
    let mut r = String::from_str("Issue Summary:\n");
    r.append(summary);
    r.append("\n");
    r.append(url);
    r
}

/// The notice posted once the quota of issues is used up.
pub fn limit_notice() -> (r: String)
    ensures
        r@ == limit_notice_text(),
{
    String::from_str(
        "You've reached your limit of 10 issues. Please wait 10 minutes before running the command again.",
    )
}

} // verus!
