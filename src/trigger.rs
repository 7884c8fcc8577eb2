use vstd::prelude::*;

verus! {

/// What a chat message asks for: the repository and how many days back to look.
pub struct Trigger {
    pub owner: String,
    pub repo: String,
    pub days: i64,
}

/// The groups that the regular expression `pattern` captures on the first
/// match in `text`: `None` where it does not match or does not compile, else
/// one entry per group, the whole match first, `None` for a group that took
/// no part.
pub uninterp spec fn regex_captures(pattern: Seq<char>, text: Seq<char>) -> Option<
    Seq<Option<Seq<char>>>,
>;

/// `text` without its leading and trailing whitespace.
pub uninterp spec fn trim_of(text: Seq<char>) -> Seq<char>;

/// The pattern that a trigger message follows: a one- or two-word command,
/// the repository, then a space and a day count.
pub open spec fn trigger_pattern() -> Seq<char> {
    "^(\\s*\\w+(?: \\w+)?)(.*)( \\d+)"@
}

/// The views of captured groups.
pub open spec fn groups_view(g: Seq<Option<String>>) -> Seq<Option<Seq<char>>> {
    g.map_values(
        |o: Option<String>|
            match o {
                Some(s) => Some(s@),
                None => None,
            },
    )
}

/// The view of an optional set of captured groups.
pub open spec fn captures_view(c: Option<Vec<Option<String>>>) -> Option<Seq<Option<Seq<char>>>> {
    match c {
        Some(g) => Some(groups_view(g@)),
        None => None,
    }
}

/// Relies on regex::Regex::new, which compiles `pattern`, and
/// regex::Regex::captures, which finds the first match in `text` and the text
/// of each group in it; a pattern that does not compile gives `None`.
#[verifier::external_body]
fn find_captures(pattern: &str, text: &str) -> (r: Option<Vec<Option<String>>>)
    ensures
        captures_view(r) == regex_captures(pattern@, text@),
{
    let re = regex::Regex::new(pattern).ok()?;
    let caps = re.captures(text)?;
    Some(caps.iter().map(|m| m.map(|m| m.as_str().to_string())).collect())
}

/// Relies on str::trim: the text with its leading and trailing whitespace
/// removed depends on the text alone.
#[verifier::external_body]
fn trim(s: &str) -> (r: String)
    ensures
        r@ == trim_of(s@),
{
    s.trim().to_string()
}

/// Whether `p` occurs in `s` as a run of consecutive characters.
pub open spec fn occurs_in(p: Seq<char>, s: Seq<char>) -> bool {
    exists|i: int| 0 <= i && i + p.len() <= s.len() && #[trigger] s.subrange(i, i + p.len()) == p
}

/// Relies on str::contains with a `&str` pattern: true exactly when `p`
/// matches a sub-slice of `s`.
#[verifier::external_body]
fn contains(s: &str, p: &str) -> (r: bool)
    ensures
        r == occurs_in(p@, s@),
{
    s.contains(p)
}

/// Whether every character of `s` is an ASCII decimal digit.
pub open spec fn all_digits(s: Seq<char>) -> bool {
    forall|i: int| 0 <= i < s.len() ==> '0' <= #[trigger] s[i] <= '9'
}

/// The value of a run of ASCII decimal digits.
pub open spec fn digits_value(s: Seq<char>) -> int
    decreases s.len(),
{
    if s.len() == 0 {
        0
    } else {
        10 * digits_value(s.drop_last()) + (s.last() as int - '0' as int)
    }
}

/// An `i64` written in decimal: an optional `+` or `-`, then one or more
/// ASCII digits, with a value in range; `None` for anything else.
pub open spec fn i64_of(s: Seq<char>) -> Option<i64> {
    let neg = s.len() > 0 && s[0] == '-';
    let digits = if s.len() > 0 && (s[0] == '-' || s[0] == '+') {
        s.drop_first()
    } else {
        s
    };
    let v = if neg {
        -digits_value(digits)
    } else {
        digits_value(digits)
    };
    if digits.len() > 0 && all_digits(digits) && i64::MIN <= v <= i64::MAX {
        Some(v as i64)
    } else {
        None
    }
}

/// Relies on `str::parse::<i64>` (i64's `FromStr`): an optional sign, then
/// ASCII decimal digits, no whitespace; an error where the text is not of
/// that form or the value does not fit.
#[verifier::external_body]
fn parse_i64(s: &str) -> (r: Option<i64>)
    ensures
        r == i64_of(s@),
{
    s.parse::<i64>().ok()
}

/// The text before the first `/` of `s`, or all of `s`.
pub open spec fn before_slash(s: Seq<char>) -> Seq<char>
    decreases s.len(),
{
    if s.len() == 0 || s[0] == '/' {
        Seq::empty()
    } else {
        seq![s[0]] + before_slash(s.drop_first())
    }
}

/// The text after the first `/` of `s`, where there is one.
pub open spec fn after_slash(s: Seq<char>) -> Option<Seq<char>>
    decreases s.len(),
{
    if s.len() == 0 {
        None
    } else if s[0] == '/' {
        Some(s.drop_first())
    } else {
        after_slash(s.drop_first())
    }
}

/// The repository that falls in place where the message names only an owner.
pub open spec fn fallback_repo() -> Seq<char> {
    "haiku-platform"@
}

/// The day count used where the message's count does not parse.
pub open spec fn fallback_days() -> i64 {
    7
}

/// What a message's captured groups ask for, given the command word: `None`
/// where the first group is missing or does not hold the command after
/// trimming, or where the second group is missing. The owner is the trimmed
/// second group up to its first `/`, the repository what follows up to the
/// next `/` (the fallback where there is no `/`), and the day count the
/// trimmed third group, or the fallback where it does not parse.
pub open spec fn trigger_of(caps: Option<Seq<Option<Seq<char>>>>, word: Seq<char>) -> Option<
    (Seq<char>, Seq<char>, i64),
> {
    match caps {
        None => None,
        Some(g) => {
            if g.len() > 2 && g[1] is Some && occurs_in(word, trim_of(g[1]->0)) && g[2] is Some {
                let spot = trim_of(g[2]->0);
                let days = if g.len() > 3 && g[3] is Some {
                    match i64_of(trim_of(g[3]->0)) {
                        Some(d) => d,
                        None => fallback_days(),
                    }
                } else {
                    fallback_days()
                };
                let repo = match after_slash(spot) {
                    Some(rest) => before_slash(rest),
                    None => fallback_repo(),
                };
                Some((before_slash(spot), repo, days))
            } else {
                None
            }
        },
    }
}

/// The view of an optional trigger.
pub open spec fn trigger_view(t: Option<Trigger>) -> Option<(Seq<char>, Seq<char>, i64)> {
    match t {
        Some(t) => Some((t.owner@, t.repo@, t.days)),
        None => None,
    }
}

/// The index of the first `/` in `s` at or after `from`, or the length of `s`.
fn find_slash(s: &str, from: usize) -> (r: usize)
    requires
        from <= s@.len(),
    ensures
        from <= r <= s@.len(),
        r < s@.len() ==> s@[r as int] == '/',
        forall|k: int| from <= k < r ==> s@[k] != '/',
{
    let n = s.unicode_len();
    let mut i = from;
    while i < n
        invariant
            n == s@.len(),
            from <= i <= n,
            forall|k: int| from <= k < i ==> s@[k] != '/',
        decreases n - i,
    {
        if s.get_char(i) == '/' {
            return i;
        }
        i += 1;
    }
    i
}

proof fn lemma_before_slash(s: Seq<char>, k: int)
    requires
        0 <= k <= s.len(),
        k < s.len() ==> s[k] == '/',
        forall|j: int| 0 <= j < k ==> s[j] != '/',
    ensures
        before_slash(s) == s.take(k),
        after_slash(s) == if k < s.len() {
            Some(s.skip(k + 1))
        } else {
            None::<Seq<char>>
        },
    decreases s.len(),
{
    if s.len() > 0 && s[0] != '/' {
        let t = s.drop_first();
        assert forall|j: int| 0 <= j < k - 1 implies t[j] != '/' by {
            assert(t[j] == s[j + 1]);
        }
        lemma_before_slash(t, k - 1);
        assert(seq![s[0]] + t.take(k - 1) =~= s.take(k));
        if k < s.len() {
            assert(t.skip(k) =~= s.skip(k + 1));
        }
    } else if s.len() > 0 {
        assert(s.take(0) =~= Seq::<char>::empty());
        assert(s.drop_first() =~= s.skip(1));
    } else {
        assert(s.take(0) =~= Seq::<char>::empty());
    }
}

/// Splits the repository part of a message into owner and repository.
fn split_owner_repo(spot: &str) -> (r: (String, String))
    ensures
        r.0@ == before_slash(spot@),
        r.1@ == match after_slash(spot@) {
            Some(rest) => before_slash(rest),
            None => fallback_repo(),
        },
{
    let n = spot.unicode_len();
    let k = find_slash(spot, 0);
    proof {
        lemma_before_slash(spot@, k as int);
    }
    let owner = String::from_str(spot.substring_char(0, k));
    if k == n {
        return (owner, String::from_str("haiku-platform"));
    }
    let k2 = find_slash(spot, k + 1);
    proof {
        let rest = spot@.skip(k + 1);
        assert forall|j: int| 0 <= j < k2 - (k + 1) implies rest[j] != '/' by {
            assert(rest[j] == spot@[j + k + 1]);
        }
        lemma_before_slash(rest, k2 - (k + 1));
        assert(rest.take(k2 - (k + 1)) =~= spot@.subrange(k + 1, k2 as int));
    }
    let repo = String::from_str(spot.substring_char(k + 1, k2));
    (owner, repo)
}

/// Reads what a message asks for from the groups that the trigger pattern
/// captured in it, given the command word.
pub fn trigger_from_captures(caps: &Option<Vec<Option<String>>>, word: &str) -> (r: Option<Trigger>)
    ensures
        trigger_view(r) == trigger_of(captures_view(*caps), word@),
{
    let g = match caps {
        Some(g) => g,
        None => {
            return None;
        },
    };
    proof {
        assert(groups_view(g@).len() == g@.len());
    }
    if g.len() <= 2 {
        return None;
    }
    let command = match &g[1] {
        Some(c) => trim(c.as_str()),
        None => {
            return None;
        },
    };
    if !contains(command.as_str(), word) {
        return None;
    }
    let spot = match &g[2] {
        Some(s) => trim(s.as_str()),
        None => {
            return None;
        },
    };
    let mut days: i64 = 7;
    if g.len() > 3 {
        match &g[3] {
            Some(d) => {
                let count = trim(d.as_str());
                match parse_i64(count.as_str()) {
                    Some(v) => {
                        days = v;
                    },
                    None => {},
                }
            },
            None => {},
        }
    }
    let (owner, repo) = split_owner_repo(spot.as_str());
    Some(Trigger { owner, repo, days })
}

/// Reads what a chat message asks for, given the command word: `None` where
/// the message does not follow the trigger pattern or does not hold the
/// command.
pub fn parse_trigger(text: &str, word: &str) -> (r: Option<Trigger>)
    ensures
        trigger_view(r) == trigger_of(regex_captures(trigger_pattern(), text@), word@),
{
    let caps = find_captures("^(\\s*\\w+(?: \\w+)?)(.*)( \\d+)", text);
    trigger_from_captures(&caps, word)
}

/// The issue search for open issues of `owner/repo` updated after `since`.
pub open spec fn search_query_text(owner: Seq<char>, repo: Seq<char>, since: Seq<char>) -> Seq<
    char,
> {
    "repo:"@ + owner + "/"@ + repo + " is:issue state:open updated:>"@ + since
}

/// The reply to a message whose repository could not be searched.
pub open spec fn search_failed_text(message: Seq<char>) -> Seq<char> {
    "Please double check if there are errors in the owner and repo names provided in your message:\n"@
        + message + "\nif yes, please correct the spelling and resend your instruction."@
}

/// Relies on chrono's Utc::now, TimeDelta::try_days,
/// DateTime::checked_sub_signed and DateTime::format with "%Y-%m-%d": today's
/// UTC date moved back by `days` days, or `None` where that leaves chrono's
/// range. It depends on the clock, so nothing is promised of the text.
#[verifier::external_body]
fn date_days_ago(days: i64) -> (r: Option<String>) {
    let delta = chrono::TimeDelta::try_days(days)?;
    let date = chrono::Utc::now().checked_sub_signed(delta)?;
    Some(date.format("%Y-%m-%d").to_string())
}

/// The issue search for open issues of `owner/repo` updated after `since`.
pub fn search_query(owner: &str, repo: &str, since: &str) -> (r: String)
    ensures
        r@ == search_query_text(owner@, repo@, since@),
{
    let mut r = String::from_str("repo:");
    r.append(owner);
    r.append("/");
    r.append(repo);
    r.append(" is:issue state:open updated:>");
    r.append(since);
    r
}

impl Trigger {
    /// The issue search that the trigger asks for, counting its days back from
    /// today; `None` where that date cannot be formed.
    pub fn query(&self) -> (r: Option<String>)
        ensures
            r matches Some(q) ==> exists|since: Seq<char>|
                q@ == search_query_text(self.owner@, self.repo@, since),
    {
        match date_days_ago(self.days) {
            Some(since) => {
                let q = search_query(self.owner.as_str(), self.repo.as_str(), since.as_str());
                Some(q)
            },
            None => None,
        }
    }
}

/// The reply to a message whose repository could not be searched.
pub fn search_failed_message(message: &str) -> (r: String)
    ensures
        r@ == search_failed_text(message@),
{
    let mut r = String::from_str(
        "Please double check if there are errors in the owner and repo names provided in your message:\n",
    );
    r.append(message);
    r.append("\nif yes, please correct the spelling and resend your instruction.");
    r
}

} // verus!
