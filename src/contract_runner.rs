use vstd::prelude::*;
use vstd::string::*;

verus! {

/// `pat` occurs in `s` as a run of consecutive characters.
pub open spec fn occurs_in(pat: Seq<char>, s: Seq<char>) -> bool {
    exists|i: int| 0 <= i && i + pat.len() <= s.len() && #[trigger] s.subrange(i, i + pat.len()) == pat
}

/// The lines of a text, split at `\n` or `\r\n`, without their endings.
pub uninterp spec fn lines_of(s: Seq<char>) -> Seq<Seq<char>>;

/// A text without its leading and trailing whitespace.
pub uninterp spec fn trim_of(s: Seq<char>) -> Seq<char>;

/// A text with every match of `from` replaced by `to`.
pub uninterp spec fn replace_of(s: Seq<char>, from: Seq<char>, to: Seq<char>) -> Seq<char>;

/// Relies on `str::lines`: the lines of the text in order.
#[verifier::external_body]
fn split_lines(s: &str) -> (r: Vec<String>)
    ensures
        r.deep_view() == lines_of(s@),
{
    s.lines().map(String::from).collect()
}

/// Relies on `str::contains` with a `&str` pattern: whether the pattern
/// matches a sub-slice of the text.
#[verifier::external_body]
fn text_contains(s: &str, pat: &str) -> (r: bool)
    ensures
        r == occurs_in(pat@, s@),
{
    s.contains(pat)
}

/// Relies on `str::trim`: the text without leading and trailing whitespace.
#[verifier::external_body]
fn trimmed(s: &str) -> (r: &str)
    ensures
        r@ == trim_of(s@),
{
    s.trim()
}

/// Relies on `str::replace` with a `&str` pattern: every match replaced.
#[verifier::external_body]
fn replaced(s: &str, from: &str, to: &str) -> (r: String)
    ensures
        r@ == replace_of(s@, from@, to@),
{
    s.replace(from, to)
}

/// The first line at or after `start` in which `pat` occurs, or
/// `lines.len()` where it occurs in none.
pub open spec fn line_from(lines: Seq<Seq<char>>, pat: Seq<char>, start: int) -> int
    decreases lines.len() - start,
{
    if start < 0 || start >= lines.len() {
        lines.len() as int
    } else if occurs_in(pat, lines[start]) {
        start
    } else {
        line_from(lines, pat, start + 1)
    }
}

/// The index of the first line in which `pat` occurs.
pub fn first_line_containing(lines: &Vec<String>, pat: &str) -> (r: Option<usize>)
    ensures
        match r {
            Some(i) => i == line_from(lines.deep_view(), pat@, 0) && i < lines.len(),
            None => line_from(lines.deep_view(), pat@, 0) == lines.len(),
        },
{
    let ghost v = lines.deep_view();
    let mut i: usize = 0;
    while i < lines.len()
        invariant
            i <= lines.len(),
            v == lines.deep_view(),
            line_from(v, pat@, 0) == line_from(v, pat@, i as int),
        decreases lines.len() - i,
    {
        if text_contains(lines[i].as_str(), pat) {
            return Some(i);
        }
        i = i + 1;
    }
    None
}

/// The text that marks the line holding the contract identifier.
pub open spec fn contract_marker() -> Seq<char> {
    "contract"@
}

/// The prefix taken off that line.
pub open spec fn contract_prefix() -> Seq<char> {
    "contract: "@
}

/// The contract identifier in the output of a contract instantiation: the
/// first line that mentions `contract`, trimmed, with `contract: ` taken out;
/// empty where no line mentions it.
pub fn contract_id_from_output(stdout: &str) -> (r: String)
    ensures
        ({
            let lines = lines_of(stdout@);
            let k = line_from(lines, contract_marker(), 0);
            if k < lines.len() {
                r@ == replace_of(trim_of(lines[k]), contract_prefix(), ""@)
            } else {
                r@ == Seq::<char>::empty()
            }
        }),
{
    let lines = split_lines(stdout);
    match first_line_containing(&lines, "contract") {
        Some(k) => {
            let line = trimmed(lines[k].as_str());
            replaced(line, "contract: ", "")
        },
        None => String::new(),
    }
}

/// The message that is only queried, so runs as a dry run.
pub open spec fn query_message() -> Seq<char> {
    "is_user_opted_in"@
}

/// The arguments of `cargo` that call `message` on the contract as Alice;
/// the opt-in query gets `--dry-run` as well.
pub open spec fn call_arguments_of(contract_id: Seq<char>, message: Seq<char>) -> Seq<Seq<char>> {
    let base = seq![
        "contract"@,
        "call"@,
        "--contract"@,
        contract_id,
        "--message"@,
        message,
        "--suri"@,
        "//Alice"@,
    ];
    if message == query_message() {
        base.push("--dry-run"@)
    } else {
        base
    }
}

/// The arguments of `cargo` for calling `message` on a contract.
pub fn call_arguments(contract_id: &String, message: &String) -> (r: Vec<String>)
    ensures
        r.deep_view() == call_arguments_of(contract_id@, message@),
{
    let mut args: Vec<String> = Vec::new();
    args.push(String::from_str("contract"));
    args.push(String::from_str("call"));
    args.push(String::from_str("--contract"));
    args.push(contract_id.clone());
    args.push(String::from_str("--message"));
    args.push(message.clone());
    args.push(String::from_str("--suri"));
    args.push(String::from_str("//Alice"));
    if *message == String::from_str("is_user_opted_in") {
        args.push(String::from_str("--dry-run"));
    }
    assert(args.deep_view() =~= call_arguments_of(contract_id@, message@));
    args
}

} // verus!
