use crate::error::GitProError;
use vstd::prelude::*;

verus! {

/// One commit as the log shows it.
#[derive(Debug, Clone)]
pub struct CommitInfo {
    /// The full hash, in hexadecimal.
    pub id: String,
    /// The whole commit message.
    pub message: String,
    /// The author's name.
    pub author: String,
    /// The commit time, in seconds since the epoch.
    pub time: i64,
}

/// The decimal text of an integer, with a leading `-` when it is negative.
pub open spec fn decimal(n: int) -> Seq<char>
    decreases (if n < 0 { -n + 1 } else { n }),
{
    if n < 0 {
        seq!['-'] + decimal(-n)
    } else if n < 10 {
        seq![digit(n)]
    } else {
        decimal(n / 10) + seq![digit(n % 10)]
    }
}

/// The character of a decimal digit.
pub open spec fn digit(d: int) -> char {
    if d == 0 { '0' }
    else if d == 1 { '1' }
    else if d == 2 { '2' }
    else if d == 3 { '3' }
    else if d == 4 { '4' }
    else if d == 5 { '5' }
    else if d == 6 { '6' }
    else if d == 7 { '7' }
    else if d == 8 { '8' }
    else { '9' }
}

/// Relies on `i64::to_string`: the decimal text of the integer.
#[verifier::external_body]
fn decimal_text(n: i64) -> (r: String)
    ensures
        r@ == decimal(n as int),
{
    n.to_string()
}

/// `line` is the first line of `text`: the text up to its first `\n`, or all
/// of it when it holds none.
pub open spec fn is_first_line(line: Seq<char>, text: Seq<char>) -> bool {
    &&& line.len() <= text.len()
    &&& line == text.take(line.len() as int)
    &&& forall|j: int| 0 <= j < line.len() ==> line[j] != '\n'
    &&& (line.len() == text.len() || text[line.len() as int] == '\n')
}

/// The first line of a text.
pub fn first_line(text: &str) -> (r: String)
    ensures
        is_first_line(r@, text@),
{
    let n = text.unicode_len();
    let mut i: usize = 0;
    while i < n
        invariant
            i <= n,
            n == text@.len(),
            forall|j: int| 0 <= j < i ==> text@[j] != '\n',
        ensures
            i == n || text@[i as int] == '\n',
        decreases n - i,
    {
        if text.get_char(i) == '\n' {
            break;
        }
        i = i + 1;
    }
    let r = text.substring_char(0, i).to_owned();
    proof {
        assert(text@.subrange(0, i as int) == text@.take(i as int));
    }
    r
}

/// The number of characters of a hash that the log shows.
pub const SHORT_ID_LEN: usize = 7;

/// The abbreviated form of a hash: its first seven characters, or all of
/// it when it is shorter.
pub fn short_id(id: &str) -> (r: String)
    ensures
        r@ == id@.take(if id@.len() < SHORT_ID_LEN { id@.len() as int } else { SHORT_ID_LEN as int }),
{
    let n = id.unicode_len();
    let k = if n < SHORT_ID_LEN { n } else { SHORT_ID_LEN };
    id.substring_char(0, k).to_owned()
}

impl CommitInfo {
    /// The log line of the commit: `<short id> <time> <author> <first line>`,
    /// the author in angle brackets.
    pub fn render(&self) -> (r: String)
        ensures
            exists|sid: Seq<char>, line: Seq<char>|
                sid == self.id@.take(if self.id@.len() < 7 { self.id@.len() as int } else { 7 })
                && is_first_line(line, self.message@)
                && r@ == sid + " "@ + decimal(self.time as int) + " <"@ + self.author@ + "> "@ + line,
    {
        let sid = short_id(self.id.as_str());
        let line = first_line(self.message.as_str());
        let mut s = sid.clone();
        s.append(" ");
        s.append(decimal_text(self.time).as_str());
        s.append(" <");
        s.append(self.author.as_str());
        s.append("> ");
        s.append(line.as_str());
        s
    }
}

/// How many records of the history the log reads for a count: the count,
/// and at least one, so that an empty history is told apart.
pub open spec fn window(count: u32) -> int {
    if count == 0 { 1 } else { count as int }
}

/// The records that a log of `count` shows of a history.
pub open spec fn shown(history: Seq<CommitInfo>, count: u32) -> Seq<CommitInfo> {
    history.take(if history.len() < count { history.len() as int } else { count as int })
}

/// How many records, newest first, the log needs to read from HEAD.
pub fn log_window(count: u32) -> (r: usize)
    ensures
        r as int == window(count),
{
    if count == 0 { 1 } else { count as usize }
}

/// The log of `count` records out of the records read from HEAD, newest
/// first: the first `count` of them, or all if fewer. Reading none means
/// that HEAD has no history.
pub fn select_logs(read: Vec<CommitInfo>, count: u32) -> (r: Result<Vec<CommitInfo>, GitProError>)
    ensures
        read@.len() == 0 ==> r == Err::<Vec<CommitInfo>, GitProError>(GitProError::NoCommits),
        read@.len() > 0 ==> (r matches Ok(v) && v@ == shown(read@, count)),
{
    if read.len() == 0 {
        return Err(GitProError::NoCommits);
    }
    let mut read = read;
    if (count as usize) < read.len() {
        read.truncate(count as usize);
    }
    Ok(read)
}

/// Reading the log window of a history and selecting from it gives the first
/// `min(count, length)` records in history order, or `NoCommits` exactly when
/// the history is empty; a count of zero on a non-empty history gives an
/// empty log.
pub proof fn lemma_log_of_history(history: Seq<CommitInfo>, count: u32)
    ensures
        shown(history.take(if history.len() < window(count) { history.len() as int } else { window(count) }), count)
            == shown(history, count),
        history.len() > 0 ==> history.take(if history.len() < window(count) { history.len() as int } else { window(count) }).len() > 0,
        shown(history, count).len() == (if history.len() < count { history.len() as int } else { count as int }),
        count == 0 ==> shown(history, count).len() == 0,
{
    let w = if history.len() < window(count) { history.len() as int } else { window(count) };
    let k = if history.len() < count { history.len() as int } else { count as int };
    assert(history.take(w).take(k) == history.take(k));
}

} // verus!
