use vstd::prelude::*;

verus! {

/// A command typed at the profile prompt.
#[derive(Debug, PartialEq, Eq)]
pub enum Command {
    Empty,
    Quit,
    List,
    /// Make the named profile active.
    Switch(Vec<char>),
    Help,
    Unknown,
}

/// What a command means.
pub enum CommandView {
    Empty,
    Quit,
    List,
    Switch(Seq<char>),
    Help,
    Unknown,
}

impl View for Command {
    type V = CommandView;

    open spec fn view(&self) -> CommandView {
        match self {
            Command::Empty => CommandView::Empty,
            Command::Quit => CommandView::Quit,
            Command::List => CommandView::List,
            Command::Switch(name) => CommandView::Switch(name@),
            Command::Help => CommandView::Help,
            Command::Unknown => CommandView::Unknown,
        }
    }
}

/// ASCII white space.
pub open spec fn is_blank(c: char) -> bool {
    c == ' ' || c == '\t' || c == '\n' || c == '\r' || c == '\x0C'
}

/// The first position from `i` on that holds no white space.
pub open spec fn lead(s: Seq<char>, i: int) -> int
    decreases s.len() - i,
{
    if 0 <= i < s.len() && is_blank(s[i]) {
        lead(s, i + 1)
    } else {
        i
    }
}

/// The end of `s[lo..j]` once trailing white space is cut off.
pub open spec fn trail(s: Seq<char>, lo: int, j: int) -> int
    decreases j - lo,
{
    if lo < j <= s.len() && is_blank(s[j - 1]) {
        trail(s, lo, j - 1)
    } else {
        j
    }
}

/// `s` without leading and trailing white space.
pub open spec fn trimmed(s: Seq<char>) -> Seq<char> {
    let a = lead(s, 0);
    s.subrange(a, trail(s, a, s.len() as int))
}

/// The first position from `i` on that holds white space, or the end.
pub open spec fn word_end(s: Seq<char>, i: int) -> int
    decreases s.len() - i,
{
    if 0 <= i < s.len() && !is_blank(s[i]) {
        word_end(s, i + 1)
    } else {
        i
    }
}

/// The second white-space separated word of `t`, which starts with no white
/// space.
pub open spec fn second_word(t: Seq<char>) -> Seq<char> {
    let p = lead(t, word_end(t, 0));
    t.subrange(p, word_end(t, p))
}

pub open spec fn starts_with(s: Seq<char>, p: Seq<char>) -> bool {
    p.len() <= s.len() && s.subrange(0, p.len() as int) == p
}

/// The command a line stands for: the line is trimmed; `switch <name>` and
/// `s <name>` name a profile; the other commands are single words.
pub open spec fn command_of(line: Seq<char>) -> CommandView {
    let t = trimmed(line);
    if t.len() == 0 {
        CommandView::Empty
    } else if t == "quit"@ || t == "exit"@ || t == "q"@ {
        CommandView::Quit
    } else if t == "list"@ || t == "ls"@ || t == "l"@ {
        CommandView::List
    } else if starts_with(t, "switch "@) || starts_with(t, "s "@) {
        CommandView::Switch(second_word(t))
    } else if t == "help"@ || t == "h"@ || t == "?"@ {
        CommandView::Help
    } else {
        CommandView::Unknown
    }
}

fn blank(c: char) -> (r: bool)
    ensures
        r == is_blank(c),
{
    c == ' ' || c == '\t' || c == '\n' || c == '\r' || c == '\x0C'
}

fn skip_blanks(s: &Vec<char>, i: usize) -> (r: usize)
    requires
        i <= s@.len(),
    ensures
        r == lead(s@, i as int),
        i <= r <= s@.len(),
{
    let mut k = i;
    while k < s.len() && blank(s[k])
        invariant
            i <= k <= s@.len(),
            lead(s@, i as int) == lead(s@, k as int),
        decreases s.len() - k,
    {
        k = k + 1;
    }
    k
}

fn skip_word(s: &Vec<char>, i: usize) -> (r: usize)
    requires
        i <= s@.len(),
    ensures
        r == word_end(s@, i as int),
        i <= r <= s@.len(),
{
    let mut k = i;
    while k < s.len() && !blank(s[k])
        invariant
            i <= k <= s@.len(),
            word_end(s@, i as int) == word_end(s@, k as int),
        decreases s.len() - k,
    {
        k = k + 1;
    }
    k
}

fn slice_of(s: &Vec<char>, from: usize, to: usize) -> (r: Vec<char>)
    requires
        from <= to <= s@.len(),
    ensures
        r@ == s@.subrange(from as int, to as int),
{
    let mut r: Vec<char> = Vec::new();
    let mut k = from;
    while k < to
        invariant
            from <= k <= to,
            to <= s@.len(),
            r@ == s@.subrange(from as int, k as int),
        decreases to - k,
    {
        r.push(s[k]);
        assert(r@ =~= s@.subrange(from as int, k + 1));
        k = k + 1;
    }
    r
}

/// Whether `s` begins with the characters of `p`.
fn has_prefix(s: &Vec<char>, p: &str) -> (r: bool)
    ensures
        r == starts_with(s@, p@),
{
    let n = p.unicode_len();
    if n > s.len() {
        return false;
    }
    let mut k: usize = 0;
    while k < n
        invariant
            k <= n,
            n == p@.len(),
            n <= s@.len(),
            s@.subrange(0, k as int) == p@.subrange(0, k as int),
        decreases n - k,
    {
        if s[k] != p.get_char(k) {
            assert(s@.subrange(0, n as int)[k as int] != p@[k as int]);
            return false;
        }
        assert(s@.subrange(0, k + 1) =~= p@.subrange(0, k + 1)) by {
            assert(s@.subrange(0, k as int) =~= p@.subrange(0, k as int));
            assert forall|j: int| 0 <= j < k + 1 implies #[trigger] s@.subrange(0, k + 1)[j]
                == p@.subrange(0, k + 1)[j] by {
                if j < k {
                    assert(s@.subrange(0, k as int)[j] == p@.subrange(0, k as int)[j]);
                }
            }
        }
        k = k + 1;
    }
    assert(p@.subrange(0, n as int) =~= p@);
    true
}

/// Whether `s` is exactly the characters of `w`.
fn is_word(s: &Vec<char>, w: &str) -> (r: bool)
    ensures
        r == (s@ == w@),
{
    if s.len() != w.unicode_len() {
        return false;
    }
    let r = has_prefix(s, w);
    assert(s@.subrange(0, s@.len() as int) =~= s@);
    r
}

/// Reads a line typed at the profile prompt.
pub fn parse_command(line: &Vec<char>) -> (r: Command)
    ensures
        r@ == command_of(line@),
{
    let a = skip_blanks(line, 0);
    let mut b = line.len();
    while b > a && blank(line[b - 1])
        invariant
            a <= b <= line@.len(),
            trail(line@, a as int, line@.len() as int) == trail(line@, a as int, b as int),
        decreases b - a,
    {
        b = b - 1;
    }
    let t = slice_of(line, a, b);
    assert(t@ == trimmed(line@));
    if t.len() == 0 {
        Command::Empty
    } else if is_word(&t, "quit") || is_word(&t, "exit") || is_word(&t, "q") {
        Command::Quit
    } else if is_word(&t, "list") || is_word(&t, "ls") || is_word(&t, "l") {
        Command::List
    } else if has_prefix(&t, "switch ") || has_prefix(&t, "s ") {
        let p = skip_blanks(&t, skip_word(&t, 0));
        let q = skip_word(&t, p);
        Command::Switch(slice_of(&t, p, q))
    } else if is_word(&t, "help") || is_word(&t, "h") || is_word(&t, "?") {
        Command::Help
    } else {
        Command::Unknown
    }
}

} // verus!
