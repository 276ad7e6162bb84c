use vstd::prelude::*;
use vstd::string::StrSliceExecFns;

verus! {

/// ASCII whitespace: space, tab, line feed, form feed and carriage return.
pub open spec fn is_ascii_space(c: char) -> bool {
    c == ' ' || c == '\t' || c == '\n' || c == '\x0C' || c == '\r'
}

/// The words of `s`, where `cur` is a word already begun and not yet ended.
pub open spec fn words_after(s: Seq<char>, cur: Seq<char>) -> Seq<Seq<char>>
    decreases s.len(),
{
    if s.len() == 0 {
        if cur.len() == 0 {
            seq![]
        } else {
            seq![cur]
        }
    } else if is_ascii_space(s[0]) {
        if cur.len() == 0 {
            words_after(s.drop_first(), cur)
        } else {
            seq![cur] + words_after(s.drop_first(), seq![])
        }
    } else {
        words_after(s.drop_first(), cur.push(s[0]))
    }
}

/// The maximal runs of non-whitespace characters of `s`, in order.
pub open spec fn words(s: Seq<char>) -> Seq<Seq<char>> {
    words_after(s, seq![])
}

/// The views of a list of strings.
pub open spec fn string_views(v: Seq<String>) -> Seq<Seq<char>> {
    v.map_values(|w: String| w@)
}

/// A command line taken apart: the program to launch and its arguments.
#[derive(Debug, Clone, PartialEq, Eq)]
pub struct CommandLine {
    pub program: String,
    pub args: Vec<String>,
}

impl CommandLine {
    /// All the words of the command line, the program first.
    pub open spec fn spec_words(&self) -> Seq<Seq<char>> {
        seq![self.program@] + string_views(self.args@)
    }
}

pub fn is_command_space(c: char) -> (r: bool)
    ensures
        r == is_ascii_space(c),
{
    c == ' ' || c == '\t' || c == '\n' || c == '\x0C' || c == '\r'
}

/// Splits a command text on ASCII whitespace, with no quoting of any kind.
pub fn split_command(raw: &str) -> (r: Vec<String>)
    ensures
        string_views(r@) == words(raw@),
{
    let n = raw.unicode_len();
    let mut out: Vec<String> = Vec::new();
    let mut start: usize = 0;
    let mut i: usize = 0;
    proof {
        assert(raw@.subrange(0, n as int) =~= raw@);
        assert(raw@.subrange(0, 0) =~= Seq::<char>::empty());
        assert(string_views(out@) =~= Seq::<Seq<char>>::empty());
        assert(Seq::<Seq<char>>::empty() + words(raw@) =~= words(raw@));
    }
    while i < n
        invariant
            start <= i <= n,
            n == raw@.len(),
            string_views(out@) + words_after(raw@.subrange(i as int, n as int), raw@.subrange(
                start as int,
                i as int,
            )) == words(raw@),
        decreases n - i,
    {
        let c = raw.get_char(i);
        let ghost rest = raw@.subrange(i as int, n as int);
        let ghost cur = raw@.subrange(start as int, i as int);
        let ghost old_views = string_views(out@);
        proof {
            assert(rest[0] == c);
            assert(rest.drop_first() =~= raw@.subrange(i + 1, n as int));
        }
        if is_command_space(c) {
            if start < i {
                let w = raw.substring_char(start, i).to_owned();
                out.push(w);
                proof {
                    assert(string_views(out@) =~= old_views.push(cur));
                    assert(raw@.subrange(i + 1, i + 1) =~= Seq::<char>::empty());
                    assert(old_views + (seq![cur] + words_after(raw@.subrange(i + 1, n as int), seq![]))
                        =~= old_views.push(cur) + words_after(raw@.subrange(i + 1, n as int), seq![]));
                }
            } else {
                proof {
                    assert(cur =~= raw@.subrange(i + 1, i + 1));
                }
            }
            start = i + 1;
        } else {
            proof {
                assert(cur.push(c) =~= raw@.subrange(start as int, i + 1));
            }
        }
        i = i + 1;
    }
    let ghost cur = raw@.subrange(start as int, n as int);
    let ghost old_views = string_views(out@);
    proof {
        assert(raw@.subrange(n as int, n as int) =~= Seq::<char>::empty());
    }
    if start < n {
        let w = raw.substring_char(start, n).to_owned();
        out.push(w);
        proof {
            assert(string_views(out@) =~= old_views.push(cur));
            assert(old_views + seq![cur] =~= old_views.push(cur));
        }
    } else {
        proof {
            assert(old_views + Seq::<Seq<char>>::empty() =~= old_views);
        }
    }
    out
}

/// Takes a command text apart into program and arguments; `None` when it holds no word.
pub fn parse_command_line(raw: &str) -> (r: Option<CommandLine>)
    ensures
        r is None <==> words(raw@).len() == 0,
        r matches Some(c) ==> c.spec_words() == words(raw@),
{
    let mut parts = split_command(raw);
    if parts.len() == 0 {
        None
    } else {
        let ghost all = string_views(parts@);
        let program = parts.remove(0);
        proof {
            assert(seq![program@] + string_views(parts@) =~= all);
        }
        Some(CommandLine { program, args: parts })
    }
}

} // verus!
