//! The log buffer: one string, grown by `log` calls, read once at the end.

use vstd::prelude::*;
use vstd::std_specs::iter::IteratorSpec;
use vstd::string::*;

verus! {

/// The buffer after one more `log` call: the old text, a newline, the entry.
pub open spec fn appended(buffer: Seq<char>, entry: Seq<char>) -> Seq<char> {
    buffer + seq!['\n'] + entry
}

/// The buffer after a run of `log` calls, starting from the empty buffer.
pub open spec fn buffer_after(entries: Seq<Seq<char>>) -> Seq<char>
    decreases entries.len(),
{
    if entries.len() == 0 {
        Seq::empty()
    } else {
        appended(buffer_after(entries.drop_last()), entries.last())
    }
}

/// How many characters stand before the first newline of `s`
/// (all of them, where it holds none).
pub open spec fn first_line_len(s: Seq<char>) -> nat
    decreases s.len(),
{
    if s.len() == 0 || s[0] == '\n' {
        0
    } else {
        1 + first_line_len(s.drop_first())
    }
}

/// `s` cut at its newlines, the empty pieces left out, in order.
///
/// Two facts pin this function down on every text: a text without a newline
/// gives itself, or nothing where it is empty (`lemma_split_single`), and a
/// text with a newline gives the lines of what stands before that newline
/// followed by the lines of what stands after it (`lemma_split_appended`).
pub open spec fn split_lines(s: Seq<char>) -> Seq<Seq<char>>
    decreases s.len(),
{
    if s.len() == 0 {
        Seq::empty()
    } else {
        let k = first_line_len(s) as int;
        let rest = if k < s.len() {
            split_lines(s.skip(k + 1))
        } else {
            Seq::empty()
        };
        if k == 0 {
            rest
        } else {
            seq![s.take(k)] + rest
        }
    }
}

/// No character of `s` is a newline.
pub open spec fn newline_free(s: Seq<char>) -> bool {
    forall|i: int| 0 <= i < s.len() ==> s[i] != '\n'
}

/// The texts of a sequence of strings.
pub open spec fn texts(lines: Seq<String>) -> Seq<Seq<char>> {
    Seq::new(lines.len(), |i: int| lines[i]@)
}

/// Every line holds at least one character and no newline.
pub open spec fn clean(lines: Seq<Seq<char>>) -> bool {
    forall|i: int| 0 <= i < lines.len() ==> (#[trigger] lines[i]).len() > 0 && newline_free(lines[i])
}

/// `first_line_len` is the one index with no newline before it and a newline
/// (or the end) at it.
pub proof fn lemma_first_line_len(s: Seq<char>, k: int)
    requires
        0 <= k <= s.len(),
        forall|i: int| 0 <= i < k ==> s[i] != '\n',
        k < s.len() ==> s[k] == '\n',
    ensures
        first_line_len(s) == k,
    decreases s.len(),
{
    if k > 0 {
        let t = s.drop_first();
        assert forall|i: int| 0 <= i < k - 1 implies t[i] != '\n' by {
            assert(t[i] == s[i + 1]);
        }
        lemma_first_line_len(t, k - 1);
    }
}

/// What `first_line_len` returns: an index with no newline before it and a
/// newline (or the end) at it.
pub proof fn lemma_first_line_len_bounds(s: Seq<char>)
    ensures
        first_line_len(s) <= s.len(),
        forall|i: int| 0 <= i < first_line_len(s) ==> s[i] != '\n',
        first_line_len(s) < s.len() ==> s[first_line_len(s) as int] == '\n',
    decreases s.len(),
{
    if s.len() == 0 || s[0] == '\n' {
    } else {
        let t = s.drop_first();
        lemma_first_line_len_bounds(t);
        assert forall|i: int| 0 <= i < first_line_len(s) implies s[i] != '\n' by {
            if i > 0 {
                assert(s[i] == t[i - 1]);
            }
        }
    }
}

/// A text without newlines splits into itself, or into nothing if empty.
pub proof fn lemma_split_single(e: Seq<char>)
    requires
        newline_free(e),
    ensures
        split_lines(e) == if e.len() == 0 {
            Seq::<Seq<char>>::empty()
        } else {
            seq![e]
        },
{
    if e.len() > 0 {
        lemma_first_line_len(e, e.len() as int);
        assert(e.take(e.len() as int) =~= e);
        assert(seq![e] + Seq::<Seq<char>>::empty() =~= seq![e]);
    }
}

/// The entries that are not empty, in order.
pub open spec fn non_empty(entries: Seq<Seq<char>>) -> Seq<Seq<char>> {
    entries.filter(|e: Seq<char>| e.len() > 0)
}

/// Appending is seen by the split as a cut: the lines of the grown buffer
/// are the lines of the old buffer followed by the lines of the entry.
pub proof fn lemma_split_appended(buffer: Seq<char>, entry: Seq<char>)
    ensures
        split_lines(appended(buffer, entry)) == split_lines(buffer) + split_lines(entry),
    decreases buffer.len(),
{
    let s = appended(buffer, entry);
    let none = Seq::<Seq<char>>::empty();
    if buffer.len() == 0 {
        assert(s.skip(1) =~= entry);
        assert(none + split_lines(entry) =~= split_lines(entry));
    } else {
        let k = first_line_len(buffer) as int;
        lemma_first_line_len_bounds(buffer);
        assert forall|i: int| 0 <= i < k implies s[i] != '\n' by {
            assert(s[i] == buffer[i]);
        }
        lemma_first_line_len(s, k);
        assert(s.take(k) =~= buffer.take(k));
        let head = if k == 0 {
            none
        } else {
            seq![buffer.take(k)]
        };
        if k < buffer.len() {
            let tail = buffer.skip(k + 1);
            assert(s.skip(k + 1) =~= appended(tail, entry));
            lemma_split_appended(tail, entry);
            assert(split_lines(buffer) =~= head + split_lines(tail));
            assert(split_lines(s) =~= head + (split_lines(tail) + split_lines(entry)));
            assert(head + (split_lines(tail) + split_lines(entry)) =~= (head + split_lines(tail))
                + split_lines(entry));
        } else {
            assert(s.skip(k + 1) =~= entry);
            assert(split_lines(buffer) =~= head + none);
            assert(split_lines(s) =~= head + split_lines(entry));
            assert(head + none =~= head);
        }
    }
}

/// A script that never logs leaves no lines: the buffer that no call has
/// touched splits into the empty sequence.
pub proof fn lemma_untouched_buffer_has_no_lines()
    ensures
        buffer_after(Seq::empty()).len() == 0,
        split_lines(buffer_after(Seq::empty())) == Seq::<Seq<char>>::empty(),
{
}

/// After any run of `log` calls whose texts hold no newline, the lines read
/// back are the logged texts that are not empty, in call order.
pub proof fn lemma_lines_are_logged_entries(entries: Seq<Seq<char>>)
    requires
        forall|i: int| 0 <= i < entries.len() ==> newline_free(#[trigger] entries[i]),
    ensures
        split_lines(buffer_after(entries)) == non_empty(entries),
    decreases entries.len(),
{
    reveal(Seq::filter);
    if entries.len() > 0 {
        let front = entries.drop_last();
        let last = entries.last();
        assert forall|i: int| 0 <= i < front.len() implies newline_free(#[trigger] front[i]) by {
            assert(front[i] == entries[i]);
        }
        lemma_lines_are_logged_entries(front);
        lemma_split_appended(buffer_after(front), last);
        assert(newline_free(last));
        lemma_split_single(last);
        if last.len() == 0 {
            assert(non_empty(front) + Seq::<Seq<char>>::empty() =~= non_empty(front));
        } else {
            assert(non_empty(front) + seq![last] =~= non_empty(front).push(last));
        }
    }
}

/// After `n` `log` calls whose texts are not empty and hold no newline, the
/// lines read back are exactly those `n` texts, in call order.
pub proof fn lemma_each_log_call_gives_one_line(entries: Seq<Seq<char>>)
    requires
        forall|i: int|
            0 <= i < entries.len() ==> newline_free(#[trigger] entries[i]) && entries[i].len() > 0,
    ensures
        split_lines(buffer_after(entries)) == entries,
        split_lines(buffer_after(entries)).len() == entries.len(),
    decreases entries.len(),
{
    if entries.len() > 0 {
        let front = entries.drop_last();
        let last = entries.last();
        assert forall|i: int| 0 <= i < front.len() implies newline_free(#[trigger] front[i])
            && front[i].len() > 0 by {
            assert(front[i] == entries[i]);
        }
        lemma_each_log_call_gives_one_line(front);
        lemma_split_appended(buffer_after(front), last);
        assert(newline_free(last) && last.len() > 0);
        lemma_split_single(last);
        assert(front + seq![last] =~= entries);
    }
}

/// Every line read back is non-empty and holds no newline.
pub proof fn lemma_lines_are_clean(s: Seq<char>)
    ensures
        clean(split_lines(s)),
    decreases s.len(),
{
    if s.len() > 0 {
        let k = first_line_len(s) as int;
        lemma_first_line_len_bounds(s);
        let none = Seq::<Seq<char>>::empty();
        let rest = if k < s.len() {
            split_lines(s.skip(k + 1))
        } else {
            none
        };
        if k < s.len() {
            lemma_lines_are_clean(s.skip(k + 1));
        }
        assert forall|i: int| 0 <= i < split_lines(s).len() implies (#[trigger] split_lines(
            s,
        )[i]).len() > 0 && newline_free(split_lines(s)[i]) by {
            if k > 0 && i == 0 {
                assert(split_lines(s)[0] == s.take(k));
            } else if k > 0 {
                assert(split_lines(s)[i] == rest[i - 1]);
            } else {
                assert(split_lines(s)[i] == rest[i]);
            }
        }
    }
}


/// Appends the entry `entry` to `buffer`, after a newline.
pub fn append_log(buffer: &str, entry: &str) -> (out: String)
    ensures
        out@ == appended(buffer@, entry@),
{
    let mut out = buffer.to_owned();
    out.append("\n");
    out.append(entry);
    proof {
        reveal_strlit("\n");
        assert("\n"@ =~= seq!['\n']);
    }
    out
}

/// The empty buffer that every execution starts from.
pub fn empty_buffer() -> (out: String)
    ensures
        out@ == buffer_after(Seq::empty()),
        out@.len() == 0,
{
    String::new()
}

/// `String::push` of std. Trusted: it puts the character at the end of the
/// string and changes nothing else.
pub assume_specification[ String::push ](s: &mut String, ch: char)
    ensures
        final(s)@ == old(s)@.push(ch),
;

/// Cuts the buffer at its newlines and returns the pieces that are not
/// empty, in their order.
pub fn split_logs(buffer: &str) -> (lines: Vec<String>)
    ensures
        texts(lines@) == split_lines(buffer@),
        clean(texts(lines@)),
{
    let mut unread = buffer.chars();
    let mut lines: Vec<String> = Vec::new();
    let mut line = String::new();
    let ghost mut start: int = 0;
    let ghost mut i: int = 0;
    proof {
        assert(buffer@.skip(0) =~= buffer@);
        assert(texts(lines@) + split_lines(buffer@) =~= split_lines(buffer@));
        assert(line@ =~= buffer@.subrange(0, 0));
    }
    loop
        invariant
            0 <= start <= i <= buffer@.len(),
            unread.remaining() == buffer@.skip(i),
            line@ == buffer@.subrange(start, i),
            forall|j: int| start <= j < i ==> buffer@[j] != '\n',
            texts(lines@) + split_lines(buffer@.skip(start)) == split_lines(buffer@),
        ensures
            i == buffer@.len(),
        decreases buffer@.len() - i,
    {
        let ghost ahead = unread.remaining();
        match unread.next() {
            None => {
                break ;
            },
            Some(c) => {
                proof {
                    assert(ahead.len() > 0);
                    assert(c == buffer@[i]);
                    assert(ahead.drop_first() =~= buffer@.skip(i + 1));
                }
                if c == '\n' {
                    let ghost tail = buffer@.skip(start);
                    let ghost k = i - start;
                    let ghost before = texts(lines@);
                    proof {
                        lemma_first_line_len(tail, k);
                        assert(tail.skip(k + 1) =~= buffer@.skip(i + 1));
                        assert(tail.take(k) =~= buffer@.subrange(start, i));
                    }
                    if !line.as_str().is_empty() {
                        let whole = line;
                        line = String::new();
                        lines.push(whole);
                        proof {
                            let later = split_lines(buffer@.skip(i + 1));
                            assert(texts(lines@) =~= before + seq![tail.take(k)]);
                            assert((before + seq![tail.take(k)]) + later =~= before + (seq![
                                tail.take(k),
                            ] + later));
                        }
                    }
                    proof {
                        start = i + 1;
                        i = i + 1;
                        assert(line@ =~= buffer@.subrange(start, i));
                    }
                } else {
                    line.push(c);
                    proof {
                        assert(line@ =~= buffer@.subrange(start, i + 1));
                        i = i + 1;
                    }
                }
            },
        }
    }
    let ghost tail = buffer@.skip(start);
    let ghost before = texts(lines@);
    let ghost n = buffer@.len() as int;
    if !line.as_str().is_empty() {
        proof {
            lemma_first_line_len(tail, n - start);
            assert(tail.take(n - start) =~= buffer@.subrange(start, n));
        }
        lines.push(line);
        proof {
            assert(texts(lines@) =~= before + seq![tail.take(n - start)]);
            assert(seq![tail.take(n - start)] + Seq::<Seq<char>>::empty() =~= seq![
                tail.take(n - start),
            ]);
        }
    } else {
        proof {
            assert(before + Seq::<Seq<char>>::empty() =~= before);
        }
    }
    proof {
        lemma_lines_are_clean(buffer@);
    }
    lines
}

} // verus!
