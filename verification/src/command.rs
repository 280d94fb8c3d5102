//! The command executor's text handling: a peer-supplied (or configured) line
//! is trimmed, split at the first space into a program token, and the
//! remainder is tokenized on whitespace into the argument list. Spawning the
//! program is left to the unverified shell around the library; when the spawn
//! fails, `command_reply` recovers with a fixed placeholder message so the
//! peer always receives some response.

use vstd::prelude::*;

verus! {

/// Whitespace as the tokenizer sees it: the ASCII whitespace bytes —
/// space, tab, line feed, vertical tab, form feed, carriage return.
pub open spec fn is_ws(b: u8) -> bool {
    b == 32 || b == 9 || b == 10 || b == 11 || b == 12 || b == 13
}

/// Executable twin of `is_ws`.
pub fn is_ws_byte(b: u8) -> (r: bool)
    ensures
        r == is_ws(b),
{
    b == 32 || b == 9 || b == 10 || b == 11 || b == 12 || b == 13
}

/// Bytes before the first whitespace byte (the length of the leading token).
pub open spec fn token_end(s: Seq<u8>) -> int
    decreases s.len(),
{
    if s.len() == 0 || is_ws(s[0]) {
        0
    } else {
        1 + token_end(s.skip(1))
    }
}

pub proof fn lemma_token_end_bounds(s: Seq<u8>)
    ensures
        0 <= token_end(s) <= s.len(),
    decreases s.len(),
{
    if s.len() == 0 || is_ws(s[0]) {
    } else {
        lemma_token_end_bounds(s.skip(1));
    }
}

#[via_fn]
proof fn tokens_of_decreases(s: Seq<u8>) {
    if s.len() > 0 && !is_ws(s[0]) {
        lemma_token_end_bounds(s.skip(1));
    }
}

/// The whitespace-separated tokens of `s`, in order, each nonempty.
pub open spec fn tokens_of(s: Seq<u8>) -> Seq<Seq<u8>>
    decreases s.len(),
    via tokens_of_decreases
{
    if s.len() == 0 {
        Seq::empty()
    } else if is_ws(s[0]) {
        tokens_of(s.skip(1))
    } else {
        seq![s.take(token_end(s))] + tokens_of(s.skip(token_end(s)))
    }
}

/// Bytes before the first space byte (the program token of a command line).
/// Only a literal space separates the program from its arguments, as with
/// splitting at the result of `find(" ")`.
pub open spec fn prog_end(s: Seq<u8>) -> int
    decreases s.len(),
{
    if s.len() == 0 || s[0] == 32 {
        0
    } else {
        1 + prog_end(s.skip(1))
    }
}

/// The program token of a command line: everything before the first space.
pub open spec fn program_of(s: Seq<u8>) -> Seq<u8> {
    s.take(prog_end(s))
}

/// The argument list of a command line: the remainder after the program
/// token, tokenized on whitespace.
pub open spec fn args_of(s: Seq<u8>) -> Seq<Seq<u8>> {
    tokens_of(s.skip(prog_end(s)))
}

/// `s` with leading whitespace removed.
pub open spec fn drop_leading(s: Seq<u8>) -> Seq<u8>
    decreases s.len(),
{
    if s.len() > 0 && is_ws(s[0]) {
        drop_leading(s.skip(1))
    } else {
        s
    }
}

/// `s` with trailing whitespace removed.
pub open spec fn drop_trailing(s: Seq<u8>) -> Seq<u8>
    decreases s.len(),
{
    if s.len() > 0 && is_ws(s[s.len() - 1]) {
        drop_trailing(s.take(s.len() - 1))
    } else {
        s
    }
}

/// `s` with both leading and trailing whitespace removed.
pub open spec fn trim_of(s: Seq<u8>) -> Seq<u8> {
    drop_trailing(drop_leading(s))
}

proof fn lemma_drop_leading_at(s: Seq<u8>, i: int)
    requires
        0 <= i <= s.len(),
        forall|k: int| 0 <= k < i ==> is_ws(s[k]),
        i == s.len() || !is_ws(s[i]),
    ensures
        drop_leading(s) == s.skip(i),
    decreases i,
{
    if i == 0 {
        assert(s.skip(0) =~= s);
    } else {
        assert(is_ws(s[0]));
        assert forall|k: int| 0 <= k < i - 1 implies is_ws(s.skip(1)[k]) by {
            assert(is_ws(s[k + 1]));
        }
        lemma_drop_leading_at(s.skip(1), i - 1);
        assert(s.skip(1).skip(i - 1) =~= s.skip(i));
    }
}

proof fn lemma_drop_trailing_at(s: Seq<u8>, j: int)
    requires
        0 <= j <= s.len(),
        forall|k: int| j <= k < s.len() ==> is_ws(s[k]),
        j == 0 || !is_ws(s[j - 1]),
    ensures
        drop_trailing(s) == s.take(j),
    decreases s.len(),
{
    if j == s.len() {
        assert(s.take(j) =~= s);
    } else {
        assert(is_ws(s[s.len() - 1]));
        assert(j < s.len());
        let t = s.take(s.len() - 1);
        assert forall|k: int| j <= k < t.len() implies is_ws(t[k]) by {
            assert(is_ws(s[k]));
        }
        lemma_drop_trailing_at(t, j);
        assert(t.take(j) =~= s.take(j));
    }
}

proof fn lemma_token_end_at(s: Seq<u8>, i: int, j: int)
    requires
        0 <= i <= j <= s.len(),
        forall|k: int| i <= k < j ==> !is_ws(s[k]),
        j == s.len() || is_ws(s[j]),
    ensures
        token_end(s.skip(i)) == j - i,
    decreases j - i,
{
    let t = s.skip(i);
    if j == i {
        assert(t.len() == 0 || is_ws(t[0]));
    } else {
        assert(!is_ws(t[0]));
        assert(t.skip(1) =~= s.skip(i + 1));
        lemma_token_end_at(s, i + 1, j);
    }
}

proof fn lemma_tokens_skip_ws(s: Seq<u8>, i: int)
    requires
        0 <= i < s.len(),
        is_ws(s[i]),
    ensures
        tokens_of(s.skip(i)) == tokens_of(s.skip(i + 1)),
{
    let t = s.skip(i);
    assert(is_ws(t[0]));
    assert(t.skip(1) =~= s.skip(i + 1));
}

proof fn lemma_tokens_at_token(s: Seq<u8>, i: int, j: int)
    requires
        0 <= i < j <= s.len(),
        forall|k: int| i <= k < j ==> !is_ws(s[k]),
        j == s.len() || is_ws(s[j]),
    ensures
        tokens_of(s.skip(i)) == seq![s.subrange(i, j)] + tokens_of(s.skip(j)),
{
    let t = s.skip(i);
    assert(!is_ws(t[0]));
    lemma_token_end_at(s, i, j);
    assert(t.take(j - i) =~= s.subrange(i, j));
    assert(t.skip(j - i) =~= s.skip(j));
}

proof fn lemma_prog_end_at(s: Seq<u8>, p: int)
    requires
        0 <= p <= s.len(),
        forall|k: int| 0 <= k < p ==> s[k] != 32,
        p == s.len() || s[p] == 32,
    ensures
        prog_end(s) == p,
    decreases p,
{
    if p == 0 {
    } else {
        assert(s[0] != 32);
        assert forall|k: int| 0 <= k < p - 1 implies s.skip(1)[k] != 32 by {
            assert(s[k + 1] != 32);
        }
        lemma_prog_end_at(s.skip(1), p - 1);
    }
}

/// Copies `s[i..j]` into a fresh byte vector.
pub fn subvec(s: &Vec<u8>, i: usize, j: usize) -> (r: Vec<u8>)
    requires
        i <= j <= s.len(),
    ensures
        r@ == s@.subrange(i as int, j as int),
{
    let mut r: Vec<u8> = Vec::new();
    let mut k: usize = i;
    while k < j
        invariant
            i <= k <= j <= s.len(),
            r@ == s@.subrange(i as int, k as int),
        decreases j - k,
    {
        r.push(s[k]);
        assert(r@ =~= s@.subrange(i as int, k + 1 as int));
        k += 1;
    }
    r
}

/// Removes leading and trailing whitespace from a line of bytes.
pub fn trim(line: &Vec<u8>) -> (r: Vec<u8>)
    ensures
        r@ == trim_of(line@),
{
    let n = line.len();
    let mut start: usize = 0;
    while start < n && is_ws_byte(line[start])
        invariant
            start <= n,
            n == line@.len(),
            forall|k: int| 0 <= k < start ==> is_ws(line@[k]),
        decreases n - start,
    {
        start += 1;
    }
    let mut end: usize = n;
    while end > start && is_ws_byte(line[end - 1])
        invariant
            start <= end <= n,
            n == line@.len(),
            forall|k: int| end <= k < n ==> is_ws(line@[k]),
        decreases end,
    {
        end -= 1;
    }
    proof {
        lemma_drop_leading_at(line@, start as int);
        let t = line@.skip(start as int);
        assert forall|k: int| end - start <= k < t.len() implies is_ws(t[k]) by {
            assert(is_ws(line@[k + start]));
        }
        lemma_drop_trailing_at(t, end - start);
        assert(t.take(end - start) =~= line@.subrange(start as int, end as int));
    }
    subvec(line, start, end)
}

/// Collects the whitespace-separated tokens of `s[from..]`.
pub fn tokenize_from(s: &Vec<u8>, from: usize) -> (r: Vec<Vec<u8>>)
    requires
        from <= s.len(),
    ensures
        r.deep_view() == tokens_of(s@.skip(from as int)),
    decreases s.len() - from,
{
    if from == s.len() {
        let r: Vec<Vec<u8>> = Vec::new();
        proof {
            assert(s@.skip(from as int) =~= Seq::<u8>::empty());
            assert(r.deep_view() =~= Seq::<Seq<u8>>::empty());
        }
        r
    } else if is_ws_byte(s[from]) {
        proof {
            lemma_tokens_skip_ws(s@, from as int);
        }
        tokenize_from(s, from + 1)
    } else {
        let mut j: usize = from;
        while j < s.len() && !is_ws_byte(s[j])
            invariant
                from <= j <= s@.len(),
                forall|k: int| from <= k < j ==> !is_ws(s@[k]),
            decreases s@.len() - j,
        {
            j += 1;
        }
        assert(j > from);
        let token = subvec(s, from, j);
        let mut rest = tokenize_from(s, j);
        proof {
            lemma_tokens_at_token(s@, from as int, j as int);
        }
        let ghost old_rest = rest.deep_view();
        proof {
            assert(token.deep_view() =~= token@);
        }
        rest.insert(0, token);
        proof {
            assert(rest.deep_view() =~~= seq![s@.subrange(from as int, j as int)] + old_rest);
        }
        rest
    }
}

/// Splits a command line into its program token and its whitespace-tokenized
/// argument list. The program is everything before the first space; the
/// arguments are the tokens of the remainder. Shell metacharacters carry no
/// meaning here: pipes and redirections come out as inert plain arguments.
pub fn parse_command_line(line: &Vec<u8>) -> (r: (Vec<u8>, Vec<Vec<u8>>))
    ensures
        r.0@ == program_of(line@),
        r.1.deep_view() == args_of(line@),
{
    let n = line.len();
    let mut p: usize = 0;
    while p < n && line[p] != 32
        invariant
            p <= n,
            n == line@.len(),
            forall|k: int| 0 <= k < p ==> line@[k] != 32,
        decreases n - p,
    {
        p += 1;
    }
    proof {
        lemma_prog_end_at(line@, p as int);
        assert(line@.subrange(0, p as int) =~= line@.take(p as int));
    }
    let program = subvec(line, 0, p);
    let args = tokenize_from(line, p);
    (program, args)
}

/// The fixed placeholder sent to the peer when a program cannot be spawned:
/// the bytes of "Command failed to start" followed by a line feed.
pub open spec fn command_failed_text() -> Seq<u8> {
    seq![
        67u8, 111, 109, 109, 97, 110, 100, 32, 102, 97, 105, 108, 101, 100, 32, 116, 111, 32,
        115, 116, 97, 114, 116, 10,
    ]
}

/// Builds the placeholder failure line as a byte vector.
pub fn command_failed_message() -> (r: Vec<u8>)
    ensures
        r@ == command_failed_text(),
{
    let mut r: Vec<u8> = Vec::new();
    r.push(67);
    r.push(111);
    r.push(109);
    r.push(109);
    r.push(97);
    r.push(110);
    r.push(100);
    r.push(32);
    r.push(102);
    r.push(97);
    r.push(105);
    r.push(108);
    r.push(101);
    r.push(100);
    r.push(32);
    r.push(116);
    r.push(111);
    r.push(32);
    r.push(115);
    r.push(116);
    r.push(97);
    r.push(114);
    r.push(116);
    r.push(10);
    proof {
        assert(r@ =~= command_failed_text());
    }
    r
}

/// What a spawn outcome turns into: the captured standard output when the
/// program ran, the fixed placeholder when it could not be started.
pub open spec fn reply_of(outcome: Option<Seq<u8>>) -> Seq<u8> {
    match outcome {
        Some(out) => out,
        None => command_failed_text(),
    }
}

/// What goes back to the peer for a spawn outcome: the captured standard
/// output when the program ran, and the fixed placeholder when it could not
/// be started. A failed spawn never surfaces as an error to the caller.
pub fn command_reply(outcome: Option<Vec<u8>>) -> (r: Vec<u8>)
    ensures
        outcome matches Some(out) ==> r@ == out@,
        outcome is None ==> r@ == command_failed_text(),
{
    match outcome {
        Some(out) => out,
        None => command_failed_message(),
    }
}

} // verus!
