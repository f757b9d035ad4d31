use vstd::prelude::*;

verus! {

/// A character that the line protocol reads as a delimiter inside a tag
/// value, or the escape character itself.
pub open spec fn is_tag_special(c: char) -> bool {
    c == '\\' || c == ' ' || c == ',' || c == '='
}

/// How one character of a tag value is written: special characters get a
/// backslash in front of them, every other character stands as it is.
pub open spec fn escape_char(c: char) -> Seq<char> {
    if is_tag_special(c) {
        seq!['\\', c]
    } else {
        seq![c]
    }
}

/// The escaped form of a tag value, character by character.
pub open spec fn escaped(s: Seq<char>) -> Seq<char>
    decreases s.len(),
{
    if s.len() == 0 {
        Seq::empty()
    } else {
        escaped(s.drop_last()) + escape_char(s.last())
    }
}

/// Appends one character to a string.
#[verifier::external_body]
fn push_char(s: &mut String, c: char)
    ensures
        final(s)@ == old(s)@.push(c),
{
    s.push(c);
}

/// Escapes a tag value for the line protocol: a backslash goes in front of
/// every backslash, space, comma and equals sign.
pub fn escape_tag_value(value: &str) -> (res: String)
    ensures
        res@ == escaped(value@),
{
    broadcast use vstd::string::group_string_axioms;
    let mut out = String::new();
    for c in it: value.chars()
        invariant
            it.seq() == value@,
            out@ == escaped(value@.take(it.index() as int)),
    {
        assert(value@.take(it.index() + 1).drop_last() == value@.take(it.index() as int));
        if c == '\\' || c == ' ' || c == ',' || c == '=' {
            push_char(&mut out, '\\');
        }
        push_char(&mut out, c);
    }
    assert(value@.take(value@.len() as int) == value@);
    out
}


/// Every occurrence of `c` in `s` written as `r`: what one `str::replace`
/// of a single character does.
pub open spec fn replaced(s: Seq<char>, c: char, r: Seq<char>) -> Seq<char>
    decreases s.len(),
{
    if s.len() == 0 {
        Seq::empty()
    } else {
        replaced(s.drop_last(), c, r) + (if s.last() == c { r } else { seq![s.last()] })
    }
}

/// The four replacements in the order the escaping is described: the
/// backslash first, then space, comma and equals sign.
pub open spec fn replaced_in_turn(s: Seq<char>) -> Seq<char> {
    replaced(
        replaced(replaced(replaced(s, '\\', seq!['\\', '\\']), ' ', seq!['\\', ' ']), ',', seq!['\\', ',']),
        '=',
        seq!['\\', '='],
    )
}

/// Reads an escaped tag value back, from its end: a special character at
/// the end was written with a backslash in front of it.
pub open spec fn unescaped(t: Seq<char>) -> Seq<char>
    decreases t.len(),
{
    if t.len() == 0 {
        Seq::empty()
    } else if is_tag_special(t.last()) && t.len() >= 2 {
        unescaped(t.drop_last().drop_last()).push(t.last())
    } else {
        unescaped(t.drop_last()).push(t.last())
    }
}

proof fn lemma_replaced_append(a: Seq<char>, b: Seq<char>, c: char, r: Seq<char>)
    ensures
        replaced(a + b, c, r) == replaced(a, c, r) + replaced(b, c, r),
    decreases b.len(),
{
    if b.len() == 0 {
        assert(a + b == a);
        assert(replaced(a, c, r) + replaced(b, c, r) == replaced(a, c, r));
    } else {
        lemma_replaced_append(a, b.drop_last(), c, r);
        assert((a + b).drop_last() == a + b.drop_last());
        assert((a + b).last() == b.last());
    }
}

proof fn lemma_replaced_one(x: char, c: char, r: Seq<char>)
    ensures
        replaced(seq![x], c, r) == (if x == c { r } else { seq![x] }),
{
    assert(seq![x].drop_last() == Seq::<char>::empty());
    assert(replaced(Seq::<char>::empty(), c, r) == Seq::<char>::empty());
    assert(Seq::<char>::empty() + (if x == c { r } else { seq![x] }) == (if x == c { r } else { seq![x] }));
}

proof fn lemma_replaced_two(y: char, x: char, c: char, r: Seq<char>)
    requires
        y != c,
    ensures
        replaced(seq![y, x], c, r) == seq![y] + (if x == c { r } else { seq![x] }),
{
    lemma_replaced_one(y, c, r);
    assert(seq![y, x].drop_last() == seq![y]);
    assert(seq![y, x].last() == x);
}

/// How the chain of replacements treats one character.
proof fn lemma_in_turn_one(x: char)
    ensures
        replaced_in_turn(seq![x]) == escape_char(x),
{
    let b = seq!['\\', '\\'];
    let sp = seq!['\\', ' '];
    let cm = seq!['\\', ','];
    let eq = seq!['\\', '='];
    lemma_replaced_one(x, '\\', b);
    if x == '\\' {
        lemma_replaced_two('\\', '\\', ' ', sp);
        lemma_replaced_two('\\', '\\', ',', cm);
        lemma_replaced_two('\\', '\\', '=', eq);
        assert(seq!['\\'] + seq!['\\'] == b);
    } else {
        lemma_replaced_one(x, ' ', sp);
        if x == ' ' {
            lemma_replaced_two('\\', ' ', ',', cm);
            lemma_replaced_two('\\', ' ', '=', eq);
            assert(seq!['\\'] + seq![' '] == sp);
        } else {
            lemma_replaced_one(x, ',', cm);
            if x == ',' {
                lemma_replaced_two('\\', ',', '=', eq);
                assert(seq!['\\'] + seq![','] == cm);
            } else {
                lemma_replaced_one(x, '=', eq);
            }
        }
    }
}

/// Escaping character by character gives what the four replacements, done
/// one after the other over the whole value, give.
pub proof fn lemma_escaped_is_replaced_in_turn(s: Seq<char>)
    ensures
        escaped(s) == replaced_in_turn(s),
    decreases s.len(),
{
    if s.len() > 0 {
        let init = s.drop_last();
        let x = s.last();
        lemma_escaped_is_replaced_in_turn(init);
        assert(s == init + seq![x]);
        let b = seq!['\\', '\\'];
        let sp = seq!['\\', ' '];
        let cm = seq!['\\', ','];
        let eq = seq!['\\', '='];
        lemma_replaced_append(init, seq![x], '\\', b);
        let r1a = replaced(init, '\\', b);
        let r1b = replaced(seq![x], '\\', b);
        lemma_replaced_append(r1a, r1b, ' ', sp);
        let r2a = replaced(r1a, ' ', sp);
        let r2b = replaced(r1b, ' ', sp);
        lemma_replaced_append(r2a, r2b, ',', cm);
        let r3a = replaced(r2a, ',', cm);
        let r3b = replaced(r2b, ',', cm);
        lemma_replaced_append(r3a, r3b, '=', eq);
        lemma_in_turn_one(x);
    }
}

/// An escaped tag value can be read back: escaping loses nothing.
pub proof fn lemma_unescape_escaped(s: Seq<char>)
    ensures
        unescaped(escaped(s)) == s,
    decreases s.len(),
{
    if s.len() > 0 {
        let init = s.drop_last();
        let x = s.last();
        lemma_unescape_escaped(init);
        let t = escaped(s);
        if is_tag_special(x) {
            assert(t.drop_last().drop_last() == escaped(init));
        } else {
            assert(t.drop_last() == escaped(init));
        }
        assert(s == init.push(x));
    }
}

/// Two different tag values never escape to the same text.
pub proof fn lemma_escape_injective(a: Seq<char>, b: Seq<char>)
    requires
        escaped(a) == escaped(b),
    ensures
        a == b,
{
    lemma_unescape_escaped(a);
    lemma_unescape_escaped(b);
}


/// What `format!("{:?}", s)` writes for a string `s`.
pub uninterp spec fn debug_quoted(s: Seq<char>) -> Seq<char>;

/// Calls std's `Debug` formatting of a `str` (`format!("{:?}", s)`); the
/// result is named `debug_quoted` of the string, and nothing more is claimed
/// of it (the documentation shows it as the text in double quotes, with
/// some characters escaped).
#[verifier::external_body]
fn debug_format_str(s: &str) -> (res: String)
    ensures
        res@ == debug_quoted(s@),
{
    format!("{:?}", s)
}

/// The path and query of a write request, after the quoted base address
/// and before the quoted database name.
pub open spec fn write_path() -> Seq<char> {
    "/api/v3/write_lp?db="@
}

/// The options that end a write request.
pub open spec fn write_options() -> Seq<char> {
    "&precision=ms&accept_partial=true"@
}

/// Assembles the address of a write request from the base address and the
/// database name, each already written in its quoted form.
pub fn assemble_write_url(quoted_base: &str, quoted_db: &str) -> (url: String)
    ensures
        url@ == quoted_base@ + write_path() + quoted_db@ + write_options(),
{
    let mut url = String::from_str(quoted_base);
    url.append("/api/v3/write_lp?db=");
    url.append(quoted_db);
    url.append("&precision=ms&accept_partial=true");
    url
}

/// The address to which a batch of metric lines is posted: the base address
/// and the database name are written as `Debug` writes them.
pub fn write_url(base_url: &str, db_name: &str) -> (url: String)
    ensures
        url@ == debug_quoted(base_url@) + write_path() + debug_quoted(db_name@) + write_options(),
{
    let quoted_base = debug_format_str(base_url);
    let quoted_db = debug_format_str(db_name);
    assemble_write_url(quoted_base.as_str(), quoted_db.as_str())
}

/// Lines joined by a newline, none after the last.
pub open spec fn joined(lines: Seq<Seq<char>>) -> Seq<char>
    decreases lines.len(),
{
    if lines.len() == 0 {
        Seq::empty()
    } else if lines.len() == 1 {
        lines[0]
    } else {
        joined(lines.drop_last()).push('\n') + lines.last()
    }
}

/// The text of each line.
pub open spec fn line_texts(lines: Seq<String>) -> Seq<Seq<char>> {
    lines.map_values(|l: String| l@)
}

/// Joining nothing gives nothing; joining one line gives that line.
pub proof fn lemma_joined_short(l: Seq<char>)
    ensures
        joined(Seq::<Seq<char>>::empty()).len() == 0,
        joined(seq![l]) == l,
{
}

/// One more line adds a newline and that line, whatever the lines hold:
/// the body is `lines[0] + "\n" + lines[1] + ... + "\n" + lines[n-1]`.
pub proof fn lemma_joined_push(lines: Seq<Seq<char>>, l: Seq<char>)
    requires
        lines.len() > 0,
    ensures
        joined(lines.push(l)) == joined(lines) + seq!['\n'] + l,
{
    assert(lines.push(l).drop_last() == lines);
    assert(joined(lines).push('\n') == joined(lines) + seq!['\n']);
}

/// The total length of some lines.
pub open spec fn total_len(lines: Seq<Seq<char>>) -> nat
    decreases lines.len(),
{
    if lines.len() == 0 { 0 } else { total_len(lines.drop_last()) + lines.last().len() }
}

/// The body is as long as the lines together, plus one newline between
/// each two consecutive lines.
pub proof fn lemma_joined_len(lines: Seq<Seq<char>>)
    requires
        lines.len() > 0,
    ensures
        joined(lines).len() == total_len(lines) + lines.len() - 1,
    decreases lines.len(),
{
    if lines.len() > 1 {
        lemma_joined_len(lines.drop_last());
        lemma_joined_push(lines.drop_last(), lines.last());
        assert(lines.drop_last().push(lines.last()) == lines);
    } else {
        assert(lines.drop_last().len() == 0);
        assert(total_len(lines.drop_last()) == 0);
        assert(lines.last() == lines[0]);
    }
}

/// The body of a write request: the lines joined by newlines.
pub fn join_lines(lines: &Vec<String>) -> (body: String)
    ensures
        body@ == joined(line_texts(lines@)),
{
    let mut body = String::new();
    let n = lines.len();
    let mut i: usize = 0;
    while i < n
        invariant
            n == lines@.len(),
            i <= n,
            body@ == joined(line_texts(lines@).take(i as int)),
        decreases n - i,
    {
        let ghost texts = line_texts(lines@);
        assert(texts.take(i + 1).drop_last() == texts.take(i as int));
        assert(texts.take(i + 1).last() == lines@[i as int]@);
        if i > 0 {
            push_char(&mut body, '\n');
        } else {
            assert(texts.take(1) == seq![lines@[0]@]);
        }
        body.append(lines[i].as_str());
        i = i + 1;
    }
    assert(line_texts(lines@).take(n as int) == line_texts(lines@));
    body
}

} // verus!
