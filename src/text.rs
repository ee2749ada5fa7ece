//! Text helpers: joining strings and splitting text into lines, over character sequences.
use vstd::prelude::*;
use vstd::utf8::{decode_utf8, valid_utf8};

verus! {

/// The characters of each string of `v`.
pub open spec fn views(v: Seq<String>) -> Seq<Seq<char>> {
    v.map_values(|s: String| s@)
}

/// The characters of each line of `v`.
pub open spec fn char_views(v: Seq<Vec<char>>) -> Seq<Seq<char>> {
    v.map_values(|l: Vec<char>| l@)
}

/// `parts` with `sep` between each two neighbours.
pub open spec fn join(parts: Seq<Seq<char>>, sep: Seq<char>) -> Seq<char>
    decreases parts.len(),
{
    if parts.len() == 0 {
        Seq::empty()
    } else if parts.len() == 1 {
        parts[0]
    } else {
        parts[0] + sep + join(parts.drop_first(), sep)
    }
}

/// Adding a part at the end adds the separator and the part at the end.
pub proof fn lemma_join_push(parts: Seq<Seq<char>>, sep: Seq<char>, x: Seq<char>)
    requires
        parts.len() > 0,
    ensures
        join(parts.push(x), sep) == join(parts, sep) + sep + x,
    decreases parts.len(),
{
    if parts.len() == 1 {
        assert(parts.push(x).drop_first() =~= seq![x]);
        assert(join(seq![x], sep) == x);
        assert(parts.push(x)[0] == parts[0]);
    } else {
        assert(parts.push(x).drop_first() =~= parts.drop_first().push(x));
        lemma_join_push(parts.drop_first(), sep, x);
        assert(parts.push(x)[0] == parts[0]);
        assert(join(parts.push(x), sep) =~= join(parts, sep) + sep + x);
    }
}

/// A line as `str::lines` yields it: a carriage return before the line feed is dropped.
pub open spec fn strip_cr(line: Seq<char>) -> Seq<char> {
    if line.len() > 0 && line.last() == '\r' {
        line.drop_last()
    } else {
        line
    }
}

/// The lines of `rest`, where `cur` is the part of the current line already read.
pub open spec fn lines_from(rest: Seq<char>, cur: Seq<char>) -> Seq<Seq<char>>
    decreases rest.len(),
{
    if rest.len() == 0 {
        if cur.len() == 0 {
            Seq::empty()
        } else {
            seq![cur]
        }
    } else if rest[0] == '\n' {
        seq![strip_cr(cur)] + lines_from(rest.drop_first(), Seq::empty())
    } else {
        lines_from(rest.drop_first(), cur.push(rest[0]))
    }
}

/// The lines of `s`, split at each line feed; a final line feed ends the last line.
pub open spec fn lines(s: Seq<char>) -> Seq<Seq<char>> {
    lines_from(s, Seq::empty())
}

/// The characters of `s`, in order.
pub fn chars_of(s: &str) -> (r: Vec<char>)
    ensures
        r@ == s@,
{
    broadcast use vstd::string::group_string_axioms;
    let mut out: Vec<char> = Vec::new();
    for c in it: s.chars()
        invariant
            out@ == it.seq().subrange(0, it.index() as int),
            it.seq() == s@,
    {
        out.push(c);
    }
    out
}

/// Relies on `String: FromIterator<char>`: the string holds the characters in order.
#[verifier::external_body]
pub(crate) fn string_of(chars: &Vec<char>) -> (r: String)
    ensures
        r@ == chars@,
{
    chars.iter().collect()
}

/// A line feed closes `x`: the lines of `x + q` are those of `x`, then those of `q`.
pub proof fn lemma_lines_append(x: Seq<char>, q: Seq<char>, cur: Seq<char>)
    requires
        x.len() > 0,
        x.last() == '\n',
    ensures
        lines_from(x + q, cur) == lines_from(x, cur) + lines(q),
    decreases x.len(),
{
    assert((x + q).drop_first() =~= x.drop_first() + q);
    assert((x + q)[0] == x[0]);
    if x[0] == '\n' {
        if x.len() == 1 {
            assert(x.drop_first() =~= Seq::<char>::empty());
            assert(x.drop_first() + q =~= q);
            assert(lines_from(x.drop_first(), Seq::empty()) =~= Seq::<Seq<char>>::empty());
            assert(lines_from(x, cur) =~= seq![strip_cr(cur)]);
        } else {
            lemma_lines_append(x.drop_first(), q, Seq::empty());
            assert(lines_from(x + q, cur) =~= lines_from(x, cur) + lines(q));
        }
    } else {
        lemma_lines_append(x.drop_first(), q, cur.push(x[0]));
    }
}

/// Text without a line feed only extends the current line.
pub proof fn lemma_lines_no_newline(a: Seq<char>, s: Seq<char>, cur: Seq<char>)
    requires
        !a.contains('\n'),
    ensures
        lines_from(a + s, cur) == lines_from(s, cur + a),
    decreases a.len(),
{
    if a.len() == 0 {
        assert(a + s =~= s);
        assert(cur + a =~= cur);
    } else {
        assert((a + s)[0] == a[0]);
        assert((a + s).drop_first() =~= a.drop_first() + s);
        assert(a[0] != '\n') by {
            if a[0] == '\n' {
                assert(a.contains('\n'));
            }
        }
        assert(!a.drop_first().contains('\n')) by {
            if a.drop_first().contains('\n') {
                let k = choose|k: int| 0 <= k < a.drop_first().len() && a.drop_first()[k] == '\n';
                assert(a[k + 1] == '\n');
            }
        }
        lemma_lines_no_newline(a.drop_first(), s, cur.push(a[0]));
        assert(cur.push(a[0]) + a.drop_first() =~= cur + a);
    }
}

/// Some text gives at least one line.
pub proof fn lemma_lines_nonempty(s: Seq<char>, cur: Seq<char>)
    requires
        s.len() > 0 || cur.len() > 0,
    ensures
        lines_from(s, cur).len() > 0,
    decreases s.len(),
{
    if s.len() > 0 && s[0] != '\n' {
        lemma_lines_nonempty(s.drop_first(), cur.push(s[0]));
    }
}

/// No carriage return stands right before a line feed in `t`.
pub open spec fn no_crlf(t: Seq<char>) -> bool {
    forall|i: int| 0 <= i < t.len() - 1 ==> !(#[trigger] t[i] == '\r' && t[i + 1] == '\n')
}

/// Joining the lines with line feeds gives the text back, when it has no final line feed and
/// no carriage return before a line feed.
pub proof fn lemma_join_lines(r: Seq<char>, cur: Seq<char>)
    requires
        r.len() == 0 || r.last() != '\n',
        no_crlf(cur + r),
    ensures
        join(lines_from(r, cur), seq!['\n']) == cur + r,
    decreases r.len(),
{
    let t = cur + r;
    if r.len() == 0 {
        assert(cur + r =~= cur);
    } else if r[0] == '\n' {
        let r1 = r.drop_first();
        assert(r1.len() > 0);
        if cur.len() > 0 && cur.last() == '\r' {
            assert(t[cur.len() - 1] == '\r');
            assert(t[cur.len() as int] == '\n');
        }
        assert(strip_cr(cur) == cur);
        assert(no_crlf(Seq::<char>::empty() + r1)) by {
            assert(Seq::<char>::empty() + r1 =~= r1);
            assert forall|i: int| 0 <= i < r1.len() - 1 implies !(#[trigger] r1[i] == '\r' && r1[i
                + 1] == '\n') by {
                assert(r1[i] == t[cur.len() + 1 + i]);
                assert(r1[i + 1] == t[cur.len() + 1 + i + 1]);
            }
        }
        lemma_join_lines(r1, Seq::empty());
        assert(Seq::<char>::empty() + r1 =~= r1);
        lemma_lines_nonempty(r1, Seq::empty());
        let tail = lines_from(r1, Seq::empty());
        let all = seq![cur] + tail;
        assert(all.drop_first() =~= tail);
        assert(lines_from(r, cur) == all);
        assert(join(all, seq!['\n']) == cur + seq!['\n'] + r1);
        assert(cur + seq!['\n'] + r1 =~= cur + r);
    } else {
        assert(cur.push(r[0]) + r.drop_first() =~= cur + r);
        lemma_join_lines(r.drop_first(), cur.push(r[0]));
    }
}

/// `parts` joined with `sep`.
pub fn join_strings(parts: &[String], sep: &str) -> (r: String)
    ensures
        r@ == join(views(parts@), sep@),
{
    let mut r = String::new();
    let mut i: usize = 0;
    while i < parts.len()
        invariant
            i <= parts.len(),
            r@ == join(views(parts@.subrange(0, i as int)), sep@),
        decreases parts.len() - i,
    {
        proof {
            assert(views(parts@.subrange(0, i + 1)) =~= views(parts@.subrange(0, i as int)).push(
                parts@[i as int]@,
            ));
            if i > 0 {
                lemma_join_push(views(parts@.subrange(0, i as int)), sep@, parts@[i as int]@);
            } else {
                assert(views(parts@.subrange(0, 1)) =~= seq![parts@[0]@]);
            }
        }
        if i > 0 {
            r.append(sep);
        }
        r.append(parts[i].as_str());
        i += 1;
    }
    assert(parts@.subrange(0, parts.len() as int) =~= parts@);
    r
}

/// The lines of `s`, as `str::lines` yields them.
pub fn split_lines(s: &Vec<char>) -> (r: Vec<Vec<char>>)
    ensures
        char_views(r@) == lines(s@),
{
    let mut out: Vec<Vec<char>> = Vec::new();
    let mut cur: Vec<char> = Vec::new();
    let mut i: usize = 0;
    assert(s@.subrange(0, s.len() as int) =~= s@);
    assert(char_views(out@) =~= Seq::<Seq<char>>::empty());
    while i < s.len()
        invariant
            i <= s.len(),
            char_views(out@) + lines_from(s@.subrange(i as int, s.len() as int), cur@) == lines(
                s@,
            ),
        decreases s.len() - i,
    {
        let c = s[i];
        let ghost rest = s@.subrange(i as int, s.len() as int);
        assert(rest[0] == c);
        assert(rest.drop_first() =~= s@.subrange(i + 1, s.len() as int));
        if c == '\n' {
            let mut line = cur;
            if line.len() > 0 && line[line.len() - 1] == '\r' {
                line.pop();
            }
            assert(line@ == strip_cr(cur@));
            let ghost before = char_views(out@);
            out.push(line);
            assert(char_views(out@) =~= before.push(line@));
            assert(before + (seq![line@] + lines_from(rest.drop_first(), Seq::empty()))
                =~= before.push(line@) + lines_from(rest.drop_first(), Seq::empty()));
            cur = Vec::new();
            assert(cur@ =~= Seq::<char>::empty());
        } else {
            cur.push(c);
        }
        i += 1;
    }
    assert(s@.subrange(i as int, s.len() as int) =~= Seq::<char>::empty());
    if cur.len() > 0 {
        let ghost before = char_views(out@);
        let ghost last = cur@;
        out.push(cur);
        assert(char_views(out@) =~= before + seq![last]);
    } else {
        assert(char_views(out@) + Seq::<Seq<char>>::empty() =~= char_views(out@));
    }
    out
}

/// The lines of `ls` from index `from` on, joined with line feeds.
pub fn join_lines_from(ls: &Vec<Vec<char>>, from: usize) -> (r: Vec<char>)
    requires
        from <= ls.len(),
    ensures
        r@ == join(char_views(ls@).subrange(from as int, ls.len() as int), seq!['\n']),
{
    let mut r: Vec<char> = Vec::new();
    let mut j: usize = from;
    assert(char_views(ls@).subrange(from as int, from as int) =~= Seq::<Seq<char>>::empty());
    while j < ls.len()
        invariant
            from <= j <= ls.len(),
            r@ == join(char_views(ls@).subrange(from as int, j as int), seq!['\n']),
        decreases ls.len() - j,
    {
        let ghost done = char_views(ls@).subrange(from as int, j as int);
        let ghost line = ls@[j as int]@;
        assert(char_views(ls@).subrange(from as int, j + 1) =~= done.push(line));
        if j > from {
            r.push('\n');
        }
        let ghost start = r@;
        let mut k: usize = 0;
        while k < ls[j].len()
            invariant
                j < ls.len(),
                k <= ls[j as int].len(),
                line == ls@[j as int]@,
                r@ == start + line.subrange(0, k as int),
            decreases ls[j as int].len() - k,
        {
            r.push(ls[j][k]);
            assert(line.subrange(0, k + 1) =~= line.subrange(0, k as int).push(line[k as int]));
            k += 1;
        }
        assert(line.subrange(0, line.len() as int) =~= line);
        proof {
            if j > from {
                lemma_join_push(done, seq!['\n'], line);
            } else {
                assert(done.push(line) =~= seq![line]);
                assert(start =~= Seq::<char>::empty());
            }
        }
        j += 1;
    }
    r
}

/// Whether `a` and `b` hold the same characters.
pub fn same_chars(a: &Vec<char>, b: &Vec<char>) -> (r: bool)
    ensures
        r == (a@ == b@),
{
    if a.len() != b.len() {
        return false;
    }
    let mut i: usize = 0;
    while i < a.len()
        invariant
            a.len() == b.len(),
            i <= a.len(),
            forall|k: int| 0 <= k < i ==> a@[k] == b@[k],
        decreases a.len() - i,
    {
        if a[i] != b[i] {
            return false;
        }
        i += 1;
    }
    assert(a@ =~= b@);
    true
}

/// Relies on `std::str::from_utf8`: it succeeds exactly on valid UTF-8, and then the text holds
/// the decoded characters.
#[verifier::external_body]
fn from_utf8_owned(bytes: &[u8]) -> (r: Option<String>)
    ensures
        r is Some <==> valid_utf8(bytes@),
        r matches Some(s) ==> s@ == decode_utf8(bytes@),
{
    match std::str::from_utf8(bytes) {
        Ok(s) => Some(s.to_owned()),
        Err(_) => None,
    }
}

/// The text that `bytes` encode in UTF-8, or `None` when they are not valid UTF-8.
pub fn decode_text(bytes: &[u8]) -> (r: Option<String>)
    ensures
        r is Some <==> valid_utf8(bytes@),
        r matches Some(s) ==> s@ == decode_utf8(bytes@),
{
    from_utf8_owned(bytes)
}

/// The characters of each string slice of `v`.
pub open spec fn str_views(v: Seq<&str>) -> Seq<Seq<char>> {
    v.map_values(|s: &str| s@)
}

/// Owned copies of the string slices of `v`, in order.
pub fn to_strings(v: &[&str]) -> (r: Vec<String>)
    ensures
        views(r@) == str_views(v@),
{
    let mut r: Vec<String> = Vec::new();
    let mut i: usize = 0;
    while i < v.len()
        invariant
            i <= v.len(),
            views(r@) == str_views(v@.subrange(0, i as int)),
        decreases v.len() - i,
    {
        r.push(v[i].to_owned());
        assert(str_views(v@.subrange(0, i + 1)) =~= str_views(v@.subrange(0, i as int)).push(
            v@[i as int]@,
        ));
        assert(views(r@) =~= views(r@.drop_last()).push(r@.last()@));
        i += 1;
    }
    assert(v@.subrange(0, v.len() as int) =~= v@);
    r
}

/// A copy of the strings of `v`, in order.
pub fn copy_strings(v: &Vec<String>) -> (r: Vec<String>)
    ensures
        r@ == v@,
{
    let mut r: Vec<String> = Vec::new();
    let mut i: usize = 0;
    while i < v.len()
        invariant
            i <= v.len(),
            r@ == v@.subrange(0, i as int),
        decreases v.len() - i,
    {
        r.push(v[i].clone());
        assert(r@ =~= v@.subrange(0, i + 1));
        i += 1;
    }
    assert(v@.subrange(0, v.len() as int) =~= v@);
    r
}

/// The index of the first `c` in `s`, or the length of `s` when `c` is absent.
pub open spec fn first_index(s: Seq<char>, c: char) -> int
    decreases s.len(),
{
    if s.len() == 0 {
        0
    } else if s[0] == c {
        0
    } else {
        1 + first_index(s.drop_first(), c)
    }
}

/// The first `c` stands at `i` when none stands before it.
pub proof fn lemma_first_index(s: Seq<char>, c: char, i: int)
    requires
        0 <= i <= s.len(),
        forall|k: int| 0 <= k < i ==> s[k] != c,
        i == s.len() || s[i] == c,
    ensures
        first_index(s, c) == i,
    decreases i,
{
    if i > 0 {
        assert forall|k: int| 0 <= k < i - 1 implies s.drop_first()[k] != c by {
            assert(s.drop_first()[k] == s[k + 1]);
        }
        if i < s.len() {
            assert(s.drop_first()[i - 1] == s[i]);
        }
        lemma_first_index(s.drop_first(), c, i - 1);
    }
}

/// The index of the first `c` in `s` from `from` on, or the length of `s`.
pub fn find_char(s: &Vec<char>, c: char, from: usize) -> (r: usize)
    requires
        from <= s.len(),
    ensures
        from <= r <= s.len(),
        r - from == first_index(s@.subrange(from as int, s.len() as int), c),
{
    let mut i: usize = from;
    while i < s.len() && s[i] != c
        invariant
            from <= i <= s.len(),
            forall|k: int| from <= k < i ==> s@[k] != c,
        decreases s.len() - i,
    {
        i += 1;
    }
    proof {
        let t = s@.subrange(from as int, s.len() as int);
        assert forall|k: int| 0 <= k < i - from implies t[k] != c by {
            assert(t[k] == s@[from + k]);
        }
        if i < s.len() {
            assert(t[i - from] == s@[i as int]);
        }
        lemma_first_index(t, c, i - from);
    }
    i
}

/// The characters of `s` from `from` up to `to`.
pub fn slice_chars(s: &Vec<char>, from: usize, to: usize) -> (r: Vec<char>)
    requires
        from <= to <= s.len(),
    ensures
        r@ == s@.subrange(from as int, to as int),
{
    let mut r: Vec<char> = Vec::new();
    let mut i: usize = from;
    while i < to
        invariant
            from <= i <= to <= s.len(),
            r@ == s@.subrange(from as int, i as int),
        decreases to - i,
    {
        r.push(s[i]);
        assert(r@ =~= s@.subrange(from as int, i + 1));
        i += 1;
    }
    r
}

} // verus!
