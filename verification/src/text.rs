//! Text handling shared by the assistant: Unicode white space, trimming,
//! prefixes and the last line of a program's output.
use vstd::prelude::*;
use vstd::utf8::{decode_utf8, valid_utf8};

verus! {

/// The Unicode `White_Space` property, the set of characters that
/// `char::is_whitespace` and `str::trim` treat as white space.
pub open spec fn is_white_space(c: char) -> bool {
    let n = c as u32;
    ||| 0x9 <= n <= 0xd
    ||| n == 0x20
    ||| n == 0x85
    ||| n == 0xa0
    ||| n == 0x1680
    ||| 0x2000 <= n <= 0x200a
    ||| n == 0x2028
    ||| n == 0x2029
    ||| n == 0x202f
    ||| n == 0x205f
    ||| n == 0x3000
}

/// `s` without its leading white space.
pub open spec fn trim_start(s: Seq<char>) -> Seq<char>
    decreases s.len(),
{
    if s.len() > 0 && is_white_space(s[0]) {
        trim_start(s.drop_first())
    } else {
        s
    }
}

/// `s` without its trailing white space.
pub open spec fn trim_end(s: Seq<char>) -> Seq<char>
    decreases s.len(),
{
    if s.len() > 0 && is_white_space(s.last()) {
        trim_end(s.drop_last())
    } else {
        s
    }
}

/// `s` without leading and trailing white space, as `str::trim` gives it.
pub open spec fn trimmed(s: Seq<char>) -> Seq<char> {
    trim_end(trim_start(s))
}

/// A text that holds nothing but white space.
pub open spec fn is_blank(s: Seq<char>) -> bool {
    trimmed(s).len() == 0
}

/// `s` begins with `p`.
pub open spec fn starts_with(s: Seq<char>, p: Seq<char>) -> bool {
    p.len() <= s.len() && s.take(p.len() as int) == p
}

/// `s` with every leading repetition of a non-empty `p` removed, as
/// `str::trim_start_matches` gives it.
pub open spec fn strip_prefix_all(s: Seq<char>, p: Seq<char>) -> Seq<char>
    decreases s.len(),
{
    if p.len() > 0 && starts_with(s, p) {
        strip_prefix_all(s.skip(p.len() as int), p)
    } else {
        s
    }
}

/// The characters of `s` after its last line feed (all of `s` if it has none).
pub open spec fn after_last_newline(s: Seq<char>) -> Seq<char>
    decreases s.len(),
{
    if s.len() == 0 {
        s
    } else if s.last() == '\n' {
        Seq::empty()
    } else {
        after_last_newline(s.drop_last()).push(s.last())
    }
}

/// The last item that `str::lines` yields for `s`: lines end at a line feed,
/// a carriage return before that line feed is dropped, and a final line feed
/// does not open an empty line.
pub open spec fn last_line(s: Seq<char>) -> Option<Seq<char>> {
    if s.len() == 0 {
        None
    } else if s.last() == '\n' {
        let line = after_last_newline(s.drop_last());
        Some(
            if line.len() > 0 && line.last() == '\r' {
                line.drop_last()
            } else {
                line
            },
        )
    } else {
        Some(after_last_newline(s))
    }
}

/// What `String::from_utf8_lossy` makes of `bytes`.
pub uninterp spec fn utf8_lossy(bytes: Seq<u8>) -> Seq<char>;

/// Trusted: `String::from_utf8_lossy` (std). Its result is named by
/// `utf8_lossy`; std documents that valid UTF-8 is decoded as it stands.
/// How invalid sequences are replaced is left unsaid.
#[verifier::external_body]
pub(crate) fn decode_utf8_lossy(bytes: &[u8]) -> (r: String)
    ensures
        r@ == utf8_lossy(bytes@),
        valid_utf8(bytes@) ==> r@ == decode_utf8(bytes@),
{
    String::from_utf8_lossy(bytes).into_owned()
}

/// Whether `c` has the Unicode `White_Space` property.
pub fn is_white_space_char(c: char) -> (b: bool)
    ensures
        b == is_white_space(c),
{
    let n = c as u32;
    (0x9 <= n && n <= 0xd) || n == 0x20 || n == 0x85 || n == 0xa0 || n == 0x1680 || (0x2000 <= n
        && n <= 0x200a) || n == 0x2028 || n == 0x2029 || n == 0x202f || n == 0x205f || n == 0x3000
}

/// `a` followed by `b`.
pub fn join(a: &str, b: &str) -> (r: String)
    ensures
        r@ == a@ + b@,
{
    String::from_str(a).concat(b)
}

/// `a`, then `b`, then `c`.
pub fn join3(a: &str, b: &str, c: &str) -> (r: String)
    ensures
        r@ == a@ + b@ + c@,
{
    String::from_str(a).concat(b).concat(c)
}

/// `s` with leading and trailing white space removed.
pub fn trim(s: &str) -> (r: String)
    ensures
        r@ == trimmed(s@),
{
    let n = s.unicode_len();
    let mut i: usize = 0;
    assert(s@.skip(0) =~= s@);
    while i < n && is_white_space_char(s.get_char(i))
        invariant
            i <= n,
            n == s@.len(),
            trim_start(s@) == trim_start(s@.skip(i as int)),
        decreases n - i,
    {
        assert(s@.skip(i as int).drop_first() =~= s@.skip(i + 1));
        i = i + 1;
    }
    assert(trim_start(s@) == s@.skip(i as int)) by {
        if i < n {
            assert(s@.skip(i as int)[0] == s@[i as int]);
        }
    }
    let mut j: usize = n;
    while j > i && is_white_space_char(s.get_char(j - 1))
        invariant
            i <= j <= n,
            n == s@.len(),
            trim_start(s@) == s@.skip(i as int),
            trim_end(s@.skip(i as int)) == trim_end(s@.subrange(i as int, j as int)),
        decreases j,
    {
        assert(s@.subrange(i as int, j as int).drop_last() =~= s@.subrange(i as int, j - 1));
        j = j - 1;
    }
    assert(s@.skip(i as int) =~= s@.subrange(i as int, n as int));
    String::from_str(s.substring_char(i, j))
}

/// Whether `s` holds nothing but white space.
pub fn blank(s: &str) -> (b: bool)
    ensures
        b == is_blank(s@),
{
    let t = trim(s);
    t.as_str().unicode_len() == 0
}

/// Whether `s` begins with `p`.
pub fn has_prefix(s: &str, p: &str) -> (b: bool)
    ensures
        b == starts_with(s@, p@),
{
    let n = s.unicode_len();
    let m = p.unicode_len();
    if m > n {
        return false;
    }
    let mut k: usize = 0;
    while k < m
        invariant
            k <= m <= n,
            n == s@.len(),
            m == p@.len(),
            forall|j: int| 0 <= j < k ==> s@[j] == p@[j],
        decreases m - k,
    {
        if s.get_char(k) != p.get_char(k) {
            assert(s@.take(m as int)[k as int] != p@[k as int]);
            return false;
        }
        k = k + 1;
    }
    assert(s@.take(m as int) =~= p@);
    true
}

/// `s` with every leading repetition of `p` removed (`str::trim_start_matches`).
pub fn strip_prefix_repeatedly(s: &str, p: &str) -> (r: String)
    ensures
        r@ == strip_prefix_all(s@, p@),
{
    let n = s.unicode_len();
    let m = p.unicode_len();
    if m == 0 {
        return String::from_str(s);
    }
    let mut i: usize = 0;
    assert(s@.skip(0) =~= s@);
    loop
        invariant
            i <= n,
            n == s@.len(),
            m == p@.len(),
            m > 0,
            strip_prefix_all(s@, p@) == strip_prefix_all(s@.skip(i as int), p@),
        decreases n - i,
    {
        let rest = s.substring_char(i, n);
        assert(rest@ =~= s@.skip(i as int));
        if has_prefix(rest, p) {
            assert(s@.skip(i as int).skip(m as int) =~= s@.skip(i + m));
            i = i + m;
        } else {
            return String::from_str(rest);
        }
    }
}

/// The last line of `s` as `str::lines` splits it, if `s` is not empty.
pub fn last_line_of(s: &str) -> (r: Option<String>)
    ensures
        r matches Some(l) ==> last_line(s@) == Some(l@),
        r is None <==> last_line(s@) is None,
{
    let n = s.unicode_len();
    if n == 0 {
        return None;
    }
    let ends_with_newline = s.get_char(n - 1) == '\n';
    let body_len: usize = if ends_with_newline {
        n - 1
    } else {
        n
    };
    let ghost body = s@.take(body_len as int);
    assert(ends_with_newline ==> body =~= s@.drop_last());
    assert(!ends_with_newline ==> body =~= s@);
    let mut j: usize = body_len;
    assert(body.take(j as int) =~= body);
    while j > 0 && s.get_char(j - 1) != '\n'
        invariant
            j <= body_len < n + 1,
            body_len <= n,
            n == s@.len(),
            body == s@.take(body_len as int),
            after_last_newline(body) == after_last_newline(body.take(j as int)) + s@.subrange(
                j as int,
                body_len as int,
            ),
        decreases j,
    {
        let ghost c = s@[j - 1];
        assert(body.take(j as int).drop_last() =~= body.take(j - 1));
        assert(body.take(j as int).last() == c);
        assert(after_last_newline(body.take(j as int)) == after_last_newline(body.take(j - 1)).push(
            c,
        ));
        assert(after_last_newline(body.take(j - 1)).push(c) + s@.subrange(j as int, body_len as int)
            =~= after_last_newline(body.take(j - 1)) + s@.subrange(j - 1, body_len as int));
        j = j - 1;
    }
    assert(after_last_newline(body.take(j as int)) =~= Seq::<char>::empty()) by {
        if j > 0 {
            assert(body.take(j as int).last() == s@[j - 1]);
        }
    }
    assert(after_last_newline(body) =~= s@.subrange(j as int, body_len as int));
    let line = s.substring_char(j, body_len);
    if ends_with_newline && body_len > j && line.get_char(body_len - j - 1) == '\r' {
        let shorter = line.substring_char(0, body_len - j - 1);
        assert(shorter@ =~= line@.drop_last());
        Some(String::from_str(shorter))
    } else {
        Some(String::from_str(line))
    }
}

/// The decimal digit for `d` (below ten).
pub open spec fn digit_char(d: nat) -> char {
    if d == 0 { '0' } else if d == 1 { '1' } else if d == 2 { '2' } else if d == 3 { '3' }
    else if d == 4 { '4' } else if d == 5 { '5' } else if d == 6 { '6' } else if d == 7 { '7' }
    else if d == 8 { '8' } else { '9' }
}

/// The number a decimal digit stands for.
pub open spec fn digit_value(c: char) -> nat {
    if c == '0' { 0 } else if c == '1' { 1 } else if c == '2' { 2 } else if c == '3' { 3 }
    else if c == '4' { 4 } else if c == '5' { 5 } else if c == '6' { 6 } else if c == '7' { 7 }
    else if c == '8' { 8 } else { 9 }
}

/// The decimal notation of `n`, as `u32`'s `Display` writes it.
pub open spec fn decimal(n: nat) -> Seq<char>
    decreases n,
{
    if n < 10 {
        seq![digit_char(n)]
    } else {
        decimal(n / 10).push(digit_char(n % 10))
    }
}

/// The number that a string of decimal digits stands for.
pub open spec fn decimal_value(s: Seq<char>) -> nat
    decreases s.len(),
{
    if s.len() == 0 {
        0
    } else {
        decimal_value(s.drop_last()) * 10 + digit_value(s.last())
    }
}

/// Reading back the decimal notation of a number gives the number.
pub proof fn lemma_decimal_reads_back(n: nat)
    ensures
        decimal_value(decimal(n)) == n,
    decreases n,
{
    if n >= 10 {
        lemma_decimal_reads_back(n / 10);
        assert(decimal(n).drop_last() =~= decimal(n / 10));
        assert(decimal(n).last() == digit_char(n % 10));
        assert(digit_value(digit_char(n % 10)) == n % 10);
        assert(n == (n / 10) * 10 + n % 10);
    } else {
        assert(decimal(n).drop_last() =~= Seq::<char>::empty());
        assert(digit_value(digit_char(n)) == n);
    }
    assert(decimal(n).len() > 0);
    assert(decimal_value(decimal(n)) == decimal_value(decimal(n).drop_last()) * 10 + digit_value(
        decimal(n).last(),
    ));
}

/// Different numbers have different decimal notations.
pub proof fn lemma_decimal_injective(a: nat, b: nat)
    requires
        decimal(a) == decimal(b),
    ensures
        a == b,
{
    lemma_decimal_reads_back(a);
    lemma_decimal_reads_back(b);
}

/// The one-character string of the digit `d`.
fn digit_text(d: u32) -> (r: String)
    requires
        d < 10,
    ensures
        r@ == seq![digit_char(d as nat)],
{
    let r = match d {
        0 => String::from_str("0"),
        1 => String::from_str("1"),
        2 => String::from_str("2"),
        3 => String::from_str("3"),
        4 => String::from_str("4"),
        5 => String::from_str("5"),
        6 => String::from_str("6"),
        7 => String::from_str("7"),
        8 => String::from_str("8"),
        _ => String::from_str("9"),
    };
    proof {
        reveal_strlit("0");
        reveal_strlit("1");
        reveal_strlit("2");
        reveal_strlit("3");
        reveal_strlit("4");
        reveal_strlit("5");
        reveal_strlit("6");
        reveal_strlit("7");
        reveal_strlit("8");
        reveal_strlit("9");
    }
    assert(r@ =~= seq![digit_char(d as nat)]);
    r
}

/// The decimal notation of `n`.
pub fn decimal_text(n: u32) -> (r: String)
    ensures
        r@ == decimal(n as nat),
    decreases n,
{
    if n < 10 {
        digit_text(n)
    } else {
        let head = decimal_text(n / 10);
        let last = digit_text(n % 10);
        let r = head.concat(last.as_str());
        assert(r@ =~= decimal(n as nat));
        r
    }
}

proof fn lemma_trim_start_shape(s: Seq<char>)
    ensures
        trim_start(s).len() == 0 || !is_white_space(trim_start(s)[0]),
        trim_start(s).len() <= s.len(),
        trim_start(s) == s.skip(s.len() - trim_start(s).len()),
    decreases s.len(),
{
    if s.len() > 0 && is_white_space(s[0]) {
        lemma_trim_start_shape(s.drop_first());
        let t = trim_start(s.drop_first());
        assert(s.drop_first().skip(s.drop_first().len() - t.len()) =~= s.skip(s.len() - t.len()));
    } else {
        assert(s.skip(0) =~= s);
    }
}

proof fn lemma_trim_end_shape(s: Seq<char>)
    ensures
        trim_end(s).len() == 0 || !is_white_space(trim_end(s).last()),
        trim_end(s).len() <= s.len(),
        trim_end(s) == s.take(trim_end(s).len() as int),
    decreases s.len(),
{
    if s.len() > 0 && is_white_space(s.last()) {
        lemma_trim_end_shape(s.drop_last());
        let t = trim_end(s.drop_last());
        assert(s.drop_last().take(t.len() as int) =~= s.take(t.len() as int));
    } else {
        assert(s.take(s.len() as int) =~= s);
    }
}

/// Trimming a trimmed text changes nothing.
pub proof fn lemma_trim_idempotent(s: Seq<char>)
    ensures
        trimmed(trimmed(s)) == trimmed(s),
{
    let t = trimmed(s);
    lemma_trim_start_shape(s);
    lemma_trim_end_shape(trim_start(s));
    if t.len() > 0 {
        assert(t[0] == trim_start(s).take(t.len() as int)[0]);
        assert(trim_start(t) == t);
    } else {
        assert(trim_start(t) == t);
    }
    assert(trim_end(t) == t);
}

/// After removing every leading repetition of a non-empty prefix, the text
/// no longer starts with it and is an end part of the text it came from.
pub proof fn lemma_strip_prefix_all_result(s: Seq<char>, p: Seq<char>)
    requires
        p.len() > 0,
    ensures
        !starts_with(strip_prefix_all(s, p), p),
        strip_prefix_all(s, p).len() <= s.len(),
        strip_prefix_all(s, p) == s.skip(s.len() - strip_prefix_all(s, p).len()),
    decreases s.len(),
{
    if starts_with(s, p) {
        let rest = s.skip(p.len() as int);
        lemma_strip_prefix_all_result(rest, p);
        let r = strip_prefix_all(rest, p);
        assert(rest.skip(rest.len() - r.len()) =~= s.skip(s.len() - r.len()));
    } else {
        assert(s.skip(0) =~= s);
    }
}

/// After a line start, the text that follows up to the end, when it holds no
/// line feed, is all that comes after the last line feed.
pub proof fn lemma_after_last_newline_of_last_line(earlier: Seq<char>, line: Seq<char>)
    requires
        !line.contains('\n'),
        earlier.len() == 0 || earlier.last() == '\n',
    ensures
        after_last_newline(earlier + line) == line,
    decreases line.len(),
{
    if line.len() == 0 {
        assert(earlier + line =~= earlier);
    } else {
        let shorter = line.drop_last();
        assert(!shorter.contains('\n')) by {
            if shorter.contains('\n') {
                let k = choose|k: int| 0 <= k < shorter.len() && shorter[k] == '\n';
                assert(line[k] == '\n');
            }
        }
        lemma_after_last_newline_of_last_line(earlier, shorter);
        assert((earlier + line).drop_last() =~= earlier + shorter);
        assert((earlier + line).last() == line.last());
        assert(line.last() != '\n') by {
            if line.last() == '\n' {
                assert(line[line.len() - 1] == '\n');
            }
        }
        assert(shorter.push(line.last()) =~= line);
    }
}

proof fn lemma_trim_start_push(x: Seq<char>, c: char)
    requires
        is_white_space(c),
    ensures
        trim_start(x.push(c)) == (if trim_start(x).len() == 0 {
            Seq::<char>::empty()
        } else {
            trim_start(x).push(c)
        }),
    decreases x.len(),
{
    let y = x.push(c);
    if x.len() > 0 && is_white_space(x[0]) {
        assert(y[0] == x[0]);
        assert(y.drop_first() =~= x.drop_first().push(c));
        lemma_trim_start_push(x.drop_first(), c);
        assert(trim_start(y) == trim_start(y.drop_first()));
        assert(trim_start(x) == trim_start(x.drop_first()));
    } else if x.len() == 0 {
        assert(y.len() == 1 && y[0] == c);
        assert(y.drop_first() =~= Seq::<char>::empty());
        assert(trim_start(y) == trim_start(y.drop_first()));
        assert(trim_start(Seq::<char>::empty()) == Seq::<char>::empty());
    } else {
        assert(y[0] == x[0]);
        assert(trim_start(y) == y);
        assert(trim_start(x) == x);
    }
}

/// White space at the end of a text does not change the text's trimmed form.
pub proof fn lemma_trimmed_ignores_trailing_white_space(x: Seq<char>, c: char)
    requires
        is_white_space(c),
    ensures
        trimmed(x.push(c)) == trimmed(x),
{
    lemma_trim_start_push(x, c);
    let y = trim_start(x);
    if y.len() > 0 {
        assert(y.push(c).drop_last() =~= y);
    }
}
} // verus!
